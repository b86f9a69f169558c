//! The SMC calling convention: how the return value of a call is read.

use vstd::prelude::*;

verus! {

/// A failure of a call to the hypervisor.
#[derive(Clone, Copy, Debug, PartialEq, Eq, Structural)]
pub enum Error {
    /// The call is not supported by the implementation.
    NotSupported,
    /// The call is deemed not required by the implementation.
    NotRequired,
    /// One of the call parameters has a non-supported value.
    InvalidParameter,
    /// Negative values indicate error.
    Unknown(i64),
    /// The call returned a positive value when 0 was expected.
    Unexpected(u64),
}

/// The outcome of a call to the hypervisor.
pub type Result<T> = core::result::Result<T, Error>;

/// The number that a register holds when it is read as a signed number.
pub open spec fn spec_signed(x: u64) -> int {
    if x < 0x8000_0000_0000_0000 {
        x as int
    } else {
        x - 0x1_0000_0000_0000_0000
    }
}

/// What the value `x0` of the first result register means: itself where it is not
/// negative, an error where it is.
pub open spec fn spec_checked(x0: u64) -> Result<u64> {
    let ret = spec_signed(x0);
    if ret >= 0 {
        Ok(x0)
    } else if ret == -1 {
        Err(Error::NotSupported)
    } else if ret == -2 {
        Err(Error::NotRequired)
    } else if ret == -3 {
        Err(Error::InvalidParameter)
    } else {
        Err(Error::Unknown(ret as i64))
    }
}

/// What the value `x0` of the first result register means for a call that
/// returns zero on success.
pub open spec fn spec_expect_zero(x0: u64) -> Result<()> {
    match spec_checked(x0) {
        Ok(v) => if v == 0 {
            Ok(())
        } else {
            Err(Error::Unexpected(v))
        },
        Err(e) => Err(e),
    }
}

/// Reads the value of the first result register of a call.
pub fn check_return(x0: u64) -> (r: Result<u64>)
    ensures
        r == spec_checked(x0),
{
    if x0 < 0x8000_0000_0000_0000 {
        Ok(x0)
    } else if x0 == u64::MAX {
        Err(Error::NotSupported)
    } else if x0 == u64::MAX - 1 {
        Err(Error::NotRequired)
    } else if x0 == u64::MAX - 2 {
        Err(Error::InvalidParameter)
    } else {
        let below: u64 = u64::MAX - x0;
        let ret: i64 = -(below as i64) - 1;
        Err(Error::Unknown(ret))
    }
}

/// Makes the call `function` with the arguments `args` and reads its return
/// value. `hvc64` performs the call: it takes the function and the argument
/// registers and hands out the result registers.
pub fn checked_hvc64<H: Fn(u32, [u64; 17]) -> [u64; 18]>(
    hvc64: &H,
    function: u32,
    args: [u64; 17],
) -> (r: Result<u64>)
    requires
        call_requires(*hvc64, (function, args)),
    ensures
        exists|ret: [u64; 18]|
            call_ensures(*hvc64, (function, args), ret) && r == spec_checked(ret[0]),
{
    let ret = hvc64(function, args);
    let r = check_return(ret[0]);
    assert(call_ensures(*hvc64, (function, args), ret) && r == spec_checked(ret[0]));
    r
}

/// Makes the call `function` with the arguments `args`, which returns zero on
/// success.
pub fn checked_hvc64_expect_zero<H: Fn(u32, [u64; 17]) -> [u64; 18]>(
    hvc64: &H,
    function: u32,
    args: [u64; 17],
) -> (r: Result<()>)
    requires
        call_requires(*hvc64, (function, args)),
    ensures
        exists|ret: [u64; 18]|
            call_ensures(*hvc64, (function, args), ret) && r == spec_expect_zero(ret[0]),
{
    let checked = checked_hvc64(hvc64, function, args);
    let ghost ret = choose|ret: [u64; 18]|
        call_ensures(*hvc64, (function, args), ret) && checked == spec_checked(ret[0]);
    let r = match checked {
        Ok(0) => Ok(()),
        Ok(v) => Err(Error::Unexpected(v)),
        Err(e) => Err(e),
    };
    assert(call_ensures(*hvc64, (function, args), ret) && r == spec_expect_zero(ret[0]));
    r
}

} // verus!
