//! The calls that the firmware makes to the hypervisor.

use crate::hyp::smccc::{
    checked_hvc64, checked_hvc64_expect_zero, spec_checked, spec_expect_zero, Error,
};
use vstd::prelude::*;

verus! {

/// The call that asks for the granule of memory sharing.
pub const ARM_SMCCC_KVM_FUNC_HYP_MEMINFO: u32 = 0xc6000002;

/// The call that shares a page of memory with the host.
pub const ARM_SMCCC_KVM_FUNC_MEM_SHARE: u32 = 0xc6000003;

/// The call that takes a page of memory back from the host.
pub const ARM_SMCCC_KVM_FUNC_MEM_UNSHARE: u32 = 0xc6000004;

/// The call that asks for the granule of the MMIO guard.
pub const VENDOR_HYP_KVM_MMIO_GUARD_INFO_FUNC_ID: u32 = 0xc6000005;

/// The call that enrolls the guest into the MMIO guard.
pub const VENDOR_HYP_KVM_MMIO_GUARD_ENROLL_FUNC_ID: u32 = 0xc6000006;

/// The call that maps a page of MMIO.
pub const VENDOR_HYP_KVM_MMIO_GUARD_MAP_FUNC_ID: u32 = 0xc6000007;

/// The call that unmaps a page of MMIO.
pub const VENDOR_HYP_KVM_MMIO_GUARD_UNMAP_FUNC_ID: u32 = 0xc6000008;

/// The argument registers of a call whose only argument is `first`.
pub open spec fn spec_args(first: u64) -> Seq<u64> {
    Seq::new(17, |i: int| if i == 0 { first } else { 0u64 })
}

/// Whether the call `function` with the only argument `first` returned `x0` in the
/// first result register.
pub open spec fn hvc_returned<H: Fn(u32, [u64; 17]) -> [u64; 18]>(
    hvc64: H,
    function: u32,
    first: u64,
    x0: u64,
) -> bool {
    exists|args: [u64; 17], ret: [u64; 18]|
        args@ == spec_args(first) && call_ensures(hvc64, (function, args), ret) && ret[0] == x0
}

/// The argument registers of a call whose only argument is `first`.
pub fn call_args(first: u64) -> (args: [u64; 17])
    ensures
        args@ == spec_args(first),
{
    let mut args = [0u64; 17];
    args[0] = first;
    assert(args@ =~= spec_args(first));
    args
}

/// Makes a call with one argument and reads its return value.
pub fn call<H: Fn(u32, [u64; 17]) -> [u64; 18]>(hvc64: &H, function: u32, first: u64) -> (r:
    Result<u64, Error>)
    requires
        forall|args: [u64; 17]| call_requires(*hvc64, (function, args)),
    ensures
        exists|x0: u64| hvc_returned(*hvc64, function, first, x0) && r == spec_checked(x0),
{
    let args = call_args(first);
    let r = checked_hvc64(hvc64, function, args);
    proof {
        let ret = choose|ret: [u64; 18]|
            call_ensures(*hvc64, (function, args), ret) && r == spec_checked(ret[0]);
        assert(hvc_returned(*hvc64, function, first, ret[0]));
    }
    r
}

/// Makes a call with one argument that returns zero on success.
pub fn call_expect_zero<H: Fn(u32, [u64; 17]) -> [u64; 18]>(
    hvc64: &H,
    function: u32,
    first: u64,
) -> (r: Result<(), Error>)
    requires
        forall|args: [u64; 17]| call_requires(*hvc64, (function, args)),
    ensures
        exists|x0: u64| hvc_returned(*hvc64, function, first, x0) && r == spec_expect_zero(x0),
{
    let args = call_args(first);
    let r = checked_hvc64_expect_zero(hvc64, function, args);
    proof {
        let ret = choose|ret: [u64; 18]|
            call_ensures(*hvc64, (function, args), ret) && r == spec_expect_zero(ret[0]);
        assert(hvc_returned(*hvc64, function, first, ret[0]));
    }
    r
}

/// Asks the hypervisor for the granule of memory sharing.
pub fn hyp_meminfo<H: Fn(u32, [u64; 17]) -> [u64; 18]>(hvc64: &H) -> (r: Result<u64, Error>)
    requires
        forall|args: [u64; 17]| call_requires(*hvc64, (ARM_SMCCC_KVM_FUNC_HYP_MEMINFO, args)),
    ensures
        exists|x0: u64|
            hvc_returned(*hvc64, ARM_SMCCC_KVM_FUNC_HYP_MEMINFO, 0, x0) && r == spec_checked(x0),
{
    call(hvc64, ARM_SMCCC_KVM_FUNC_HYP_MEMINFO, 0)
}

/// Shares the page at `base_ipa` with the host.
pub fn mem_share<H: Fn(u32, [u64; 17]) -> [u64; 18]>(hvc64: &H, base_ipa: u64) -> (r: Result<
    (),
    Error,
>)
    requires
        forall|args: [u64; 17]| call_requires(*hvc64, (ARM_SMCCC_KVM_FUNC_MEM_SHARE, args)),
    ensures
        exists|x0: u64|
            hvc_returned(*hvc64, ARM_SMCCC_KVM_FUNC_MEM_SHARE, base_ipa, x0) && r
                == spec_expect_zero(x0),
{
    call_expect_zero(hvc64, ARM_SMCCC_KVM_FUNC_MEM_SHARE, base_ipa)
}

/// Takes the page at `base_ipa` back from the host.
pub fn mem_unshare<H: Fn(u32, [u64; 17]) -> [u64; 18]>(hvc64: &H, base_ipa: u64) -> (r: Result<
    (),
    Error,
>)
    requires
        forall|args: [u64; 17]| call_requires(*hvc64, (ARM_SMCCC_KVM_FUNC_MEM_UNSHARE, args)),
    ensures
        exists|x0: u64|
            hvc_returned(*hvc64, ARM_SMCCC_KVM_FUNC_MEM_UNSHARE, base_ipa, x0) && r
                == spec_expect_zero(x0),
{
    call_expect_zero(hvc64, ARM_SMCCC_KVM_FUNC_MEM_UNSHARE, base_ipa)
}

/// Asks the hypervisor for the granule of the MMIO guard.
pub fn mmio_guard_info<H: Fn(u32, [u64; 17]) -> [u64; 18]>(hvc64: &H) -> (r: Result<u64, Error>)
    requires
        forall|args: [u64; 17]|
            call_requires(*hvc64, (VENDOR_HYP_KVM_MMIO_GUARD_INFO_FUNC_ID, args)),
    ensures
        exists|x0: u64|
            hvc_returned(*hvc64, VENDOR_HYP_KVM_MMIO_GUARD_INFO_FUNC_ID, 0, x0) && r
                == spec_checked(x0),
{
    call(hvc64, VENDOR_HYP_KVM_MMIO_GUARD_INFO_FUNC_ID, 0)
}

/// Enrolls the guest into the MMIO guard.
pub fn mmio_guard_enroll<H: Fn(u32, [u64; 17]) -> [u64; 18]>(hvc64: &H) -> (r: Result<(), Error>)
    requires
        forall|args: [u64; 17]|
            call_requires(*hvc64, (VENDOR_HYP_KVM_MMIO_GUARD_ENROLL_FUNC_ID, args)),
    ensures
        exists|x0: u64|
            hvc_returned(*hvc64, VENDOR_HYP_KVM_MMIO_GUARD_ENROLL_FUNC_ID, 0, x0) && r
                == spec_expect_zero(x0),
{
    call_expect_zero(hvc64, VENDOR_HYP_KVM_MMIO_GUARD_ENROLL_FUNC_ID, 0)
}

/// What the return value `x0` of the call that maps a page of MMIO means.
///
/// The hypervisor may return its error code in the low 32 bits only: a value
/// whose low word is negative as a number of 32 bits, and whose high word is zero,
/// is read as that error.
pub open spec fn spec_map_outcome(x0: u64) -> Result<(), Error> {
    if 0x8000_0000 <= x0 <= 0xffff_ffff {
        let ret = x0 - 0x1_0000_0000;
        if ret == -1 {
            Err(Error::NotSupported)
        } else if ret == -2 {
            Err(Error::NotRequired)
        } else if ret == -3 {
            Err(Error::InvalidParameter)
        } else {
            Err(Error::Unknown(ret as i64))
        }
    } else {
        spec_expect_zero(x0)
    }
}

/// Maps the page of MMIO at `ipa`.
pub fn mmio_guard_map<H: Fn(u32, [u64; 17]) -> [u64; 18]>(hvc64: &H, ipa: u64) -> (r: Result<
    (),
    Error,
>)
    requires
        forall|args: [u64; 17]|
            call_requires(*hvc64, (VENDOR_HYP_KVM_MMIO_GUARD_MAP_FUNC_ID, args)),
    ensures
        exists|x0: u64|
            hvc_returned(*hvc64, VENDOR_HYP_KVM_MMIO_GUARD_MAP_FUNC_ID, ipa, x0) && r
                == spec_map_outcome(x0),
{
    let res = call_expect_zero(hvc64, VENDOR_HYP_KVM_MMIO_GUARD_MAP_FUNC_ID, ipa);
    let ghost x0 = choose|x0: u64|
        hvc_returned(*hvc64, VENDOR_HYP_KVM_MMIO_GUARD_MAP_FUNC_ID, ipa, x0) && res
            == spec_expect_zero(x0);
    let r = match res {
        Err(Error::Unexpected(e)) => {
            if 0x8000_0000 <= e && e <= 0xffff_ffff {
                let below: u64 = 0xffff_ffff - e;
                if below == 0 {
                    Err(Error::NotSupported)
                } else if below == 1 {
                    Err(Error::NotRequired)
                } else if below == 2 {
                    Err(Error::InvalidParameter)
                } else {
                    Err(Error::Unknown(-(below as i64) - 1))
                }
            } else {
                Err(Error::Unexpected(e))
            }
        },
        res => res,
    };
    assert(r == spec_map_outcome(x0));
    r
}

/// What the return value `x0` of the call that unmaps a page of MMIO means. The
/// hypervisor may report success as a call that is not supported.
pub open spec fn spec_unmap_outcome(x0: u64) -> Result<(), Error> {
    match spec_expect_zero(x0) {
        Err(Error::NotSupported) => Ok(()),
        other => other,
    }
}

/// Unmaps the page of MMIO at `ipa`.
pub fn mmio_guard_unmap<H: Fn(u32, [u64; 17]) -> [u64; 18]>(hvc64: &H, ipa: u64) -> (r: Result<
    (),
    Error,
>)
    requires
        forall|args: [u64; 17]|
            call_requires(*hvc64, (VENDOR_HYP_KVM_MMIO_GUARD_UNMAP_FUNC_ID, args)),
    ensures
        exists|x0: u64|
            hvc_returned(*hvc64, VENDOR_HYP_KVM_MMIO_GUARD_UNMAP_FUNC_ID, ipa, x0) && r
                == spec_unmap_outcome(x0),
{
    let res = call_expect_zero(hvc64, VENDOR_HYP_KVM_MMIO_GUARD_UNMAP_FUNC_ID, ipa);
    let ghost x0 = choose|x0: u64|
        hvc_returned(*hvc64, VENDOR_HYP_KVM_MMIO_GUARD_UNMAP_FUNC_ID, ipa, x0) && res
            == spec_expect_zero(x0);
    let r = match res {
        Err(Error::NotSupported) | Ok(_) => Ok(()),
        x => x,
    };
    assert(r == spec_unmap_outcome(x0));
    r
}

} // verus!
