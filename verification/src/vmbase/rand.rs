//! Entropy from the platform.

use vstd::bytes::{spec_u64_to_le_bytes, u64_to_le_bytes};
use vstd::prelude::*;

verus! {

/// The number of bytes of entropy that one call to the platform yields at most.
pub const MAX_BYTES_PER_CALL: usize = 24;

/// The call that yields entropy.
pub const ARM_SMCCC_TRNG_RND64: u32 = 0xc4000053;

/// The entropy of one call to the platform.
pub type Entropy = [u8; 24];

/// A version of an interface of the platform.
#[derive(Clone, Copy, Debug, PartialEq, Eq, Structural)]
pub struct Version {
    /// The major number of the version.
    pub major: u16,
    /// The minor number of the version.
    pub minor: u16,
}

/// A failure of a call to the true random number generator.
#[derive(Clone, Copy, Debug, PartialEq, Eq, Structural)]
pub enum TrngError {
    /// The call is not supported by the implementation.
    NotSupported,
    /// One of the call parameters has a non-supported value.
    InvalidParameter,
    /// The generator has no entropy at the moment.
    NoEntropy,
    /// A return value that the interface does not define.
    Unknown(i64),
}

/// A failure of the platform.
#[derive(Clone, Copy, Debug, PartialEq, Eq, Structural)]
pub enum PlatformError {
    /// An architectural call failed.
    Smccc(crate::hyp::smccc::Error),
    /// A call to the true random number generator failed.
    Trng(TrngError),
    /// The version of the calling convention is not supported.
    UnsupportedSmcccVersion(Version),
    /// The version of the true random number generator is not supported.
    UnsupportedTrngVersion(Version),
}

/// Why no entropy was obtained.
#[derive(Clone, Copy, Debug, PartialEq, Eq, Structural)]
pub enum Error {
    /// No source of entropy was found.
    NoEntropySource,
    /// The platform failed.
    Platform(PlatformError),
}

/// The outcome of a request for entropy.
pub type Result<T> = core::result::Result<T, Error>;

/// Whether the platform offers the source of entropy, given the version of the
/// calling convention, the version of the generator and what the generator says
/// of the call that yields entropy.
///
/// The calling convention must have a version 1.1 or later of the major version
/// 1, the generator a version of the major version 1. A generator without the
/// call is no source of entropy.
pub open spec fn spec_init(
    smccc_version: core::result::Result<Version, crate::hyp::smccc::Error>,
    trng_version: core::result::Result<Version, TrngError>,
    trng_features: core::result::Result<u64, TrngError>,
) -> Result<()> {
    match smccc_version {
        Err(e) => Err(Error::Platform(PlatformError::Smccc(e))),
        Ok(version) => if !(version.major == 1 && version.minor >= 1) {
            Err(Error::Platform(PlatformError::UnsupportedSmcccVersion(version)))
        } else {
            match trng_version {
                Err(e) => Err(Error::Platform(PlatformError::Trng(e))),
                Ok(version) => if version.major != 1 {
                    Err(Error::Platform(PlatformError::UnsupportedTrngVersion(version)))
                } else {
                    match trng_features {
                        Err(TrngError::NotSupported) => Err(Error::NoEntropySource),
                        Err(e) => Err(Error::Platform(PlatformError::Trng(e))),
                        Ok(_) => Ok(()),
                    }
                },
            }
        },
    }
}

/// Whether the calling convention has a version that the generator works with.
pub open spec fn smccc_supported(
    smccc: core::result::Result<Version, crate::hyp::smccc::Error>,
) -> bool {
    smccc matches Ok(v) && v.major == 1 && v.minor >= 1
}

/// Whether the generator has a version that offers the call that yields entropy.
pub open spec fn trng_supported(trng: core::result::Result<Version, TrngError>) -> bool {
    trng matches Ok(v) && v.major == 1
}

/// Whether `r` is what the check of the platform yields with the given calls,
/// which returned the three values as far as they were made.
pub open spec fn is_init<
    V: FnOnce() -> core::result::Result<Version, crate::hyp::smccc::Error>,
    T: FnOnce() -> core::result::Result<Version, TrngError>,
    F: FnOnce(u32) -> core::result::Result<u64, TrngError>,
>(
    r: Result<()>,
    version: V,
    trng_version: T,
    trng_features: F,
    smccc: core::result::Result<Version, crate::hyp::smccc::Error>,
    trng: core::result::Result<Version, TrngError>,
    features: core::result::Result<u64, TrngError>,
) -> bool {
    &&& call_ensures(version, (), smccc)
    &&& smccc_supported(smccc) ==> {
        &&& call_ensures(trng_version, (), trng)
        &&& trng_supported(trng) ==> call_ensures(
            trng_features,
            (ARM_SMCCC_TRNG_RND64,),
            features,
        )
    }
    &&& r == spec_init(smccc, trng, features)
}

/// Checks that the platform offers the source of entropy.
///
/// `version` asks for the version of the calling convention, `trng_version` for
/// that of the generator, `trng_features` for the features of a call of the
/// generator.
pub fn init<
    V: FnOnce() -> core::result::Result<Version, crate::hyp::smccc::Error>,
    T: FnOnce() -> core::result::Result<Version, TrngError>,
    F: FnOnce(u32) -> core::result::Result<u64, TrngError>,
>(version: V, trng_version: T, trng_features: F) -> (r: Result<()>)
    requires
        call_requires(version, ()),
        call_requires(trng_version, ()),
        call_requires(trng_features, (ARM_SMCCC_TRNG_RND64,)),
    ensures
        exists|
            smccc: core::result::Result<Version, crate::hyp::smccc::Error>,
            trng: core::result::Result<Version, TrngError>,
            features: core::result::Result<u64, TrngError>,
        |
            is_init(r, version, trng_version, trng_features, smccc, trng, features),
{
    let ghost no_version: core::result::Result<Version, TrngError> = Err(TrngError::NotSupported);
    let ghost no_features: core::result::Result<u64, TrngError> = Err(TrngError::NotSupported);
    // The generator requires the version 1.1 of the calling convention.
    let smccc = version();
    match smccc {
        Ok(v) => {
            if !(v.major == 1 && v.minor >= 1) {
                let r = Err(Error::Platform(PlatformError::UnsupportedSmcccVersion(v)));
                assert(is_init(
                    r,
                    version,
                    trng_version,
                    trng_features,
                    smccc,
                    no_version,
                    no_features,
                ));
                return r;
            }
        },
        Err(e) => {
            let r = Err(Error::Platform(PlatformError::Smccc(e)));
            assert(is_init(
                r,
                version,
                trng_version,
                trng_features,
                smccc,
                no_version,
                no_features,
            ));
            return r;
        },
    }
    // The call that yields entropy requires the version 1.0 of the generator.
    let trng = trng_version();
    match trng {
        Ok(v) => {
            if v.major != 1 {
                let r = Err(Error::Platform(PlatformError::UnsupportedTrngVersion(v)));
                assert(is_init(r, version, trng_version, trng_features, smccc, trng, no_features));
                return r;
            }
        },
        Err(e) => {
            let r = Err(Error::Platform(PlatformError::Trng(e)));
            assert(is_init(r, version, trng_version, trng_features, smccc, trng, no_features));
            return r;
        },
    }
    // The call defines no capabilities of its own: a successful result says all.
    let features = trng_features(ARM_SMCCC_TRNG_RND64);
    let r = match features {
        Ok(_) => Ok(()),
        // The generator is the only source of entropy.
        Err(TrngError::NotSupported) => Err(Error::NoEntropySource),
        Err(e) => Err(Error::Platform(PlatformError::Trng(e))),
    };
    assert(is_init(r, version, trng_version, trng_features, smccc, trng, features));
    r
}

/// What the result registers of the call that yields entropy mean: the entropy
/// of the second to the fourth register on success, an error where the first
/// register is negative.
pub open spec fn spec_trng_result(ret: Seq<u64>) -> core::result::Result<[u64; 3], TrngError> {
    let status = crate::hyp::smccc::spec_signed(ret[0]);
    if status == 0 {
        Ok([ret[1], ret[2], ret[3]])
    } else if status == -1 {
        Err(TrngError::NotSupported)
    } else if status == -2 {
        Err(TrngError::InvalidParameter)
    } else if status == -3 {
        Err(TrngError::NoEntropy)
    } else {
        Err(TrngError::Unknown(status as i64))
    }
}

/// Asks the generator for `nbits` bits of entropy. `hvc64` makes a call to the
/// hypervisor.
pub fn trng_rnd64<H: Fn(u32, [u64; 17]) -> [u64; 18]>(hvc64: &H, nbits: u64) -> (r:
    core::result::Result<[u64; 3], TrngError>)
    requires
        forall|args: [u64; 17]| call_requires(*hvc64, (ARM_SMCCC_TRNG_RND64, args)),
    ensures
        exists|args: [u64; 17], ret: [u64; 18]|
            args@ == crate::hyp::hvc::spec_args(nbits) && call_ensures(
                *hvc64,
                (ARM_SMCCC_TRNG_RND64, args),
                ret,
            ) && r == spec_trng_result(ret@),
{
    let args = crate::hyp::hvc::call_args(nbits);
    let ret = hvc64(ARM_SMCCC_TRNG_RND64, args);
    let x0 = ret[0];
    let r = if x0 == 0 {
        Ok([ret[1], ret[2], ret[3]])
    } else if x0 < 0x8000_0000_0000_0000 {
        Err(TrngError::Unknown(x0 as i64))
    } else if x0 == u64::MAX {
        Err(TrngError::NotSupported)
    } else if x0 == u64::MAX - 1 {
        Err(TrngError::InvalidParameter)
    } else if x0 == u64::MAX - 2 {
        Err(TrngError::NoEntropy)
    } else {
        let below: u64 = u64::MAX - x0;
        Err(TrngError::Unknown(-(below as i64) - 1))
    };
    assert(call_ensures(*hvc64, (ARM_SMCCC_TRNG_RND64, args), ret) && r == spec_trng_result(ret@));
    r
}

/// The entropy that the three result registers of the generator hold: the
/// register that holds the lowest bits first, each in little-endian order.
pub open spec fn spec_entropy(registers: [u64; 3]) -> Seq<u8> {
    spec_u64_to_le_bytes(registers[2]) + spec_u64_to_le_bytes(registers[1])
        + spec_u64_to_le_bytes(registers[0])
}

/// What a call to the generator yields: nothing while the generator has no
/// entropy, the entropy of the registers on success.
pub open spec fn spec_rnd64(result: core::result::Result<[u64; 3], TrngError>) -> Result<
    Option<Seq<u8>>,
> {
    match result {
        Err(TrngError::NoEntropy) => Ok(None),
        Err(e) => Err(Error::Platform(PlatformError::Trng(e))),
        Ok(registers) => Ok(Some(spec_entropy(registers))),
    }
}

/// Whether `r` is the outcome `expected` of a call to the generator.
pub open spec fn is_rnd64(r: Result<Option<Entropy>>, expected: Result<Option<Seq<u8>>>) -> bool {
    match r {
        Ok(Some(entropy)) => expected == Ok::<Option<Seq<u8>>, Error>(Some(entropy@)),
        Ok(None) => expected == Ok::<Option<Seq<u8>>, Error>(None),
        Err(e) => expected == Err::<Option<Seq<u8>>, Error>(e),
    }
}

/// Asks the generator for `n_bytes` bytes of entropy. `trng_rnd64` makes the
/// call for a number of bits and hands out the three result registers.
pub fn rnd64<R: Fn(u64) -> core::result::Result<[u64; 3], TrngError>>(
    n_bytes: usize,
    trng_rnd64: &R,
) -> (r: Result<Option<Entropy>>)
    requires
        n_bytes <= MAX_BYTES_PER_CALL,
        call_requires(*trng_rnd64, ((n_bytes * 8) as u64,)),
    ensures
        exists|result: core::result::Result<[u64; 3], TrngError>|
            call_ensures(*trng_rnd64, ((n_bytes * 8) as u64,), result) && is_rnd64(
                r,
                spec_rnd64(result),
            ),
{
    let bits: u64 = (n_bytes * 8) as u64;
    let result = trng_rnd64(bits);
    let r = match result {
        Err(TrngError::NoEntropy) => Ok(None),
        Err(e) => Err(Error::Platform(PlatformError::Trng(e))),
        Ok(registers) => {
            // The entropy is returned across the three registers: the first holds
            // the bits 191 to 128, the second the bits 127 to 64, the third the
            // bits 63 to 0.
            let low = u64_to_le_bytes(registers[2]);
            let mid = u64_to_le_bytes(registers[1]);
            let high = u64_to_le_bytes(registers[0]);
            let mut entropy: Entropy = [0u8; 24];
            let mut i: usize = 0;
            while i < 8
                invariant
                    i <= 8,
                    low@.len() == 8,
                    mid@.len() == 8,
                    high@.len() == 8,
                    forall|j: int| 0 <= j < i ==> entropy@[j] == low@[j],
                    forall|j: int| 0 <= j < i ==> entropy@[8 + j] == mid@[j],
                    forall|j: int| 0 <= j < i ==> entropy@[16 + j] == high@[j],
                decreases 8 - i,
            {
                entropy[i] = low[i];
                entropy[8 + i] = mid[i];
                entropy[16 + i] = high[i];
                i += 1;
            }
            assert(entropy@ =~= spec_entropy(registers));
            Ok(Some(entropy))
        },
    };
    assert(call_ensures(*trng_rnd64, (bits,), result) && is_rnd64(r, spec_rnd64(result)));
    r
}

/// The number of bytes of the chunk of a buffer of `len` bytes that starts at
/// `start`: a buffer is filled in chunks of the size of one call.
pub open spec fn chunk_len(len: int, start: int) -> int {
    if len - start < MAX_BYTES_PER_CALL {
        len - start
    } else {
        MAX_BYTES_PER_CALL as int
    }
}

/// Whether the chunk of `s` that starts at `start` holds entropy that
/// `platform_entropy` yielded for a chunk of its size.
pub open spec fn chunk_filled<F: Fn(usize) -> Result<Entropy>>(
    platform_entropy: F,
    s: Seq<u8>,
    start: int,
) -> bool {
    exists|entropy: Entropy| #[trigger]
        call_ensures(
            platform_entropy,
            (chunk_len(s.len() as int, start) as usize,),
            Ok::<Entropy, Error>(entropy),
        ) && s.subrange(start, start + chunk_len(s.len() as int, start)) == entropy@.take(
            chunk_len(s.len() as int, start),
        )
}

/// Whether the chunks of `s` that start before `end` hold entropy.
pub open spec fn filled_up_to<F: Fn(usize) -> Result<Entropy>>(
    platform_entropy: F,
    s: Seq<u8>,
    end: int,
) -> bool {
    forall|k: int|
        0 <= k && k * MAX_BYTES_PER_CALL < end && k * MAX_BYTES_PER_CALL < s.len()
            ==> #[trigger] chunk_filled(platform_entropy, s, k * MAX_BYTES_PER_CALL)
}

/// Fills `s` with entropy, chunk by chunk.
///
/// `platform_entropy` yields a number of bytes of entropy, no more than that of
/// one call, at the head of its result. On failure the chunks before the one for
/// which it failed are filled and the rest of the buffer is as it was.
pub fn fill_with_entropy<F: Fn(usize) -> Result<Entropy>>(s: &mut [u8], platform_entropy: &F) -> (r:
    Result<()>)
    requires
        forall|n: usize| n <= MAX_BYTES_PER_CALL ==> call_requires(*platform_entropy, (n,)),
    ensures
        final(s)@.len() == old(s)@.len(),
        match r {
            Ok(()) => filled_up_to(*platform_entropy, final(s)@, final(s)@.len() as int),
            Err(e) => exists|k: int|
                0 <= k && k * MAX_BYTES_PER_CALL < old(s)@.len() && #[trigger] call_ensures(
                    *platform_entropy,
                    (chunk_len(old(s)@.len() as int, k * MAX_BYTES_PER_CALL) as usize,),
                    Err::<Entropy, Error>(e),
                ) && filled_up_to(*platform_entropy, final(s)@, k * MAX_BYTES_PER_CALL)
                    && final(s)@.skip(k * MAX_BYTES_PER_CALL) == old(s)@.skip(
                    k * MAX_BYTES_PER_CALL,
                ),
        },
{
    let ghost before = s@;
    let len = s.len();
    let mut start: usize = 0;
    let ghost mut chunks: int = 0;
    while start < len
        invariant
            start <= len,
            len == s@.len(),
            before == old(s)@,
            len == before.len(),
            start == chunks * MAX_BYTES_PER_CALL || start == len,
            chunks >= 0,
            start == len ==> chunks * MAX_BYTES_PER_CALL >= len,
            filled_up_to(*platform_entropy, s@, start as int),
            s@.skip(start as int) == before.skip(start as int),
            forall|n: usize| n <= MAX_BYTES_PER_CALL ==> call_requires(*platform_entropy, (n,)),
        decreases len - start,
    {
        let n: usize = if len - start < MAX_BYTES_PER_CALL {
            len - start
        } else {
            MAX_BYTES_PER_CALL
        };
        assert(n == chunk_len(len as int, start as int));
        let result = platform_entropy(n);
        let entropy = match result {
            Ok(entropy) => entropy,
            Err(e) => {
                proof {
                    let k = chunks;
                    assert(k * MAX_BYTES_PER_CALL == start);
                    assert(call_ensures(
                        *platform_entropy,
                        (chunk_len(before.len() as int, k * MAX_BYTES_PER_CALL) as usize,),
                        Err::<Entropy, Error>(e),
                    ));
                }
                return Err(e);
            },
        };
        let ghost at_start = s@;
        let mut i: usize = 0;
        while i < n
            invariant
                i <= n <= MAX_BYTES_PER_CALL,
                start + n <= len,
                len == s@.len(),
                len == at_start.len(),
                forall|j: int| 0 <= j < start ==> s@[j] == at_start[j],
                forall|j: int| 0 <= j < i ==> s@[start + j] == entropy@[j],
                forall|j: int| start + i <= j < len ==> s@[j] == at_start[j],
            decreases n - i,
        {
            s[start + i] = entropy[i];
            i += 1;
        }
        proof {
            assert(s@.subrange(start as int, start + n) =~= entropy@.take(n as int));
            assert(n == chunk_len(s@.len() as int, start as int) as usize);
            assert(call_ensures(
                *platform_entropy,
                (chunk_len(s@.len() as int, start as int) as usize,),
                Ok::<Entropy, Error>(entropy),
            ));
            assert(chunk_filled(*platform_entropy, s@, start as int));
            assert forall|k: int|
                0 <= k && k * MAX_BYTES_PER_CALL < start + n && k * MAX_BYTES_PER_CALL
                    < s@.len() implies #[trigger] chunk_filled(
                *platform_entropy,
                s@,
                k * MAX_BYTES_PER_CALL,
            ) by {
                if k * MAX_BYTES_PER_CALL < start {
                    assert(chunk_filled(*platform_entropy, at_start, k * MAX_BYTES_PER_CALL));
                    let c = chunk_len(len as int, k * MAX_BYTES_PER_CALL);
                    assert(k < chunks);
                    assert(k * MAX_BYTES_PER_CALL + MAX_BYTES_PER_CALL <= start);
                    assert(s@.subrange(k * MAX_BYTES_PER_CALL, k * MAX_BYTES_PER_CALL + c)
                        =~= at_start.subrange(k * MAX_BYTES_PER_CALL, k * MAX_BYTES_PER_CALL + c));
                } else {
                    assert(k == chunks);
                }
            }
            let after = s@.skip(start + n);
            let wanted = before.skip(start + n);
            assert(after =~= wanted) by {
                assert forall|j: int| 0 <= j < len - (start + n) implies #[trigger] after[j]
                    == wanted[j] by {
                    assert(at_start.skip(start as int)[j + n] == before.skip(start as int)[j + n]);
                }
            }
            chunks = chunks + 1;
        }
        start = start + n;
    }
    Ok(())
}

/// Returns an array of `N` bytes of entropy.
pub fn random_array<const N: usize, F: Fn(usize) -> Result<Entropy>>(platform_entropy: &F) -> (r:
    Result<[u8; N]>)
    requires
        forall|n: usize| n <= MAX_BYTES_PER_CALL ==> call_requires(*platform_entropy, (n,)),
    ensures
        r matches Ok(arr) ==> filled_up_to(*platform_entropy, arr@, N as int),
        r matches Err(e) ==> exists|k: int|
            0 <= k && k * MAX_BYTES_PER_CALL < N && #[trigger] call_ensures(
                *platform_entropy,
                (chunk_len(N as int, k * MAX_BYTES_PER_CALL) as usize,),
                Err::<Entropy, Error>(e),
            ),
{
    let mut arr: [u8; N] = vstd::array::array_fill_for_copy_types(0u8);
    match fill_with_entropy(&mut arr, platform_entropy) {
        Ok(()) => Ok(arr),
        Err(e) => Err(e),
    }
}

} // verus!
