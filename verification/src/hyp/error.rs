//! The errors of the hypervisor backends.

use vstd::prelude::*;

verus! {

/// The return value of KVM for a call that is not supported.
pub const KVM_ENOSYS: i64 = -1000;

/// The return value of KVM for an invalid parameter.
pub const KVM_EINVAL: i64 = -22;

/// A failure of a call to KVM.
#[derive(Clone, Copy, Debug, PartialEq, Eq, Structural)]
pub enum KvmError {
    /// The call is not supported by the implementation.
    NotSupported,
    /// One of the call parameters has a non-supported value.
    InvalidParameter,
    /// There was an unexpected return value.
    Unknown(i64),
}

/// A failure of a call to Gunyah.
#[derive(Clone, Copy, Debug, PartialEq, Eq, Structural)]
pub enum GunyahError {
    /// The call is not supported by the implementation.
    NotSupported,
}

/// A failure of a hypervisor backend.
#[derive(Clone, Copy, Debug, PartialEq, Eq, Structural)]
pub enum Error {
    /// The MMIO guard is not supported.
    MmioGuardNotSupported,
    /// The call to KVM with the given function failed.
    KvmError(KvmError, u32),
    /// A call to Gunyah failed.
    GunyahError(GunyahError),
    /// The hypervisor, which identifies itself by the given number, is not
    /// supported.
    UnsupportedHypervisor(u128),
}

impl KvmError {
    /// The error that a return value of KVM stands for.
    pub open spec fn spec_from(value: i64) -> KvmError {
        if value == KVM_ENOSYS {
            KvmError::NotSupported
        } else if value == KVM_EINVAL {
            KvmError::InvalidParameter
        } else {
            KvmError::Unknown(value)
        }
    }

    /// The error that a return value of KVM stands for.
    pub fn from_i64(value: i64) -> (r: KvmError)
        ensures
            r == Self::spec_from(value),
    {
        if value == KVM_ENOSYS {
            KvmError::NotSupported
        } else if value == KVM_EINVAL {
            KvmError::InvalidParameter
        } else {
            KvmError::Unknown(value)
        }
    }

    /// The error that a return value of KVM of 32 bits stands for.
    pub fn from_i32(value: i32) -> (r: KvmError)
        ensures
            r == Self::spec_from(value as i64),
    {
        Self::from_i64(value as i64)
    }
}

/// The hypervisor that a guest runs under.
#[derive(Clone, Copy, Debug, PartialEq, Eq, Structural)]
pub enum HypervisorBackend {
    /// KVM without protection of the guest.
    RegularKvm,
    /// Gunyah.
    Gunyah,
    /// GenieZone.
    Geniezone,
    /// Protected KVM.
    ProtectedKvm,
}

/// The signature of KVM: `KVMKVMKVM` in little-endian order, padded with zeros.
pub const REGULAR_KVM_CPUID: u128 = 0x4d_564b_4d56_4b4d_564b;

/// The signature of protected KVM: `PKVMPKVMPKVM` in little-endian order, padded
/// with zeros.
pub const PROTECTED_KVM_CPUID: u128 = 0x4d56_4b50_4d56_4b50_4d56_4b50;

/// The hypervisor that identifies itself by the signature `cpuid`.
pub fn determine_hyp_type(cpuid: u128) -> (r: Result<HypervisorBackend, Error>)
    ensures
        r == (if cpuid == REGULAR_KVM_CPUID {
            Ok::<HypervisorBackend, Error>(HypervisorBackend::RegularKvm)
        } else if cpuid == PROTECTED_KVM_CPUID {
            Ok::<HypervisorBackend, Error>(HypervisorBackend::ProtectedKvm)
        } else {
            Err::<HypervisorBackend, Error>(Error::UnsupportedHypervisor(cpuid))
        }),
{
    if cpuid == REGULAR_KVM_CPUID {
        Ok(HypervisorBackend::RegularKvm)
    } else if cpuid == PROTECTED_KVM_CPUID {
        Ok(HypervisorBackend::ProtectedKvm)
    } else {
        Err(Error::UnsupportedHypervisor(cpuid))
    }
}

/// The signature that the three result registers of the instruction that
/// identifies the hypervisor hold: the first in the lowest 32 bits.
pub open spec fn spec_signature(ebx: u32, ecx: u32, edx: u32) -> int {
    edx as int * 0x1_0000_0000_0000_0000 + ecx as int * 0x1_0000_0000 + ebx as int
}

/// The signature that the three result registers hold.
pub fn signature(ebx: u32, ecx: u32, edx: u32) -> (r: u128)
    ensures
        r == spec_signature(ebx, ecx, edx),
{
    (edx as u128) * 0x1_0000_0000_0000_0000 + (ecx as u128) * 0x1_0000_0000 + (ebx as u128)
}

} // verus!
