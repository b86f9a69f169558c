//! The errors of payload verification.

use vstd::prelude::*;

verus! {

/// A failure reported by the slot verifier, or raised by the firmware in its terms.
#[derive(Clone, Copy, Debug, PartialEq, Eq, Structural)]
pub enum SlotVerifyError {
    /// An argument of the verification request was invalid.
    InvalidArgument,
    /// The metadata is malformed or does not fit the payload.
    InvalidMetadata,
    /// A partition could not be read, or the wrong one was loaded.
    Io,
    /// The verifier hit an internal error.
    Internal,
    /// The verifier ran out of memory.
    Oom,
    /// The image is signed with a key other than the trusted one.
    PublicKeyRejected,
    /// The rollback index of the image is below the stored one.
    RollbackIndex,
    /// The metadata needs a newer verifier.
    UnsupportedVersion,
    /// A signature or a digest does not match.
    Verification,
}

/// A failure to read the descriptors of a vbmeta image.
#[derive(Clone, Copy, Debug, PartialEq, Eq, Structural)]
pub enum DescriptorError {
    /// An argument of the request was invalid.
    InvalidArgument,
    /// A descriptor header is malformed.
    InvalidHeader,
    /// A descriptor has an impossible size.
    InvalidSize,
    /// The descriptors are not the ones a payload may carry.
    InvalidContents,
    /// A descriptor string is not UTF-8.
    InvalidUtf8,
}

/// Why a payload was refused.
#[derive(Clone, Copy, Debug, PartialEq, Eq, Structural)]
pub enum PvmfwVerifyError {
    /// The slot verifier failed, or the firmware refused what it reported.
    AvbSlotVerifyError(SlotVerifyError),
    /// The descriptors of the vbmeta image are unusable.
    InvalidDescriptors(DescriptorError),
    /// The capability property names a capability that the firmware does not know.
    UnknownVbmetaProperty,
    /// The page-size property is not a positive multiple of 4 KiB given in KiB.
    InvalidPageSize,
}

} // verus!
