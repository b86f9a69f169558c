//! Verification of the guest payload: the policy that the firmware applies to what
//! the Android Verified Boot slot verifier reports about the kernel and the initrd.

pub mod capability;
pub mod error;
pub mod page_size;
pub mod partition;
pub mod slot;
pub mod verify;

pub use capability::Capability;
pub use error::{DescriptorError, PvmfwVerifyError, SlotVerifyError};
pub use partition::PartitionName;
pub use slot::{
    Descriptor, HashDescriptor, PartitionData, Property, SlotVerifyData, SlotVerifyResult,
    VbmetaData,
};
pub use verify::{verify_payload, DebugLevel, Digest, VerifiedBootData};
