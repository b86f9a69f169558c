//! The partitions of a guest payload.

use crate::bytes::bytes_eq;
use vstd::prelude::*;
use vstd::string::StringSliceAdditionalSpecFns;

verus! {

/// A partition that the firmware asks the slot verifier about.
#[derive(Clone, Copy, Debug, PartialEq, Eq, Structural)]
pub enum PartitionName {
    /// The guest kernel.
    Kernel,
    /// The initrd of a guest that cannot be debugged.
    InitrdNormal,
    /// The initrd of a debuggable guest.
    InitrdDebug,
}

impl PartitionName {
    /// The name of the partition in the vbmeta image.
    pub open spec fn name(self) -> Seq<u8> {
        match self {
            PartitionName::Kernel => "kernel".spec_bytes(),
            PartitionName::InitrdNormal => "initrd_normal".spec_bytes(),
            PartitionName::InitrdDebug => "initrd_debug".spec_bytes(),
        }
    }

    /// The partition that goes by `name`, if any.
    pub open spec fn spec_from_bytes(name: Seq<u8>) -> Option<PartitionName> {
        if name == PartitionName::Kernel.name() {
            Some(PartitionName::Kernel)
        } else if name == PartitionName::InitrdNormal.name() {
            Some(PartitionName::InitrdNormal)
        } else if name == PartitionName::InitrdDebug.name() {
            Some(PartitionName::InitrdDebug)
        } else {
            None
        }
    }

    /// The name of the partition in the vbmeta image.
    pub fn as_bytes(&self) -> (r: &'static [u8])
        ensures
            r@ == self.name(),
    {
        match self {
            PartitionName::Kernel => "kernel".as_bytes(),
            PartitionName::InitrdNormal => "initrd_normal".as_bytes(),
            PartitionName::InitrdDebug => "initrd_debug".as_bytes(),
        }
    }

    /// The partition that goes by `name`, if any.
    pub fn from_bytes(name: &[u8]) -> (r: Option<PartitionName>)
        ensures
            r == Self::spec_from_bytes(name@),
    {
        if bytes_eq(name, PartitionName::Kernel.as_bytes()) {
            Some(PartitionName::Kernel)
        } else if bytes_eq(name, PartitionName::InitrdNormal.as_bytes()) {
            Some(PartitionName::InitrdNormal)
        } else if bytes_eq(name, PartitionName::InitrdDebug.as_bytes()) {
            Some(PartitionName::InitrdDebug)
        } else {
            None
        }
    }

    /// Whether `name` is the name of this partition.
    pub fn is_named(&self, name: &[u8]) -> (r: bool)
        ensures
            r == (Self::spec_from_bytes(name@) == Some(*self)),
    {
        proof {
            lemma_name_round_trip(*self);
        }
        match Self::from_bytes(name) {
            Some(p) => p == *self,
            None => false,
        }
    }
}

/// A partition is found again by its own name: the three names differ.
pub proof fn lemma_name_round_trip(p: PartitionName)
    ensures
        PartitionName::spec_from_bytes(p.name()) == Some(p),
{
    reveal_strlit("kernel");
    reveal_strlit("initrd_normal");
    reveal_strlit("initrd_debug");
    vstd::string::is_ascii_spec_bytes("kernel");
    vstd::string::is_ascii_spec_bytes("initrd_normal");
    vstd::string::is_ascii_spec_bytes("initrd_debug");
    assert("kernel".spec_bytes().len() == 6);
    assert("initrd_normal".spec_bytes().len() == 13);
    assert("initrd_debug".spec_bytes().len() == 12);
}

} // verus!
