//! What the slot verifier reports about a partition, as plain values.

use crate::avb::error::{DescriptorError, SlotVerifyError};
use crate::bytes::bytes_eq;
use vstd::prelude::*;

verus! {

/// A hash descriptor: the digest that a partition must have.
#[derive(Debug, PartialEq, Eq)]
pub struct HashDescriptor {
    /// The name of the partition that the digest is of.
    pub partition_name: Vec<u8>,
    /// The digest of the partition.
    pub digest: Vec<u8>,
}

/// A descriptor of a vbmeta image.
#[derive(Debug, PartialEq, Eq)]
pub enum Descriptor {
    /// A hash descriptor.
    Hash(HashDescriptor),
    /// A descriptor of any other kind.
    Other,
}

/// A property of a vbmeta image.
#[derive(Debug, PartialEq, Eq)]
pub struct Property {
    /// The key of the property.
    pub key: Vec<u8>,
    /// The value of the property.
    pub value: Vec<u8>,
}

/// A verified vbmeta image.
#[derive(Debug, PartialEq, Eq)]
pub struct VbmetaData {
    /// The name of the partition that the image was found in.
    pub partition_name: Vec<u8>,
    /// The descriptors of the image, or why they cannot be read.
    pub descriptors: Result<Vec<Descriptor>, DescriptorError>,
    /// The properties of the image, in the order of the image.
    pub properties: Vec<Property>,
}

/// A partition that the slot verifier loaded.
#[derive(Debug, PartialEq, Eq)]
pub struct PartitionData {
    /// The name of the partition.
    pub partition_name: Vec<u8>,
    /// The number of bytes that were loaded.
    pub data_len: usize,
}

/// What a successful slot verification yields.
#[derive(Debug, PartialEq, Eq)]
pub struct SlotVerifyData {
    /// The vbmeta images that were verified.
    pub vbmeta_data: Vec<VbmetaData>,
    /// The partitions that were loaded.
    pub partition_data: Vec<PartitionData>,
    /// The rollback indexes of the slot, by location.
    pub rollback_indexes: Vec<u64>,
}

/// The outcome of one slot verification.
pub type SlotVerifyResult = Result<SlotVerifyData, SlotVerifyError>;

/// The value of the first property with the given key.
pub open spec fn spec_property_value(properties: Seq<Property>, key: Seq<u8>) -> Option<Seq<u8>>
    decreases properties.len(),
{
    if properties.len() == 0 {
        None
    } else if properties[0].key@ == key {
        Some(properties[0].value@)
    } else {
        spec_property_value(properties.drop_first(), key)
    }
}

impl VbmetaData {
    /// The value of the first property with the given key.
    pub fn get_property_value(&self, key: &[u8]) -> (r: Option<&[u8]>)
        ensures
            match r {
                Some(value) => spec_property_value(self.properties@, key@) == Some(value@),
                None => spec_property_value(self.properties@, key@) is None,
            },
    {
        let mut i: usize = 0;
        assert(self.properties@.skip(0) =~= self.properties@);
        while i < self.properties.len()
            invariant
                i <= self.properties.len(),
                spec_property_value(self.properties@, key@) == spec_property_value(
                    self.properties@.skip(i as int),
                    key@,
                ),
            decreases self.properties.len() - i,
        {
            let property = &self.properties[i];
            assert(self.properties@.skip(i as int)[0] == property);
            if bytes_eq(property.key.as_slice(), key) {
                return Some(property.value.as_slice());
            }
            assert(self.properties@.skip(i as int).drop_first() =~= self.properties@.skip(i + 1));
            i += 1;
        }
        None
    }
}

} // verus!
