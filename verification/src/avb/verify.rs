//! The verification of a payload: a signed kernel and, with it or not, an initrd.

use crate::avb::capability::{capability_key, lemma_from_names_distinct, Capability, SEPARATOR};
use crate::avb::error::{DescriptorError, PvmfwVerifyError, SlotVerifyError};
use crate::avb::page_size::{read_page_size, spec_read_page_size};
use crate::avb::slot::spec_property_value;
use crate::bytes::spec_split;
use crate::avb::partition::PartitionName;
use crate::avb::slot::{
    Descriptor, HashDescriptor, PartitionData, SlotVerifyData, SlotVerifyResult, VbmetaData,
};
use vstd::prelude::*;

verus! {

/// A SHA-256 digest, of the kernel or of the initrd.
pub type Digest = [u8; 32];

/// The rollback index of a payload whose slot has none.
pub const DEFAULT_ROLLBACK_INDEX: u64 = 0;

/// How far a guest can be debugged.
#[derive(Clone, Copy, Debug, PartialEq, Eq, Structural)]
pub enum DebugLevel {
    /// Not debuggable at all.
    NotDebuggable,
    /// Fully debuggable.
    Full,
}

/// What is known of a payload once it has been verified.
#[derive(Debug, PartialEq, Eq)]
pub struct VerifiedBootData<'a> {
    /// How far the guest can be debugged.
    pub debug_level: DebugLevel,
    /// The digest of the kernel.
    pub kernel_digest: Digest,
    /// The digest of the initrd, if the payload has one.
    pub initrd_digest: Option<Digest>,
    /// The trusted public key that the payload was verified against.
    pub public_key: &'a [u8],
    /// The capabilities of the guest.
    pub capabilities: Vec<Capability>,
    /// The rollback index of the kernel.
    pub rollback_index: u64,
    /// The page size of the kernel in bytes, if the payload gives one.
    pub page_size: Option<usize>,
}

/// A payload: the partitions that the slot verifier reads, and the public key
/// that it accepts as the only root of trust.
#[derive(Clone, Copy, Debug, PartialEq, Eq)]
pub struct Payload<'a> {
    /// The signed kernel.
    pub kernel: &'a [u8],
    /// The initrd, if the payload has one.
    pub initrd: Option<&'a [u8]>,
    /// The trusted public key.
    pub trusted_public_key: &'a [u8],
}

/// The mathematical content of a [`VerifiedBootData`].
pub struct BootDataModel {
    /// How far the guest can be debugged.
    pub debug_level: DebugLevel,
    /// The digest of the kernel.
    pub kernel_digest: Seq<u8>,
    /// The digest of the initrd, if the payload has one.
    pub initrd_digest: Option<Seq<u8>>,
    /// The trusted public key.
    pub public_key: Seq<u8>,
    /// The capabilities of the guest, in the order of the capability property.
    pub capabilities: Seq<Capability>,
    /// The rollback index of the kernel.
    pub rollback_index: u64,
    /// The page size of the kernel in bytes, if the payload gives one.
    pub page_size: Option<usize>,
}

/// The view of an optional digest.
pub open spec fn digest_view(digest: Option<Digest>) -> Option<Seq<u8>> {
    match digest {
        Some(d) => Some(d@),
        None => None,
    }
}

impl<'a> View for VerifiedBootData<'a> {
    type V = BootDataModel;

    open spec fn view(&self) -> BootDataModel {
        BootDataModel {
            debug_level: self.debug_level,
            kernel_digest: self.kernel_digest@,
            initrd_digest: digest_view(self.initrd_digest),
            public_key: self.public_key@,
            capabilities: self.capabilities@,
            rollback_index: self.rollback_index,
            page_size: self.page_size,
        }
    }
}

impl<'a> VerifiedBootData<'a> {
    /// Returns whether the kernel has the given capability.
    pub fn has_capability(&self, cap: Capability) -> (r: bool)
        ensures
            r == self@.capabilities.contains(cap),
    {
        Capability::is_among(cap, self.capabilities.as_slice())
    }
}

/// The outcome of the check that exactly one vbmeta image was verified.
pub open spec fn spec_only_one_vbmeta(n: nat) -> Result<(), SlotVerifyError> {
    if n == 1 {
        Ok(())
    } else {
        Err(SlotVerifyError::InvalidMetadata)
    }
}

/// Accepts the vbmeta images of a verification if there is exactly one.
pub fn verify_only_one_vbmeta_exists(vbmeta_data: &[VbmetaData]) -> (r: Result<
    (),
    SlotVerifyError,
>)
    ensures
        r == spec_only_one_vbmeta(vbmeta_data@.len()),
{
    if vbmeta_data.len() == 1 {
        Ok(())
    } else {
        Err(SlotVerifyError::InvalidMetadata)
    }
}

/// The outcome of the check that a vbmeta image was found in the kernel partition.
pub open spec fn spec_from_kernel_partition(partition_name: Seq<u8>) -> Result<
    (),
    SlotVerifyError,
> {
    if PartitionName::spec_from_bytes(partition_name) == Some(PartitionName::Kernel) {
        Ok(())
    } else {
        Err(SlotVerifyError::InvalidMetadata)
    }
}

/// Accepts a vbmeta image if it was found in the kernel partition.
pub fn verify_vbmeta_is_from_kernel_partition(vbmeta_image: &VbmetaData) -> (r: Result<
    (),
    SlotVerifyError,
>)
    ensures
        r == spec_from_kernel_partition(vbmeta_image.partition_name@),
{
    match PartitionName::from_bytes(vbmeta_image.partition_name.as_slice()) {
        Some(PartitionName::Kernel) => Ok(()),
        _ => Err(SlotVerifyError::InvalidMetadata),
    }
}

/// The outcome of the check on what a verification of `partition_name` loaded:
/// one partition, the one asked for, of the expected length.
pub open spec fn spec_loaded_partition(
    loaded_partitions: Seq<PartitionData>,
    partition_name: PartitionName,
    expected_len: usize,
) -> Result<(), SlotVerifyError> {
    if loaded_partitions.len() != 1 {
        Err(SlotVerifyError::Io)
    } else if PartitionName::spec_from_bytes(loaded_partitions[0].partition_name@) != Some(
        partition_name,
    ) {
        Err(SlotVerifyError::Io)
    } else if loaded_partitions[0].data_len != expected_len {
        Err(SlotVerifyError::Verification)
    } else {
        Ok(())
    }
}

/// Accepts what a verification loaded if it is the one partition that was asked
/// for and has the length that the caller expects.
pub fn verify_loaded_partition_has_expected_length(
    loaded_partitions: &[PartitionData],
    partition_name: PartitionName,
    expected_len: usize,
) -> (r: Result<(), SlotVerifyError>)
    ensures
        r == spec_loaded_partition(loaded_partitions@, partition_name, expected_len),
{
    if loaded_partitions.len() != 1 {
        // Only one partition should be loaded in each verify result.
        return Err(SlotVerifyError::Io);
    }
    let loaded_partition = &loaded_partitions[0];
    if !partition_name.is_named(loaded_partition.partition_name.as_slice()) {
        // Only the requested partition should be loaded.
        return Err(SlotVerifyError::Io);
    }
    if loaded_partition.data_len == expected_len {
        Ok(())
    } else {
        Err(SlotVerifyError::Verification)
    }
}

/// Whether `d` is a hash descriptor for the partition `p`.
pub open spec fn is_hash_for(d: Descriptor, p: PartitionName) -> bool {
    d matches Descriptor::Hash(h) && PartitionName::spec_from_bytes(h.partition_name@) == Some(p)
}

/// Whether some descriptor is a hash descriptor for `p`.
pub open spec fn has_hash_for(descriptors: Seq<Descriptor>, p: PartitionName) -> bool {
    exists|i: int| 0 <= i < descriptors.len() && is_hash_for(#[trigger] descriptors[i], p)
}

/// The hash descriptor for `p`, where there is one.
pub open spec fn hash_for(descriptors: Seq<Descriptor>, p: PartitionName) -> HashDescriptor {
    let i = choose|i: int| 0 <= i < descriptors.len() && is_hash_for(#[trigger] descriptors[i], p);
    descriptors[i]->Hash_0
}

/// Whether the hash descriptors are those of a payload: each names a partition of
/// a payload, no two name the same one, and one names the kernel.
pub open spec fn hash_descriptors_ok(descriptors: Seq<Descriptor>) -> bool {
    &&& forall|i: int|
        0 <= i < descriptors.len() && #[trigger] descriptors[i] is Hash
            ==> PartitionName::spec_from_bytes(descriptors[i]->Hash_0.partition_name@) is Some
    &&& forall|i: int, j: int, p: PartitionName|
        0 <= i < j < descriptors.len() && #[trigger] is_hash_for(descriptors[i], p)
            ==> !#[trigger] is_hash_for(descriptors[j], p)
    &&& has_hash_for(descriptors, PartitionName::Kernel)
}

/// Where no two hash descriptors name the same partition, the hash descriptor for
/// `p` is any descriptor that is one.
pub proof fn lemma_hash_for_unique(descriptors: Seq<Descriptor>, p: PartitionName, i: int)
    requires
        hash_descriptors_ok(descriptors),
        0 <= i < descriptors.len(),
        is_hash_for(descriptors[i], p),
    ensures
        has_hash_for(descriptors, p),
        hash_for(descriptors, p) == descriptors[i]->Hash_0,
{
    let j = choose|j: int| 0 <= j < descriptors.len() && is_hash_for(#[trigger] descriptors[j], p);
    if i < j {
        assert(!is_hash_for(descriptors[j], p));
    } else if j < i {
        assert(!is_hash_for(descriptors[i], p));
    }
}

/// The hash descriptors of a vbmeta image.
///
/// There is always one for the kernel; there may be one for either initrd.
pub struct HashDescriptors<'a> {
    /// The hash descriptor of the kernel.
    pub kernel: &'a HashDescriptor,
    /// The hash descriptor of the initrd of a guest that cannot be debugged.
    pub initrd_normal: Option<&'a HashDescriptor>,
    /// The hash descriptor of the initrd of a debuggable guest.
    pub initrd_debug: Option<&'a HashDescriptor>,
}

/// Whether `found` is the hash descriptor for `p` among `descriptors`, or nothing
/// where there is none.
pub open spec fn is_entry_for(
    found: Option<&HashDescriptor>,
    descriptors: Seq<Descriptor>,
    p: PartitionName,
) -> bool {
    match found {
        Some(h) => has_hash_for(descriptors, p) && *h == hash_for(descriptors, p),
        None => !has_hash_for(descriptors, p),
    }
}

impl<'a> HashDescriptors<'a> {
    /// Whether these are the hash descriptors among `descriptors`.
    pub open spec fn describes(self, descriptors: Seq<Descriptor>) -> bool {
        &&& is_entry_for(Some(self.kernel), descriptors, PartitionName::Kernel)
        &&& is_entry_for(self.initrd_normal, descriptors, PartitionName::InitrdNormal)
        &&& is_entry_for(self.initrd_debug, descriptors, PartitionName::InitrdDebug)
    }

    /// Whether there is a hash descriptor for an initrd.
    pub open spec fn has_initrd(self) -> bool {
        self.initrd_normal is Some || self.initrd_debug is Some
    }

    /// The hash descriptor for `p`.
    pub open spec fn spec_entry(self, p: PartitionName) -> Option<&'a HashDescriptor> {
        match p {
            PartitionName::Kernel => Some(self.kernel),
            PartitionName::InitrdNormal => self.initrd_normal,
            PartitionName::InitrdDebug => self.initrd_debug,
        }
    }

    /// Extracts the hash descriptors from the descriptors of a vbmeta image.
    ///
    /// A hash descriptor for an unknown partition, a second one for the same
    /// partition and the lack of one for the kernel are errors.
    pub fn get(descriptors: &'a [Descriptor]) -> (r: Result<Self, DescriptorError>)
        ensures
            r is Ok <==> hash_descriptors_ok(descriptors@),
            r matches Ok(h) ==> h.describes(descriptors@),
            r matches Err(e) ==> e == DescriptorError::InvalidContents,
    {
        let mut kernel: Option<&'a HashDescriptor> = None;
        let mut initrd_normal: Option<&'a HashDescriptor> = None;
        let mut initrd_debug: Option<&'a HashDescriptor> = None;
        let mut i: usize = 0;
        while i < descriptors.len()
            invariant
                i <= descriptors.len(),
                hash_descriptors_so_far(descriptors@, i as int),
                found_so_far(kernel, descriptors@, i as int, PartitionName::Kernel),
                found_so_far(initrd_normal, descriptors@, i as int, PartitionName::InitrdNormal),
                found_so_far(initrd_debug, descriptors@, i as int, PartitionName::InitrdDebug),
            decreases descriptors.len() - i,
        {
            match &descriptors[i] {
                Descriptor::Hash(descriptor) => {
                    let name = PartitionName::from_bytes(descriptor.partition_name.as_slice());
                    match name {
                        None => {
                            return Err(DescriptorError::InvalidContents);
                        },
                        Some(PartitionName::Kernel) => {
                            if kernel.is_some() {
                                proof {
                                    lemma_second_entry(
                                        descriptors@,
                                        i as int,
                                        PartitionName::Kernel,
                                    );
                                }
                                return Err(DescriptorError::InvalidContents);
                            }
                            kernel = Some(descriptor);
                        },
                        Some(PartitionName::InitrdNormal) => {
                            if initrd_normal.is_some() {
                                proof {
                                    lemma_second_entry(
                                        descriptors@,
                                        i as int,
                                        PartitionName::InitrdNormal,
                                    );
                                }
                                return Err(DescriptorError::InvalidContents);
                            }
                            initrd_normal = Some(descriptor);
                        },
                        Some(PartitionName::InitrdDebug) => {
                            if initrd_debug.is_some() {
                                proof {
                                    lemma_second_entry(
                                        descriptors@,
                                        i as int,
                                        PartitionName::InitrdDebug,
                                    );
                                }
                                return Err(DescriptorError::InvalidContents);
                            }
                            initrd_debug = Some(descriptor);
                        },
                    }
                },
                Descriptor::Other => {},
            }
            i += 1;
        }
        proof {
            lemma_found_at_end(kernel, descriptors@, PartitionName::Kernel);
            lemma_found_at_end(initrd_normal, descriptors@, PartitionName::InitrdNormal);
            lemma_found_at_end(initrd_debug, descriptors@, PartitionName::InitrdDebug);
        }
        // The kernel is required, the others are optional.
        match kernel {
            Some(kernel) => Ok(HashDescriptors { kernel, initrd_normal, initrd_debug }),
            None => Err(DescriptorError::InvalidContents),
        }
    }

    /// The hash descriptor for `partition_name`, if there is one.
    pub fn entry(&self, partition_name: PartitionName) -> (r: Option<&'a HashDescriptor>)
        ensures
            r == self.spec_entry(partition_name),
    {
        match partition_name {
            PartitionName::Kernel => Some(self.kernel),
            PartitionName::InitrdNormal => self.initrd_normal,
            PartitionName::InitrdDebug => self.initrd_debug,
        }
    }

    /// Returns an error if there is a hash descriptor for either initrd.
    pub fn verify_no_initrd(&self) -> (r: Result<(), PvmfwVerifyError>)
        ensures
            r == (if self.has_initrd() {
                Err::<(), PvmfwVerifyError>(
                    PvmfwVerifyError::AvbSlotVerifyError(SlotVerifyError::InvalidMetadata),
                )
            } else {
                Ok::<(), PvmfwVerifyError>(())
            }),
    {
        if self.initrd_normal.is_some() || self.initrd_debug.is_some() {
            Err(PvmfwVerifyError::AvbSlotVerifyError(SlotVerifyError::InvalidMetadata))
        } else {
            Ok(())
        }
    }
}

/// Whether the first `n` descriptors obey the rules of [`hash_descriptors_ok`] but
/// for the presence of the kernel.
pub open spec fn hash_descriptors_so_far(descriptors: Seq<Descriptor>, n: int) -> bool {
    &&& forall|i: int|
        0 <= i < n && #[trigger] descriptors[i] is Hash ==> PartitionName::spec_from_bytes(
            descriptors[i]->Hash_0.partition_name@,
        ) is Some
    &&& forall|i: int, j: int, p: PartitionName|
        0 <= i < j < n && #[trigger] is_hash_for(descriptors[i], p) ==> !#[trigger] is_hash_for(
            descriptors[j],
            p,
        )
}

/// Whether `found` is the hash descriptor for `p` among the first `n` descriptors,
/// or nothing where there is none.
pub open spec fn found_so_far(
    found: Option<&HashDescriptor>,
    descriptors: Seq<Descriptor>,
    n: int,
    p: PartitionName,
) -> bool {
    match found {
        Some(h) => exists|i: int|
            0 <= i < n && is_hash_for(#[trigger] descriptors[i], p) && descriptors[i]->Hash_0
                == *h,
        None => forall|i: int| 0 <= i < n ==> !is_hash_for(#[trigger] descriptors[i], p),
    }
}

proof fn lemma_second_entry(descriptors: Seq<Descriptor>, n: int, p: PartitionName)
    requires
        0 <= n < descriptors.len(),
        is_hash_for(descriptors[n], p),
        exists|i: int| 0 <= i < n && is_hash_for(#[trigger] descriptors[i], p),
    ensures
        !hash_descriptors_ok(descriptors),
{
    let i = choose|i: int| 0 <= i < n && is_hash_for(#[trigger] descriptors[i], p);
    assert(is_hash_for(descriptors[i], p) && is_hash_for(descriptors[n], p));
}

proof fn lemma_found_at_end(
    found: Option<&HashDescriptor>,
    descriptors: Seq<Descriptor>,
    p: PartitionName,
)
    requires
        found_so_far(found, descriptors, descriptors.len() as int, p),
        hash_descriptors_so_far(descriptors, descriptors.len() as int),
    ensures
        found is Some <==> has_hash_for(descriptors, p),
        has_hash_for(descriptors, PartitionName::Kernel) ==> is_entry_for(found, descriptors, p),
{
    if let Some(h) = found {
        let i = choose|i: int|
            0 <= i < descriptors.len() && is_hash_for(#[trigger] descriptors[i], p)
                && descriptors[i]->Hash_0 == *h;
        assert(has_hash_for(descriptors, p));
        if has_hash_for(descriptors, PartitionName::Kernel) {
            lemma_hash_for_unique(descriptors, p, i);
        }
    }
}

/// The digest that a hash descriptor holds, if it has the length of a SHA-256
/// digest.
pub open spec fn spec_copy_digest(descriptor: HashDescriptor) -> Result<Seq<u8>, SlotVerifyError> {
    if descriptor.digest@.len() == 32 {
        Ok(descriptor.digest@)
    } else {
        Err(SlotVerifyError::InvalidMetadata)
    }
}

/// Returns a copy of the SHA-256 digest in `descriptor`, or an error if the digest
/// there has another length.
pub fn copy_digest(descriptor: &HashDescriptor) -> (r: Result<Digest, SlotVerifyError>)
    ensures
        match r {
            Ok(digest) => spec_copy_digest(*descriptor) == Ok::<Seq<u8>, SlotVerifyError>(digest@),
            Err(e) => spec_copy_digest(*descriptor) == Err::<Seq<u8>, SlotVerifyError>(e),
        },
{
    let mut digest: Digest = [0u8; 32];
    if descriptor.digest.len() != 32 {
        return Err(SlotVerifyError::InvalidMetadata);
    }
    let mut i: usize = 0;
    while i < 32
        invariant
            i <= 32,
            descriptor.digest@.len() == 32,
            forall|j: int| 0 <= j < i ==> digest@[j] == descriptor.digest@[j],
        decreases 32 - i,
    {
        digest[i] = descriptor.digest[i];
        i += 1;
    }
    assert(digest@ =~= descriptor.digest@);
    Ok(digest)
}

/// The rollback index of a slot: that of the first location, or the default where
/// the verifier reports none.
pub open spec fn spec_rollback_index(rollback_indexes: Seq<u64>) -> u64 {
    if rollback_indexes.len() > 0 {
        rollback_indexes[0]
    } else {
        DEFAULT_ROLLBACK_INDEX
    }
}

/// The outcome of the verification of an initrd of `expected_len` bytes as the
/// partition `partition_name`, given what the slot verifier reported.
pub open spec fn spec_verify_initrd(
    result: SlotVerifyResult,
    partition_name: PartitionName,
    expected_len: usize,
) -> Result<(), SlotVerifyError> {
    match result {
        Err(e) => Err(e),
        Ok(data) => spec_loaded_partition(data.partition_data@, partition_name, expected_len),
    }
}

/// Verifies the initrd as the partition `partition_name` and checks that what was
/// loaded looks as expected.
pub fn verify_initrd<F: Fn(&Payload, PartitionName) -> SlotVerifyResult>(
    verify_partition: &F,
    payload: &Payload,
    partition_name: PartitionName,
    expected_initrd: &[u8],
) -> (r: Result<(), SlotVerifyError>)
    requires
        call_requires(*verify_partition, (payload, partition_name)),
    ensures
        exists|result: SlotVerifyResult|
            call_ensures(*verify_partition, (payload, partition_name), result) && r
                == spec_verify_initrd(
                result,
                partition_name,
                expected_initrd.len(),
            ),
{
    let result = verify_partition(payload, partition_name);
    let r = match &result {
        Err(e) => Err(*e),
        Ok(data) => verify_loaded_partition_has_expected_length(
            data.partition_data.as_slice(),
            partition_name,
            expected_initrd.len(),
        ),
    };
    assert(r == spec_verify_initrd(result, partition_name, expected_initrd.len()));
    r
}

/// What the vbmeta image of the kernel says of a payload.
pub struct KernelMetadata {
    /// The descriptors of the vbmeta image.
    pub descriptors: Seq<Descriptor>,
    /// The capabilities that the image declares.
    pub capabilities: Seq<Capability>,
    /// The page size that the image asks for.
    pub page_size: Option<usize>,
    /// The rollback index of the kernel.
    pub rollback_index: u64,
}

/// What the verification of the kernel partition says of the payload, or why the
/// payload is refused on account of it.
///
/// The slot verifier must have accepted the kernel and verified exactly one vbmeta
/// image, found in the kernel partition, whose hash descriptors, capability
/// property and page-size property are in order.
pub open spec fn spec_kernel_metadata(kernel: SlotVerifyResult) -> Result<
    KernelMetadata,
    PvmfwVerifyError,
> {
    match kernel {
        Err(e) => Err(PvmfwVerifyError::AvbSlotVerifyError(e)),
        Ok(data) => if data.vbmeta_data@.len() != 1 {
            Err(PvmfwVerifyError::AvbSlotVerifyError(SlotVerifyError::InvalidMetadata))
        } else {
            let vbmeta = data.vbmeta_data@[0];
            if spec_from_kernel_partition(vbmeta.partition_name@) is Err {
                Err(PvmfwVerifyError::AvbSlotVerifyError(SlotVerifyError::InvalidMetadata))
            } else {
                match vbmeta.descriptors {
                    Err(e) => Err(PvmfwVerifyError::InvalidDescriptors(e)),
                    Ok(descriptors) => if !hash_descriptors_ok(descriptors@) {
                        Err(PvmfwVerifyError::InvalidDescriptors(DescriptorError::InvalidContents))
                    } else {
                        match Capability::spec_get_capabilities(vbmeta.properties@) {
                            Err(e) => Err(e),
                            Ok(capabilities) => match spec_read_page_size(vbmeta.properties@) {
                                Err(e) => Err(e),
                                Ok(page_size) => Ok(
                                    KernelMetadata {
                                        descriptors: descriptors@,
                                        capabilities,
                                        page_size,
                                        rollback_index: spec_rollback_index(
                                            data.rollback_indexes@,
                                        ),
                                    },
                                ),
                            },
                        }
                    },
                }
            }
        },
    }
}

/// The partition that an initrd of `len` bytes verifies as, with the debug level
/// that follows from it: the normal initrd first, else the debug one.
pub open spec fn spec_initrd_choice(
    len: usize,
    normal: SlotVerifyResult,
    debug: SlotVerifyResult,
) -> Option<(DebugLevel, PartitionName)> {
    if spec_verify_initrd(normal, PartitionName::InitrdNormal, len) is Ok {
        Some((DebugLevel::NotDebuggable, PartitionName::InitrdNormal))
    } else if spec_verify_initrd(debug, PartitionName::InitrdDebug, len) is Ok {
        Some((DebugLevel::Full, PartitionName::InitrdDebug))
    } else {
        None
    }
}

/// The boot data of a payload without an initrd.
///
/// The vbmeta image must describe no initrd either.
pub open spec fn spec_boot_data_without_initrd(meta: KernelMetadata, key: Seq<u8>) -> Result<
    BootDataModel,
    PvmfwVerifyError,
> {
    if has_hash_for(meta.descriptors, PartitionName::InitrdNormal) || has_hash_for(
        meta.descriptors,
        PartitionName::InitrdDebug,
    ) {
        Err(PvmfwVerifyError::AvbSlotVerifyError(SlotVerifyError::InvalidMetadata))
    } else {
        match spec_copy_digest(hash_for(meta.descriptors, PartitionName::Kernel)) {
            Err(e) => Err(PvmfwVerifyError::AvbSlotVerifyError(e)),
            Ok(kernel_digest) => Ok(
                BootDataModel {
                    debug_level: DebugLevel::NotDebuggable,
                    kernel_digest,
                    initrd_digest: None,
                    public_key: key,
                    capabilities: meta.capabilities,
                    rollback_index: meta.rollback_index,
                    page_size: meta.page_size,
                },
            ),
        }
    }
}

/// The boot data of a payload whose initrd verified as the partition `initrd`.
///
/// The vbmeta image must hold a hash descriptor for that partition.
pub open spec fn spec_boot_data_with_initrd(
    meta: KernelMetadata,
    debug_level: DebugLevel,
    initrd: PartitionName,
    key: Seq<u8>,
) -> Result<BootDataModel, PvmfwVerifyError> {
    if !has_hash_for(meta.descriptors, initrd) {
        Err(PvmfwVerifyError::InvalidDescriptors(DescriptorError::InvalidContents))
    } else {
        match spec_copy_digest(hash_for(meta.descriptors, PartitionName::Kernel)) {
            Err(e) => Err(PvmfwVerifyError::AvbSlotVerifyError(e)),
            Ok(kernel_digest) => match spec_copy_digest(hash_for(meta.descriptors, initrd)) {
                Err(e) => Err(PvmfwVerifyError::AvbSlotVerifyError(e)),
                Ok(initrd_digest) => Ok(
                    BootDataModel {
                        debug_level,
                        kernel_digest,
                        initrd_digest: Some(initrd_digest),
                        public_key: key,
                        capabilities: meta.capabilities,
                        rollback_index: meta.rollback_index,
                        page_size: meta.page_size,
                    },
                ),
            },
        }
    }
}

/// The outcome of the verification of a payload, given what the slot verifier
/// reports of the kernel partition and of the two initrd partitions.
///
/// `initrd_len` is the length of the initrd that the caller holds, if it holds
/// one. What the verifier reports of the initrd partitions matters only then, and
/// only once the kernel has been accepted; of the debug initrd, only where the
/// normal one does not verify.
pub open spec fn spec_verify_payload(
    kernel: SlotVerifyResult,
    initrd_len: Option<usize>,
    normal: SlotVerifyResult,
    debug: SlotVerifyResult,
    key: Seq<u8>,
) -> Result<BootDataModel, PvmfwVerifyError> {
    match spec_kernel_metadata(kernel) {
        Err(e) => Err(e),
        Ok(meta) => match initrd_len {
            None => spec_boot_data_without_initrd(meta, key),
            Some(len) => match spec_initrd_choice(len, normal, debug) {
                None => Err(PvmfwVerifyError::AvbSlotVerifyError(SlotVerifyError::Verification)),
                Some((debug_level, initrd)) => spec_boot_data_with_initrd(
                    meta,
                    debug_level,
                    initrd,
                    key,
                ),
            },
        },
    }
}

/// Whether `r` is the outcome `expected`.
pub open spec fn is_outcome(
    r: Result<VerifiedBootData, PvmfwVerifyError>,
    expected: Result<BootDataModel, PvmfwVerifyError>,
) -> bool {
    match r {
        Ok(data) => expected == Ok::<BootDataModel, PvmfwVerifyError>(data@),
        Err(e) => expected == Err::<BootDataModel, PvmfwVerifyError>(e),
    }
}

/// Whether `r` is the outcome of the verification of `payload` with the slot
/// verifier `verify_partition`: asked about the partitions of this payload, with
/// its public key as the root of trust, the verifier reported `kernel` of the
/// kernel partition and, as far as it was asked, `normal` and `debug` of the
/// initrd partitions.
pub open spec fn verifies_as<F: Fn(&Payload, PartitionName) -> SlotVerifyResult>(
    verify_partition: F,
    payload: Payload,
    r: Result<VerifiedBootData, PvmfwVerifyError>,
    kernel: SlotVerifyResult,
    normal: SlotVerifyResult,
    debug: SlotVerifyResult,
) -> bool {
    let initrd_len = spec_len(payload.initrd);
    &&& call_ensures(verify_partition, (&payload, PartitionName::Kernel), kernel)
    &&& spec_kernel_metadata(kernel) is Ok && initrd_len is Some ==> {
        &&& call_ensures(verify_partition, (&payload, PartitionName::InitrdNormal), normal)
        &&& spec_verify_initrd(normal, PartitionName::InitrdNormal, initrd_len->Some_0) is Err
            ==> call_ensures(verify_partition, (&payload, PartitionName::InitrdDebug), debug)
    }
    &&& is_outcome(
        r,
        spec_verify_payload(kernel, initrd_len, normal, debug, payload.trusted_public_key@),
    )
}

/// The length of an optional byte string.
pub open spec fn spec_len(bytes: Option<&[u8]>) -> Option<usize> {
    match bytes {
        Some(b) => Some(b.len()),
        None => None,
    }
}

/// Verifies the payload, a signed kernel with or without an initrd, against the
/// trusted public key.
///
/// `verify_partition` runs the slot verifier on one partition of a payload, with
/// the public key of the payload as the only root of trust. It is asked about the
/// kernel first; about the normal initrd if there is an initrd and the kernel was
/// accepted; about the debug initrd if the normal one did not verify.
pub fn verify_payload<'a, F: Fn(&Payload, PartitionName) -> SlotVerifyResult>(
    kernel: &[u8],
    initrd: Option<&[u8]>,
    trusted_public_key: &'a [u8],
    verify_partition: F,
) -> (r: Result<VerifiedBootData<'a>, PvmfwVerifyError>)
    requires
        forall|payload: &Payload, p: PartitionName| call_requires(verify_partition, (payload, p)),
    ensures
        exists|kernel_result: SlotVerifyResult, normal: SlotVerifyResult, debug: SlotVerifyResult|
            verifies_as(
                verify_partition,
                Payload { kernel, initrd, trusted_public_key },
                r,
                kernel_result,
                normal,
                debug,
            ),
{
    let ghost unasked: SlotVerifyResult = Err(SlotVerifyError::Io);
    let payload = Payload { kernel, initrd, trusted_public_key };
    let kernel_verify_result = verify_partition(&payload, PartitionName::Kernel);
    let ghost kernel = kernel_verify_result;
    let data = match &kernel_verify_result {
        Ok(data) => data,
        Err(e) => {
            let r = Err(PvmfwVerifyError::AvbSlotVerifyError(*e));
            assert(verifies_as(verify_partition, payload, r, kernel, unasked, unasked));
            return r;
        },
    };
    let rollback_index = if data.rollback_indexes.len() > 0 {
        data.rollback_indexes[0]
    } else {
        DEFAULT_ROLLBACK_INDEX
    };
    let checked = inspect_kernel_metadata(data);
    let (hash_descriptors, capabilities, page_size) = match checked {
        Ok(found) => found,
        Err(e) => {
            let r = Err(e);
            assert(verifies_as(verify_partition, payload, r, kernel, unasked, unasked));
            return r;
        },
    };
    let ghost meta = spec_kernel_metadata(kernel)->Ok_0;
    proof {
        lemma_hash_for_kernel(hash_descriptors, meta.descriptors);
    }

    let initrd = match initrd {
        Some(initrd) => initrd,
        None => {
            if let Err(e) = hash_descriptors.verify_no_initrd() {
                let r = Err(e);
                assert(verifies_as(verify_partition, payload, r, kernel, unasked, unasked));
                return r;
            }
            let r = match copy_digest(hash_descriptors.kernel) {
                Ok(kernel_digest) => Ok(
                    VerifiedBootData {
                        debug_level: DebugLevel::NotDebuggable,
                        kernel_digest,
                        initrd_digest: None,
                        public_key: trusted_public_key,
                        capabilities,
                        rollback_index,
                        page_size,
                    },
                ),
                Err(e) => Err(PvmfwVerifyError::AvbSlotVerifyError(e)),
            };
            assert(verifies_as(verify_partition, payload, r, kernel, unasked, unasked));
            return r;
        },
    };

    let normal_verified = verify_initrd(
        &verify_partition,
        &payload,
        PartitionName::InitrdNormal,
        initrd,
    );
    let ghost normal = choose|result: SlotVerifyResult|
        call_ensures(verify_partition, (&payload, PartitionName::InitrdNormal), result)
            && normal_verified == spec_verify_initrd(
            result,
            PartitionName::InitrdNormal,
            initrd.len(),
        );
    let ghost mut debug = unasked;
    let (debug_level, initrd_partition) = if normal_verified.is_ok() {
        (DebugLevel::NotDebuggable, PartitionName::InitrdNormal)
    } else {
        let debug_verified = verify_initrd(
            &verify_partition,
            &payload,
            PartitionName::InitrdDebug,
            initrd,
        );
        proof {
            debug = choose|result: SlotVerifyResult|
                call_ensures(verify_partition, (&payload, PartitionName::InitrdDebug), result)
                    && debug_verified == spec_verify_initrd(
                    result,
                    PartitionName::InitrdDebug,
                    initrd.len(),
                );
        }
        if debug_verified.is_ok() {
            (DebugLevel::Full, PartitionName::InitrdDebug)
        } else {
            let r = Err(PvmfwVerifyError::AvbSlotVerifyError(SlotVerifyError::Verification));
            assert(verifies_as(verify_partition, payload, r, kernel, normal, debug));
            return r;
        }
    };
    let initrd_descriptor = match hash_descriptors.entry(initrd_partition) {
        Some(descriptor) => descriptor,
        None => {
            let r = Err(PvmfwVerifyError::InvalidDescriptors(DescriptorError::InvalidContents));
            assert(verifies_as(verify_partition, payload, r, kernel, normal, debug));
            return r;
        },
    };
    let kernel_digest = match copy_digest(hash_descriptors.kernel) {
        Ok(digest) => digest,
        Err(e) => {
            let r = Err(PvmfwVerifyError::AvbSlotVerifyError(e));
            assert(verifies_as(verify_partition, payload, r, kernel, normal, debug));
            return r;
        },
    };
    let r = match copy_digest(initrd_descriptor) {
        Ok(initrd_digest) => Ok(
            VerifiedBootData {
                debug_level,
                kernel_digest,
                initrd_digest: Some(initrd_digest),
                public_key: trusted_public_key,
                capabilities,
                rollback_index,
                page_size,
            },
        ),
        Err(e) => Err(PvmfwVerifyError::AvbSlotVerifyError(e)),
    };
    assert(verifies_as(verify_partition, payload, r, kernel, normal, debug));
    r
}

/// Checks the vbmeta image of a verified kernel and returns its hash descriptors,
/// the capabilities that it declares and the page size that it asks for.
pub fn inspect_kernel_metadata<'a>(data: &'a SlotVerifyData) -> (r: Result<
    (HashDescriptors<'a>, Vec<Capability>, Option<usize>),
    PvmfwVerifyError,
>)
    ensures
        match r {
            Ok((hash_descriptors, capabilities, page_size)) => {
                &&& spec_kernel_metadata(Ok(*data)) matches Ok(meta)
                &&& hash_descriptors.describes(meta.descriptors)
                &&& capabilities@ == meta.capabilities
                &&& page_size == meta.page_size
            },
            Err(e) => spec_kernel_metadata(Ok(*data)) == Err::<KernelMetadata, PvmfwVerifyError>(
                e,
            ),
        },
{
    if let Err(e) = verify_only_one_vbmeta_exists(data.vbmeta_data.as_slice()) {
        return Err(PvmfwVerifyError::AvbSlotVerifyError(e));
    }
    let vbmeta_image = &data.vbmeta_data[0];
    if let Err(e) = verify_vbmeta_is_from_kernel_partition(vbmeta_image) {
        return Err(PvmfwVerifyError::AvbSlotVerifyError(e));
    }
    let descriptors = match &vbmeta_image.descriptors {
        Ok(descriptors) => descriptors,
        Err(e) => {
            return Err(PvmfwVerifyError::InvalidDescriptors(*e));
        },
    };
    let hash_descriptors = match HashDescriptors::get(descriptors.as_slice()) {
        Ok(hash_descriptors) => hash_descriptors,
        Err(e) => {
            return Err(PvmfwVerifyError::InvalidDescriptors(e));
        },
    };
    let capabilities = Capability::get_capabilities(vbmeta_image)?;
    let page_size = read_page_size(vbmeta_image)?;
    Ok((hash_descriptors, capabilities, page_size))
}

proof fn lemma_hash_for_kernel(h: HashDescriptors, descriptors: Seq<Descriptor>)
    requires
        h.describes(descriptors),
    ensures
        *h.kernel == hash_for(descriptors, PartitionName::Kernel),
        h.has_initrd() <==> has_hash_for(descriptors, PartitionName::InitrdNormal) || has_hash_for(
            descriptors,
            PartitionName::InitrdDebug,
        ),
        forall|p: PartitionName|
            match #[trigger] h.spec_entry(p) {
                Some(d) => has_hash_for(descriptors, p) && *d == hash_for(descriptors, p),
                None => !has_hash_for(descriptors, p),
            },
{
}

/// A payload that is accepted without an initrd cannot be debugged and has no
/// initrd digest. Where the vbmeta image of such a payload describes an initrd
/// all the same, the payload is refused for its metadata.
pub proof fn lemma_without_initrd(
    kernel: SlotVerifyResult,
    normal: SlotVerifyResult,
    debug: SlotVerifyResult,
    key: Seq<u8>,
)
    ensures
        spec_verify_payload(kernel, None, normal, debug, key) matches Ok(data) ==> {
            &&& data.debug_level == DebugLevel::NotDebuggable
            &&& data.initrd_digest is None
        },
        spec_kernel_metadata(kernel) matches Ok(meta) && (has_hash_for(
            meta.descriptors,
            PartitionName::InitrdNormal,
        ) || has_hash_for(meta.descriptors, PartitionName::InitrdDebug)) ==> spec_verify_payload(
            kernel,
            None,
            normal,
            debug,
            key,
        ) == Err::<BootDataModel, PvmfwVerifyError>(
            PvmfwVerifyError::AvbSlotVerifyError(SlotVerifyError::InvalidMetadata),
        ),
{
}

/// An initrd that verifies as the normal initrd gives a guest that cannot be
/// debugged, whatever the slot verifier says of the debug initrd. The initrd digest
/// is the one in the hash descriptor of the normal initrd, and the payload is
/// accepted as soon as that descriptor is there and both digests have the length
/// of a SHA-256 digest.
pub proof fn lemma_normal_initrd(
    kernel: SlotVerifyResult,
    len: usize,
    normal: SlotVerifyResult,
    debug: SlotVerifyResult,
    key: Seq<u8>,
)
    requires
        spec_kernel_metadata(kernel) is Ok,
        spec_verify_initrd(normal, PartitionName::InitrdNormal, len) is Ok,
    ensures
        ({
            let meta = spec_kernel_metadata(kernel)->Ok_0;
            let outcome = spec_verify_payload(kernel, Some(len), normal, debug, key);
            let kernel_entry = hash_for(meta.descriptors, PartitionName::Kernel);
            let initrd_entry = hash_for(meta.descriptors, PartitionName::InitrdNormal);
            &&& outcome is Ok <==> has_hash_for(meta.descriptors, PartitionName::InitrdNormal)
                && kernel_entry.digest@.len() == 32 && initrd_entry.digest@.len() == 32
            &&& outcome matches Ok(data) ==> {
                &&& data.debug_level == DebugLevel::NotDebuggable
                &&& data.kernel_digest == kernel_entry.digest@
                &&& data.initrd_digest == Some(initrd_entry.digest@)
            }
        }),
{
}

/// An initrd that verifies as the debug initrd, and not as the normal one, gives a
/// guest that can be debugged in full. The initrd digest is the one in the hash
/// descriptor of the debug initrd.
pub proof fn lemma_debug_initrd(
    kernel: SlotVerifyResult,
    len: usize,
    normal: SlotVerifyResult,
    debug: SlotVerifyResult,
    key: Seq<u8>,
)
    requires
        spec_kernel_metadata(kernel) is Ok,
        spec_verify_initrd(normal, PartitionName::InitrdNormal, len) is Err,
        spec_verify_initrd(debug, PartitionName::InitrdDebug, len) is Ok,
    ensures
        ({
            let meta = spec_kernel_metadata(kernel)->Ok_0;
            let outcome = spec_verify_payload(kernel, Some(len), normal, debug, key);
            let kernel_entry = hash_for(meta.descriptors, PartitionName::Kernel);
            let initrd_entry = hash_for(meta.descriptors, PartitionName::InitrdDebug);
            &&& outcome is Ok <==> has_hash_for(meta.descriptors, PartitionName::InitrdDebug)
                && kernel_entry.digest@.len() == 32 && initrd_entry.digest@.len() == 32
            &&& outcome matches Ok(data) ==> {
                &&& data.debug_level == DebugLevel::Full
                &&& data.kernel_digest == kernel_entry.digest@
                &&& data.initrd_digest == Some(initrd_entry.digest@)
            }
        }),
{
}

/// An initrd that the slot verifier rejects under both names is never accepted:
/// the payload is refused, and for a failed verification where the kernel itself
/// was in order. An initrd of another length than the one that was loaded counts
/// as rejected.
pub proof fn lemma_rejected_initrd(
    kernel: SlotVerifyResult,
    len: usize,
    normal: SlotVerifyResult,
    debug: SlotVerifyResult,
    key: Seq<u8>,
)
    requires
        spec_verify_initrd(normal, PartitionName::InitrdNormal, len) is Err,
        spec_verify_initrd(debug, PartitionName::InitrdDebug, len) is Err,
    ensures
        spec_verify_payload(kernel, Some(len), normal, debug, key) is Err,
        spec_kernel_metadata(kernel) is Ok ==> spec_verify_payload(
            kernel,
            Some(len),
            normal,
            debug,
            key,
        ) == Err::<BootDataModel, PvmfwVerifyError>(
            PvmfwVerifyError::AvbSlotVerifyError(SlotVerifyError::Verification),
        ),
        forall|data: SlotVerifyData, p: PartitionName|
            data.partition_data@.len() == 1 && data.partition_data@[0].data_len != len
                ==> #[trigger] spec_verify_initrd(Ok(data), p, len) is Err,
{
}

impl BootDataModel {
    /// Whether the boot data is that of a payload with an initrd or without one:
    /// the digests are SHA-256 digests, the initrd digest is there if and only if
    /// there is an initrd, the page size is a multiple of 4 KiB other than zero,
    /// no capability occurs twice, and a payload without an initrd cannot be
    /// debugged.
    pub open spec fn wf(self, has_initrd: bool) -> bool {
        &&& self.kernel_digest.len() == 32
        &&& self.initrd_digest is Some <==> has_initrd
        &&& self.initrd_digest matches Some(digest) ==> digest.len() == 32
        &&& self.page_size matches Some(size) ==> size != 0 && size % 4096 == 0
        &&& self.capabilities.no_duplicates()
        &&& !has_initrd ==> self.debug_level == DebugLevel::NotDebuggable
    }
}

/// The boot data of a payload that is accepted is well-formed.
pub proof fn lemma_boot_data_well_formed(
    kernel: SlotVerifyResult,
    initrd_len: Option<usize>,
    normal: SlotVerifyResult,
    debug: SlotVerifyResult,
    key: Seq<u8>,
)
    requires
        spec_verify_payload(kernel, initrd_len, normal, debug, key) is Ok,
    ensures
        spec_verify_payload(kernel, initrd_len, normal, debug, key)->Ok_0.wf(initrd_len is Some),
        spec_verify_payload(kernel, initrd_len, normal, debug, key)->Ok_0.public_key == key,
{
    let properties = kernel->Ok_0.vbmeta_data@[0].properties@;
    match spec_property_value(properties, capability_key()) {
        Some(value) => {
            lemma_from_names_distinct(spec_split(value, SEPARATOR));
        },
        None => {},
    }
}

} // verus!
