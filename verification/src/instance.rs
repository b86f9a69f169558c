//! The records of the instance image, which binds a DICE lineage to the payload
//! that it was first booted with.

use crate::dice::{DiceMode, Hidden, PartialInputs};
use vstd::bytes::{
    lemma_auto_spec_u64_to_from_le_bytes, spec_u64_from_le_bytes, spec_u64_to_le_bytes,
    u64_from_le_bytes, u64_to_le_bytes,
};
use vstd::prelude::*;
use vstd::slice::slice_subrange;
use vstd::string::StringSliceAdditionalSpecFns;

verus! {

/// A failure around the instance image.
#[derive(Clone, Copy, Debug, PartialEq, Eq, Structural)]
pub enum Error {
    /// The instance image could not be read or written.
    FailedIo,
    /// The instance image could not be opened.
    FailedOpen,
    /// The header of the instance image is invalid.
    InvalidInstanceImageHeader,
    /// There is no instance image.
    MissingInstanceImage,
    /// The instance image has no header.
    MissingInstanceImageHeader,
    /// An entry of the instance image has a size that is not supported.
    UnsupportedEntrySize(usize),
    /// The authority hash of the record is not the one of the payload.
    RecordedAuthHashMismatch,
    /// The code hash of the record is not the one of the payload.
    RecordedCodeHashMismatch,
    /// The DICE mode of the record is not the one of the payload.
    RecordedDiceModeMismatch,
}

/// The record of a guest in the instance image.
#[derive(Clone, Copy, Debug, PartialEq, Eq)]
pub struct EntryBody {
    /// The code hash of the payload that the record was made for.
    pub code_hash: crate::dice::Hash,
    /// The authority hash of the payload that the record was made for.
    pub auth_hash: crate::dice::Hash,
    /// The salt of the instance.
    pub salt: Hidden,
    /// The DICE mode of the payload that the record was made for, as a number.
    pub mode: u8,
}

/// The number that a DICE mode is recorded as.
pub open spec fn spec_mode_number(mode: DiceMode) -> u8 {
    match mode {
        DiceMode::NotInitialized => 0,
        DiceMode::Normal => 1,
        DiceMode::Debug => 2,
        DiceMode::Maintenance => 3,
    }
}

/// The DICE mode that a number is read back as. A number that stands for no mode
/// is read as the mode that is not set.
pub open spec fn spec_mode_of(number: u8) -> DiceMode {
    if number == 1 {
        DiceMode::Normal
    } else if number == 2 {
        DiceMode::Debug
    } else if number == 3 {
        DiceMode::Maintenance
    } else {
        DiceMode::NotInitialized
    }
}

/// A mode is read back as it was recorded.
pub proof fn lemma_mode_round_trip(mode: DiceMode)
    ensures
        spec_mode_of(spec_mode_number(mode)) == mode,
{
}

impl EntryBody {
    /// The DICE mode of the record.
    pub open spec fn spec_mode(self) -> DiceMode {
        spec_mode_of(self.mode)
    }

    /// The record of a guest with the given DICE inputs and salt.
    pub fn new(dice_inputs: &PartialInputs, salt: &Hidden) -> (r: Self)
        ensures
            r.code_hash == dice_inputs.code_hash,
            r.auth_hash == dice_inputs.auth_hash,
            r.salt == *salt,
            r.mode == spec_mode_number(dice_inputs.mode),
    {
        let mode: u8 = match dice_inputs.mode {
            DiceMode::NotInitialized => 0,
            DiceMode::Normal => 1,
            DiceMode::Debug => 2,
            DiceMode::Maintenance => 3,
        };
        Self {
            code_hash: dice_inputs.code_hash,
            auth_hash: dice_inputs.auth_hash,
            salt: *salt,
            mode,
        }
    }

    /// The DICE mode of the record.
    pub fn mode(&self) -> (r: DiceMode)
        ensures
            r == self.spec_mode(),
    {
        if self.mode == 1 {
            DiceMode::Normal
        } else if self.mode == 2 {
            DiceMode::Debug
        } else if self.mode == 3 {
            DiceMode::Maintenance
        } else {
            DiceMode::NotInitialized
        }
    }
}

/// Whether two arrays hold the same bytes.
pub fn hash_eq(a: &[u8; 64], b: &[u8; 64]) -> (r: bool)
    ensures
        r == (a@ == b@),
{
    let mut i: usize = 0;
    while i < 64
        invariant
            i <= 64,
            forall|j: int| 0 <= j < i ==> a@[j] == b@[j],
        decreases 64 - i,
    {
        if a[i] != b[i] {
            return false;
        }
        i += 1;
    }
    assert(a@ =~= b@);
    true
}

/// The size of a block of the instance image, in bytes.
pub const BLK_SIZE: usize = 512;

/// The size of a record, in bytes: the code hash, the authority hash, the salt
/// and the DICE mode.
pub const ENTRY_BODY_SIZE: usize = 193;

/// The size of the header of an entry, in bytes: the identifier of the owner of
/// the entry and the size of the payload.
pub const ENTRY_HEADER_SIZE: usize = 24;

/// The size of the header of the instance image, in bytes: the magic string and
/// the version.
pub const IMAGE_HEADER_SIZE: usize = 21;

/// The version of the instance image that the firmware reads.
pub const IMAGE_VERSION: u16 = 1;

/// The magic string at the head of the instance image.
pub open spec fn image_magic() -> Seq<u8> {
    "Android-VM-instance".spec_bytes()
}

/// The identifier of the entry of the firmware:
/// 90d2174a-038a-4bc6-adf3-824be69f943d.
pub const PVMFW_UUID: [u8; 16] = [
    0x90, 0xd2, 0x17, 0x4a, 0x03, 0x8a, 0x4b, 0xc6, 0xad, 0xf3, 0x82, 0x4b, 0xe6, 0x9f, 0x94, 0x3d,
];

/// Whether a block is the header of an instance image: the magic string, then
/// the version in little-endian order.
pub open spec fn spec_is_image_header(block: Seq<u8>) -> bool {
    &&& block.len() >= IMAGE_HEADER_SIZE
    &&& block.take(19) == image_magic()
    &&& block[19] == 1
    &&& block[20] == 0
}

/// Checks the header of the instance image.
pub fn check_image_header(block: &[u8]) -> (r: Result<(), Error>)
    ensures
        r == (if spec_is_image_header(block@) {
            Ok::<(), Error>(())
        } else {
            Err::<(), Error>(Error::InvalidInstanceImageHeader)
        }),
{
    let magic = "Android-VM-instance".as_bytes();
    proof {
        reveal_strlit("Android-VM-instance");
        vstd::string::is_ascii_spec_bytes("Android-VM-instance");
        assert(magic@.len() == 19);
    }
    if block.len() < IMAGE_HEADER_SIZE {
        return Err(Error::InvalidInstanceImageHeader);
    }
    let mut i: usize = 0;
    while i < 19
        invariant
            i <= 19,
            magic@.len() == 19,
            magic@ == image_magic(),
            block@.len() >= IMAGE_HEADER_SIZE,
            forall|j: int| 0 <= j < i ==> block@[j] == magic@[j],
        decreases 19 - i,
    {
        if block[i] != magic[i] {
            assert(block@.take(19)[i as int] != image_magic()[i as int]);
            return Err(Error::InvalidInstanceImageHeader);
        }
        i += 1;
    }
    assert(block@.take(19) =~= image_magic());
    if block[19] == 1 && block[20] == 0 {
        Ok(())
    } else {
        Err(Error::InvalidInstanceImageHeader)
    }
}

/// What the header of an entry says of the search for the entry of the firmware.
#[derive(Clone, Copy, Debug, PartialEq, Eq, Structural)]
pub enum Scan {
    /// The entry of the firmware, with the size of its payload.
    Existing(u64),
    /// The first entry that is free: the firmware has no entry yet.
    Free,
    /// The entry of another owner, with the number of blocks of its payload,
    /// which are to be skipped.
    Skip(u64),
}

/// What a block that holds the header of an entry says of the search: an
/// identifier of zeros marks a free entry, the identifier of the firmware its
/// entry; any other entry is skipped with the blocks of its payload.
pub open spec fn spec_scan(block: Seq<u8>) -> Scan {
    let payload_size = spec_u64_from_le_bytes(block.subrange(16, 24));
    if block.take(16) == Seq::new(16, |i: int| 0u8) {
        Scan::Free
    } else if block.take(16) == PVMFW_UUID@ {
        Scan::Existing(payload_size as u64)
    } else {
        Scan::Skip(((payload_size + BLK_SIZE - 1) / (BLK_SIZE as int)) as u64)
    }
}

/// Reads the header of an entry for the search of the entry of the firmware.
pub fn scan_entry_header(block: &[u8]) -> (r: Scan)
    requires
        block@.len() >= ENTRY_HEADER_SIZE,
    ensures
        r == spec_scan(block@),
{
    let mut nil = true;
    let mut ours = true;
    let mut i: usize = 0;
    while i < 16
        invariant
            i <= 16,
            block@.len() >= ENTRY_HEADER_SIZE,
            nil <==> forall|j: int| 0 <= j < i ==> block@[j] == 0,
            ours <==> forall|j: int| 0 <= j < i ==> block@[j] == PVMFW_UUID@[j],
        decreases 16 - i,
    {
        if block[i] != 0 {
            nil = false;
        }
        if block[i] != PVMFW_UUID[i] {
            ours = false;
        }
        i += 1;
    }
    proof {
        let zeros = Seq::new(16, |i: int| 0u8);
        if nil {
            assert(block@.take(16) =~= zeros);
        } else {
            let j = choose|j: int| 0 <= j < 16 && block@[j] != 0;
            assert(block@.take(16)[j] != zeros[j]);
        }
        if ours {
            assert(block@.take(16) =~= PVMFW_UUID@);
        } else {
            let j = choose|j: int| 0 <= j < 16 && block@[j] != PVMFW_UUID@[j];
            assert(block@.take(16)[j] != PVMFW_UUID@[j]);
        }
    }
    let payload_size = u64_from_le_bytes(slice_subrange(block, 16, 24));
    if nil {
        Scan::Free
    } else if ours {
        Scan::Existing(payload_size)
    } else {
        let blocks = payload_size / 512 + (if payload_size % 512 == 0 {
            0
        } else {
            1
        });
        Scan::Skip(blocks)
    }
}

/// The header of the entry of the firmware, for a payload of the given size: the
/// identifier of the firmware, then the size in little-endian order.
pub open spec fn spec_entry_header(payload_size: u64) -> Seq<u8> {
    PVMFW_UUID@ + spec_u64_to_le_bytes(payload_size)
}

/// Writes the header of the entry of the firmware.
pub fn entry_header(payload_size: u64) -> (r: [u8; 24])
    ensures
        r@ == spec_entry_header(payload_size),
        spec_scan(r@) == Scan::Existing(payload_size),
{
    let size = u64_to_le_bytes(payload_size);
    let mut header = [0u8; 24];
    let mut i: usize = 0;
    while i < 16
        invariant
            i <= 16,
            forall|j: int| 0 <= j < i ==> header@[j] == PVMFW_UUID@[j],
        decreases 16 - i,
    {
        header[i] = PVMFW_UUID[i];
        i += 1;
    }
    let mut k: usize = 0;
    while k < 8
        invariant
            k <= 8,
            size@.len() == 8,
            forall|j: int| 0 <= j < 16 ==> header@[j] == PVMFW_UUID@[j],
            forall|j: int| 0 <= j < k ==> header@[16 + j] == size@[j],
        decreases 8 - k,
    {
        header[16 + k] = size[k];
        k += 1;
    }
    proof {
        lemma_auto_spec_u64_to_from_le_bytes();
        assert(header@ =~= spec_entry_header(payload_size));
        assert(header@.take(16) =~= PVMFW_UUID@);
        assert(header@.subrange(16, 24) =~= spec_u64_to_le_bytes(payload_size));
        let zeros = Seq::new(16, |i: int| 0u8);
        assert(header@.take(16)[0] != zeros[0]);
    }
    header
}

impl EntryBody {
    /// The bytes of the record: the code hash, the authority hash, the salt and
    /// the DICE mode.
    pub open spec fn spec_to_bytes(self) -> Seq<u8> {
        self.code_hash@ + self.auth_hash@ + self.salt@ + seq![self.mode]
    }

    /// The bytes of the record.
    pub fn to_bytes(&self) -> (r: [u8; 193])
        ensures
            r@ == self.spec_to_bytes(),
    {
        let mut bytes = [0u8; 193];
        let mut i: usize = 0;
        while i < 64
            invariant
                i <= 64,
                forall|j: int| 0 <= j < i ==> bytes@[j] == self.code_hash@[j],
                forall|j: int| 0 <= j < i ==> bytes@[64 + j] == self.auth_hash@[j],
                forall|j: int| 0 <= j < i ==> bytes@[128 + j] == self.salt@[j],
            decreases 64 - i,
        {
            bytes[i] = self.code_hash[i];
            bytes[64 + i] = self.auth_hash[i];
            bytes[128 + i] = self.salt[i];
            i += 1;
        }
        bytes[192] = self.mode;
        assert(bytes@ =~= self.spec_to_bytes());
        bytes
    }

    /// The record that the bytes hold, if they have the size of a record.
    pub fn from_bytes(bytes: &[u8]) -> (r: Option<Self>)
        ensures
            r is Some <==> bytes@.len() == ENTRY_BODY_SIZE,
            r matches Some(entry) ==> entry.spec_to_bytes() == bytes@,
    {
        if bytes.len() != ENTRY_BODY_SIZE {
            return None;
        }
        let mut code_hash = [0u8; 64];
        let mut auth_hash = [0u8; 64];
        let mut salt = [0u8; 64];
        let mut i: usize = 0;
        while i < 64
            invariant
                i <= 64,
                bytes@.len() == ENTRY_BODY_SIZE,
                forall|j: int| 0 <= j < i ==> code_hash@[j] == bytes@[j],
                forall|j: int| 0 <= j < i ==> auth_hash@[j] == bytes@[64 + j],
                forall|j: int| 0 <= j < i ==> salt@[j] == bytes@[128 + j],
            decreases 64 - i,
        {
            code_hash[i] = bytes[i];
            auth_hash[i] = bytes[64 + i];
            salt[i] = bytes[128 + i];
            i += 1;
        }
        let entry = EntryBody { code_hash, auth_hash, salt, mode: bytes[192] };
        assert(entry.spec_to_bytes() =~= bytes@);
        Some(entry)
    }
}

/// Checks that the payload of an entry fits one block.
pub fn check_payload_size(payload_size: u64) -> (r: Result<usize, Error>)
    ensures
        r == (if payload_size > BLK_SIZE {
            Err::<usize, Error>(
                Error::UnsupportedEntrySize(
                    if payload_size > usize::MAX {
                        usize::MAX
                    } else {
                        payload_size as usize
                    },
                ),
            )
        } else {
            Ok::<usize, Error>(payload_size as usize)
        }),
{
    if payload_size > 512 {
        // The size is reported as far as the machine can hold it.
        let reported = if payload_size > usize::MAX as u64 {
            usize::MAX
        } else {
            payload_size as usize
        };
        Err(Error::UnsupportedEntrySize(reported))
    } else {
        Ok(payload_size as usize)
    }
}

/// Records that are written as the same bytes are the same record.
pub proof fn lemma_record_bytes_injective(a: EntryBody, b: EntryBody)
    requires
        a.spec_to_bytes() == b.spec_to_bytes(),
    ensures
        a.code_hash@ == b.code_hash@,
        a.auth_hash@ == b.auth_hash@,
        a.salt@ == b.salt@,
        a.mode == b.mode,
{
    let x = a.spec_to_bytes();
    let y = b.spec_to_bytes();
    assert forall|i: int| 0 <= i < 64 implies a.code_hash@[i] == b.code_hash@[i] by {
        assert(x[i] == a.code_hash@[i] && y[i] == b.code_hash@[i]);
    }
    assert forall|i: int| 0 <= i < 64 implies a.auth_hash@[i] == b.auth_hash@[i] by {
        assert(x[64 + i] == a.auth_hash@[i] && y[64 + i] == b.auth_hash@[i]);
    }
    assert forall|i: int| 0 <= i < 64 implies a.salt@[i] == b.salt@[i] by {
        assert(x[128 + i] == a.salt@[i] && y[128 + i] == b.salt@[i]);
    }
    assert(x[192] == a.mode && y[192] == b.mode);
    assert(a.code_hash@ =~= b.code_hash@);
    assert(a.auth_hash@ =~= b.auth_hash@);
    assert(a.salt@ =~= b.salt@);
}

} // verus!
