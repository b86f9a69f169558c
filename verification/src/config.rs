//! The configuration that is appended to the firmware: a header, a table of
//! entries and the blobs of the entries.

use core::ops::Range;
use vstd::prelude::*;

verus! {

/// The size of the header, in bytes: the magic number, the version, the total
/// size and the flags, each of 32 bits.
pub const HEADER_SIZE: usize = 16;

/// The size of an entry of the table, in bytes: the offset and the size of a
/// blob, each of 32 bits.
pub const ENTRY_SIZE: usize = 8;

/// The number of entries that the firmware knows.
pub const ENTRY_COUNT: usize = 4;

/// An entry of the configuration.
#[derive(Clone, Copy, Debug, PartialEq, Eq, Structural)]
pub enum Entry {
    /// The DICE handover of the loader.
    Bcc,
    /// The debug policy.
    DebugPolicy,
    /// The device tree overlay of the assigned devices.
    VmDtbo,
    /// The reference device tree.
    VmBaseDtbo,
}

/// The version of a configuration.
#[derive(Clone, Copy, Debug, PartialEq, Eq, Structural)]
pub struct Version {
    /// The major number of the version.
    pub major: u16,
    /// The minor number of the version.
    pub minor: u16,
}

/// Why a configuration was refused.
#[derive(Debug, PartialEq, Eq)]
pub enum Error {
    /// The data is too small to hold the header or the table of entries.
    BufferTooSmall,
    /// The header does not start with the magic number.
    InvalidMagic,
    /// The version of the header is not supported.
    UnsupportedVersion(Version),
    /// The total size of the header is smaller than the header or larger than
    /// the data.
    InvalidSize(usize),
    /// A mandatory entry is missing.
    MissingEntry(Entry),
    /// An entry, with the given range, lies outside the given limits.
    EntryOutOfBounds(Entry, Range<usize>, Range<usize>),
}

/// Where the blobs of a configuration lie in its data.
#[derive(Debug, PartialEq, Eq)]
pub struct Layout {
    /// The total size of the configuration.
    pub total_size: usize,
    /// The DICE handover of the loader.
    pub bcc: Range<usize>,
    /// The debug policy, if there is one.
    pub debug_policy: Option<Range<usize>>,
    /// The device tree overlay of the assigned devices, if there is one.
    pub vm_dtbo: Option<Range<usize>>,
    /// The reference device tree, if there is one.
    pub vm_ref_dt: Option<Range<usize>>,
}

impl Entry {
    /// The position of the entry in the table.
    pub open spec fn spec_index(self) -> nat {
        match self {
            Entry::Bcc => 0,
            Entry::DebugPolicy => 1,
            Entry::VmDtbo => 2,
            Entry::VmBaseDtbo => 3,
        }
    }

    /// The entry at a position of the table.
    pub open spec fn spec_at(index: int) -> Entry {
        if index == 0 {
            Entry::Bcc
        } else if index == 1 {
            Entry::DebugPolicy
        } else if index == 2 {
            Entry::VmDtbo
        } else {
            Entry::VmBaseDtbo
        }
    }

    /// The entry at a position of the table.
    pub fn at(index: usize) -> (r: Entry)
        requires
            index < ENTRY_COUNT,
        ensures
            r == Self::spec_at(index as int),
            r.spec_index() == index,
    {
        if index == 0 {
            Entry::Bcc
        } else if index == 1 {
            Entry::DebugPolicy
        } else if index == 2 {
            Entry::VmDtbo
        } else {
            Entry::VmBaseDtbo
        }
    }
}

/// The number that the four bytes at `at` hold in little-endian order.
pub open spec fn spec_le32(bytes: Seq<u8>, at: int) -> int {
    bytes[at] as int + bytes[at + 1] as int * 0x100 + bytes[at + 2] as int * 0x1_0000 + bytes[at
        + 3] as int * 0x100_0000
}

/// The number that the two bytes at `at` hold in little-endian order.
pub open spec fn spec_le16(bytes: Seq<u8>, at: int) -> int {
    bytes[at] as int + bytes[at + 1] as int * 0x100
}

/// Whether the data starts with the magic number: `pvmf`.
pub open spec fn has_magic(bytes: Seq<u8>) -> bool {
    bytes[0] == 0x70 && bytes[1] == 0x76 && bytes[2] == 0x6d && bytes[3] == 0x66
}

/// The version of a header: the minor number, then the major number.
pub open spec fn spec_version(bytes: Seq<u8>) -> Version {
    Version { minor: spec_le16(bytes, 4) as u16, major: spec_le16(bytes, 6) as u16 }
}

/// The number of entries in the table of a configuration of the given version.
///
/// The version 1.0 has the DICE handover and the debug policy; the version 1.1
/// adds the overlay of the assigned devices, the version 1.2 the reference device
/// tree. A later version of the major version 1 is read as the version 1.2.
pub open spec fn spec_entry_count(version: Version) -> Result<usize, Error> {
    if version.major != 1 {
        Err(Error::UnsupportedVersion(version))
    } else if version.minor == 0 {
        Ok(2)
    } else if version.minor == 1 {
        Ok(3)
    } else {
        Ok(4)
    }
}

/// The range of the blob of the entry at `index` of the table, if the entry has
/// one: an entry of the size zero has none.
pub open spec fn spec_entry_range(bytes: Seq<u8>, index: int) -> Option<Range<usize>> {
    let offset = spec_le32(bytes, HEADER_SIZE + ENTRY_SIZE * index);
    let size = spec_le32(bytes, HEADER_SIZE + ENTRY_SIZE * index + 4);
    if size == 0 || offset + size > usize::MAX {
        None
    } else {
        Some(Range { start: offset as usize, end: (offset + size) as usize })
    }
}

/// The ranges of the blobs of the entries from `index` on, given the end of the
/// last blob before them, or the error of the first entry that is out of bounds.
///
/// The blobs lie between the table and the end of the configuration, in the order
/// of their entries and without overlap.
pub open spec fn spec_ranges(
    bytes: Seq<u8>,
    count: int,
    limits: Range<usize>,
    index: int,
    last_end: usize,
) -> Result<Seq<Option<Range<usize>>>, Error>
    decreases count - index,
{
    if index >= count {
        Ok(Seq::empty())
    } else {
        match spec_entry_range(bytes, index) {
            None => match spec_ranges(bytes, count, limits, index + 1, last_end) {
                Err(e) => Err(e),
                Ok(rest) => Ok(seq![None::<Range<usize>>] + rest),
            },
            Some(range) => if !(limits.start <= range.start && range.end <= limits.end) {
                Err(Error::EntryOutOfBounds(Entry::spec_at(index), range, limits))
            } else if last_end > range.start {
                Err(
                    Error::EntryOutOfBounds(
                        Entry::spec_at(index),
                        range,
                        Range { start: last_end, end: limits.end },
                    ),
                )
            } else {
                match spec_ranges(bytes, count, limits, index + 1, range.end) {
                    Err(e) => Err(e),
                    Ok(rest) => Ok(seq![Some(range)] + rest),
                }
            },
        }
    }
}

/// The range at `index` of a list of ranges, or nothing beyond its end.
pub open spec fn range_at(ranges: Seq<Option<Range<usize>>>, index: int) -> Option<Range<usize>> {
    if index < ranges.len() {
        ranges[index]
    } else {
        None
    }
}

/// The layout of a configuration of the given total size whose blobs have the
/// given ranges: the DICE handover is mandatory.
pub open spec fn spec_layout(
    total_size: usize,
    ranges: Result<Seq<Option<Range<usize>>>, Error>,
) -> Result<Layout, Error> {
    match ranges {
        Err(e) => Err(e),
        Ok(ranges) => match range_at(ranges, 0) {
            None => Err(Error::MissingEntry(Entry::Bcc)),
            Some(bcc) => Ok(
                Layout {
                    total_size,
                    bcc,
                    debug_policy: range_at(ranges, 1),
                    vm_dtbo: range_at(ranges, 2),
                    vm_ref_dt: range_at(ranges, 3),
                },
            ),
        },
    }
}

/// The layout of the configuration in `bytes`.
///
/// The data holds the header, which starts with the magic number and gives a
/// total size between its own size and that of the data, then the table of the
/// entries of its version, then the blobs. The DICE handover is mandatory.
pub open spec fn spec_parse(bytes: Seq<u8>) -> Result<Layout, Error> {
    if bytes.len() < HEADER_SIZE {
        Err(Error::BufferTooSmall)
    } else if !has_magic(bytes) {
        Err(Error::InvalidMagic)
    } else {
        let total_size = spec_le32(bytes, 8);
        if total_size < HEADER_SIZE || total_size > bytes.len() {
            Err(Error::InvalidSize(total_size as usize))
        } else {
            match spec_entry_count(spec_version(bytes)) {
                Err(e) => Err(e),
                Ok(count) => {
                    let table_end = HEADER_SIZE + ENTRY_SIZE * count;
                    if total_size < table_end {
                        Err(Error::BufferTooSmall)
                    } else {
                        let limits = Range {
                            start: table_end as usize,
                            end: total_size as usize,
                        };
                        spec_layout(
                            total_size as usize,
                            spec_ranges(bytes, count as int, limits, 0, 0),
                        )
                    }
                },
            }
        }
    }
}

/// Reads the number of 32 bits at `at`, in little-endian order.
pub fn le32(bytes: &[u8], at: usize) -> (r: u32)
    requires
        at + 4 <= bytes@.len(),
    ensures
        r == spec_le32(bytes@, at as int),
{
    let b0 = bytes[at] as u32;
    let b1 = bytes[at + 1] as u32;
    let b2 = bytes[at + 2] as u32;
    let b3 = bytes[at + 3] as u32;
    b0 + b1 * 0x100 + b2 * 0x1_0000 + b3 * 0x100_0000
}

/// Reads the version of a header.
pub fn version(bytes: &[u8]) -> (r: Version)
    requires
        bytes@.len() >= HEADER_SIZE,
    ensures
        r == spec_version(bytes@),
{
    let minor = bytes[4] as u16 + bytes[5] as u16 * 0x100;
    let major = bytes[6] as u16 + bytes[7] as u16 * 0x100;
    Version { minor, major }
}

/// The number of entries in the table of a configuration of the given version.
pub fn entry_count(version: Version) -> (r: Result<usize, Error>)
    ensures
        r == spec_entry_count(version),
{
    if version.major != 1 {
        Err(Error::UnsupportedVersion(version))
    } else if version.minor == 0 {
        Ok(2)
    } else if version.minor == 1 {
        Ok(3)
    } else {
        Ok(4)
    }
}

/// Reads the layout of the configuration in `bytes`.
pub fn parse(bytes: &[u8]) -> (r: Result<Layout, Error>)
    ensures
        r == spec_parse(bytes@),
{
    if bytes.len() < HEADER_SIZE {
        return Err(Error::BufferTooSmall);
    }
    if !(bytes[0] == 0x70 && bytes[1] == 0x76 && bytes[2] == 0x6d && bytes[3] == 0x66) {
        return Err(Error::InvalidMagic);
    }
    // The total size must not be larger than the data: no entry is then read
    // past the end of the data.
    let total_size = le32(bytes, 8) as usize;
    if total_size < HEADER_SIZE || total_size > bytes.len() {
        return Err(Error::InvalidSize(total_size));
    }
    let count = entry_count(version(bytes))?;
    let table_end = HEADER_SIZE + ENTRY_SIZE * count;
    if total_size < table_end {
        return Err(Error::BufferTooSmall);
    }
    let limits = table_end..total_size;
    let mut bcc: Option<Range<usize>> = None;
    let mut debug_policy: Option<Range<usize>> = None;
    let mut vm_dtbo: Option<Range<usize>> = None;
    let mut vm_ref_dt: Option<Range<usize>> = None;
    let mut last_end: usize = 0;
    let mut index: usize = 0;
    let ghost all = spec_ranges(bytes@, count as int, limits, 0, 0);
    let ghost mut seen: Seq<Option<Range<usize>>> = Seq::empty();
    assert(spec_parse(bytes@) == spec_layout(total_size, all));
    while index < count
        invariant
            index <= count <= ENTRY_COUNT,
            spec_parse(bytes@) == spec_layout(total_size, all),
            table_end == HEADER_SIZE + ENTRY_SIZE * count,
            table_end <= total_size <= bytes@.len(),
            limits == (Range { start: table_end, end: total_size }),
            all == spec_ranges(bytes@, count as int, limits, 0, 0),
            seen.len() == index,
            bcc == range_at(seen, 0),
            debug_policy == range_at(seen, 1),
            vm_dtbo == range_at(seen, 2),
            vm_ref_dt == range_at(seen, 3),
            match spec_ranges(bytes@, count as int, limits, index as int, last_end) {
                Err(e) => all == Err::<Seq<Option<Range<usize>>>, Error>(e),
                Ok(rest) => all == Ok::<Seq<Option<Range<usize>>>, Error>(seen + rest),
            },
        decreases count - index,
    {
        let offset = le32(bytes, HEADER_SIZE + ENTRY_SIZE * index) as usize;
        let size = le32(bytes, HEADER_SIZE + ENTRY_SIZE * index + 4) as usize;
        let found: Option<Range<usize>> = if size == 0 {
            None
        } else {
            match offset.checked_add(size) {
                Some(end) => Some(offset..end),
                None => None,
            }
        };
        assert(found == spec_entry_range(bytes@, index as int));
        if let Some(range) = &found {
            if !(limits.start <= range.start && range.end <= limits.end) {
                return Err(
                    Error::EntryOutOfBounds(Entry::at(index), range.start..range.end, limits),
                );
            }
            if last_end > range.start {
                return Err(
                    Error::EntryOutOfBounds(
                        Entry::at(index),
                        range.start..range.end,
                        last_end..limits.end,
                    ),
                );
            }
            last_end = range.end;
        }
        proof {
            let rest = spec_ranges(bytes@, count as int, limits, index + 1, last_end);
            if rest is Ok {
                assert(seen.push(found) + rest->Ok_0 =~= seen + (seq![found] + rest->Ok_0));
            }
            seen = seen.push(found);
        }
        if index == 0 {
            bcc = found;
        } else if index == 1 {
            debug_policy = found;
        } else if index == 2 {
            vm_dtbo = found;
        } else {
            vm_ref_dt = found;
        }
        index += 1;
    }
    proof {
        assert(seen + Seq::<Option<Range<usize>>>::empty() =~= seen);
    }
    match bcc {
        None => Err(Error::MissingEntry(Entry::Bcc)),
        Some(bcc) => Ok(Layout { total_size, bcc, debug_policy, vm_dtbo, vm_ref_dt }),
    }
}

/// Whether `range` is no empty range that lies between `from` and `to`.
pub open spec fn lies_between(range: Range<usize>, from: int, to: int) -> bool {
    from <= range.start < range.end <= to
}

/// The blobs of the entries from `index` on lie after the last blob before them
/// and within the limits, each after the one before it.
pub proof fn lemma_ranges_in_order(
    bytes: Seq<u8>,
    count: int,
    limits: Range<usize>,
    index: int,
    last_end: usize,
)
    requires
        0 <= index <= count,
        spec_ranges(bytes, count, limits, index, last_end) is Ok,
    ensures
        ({
            let ranges = spec_ranges(bytes, count, limits, index, last_end)->Ok_0;
            &&& ranges.len() == count - index
            &&& forall|i: int|
                0 <= i < ranges.len() && (#[trigger] ranges[i]) is Some ==> lies_between(
                    ranges[i]->Some_0,
                    limits.start as int,
                    limits.end as int,
                ) && last_end <= ranges[i]->Some_0.start
            &&& forall|i: int, j: int|
                0 <= i < j < ranges.len() && (#[trigger] ranges[i]) is Some && (
                #[trigger] ranges[j]) is Some ==> ranges[i]->Some_0.end <= ranges[j]->Some_0.start
        }),
    decreases count - index,
{
    if index < count {
        let ranges = spec_ranges(bytes, count, limits, index, last_end)->Ok_0;
        match spec_entry_range(bytes, index) {
            None => {
                lemma_ranges_in_order(bytes, count, limits, index + 1, last_end);
                let rest = spec_ranges(bytes, count, limits, index + 1, last_end)->Ok_0;
                assert forall|i: int| 0 < i < ranges.len() implies ranges[i] == rest[i - 1] by {}
            },
            Some(range) => {
                lemma_ranges_in_order(bytes, count, limits, index + 1, range.end);
                let rest = spec_ranges(bytes, count, limits, index + 1, range.end)->Ok_0;
                assert forall|i: int| 0 < i < ranges.len() implies ranges[i] == rest[i - 1] by {}
            },
        }
    }
}

/// The blobs of a configuration that is accepted lie in its data, after the
/// table of entries and up to the total size, in the order of their entries and
/// without overlap; none is empty.
pub proof fn lemma_layout_in_bounds(bytes: Seq<u8>)
    requires
        spec_parse(bytes) is Ok,
    ensures
        ({
            let layout = spec_parse(bytes)->Ok_0;
            let from = HEADER_SIZE + 2 * ENTRY_SIZE;
            let to = layout.total_size as int;
            &&& to <= bytes.len()
            &&& lies_between(layout.bcc, from, to)
            &&& layout.debug_policy matches Some(r) ==> lies_between(
                r,
                layout.bcc.end as int,
                to,
            )
            &&& layout.vm_dtbo matches Some(r) ==> lies_between(r, layout.bcc.end as int, to) && (
            layout.debug_policy matches Some(before) ==> before.end <= r.start)
            &&& layout.vm_ref_dt matches Some(r) ==> lies_between(r, layout.bcc.end as int, to)
                && (layout.debug_policy matches Some(before) ==> before.end <= r.start) && (
            layout.vm_dtbo matches Some(before) ==> before.end <= r.start)
        }),
{
    let total_size = spec_le32(bytes, 8) as usize;
    let count = spec_entry_count(spec_version(bytes))->Ok_0;
    let limits = Range { start: (HEADER_SIZE + ENTRY_SIZE * count) as usize, end: total_size };
    lemma_ranges_in_order(bytes, count as int, limits, 0, 0);
    let ranges = spec_ranges(bytes, count as int, limits, 0, 0)->Ok_0;
    assert(ranges[0] is Some);
    assert(ranges[1] == range_at(ranges, 1));
    if count > 2 {
        assert(ranges[2] == range_at(ranges, 2));
    }
    if count > 3 {
        assert(ranges[3] == range_at(ranges, 3));
    }
}

/// The size of a DICE handover that is appended to the firmware without a
/// configuration around it.
pub const LEGACY_BCC_SIZE: usize = 4096;

/// What is appended to the firmware.
#[derive(Debug, PartialEq, Eq)]
pub enum AppendedPayload {
    /// A configuration.
    Config(Layout),
    /// A bare DICE handover, as older loaders append it.
    LegacyBcc,
}

/// What the data that is appended to the firmware is taken for: a configuration
/// if it holds one; else, with `legacy`, a bare DICE handover if the data does
/// not start with the magic number of a configuration.
pub open spec fn spec_appended_payload(bytes: Seq<u8>, legacy: bool) -> Option<AppendedPayload> {
    match spec_parse(bytes) {
        Ok(layout) => Some(AppendedPayload::Config(layout)),
        Err(Error::InvalidMagic) => if legacy {
            Some(AppendedPayload::LegacyBcc)
        } else {
            None
        },
        Err(_) => None,
    }
}

impl AppendedPayload {
    /// Reads what is appended to the firmware.
    pub fn new(data: &[u8], legacy: bool) -> (r: Option<Self>)
        ensures
            r == spec_appended_payload(data@, legacy),
    {
        match parse(data) {
            Ok(valid) => Some(AppendedPayload::Config(valid)),
            Err(Error::InvalidMagic) => if legacy {
                Some(AppendedPayload::LegacyBcc)
            } else {
                None
            },
            Err(_) => None,
        }
    }

    /// Where the entries lie in the data: a bare DICE handover takes the first
    /// 4 KiB and leaves no room for another entry.
    pub open spec fn spec_entries(self) -> Layout {
        match self {
            AppendedPayload::Config(layout) => layout,
            AppendedPayload::LegacyBcc => Layout {
                total_size: LEGACY_BCC_SIZE,
                bcc: Range { start: 0, end: LEGACY_BCC_SIZE },
                debug_policy: None,
                vm_dtbo: None,
                vm_ref_dt: None,
            },
        }
    }

    /// Where the entries lie in the data.
    pub fn get_entries(self) -> (r: Layout)
        ensures
            r == self.spec_entries(),
    {
        match self {
            AppendedPayload::Config(layout) => layout,
            AppendedPayload::LegacyBcc => Layout {
                total_size: LEGACY_BCC_SIZE,
                bcc: 0..LEGACY_BCC_SIZE,
                debug_policy: None,
                vm_dtbo: None,
                vm_ref_dt: None,
            },
        }
    }
}

} // verus!
