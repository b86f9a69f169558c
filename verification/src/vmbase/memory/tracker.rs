//! The memory tracker: which regions of memory a guest has mapped.

use crate::vmbase::memory::error::MemoryTrackerError;
use core::ops::Range;
use tinyvec::ArrayVec;
use vstd::prelude::*;

verus! {

/// A range of addresses, from its start up to its end, which is left out.
pub type MemoryRange = Range<usize>;

/// How a region of main memory is mapped.
#[derive(Clone, Copy, Debug, PartialEq, Eq, Structural, Default)]
pub enum MemoryType {
    /// The region can be read.
    #[default]
    ReadOnly,
    /// The region can be read and written.
    ReadWrite,
}

/// A region of memory that is in use.
#[derive(Clone, Copy, Debug, Default, PartialEq, Eq, Structural)]
pub struct MemoryRegion {
    /// The first address of the region.
    pub start: usize,
    /// The first address after the region.
    pub end: usize,
    /// How the region is mapped.
    pub mem_type: MemoryType,
}

impl MemoryRegion {
    /// The addresses of the region.
    pub open spec fn spec_range(self) -> MemoryRange {
        Range { start: self.start, end: self.end }
    }

    /// The addresses of the region.
    pub fn range(&self) -> (r: MemoryRange)
        ensures
            r == self.spec_range(),
    {
        self.start..self.end
    }
}

/// The number of regions of main memory that the tracker can hold.
pub const CAPACITY: usize = 5;

/// The number of regions of MMIO that the tracker can hold.
pub const MMIO_CAPACITY: usize = 5;

/// A vector of `tinyvec` that is backed by an array, opaque to the verifier.
#[verifier::external_type_specification]
#[verifier::external_body]
#[verifier::reject_recursive_types(A)]
pub struct ExArrayVec<A>(ArrayVec<A>);

/// The regions that a vector of regions holds, in the order in which they were
/// pushed.
pub uninterp spec fn regions_of(v: ArrayVec<[MemoryRegion; 5]>) -> Seq<MemoryRegion>;

/// Calls `ArrayVec::new`: a vector that holds nothing.
#[verifier::external_body]
pub(crate) fn regions_new() -> (v: ArrayVec<[MemoryRegion; 5]>)
    ensures
        regions_of(v) == Seq::<MemoryRegion>::empty(),
{
    ArrayVec::new()
}

/// Calls `ArrayVec::as_slice`: what the vector holds.
#[verifier::external_body]
pub(crate) fn regions_as_slice(v: &ArrayVec<[MemoryRegion; 5]>) -> (r: &[MemoryRegion])
    ensures
        r@ == regions_of(*v),
{
    v.as_slice()
}

/// Calls `ArrayVec::try_push`: the value is pushed if the vector holds less than
/// the five items of its array, else it is handed back.
#[verifier::external_body]
pub(crate) fn regions_try_push(v: &mut ArrayVec<[MemoryRegion; 5]>, region: MemoryRegion) -> (r:
    Option<MemoryRegion>)
    ensures
        regions_of(*old(v)).len() < 5 ==> r is None && regions_of(*final(v)) == regions_of(
            *old(v),
        ).push(region),
        regions_of(*old(v)).len() >= 5 ==> r == Some(region) && regions_of(*final(v))
            == regions_of(*old(v)),
{
    v.try_push(region)
}

/// The range of the `size` bytes at `addr`.
pub open spec fn spec_range_of(addr: usize, size: usize) -> MemoryRange {
    Range { start: addr, end: (addr + size) as usize }
}

/// Whether `inner` lies within `outer`.
pub open spec fn spec_is_within(inner: MemoryRange, outer: MemoryRange) -> bool {
    outer.start <= inner.start && inner.end <= outer.end
}

/// Whether two ranges have an address in common.
pub open spec fn spec_overlaps(a: MemoryRange, b: MemoryRange) -> bool {
    (if a.start >= b.start {
        a.start
    } else {
        b.start
    }) < (if a.end <= b.end {
        a.end
    } else {
        b.end
    })
}

/// Whether `inner` lies within `outer`.
pub fn is_within(inner: &MemoryRange, outer: &MemoryRange) -> (r: bool)
    ensures
        r == spec_is_within(*inner, *outer),
{
    outer.start <= inner.start && inner.end <= outer.end
}

/// Whether two ranges have an address in common.
pub fn overlaps(a: &MemoryRange, b: &MemoryRange) -> (r: bool)
    ensures
        r == spec_overlaps(*a, *b),
{
    let start = if a.start >= b.start {
        a.start
    } else {
        b.start
    };
    let end = if a.end <= b.end {
        a.end
    } else {
        b.end
    };
    start < end
}

/// Whether `addr` lies in `range`.
pub open spec fn holds(range: MemoryRange, addr: int) -> bool {
    range.start <= addr < range.end
}

/// Two ranges overlap if and only if some address lies in both.
pub proof fn lemma_overlaps(a: MemoryRange, b: MemoryRange)
    ensures
        spec_overlaps(a, b) <==> exists|addr: int| #[trigger] holds(a, addr) && holds(b, addr),
{
    if spec_overlaps(a, b) {
        let start = if a.start >= b.start {
            a.start
        } else {
            b.start
        };
        assert(holds(a, start as int) && holds(b, start as int));
    }
}

/// Whether `range` overlaps with one of `regions`.
pub open spec fn overlaps_any(regions: Seq<MemoryRegion>, range: MemoryRange) -> bool {
    exists|i: int|
        0 <= i < regions.len() && spec_overlaps(range, (#[trigger] regions[i]).spec_range())
}

/// Whether no two of `regions` overlap.
pub open spec fn pairwise_disjoint(regions: Seq<MemoryRegion>) -> bool {
    forall|i: int, j: int|
        0 <= i < j < regions.len() ==> !spec_overlaps(
            (#[trigger] regions[i]).spec_range(),
            (#[trigger] regions[j]).spec_range(),
        )
}

/// Whether all of `regions` lie within `range`.
pub open spec fn all_within(regions: Seq<MemoryRegion>, range: MemoryRange) -> bool {
    forall|i: int|
        0 <= i < regions.len() ==> spec_is_within((#[trigger] regions[i]).spec_range(), range)
}

/// Whether a region of the given range can be added to `regions`: it must
/// overlap with none of them, and they must be fewer than the tracker can hold.
pub open spec fn spec_check_no_overlap(regions: Seq<MemoryRegion>, range: MemoryRange) -> Result<
    (),
    MemoryTrackerError,
> {
    if overlaps_any(regions, range) {
        Err(MemoryTrackerError::Overlaps)
    } else if regions.len() >= CAPACITY {
        Err(MemoryTrackerError::Full)
    } else {
        Ok(())
    }
}

/// Whether a region of the given range can be allocated: it must lie within
/// `within`, and it must be possible to add it to `regions`.
pub open spec fn spec_check_allocatable(
    within: MemoryRange,
    regions: Seq<MemoryRegion>,
    range: MemoryRange,
) -> Result<(), MemoryTrackerError> {
    if !spec_is_within(range, within) {
        Err(MemoryTrackerError::OutOfRange)
    } else {
        spec_check_no_overlap(regions, range)
    }
}

/// Whether the main memory can be resized to `range`: the memory must start where
/// it started, must not grow, and must still hold every region that is in use.
pub open spec fn spec_shrink(
    total: MemoryRange,
    regions: Seq<MemoryRegion>,
    range: MemoryRange,
) -> Result<(), MemoryTrackerError> {
    if range.start != total.start {
        Err(MemoryTrackerError::DifferentBaseAddress)
    } else if total.end < range.end {
        Err(MemoryTrackerError::SizeTooLarge)
    } else if !all_within(regions, range) {
        Err(MemoryTrackerError::SizeTooSmall)
    } else {
        Ok(())
    }
}

/// What the memory tracker keeps track of.
pub struct TrackerModel {
    /// The main memory.
    pub total: MemoryRange,
    /// The regions of main memory that are in use.
    pub regions: Seq<MemoryRegion>,
    /// The regions of MMIO that are in use.
    pub mmio_regions: Seq<MemoryRegion>,
    /// The memory that MMIO lies in.
    pub mmio_range: MemoryRange,
    /// Whether the footer of the image is mapped.
    pub image_footer_mapped: bool,
}

impl TrackerModel {
    /// The tracker with one more region of main memory.
    pub open spec fn with_region(self, region: MemoryRegion) -> TrackerModel {
        TrackerModel { regions: self.regions.push(region), ..self }
    }

    /// The tracker with the footer of the image mapped.
    pub open spec fn with_footer(self) -> TrackerModel {
        TrackerModel { image_footer_mapped: true, ..self }
    }

    /// Whether the footer of the image can be mapped: it can be mapped once.
    pub open spec fn spec_check_footer(self) -> Result<(), MemoryTrackerError> {
        if self.image_footer_mapped {
            Err(MemoryTrackerError::FooterAlreadyMapped)
        } else {
            Ok(())
        }
    }

    /// The tracker with one more region of MMIO.
    pub open spec fn with_mmio_region(self, region: MemoryRegion) -> TrackerModel {
        TrackerModel { mmio_regions: self.mmio_regions.push(region), ..self }
    }
}

/// Tracks the regions of memory that a guest has mapped.
pub struct MemoryTracker {
    /// The main memory.
    pub total: MemoryRange,
    /// The regions of main memory that are in use.
    pub regions: ArrayVec<[MemoryRegion; 5]>,
    /// The regions of MMIO that are in use.
    pub mmio_regions: ArrayVec<[MemoryRegion; 5]>,
    /// The memory that MMIO lies in.
    pub mmio_range: MemoryRange,
    /// Whether the footer of the image is mapped.
    pub image_footer_mapped: bool,
}

impl View for MemoryTracker {
    type V = TrackerModel;

    open spec fn view(&self) -> TrackerModel {
        TrackerModel {
            total: self.total,
            regions: regions_of(self.regions),
            mmio_regions: regions_of(self.mmio_regions),
            mmio_range: self.mmio_range,
            image_footer_mapped: self.image_footer_mapped,
        }
    }
}

/// Whether `r` is what the allocation of `range` yields for a tracker that held
/// `before` and holds `after`, where the region is one more of `regions` and is
/// mapped by `map`, which yielded `mapped` if it was asked.
///
/// A region that cannot be allocated is not mapped, and one that cannot be mapped
/// is not added: on any failure the tracker is as it was.
pub open spec fn is_allocation<M: FnOnce(MemoryRange) -> Result<(), ()>>(
    r: Result<MemoryRange, MemoryTrackerError>,
    checked: Result<(), MemoryTrackerError>,
    range: MemoryRange,
    map: M,
    mapped: Result<(), ()>,
    before: TrackerModel,
    after: TrackerModel,
    added: TrackerModel,
) -> bool {
    match checked {
        Err(e) => r == Err::<MemoryRange, MemoryTrackerError>(e) && after == before,
        Ok(()) => {
            &&& call_ensures(map, (range,), mapped)
            &&& match mapped {
                Err(()) => r == Err::<MemoryRange, MemoryTrackerError>(
                    MemoryTrackerError::FailedToMap,
                ) && after == before,
                Ok(()) => r == Ok::<MemoryRange, MemoryTrackerError>(range) && after == added,
            }
        },
    }
}

impl MemoryTracker {
    /// Whether the tracker is consistent: no two regions of main memory overlap,
    /// no two regions of MMIO overlap, every region of MMIO lies in the memory
    /// for MMIO, and that memory does not overlap with the main memory.
    pub open spec fn wf(self) -> bool {
        &&& pairwise_disjoint(self@.regions)
        &&& pairwise_disjoint(self@.mmio_regions)
        &&& all_within(self@.mmio_regions, self.mmio_range)
        &&& !spec_overlaps(self.total, self.mmio_range)
        &&& self@.regions.len() <= CAPACITY
        &&& self@.mmio_regions.len() <= MMIO_CAPACITY
    }

    /// Creates a tracker of the main memory `total`, with MMIO in `mmio_range`.
    /// The two must not overlap.
    pub fn new(total: MemoryRange, mmio_range: MemoryRange) -> (r: Self)
        requires
            !spec_overlaps(total, mmio_range),
        ensures
            r.wf(),
            r@ == (TrackerModel {
                total,
                regions: Seq::<MemoryRegion>::empty(),
                mmio_regions: Seq::<MemoryRegion>::empty(),
                mmio_range,
                image_footer_mapped: false,
            }),
    {
        Self {
            total,
            regions: regions_new(),
            mmio_regions: regions_new(),
            mmio_range,
            image_footer_mapped: false,
        }
    }

    /// Resizes the main memory.
    ///
    /// This fails if a region that is in use does not lie within the new memory.
    pub fn shrink(&mut self, range: &MemoryRange) -> (r: Result<(), MemoryTrackerError>)
        requires
            old(self).wf(),
        ensures
            final(self).wf(),
            r == spec_shrink(old(self).total, old(self)@.regions, *range),
            final(self)@ == (match r {
                Ok(()) => TrackerModel { total: *range, ..old(self)@ },
                Err(_) => old(self)@,
            }),
    {
        if range.start != self.total.start {
            return Err(MemoryTrackerError::DifferentBaseAddress);
        }
        if self.total.end < range.end {
            return Err(MemoryTrackerError::SizeTooLarge);
        }
        let regions = regions_as_slice(&self.regions);
        let mut i: usize = 0;
        while i < regions.len()
            invariant
                i <= regions.len(),
                *self == *old(self),
                self.wf(),
                range.start == self.total.start,
                self.total.end >= range.end,
                regions@ == regions_of(self.regions),
                all_within(regions@.take(i as int), *range),
            decreases regions.len() - i,
        {
            if !is_within(&regions[i].range(), range) {
                return Err(MemoryTrackerError::SizeTooSmall);
            }
            assert forall|j: int| 0 <= j < i + 1 implies spec_is_within(
                (#[trigger] regions@.take(i + 1)[j]).spec_range(),
                *range,
            ) by {
                if j < i {
                    assert(regions@.take(i as int)[j] == regions@[j]);
                }
            }
            i += 1;
        }
        assert(regions@.take(i as int) =~= regions@);
        self.total = range.start..range.end;
        Ok(())
    }

    /// Resizes the main memory that is available.
    pub fn resize_available_memory(&mut self, memory_range: &MemoryRange) -> (r: Result<
        (),
        MemoryTrackerError,
    >)
        requires
            old(self).wf(),
        ensures
            final(self).wf(),
            r == spec_shrink(old(self).total, old(self)@.regions, *memory_range),
            final(self)@ == (match r {
                Ok(()) => TrackerModel { total: *memory_range, ..old(self)@ },
                Err(_) => old(self)@,
            }),
    {
        self.shrink(memory_range)
    }

    /// Checks that a region of the given range would overlap with none of those
    /// in `regions`, and that there is room for it.
    pub fn check_no_overlap(regions: &ArrayVec<[MemoryRegion; 5]>, range: &MemoryRange) -> (r:
        Result<(), MemoryTrackerError>)
        ensures
            r == spec_check_no_overlap(regions_of(*regions), *range),
    {
        let held = regions_as_slice(regions);
        let mut i: usize = 0;
        while i < held.len()
            invariant
                i <= held.len(),
                held@ == regions_of(*regions),
                !overlaps_any(held@.take(i as int), *range),
            decreases held.len() - i,
        {
            if overlaps(range, &held[i].range()) {
                assert(spec_overlaps(*range, held@[i as int].spec_range()));
                return Err(MemoryTrackerError::Overlaps);
            }
            assert forall|j: int| 0 <= j < i + 1 implies !spec_overlaps(
                *range,
                (#[trigger] held@.take(i + 1)[j]).spec_range(),
            ) by {
                if j < i {
                    assert(held@.take(i as int)[j] == held@[j]);
                }
            }
            i += 1;
        }
        assert(held@.take(i as int) =~= held@);
        if held.len() >= CAPACITY {
            return Err(MemoryTrackerError::Full);
        }
        Ok(())
    }

    /// Checks that a region of main memory of the given range can be allocated:
    /// that it lies within the main memory, overlaps with no region that is in
    /// use, and that there is room for it.
    pub fn check_allocatable(&self, range: &MemoryRange) -> (r: Result<(), MemoryTrackerError>)
        ensures
            r == spec_check_allocatable(self.total, self@.regions, *range),
    {
        if !is_within(range, &self.total) {
            return Err(MemoryTrackerError::OutOfRange);
        }
        Self::check_no_overlap(&self.regions, range)
    }

    /// Adds a region of main memory that was checked.
    fn add(&mut self, region: MemoryRegion) -> (r: Result<MemoryRange, MemoryTrackerError>)
        requires
            old(self).wf(),
            spec_check_no_overlap(old(self)@.regions, region.spec_range()) is Ok,
        ensures
            final(self).wf(),
            r == Ok::<MemoryRange, MemoryTrackerError>(region.spec_range()),
            final(self)@ == old(self)@.with_region(region),
    {
        let ghost before = self@.regions;
        if regions_try_push(&mut self.regions, region).is_some() {
            return Err(MemoryTrackerError::Full);
        }
        proof {
            lemma_disjoint_push(before, region);
        }
        Ok(region.range())
    }

    /// Allocates the range of main memory `range` for a region that is mapped as
    /// `mem_type` by `map`.
    pub fn alloc_range<M: FnOnce(MemoryRange) -> Result<(), ()>>(
        &mut self,
        range: &MemoryRange,
        mem_type: MemoryType,
        map: M,
    ) -> (r: Result<MemoryRange, MemoryTrackerError>)
        requires
            old(self).wf(),
            call_requires(map, (*range,)),
        ensures
            final(self).wf(),
            exists|mapped: Result<(), ()>|
                #[trigger] is_allocation(
                    r,
                    spec_check_allocatable(old(self).total, old(self)@.regions, *range),
                    *range,
                    map,
                    mapped,
                    old(self)@,
                    final(self)@,
                    old(self)@.with_region(
                        MemoryRegion { start: range.start, end: range.end, mem_type },
                    ),
                ),
    {
        let ghost before = self@;
        let ghost checked = spec_check_allocatable(self.total, self@.regions, *range);
        let region = MemoryRegion { start: range.start, end: range.end, mem_type };
        let ghost added = self@.with_region(region);
        if let Err(e) = self.check_allocatable(range) {
            let r = Err(e);
            assert(is_allocation(r, checked, *range, map, Ok(()), before, self@, added));
            return r;
        }
        let mapped = map(range.start..range.end);
        if mapped.is_err() {
            let r = Err(MemoryTrackerError::FailedToMap);
            assert(is_allocation(r, checked, *range, map, mapped, before, self@, added));
            return r;
        }
        let r = self.add(region);
        assert((Range { start: range.start, end: range.end }) == *range);
        assert(is_allocation(r, checked, *range, map, mapped, before, self@, added));
        r
    }

    /// Maps the `size` bytes at `addr` as data that can be written, and whose
    /// changes are tracked until they are flushed.
    pub fn map_data<M: FnOnce(MemoryRange) -> Result<(), ()>>(
        &mut self,
        addr: usize,
        size: usize,
        map_data_dbm: M,
    ) -> (r: Result<(), MemoryTrackerError>)
        requires
            old(self).wf(),
            addr + size <= usize::MAX,
            call_requires(map_data_dbm, (spec_range_of(addr, size),)),
        ensures
            final(self).wf(),
            exists|allocated: Result<MemoryRange, MemoryTrackerError>, mapped: Result<(), ()>|
                #[trigger] is_mapped(
                    r,
                    allocated,
                    *old(self),
                    *final(self),
                    addr,
                    size,
                    MemoryType::ReadWrite,
                    map_data_dbm,
                    mapped,
                ),
    {
        self.map_region(addr, size, MemoryType::ReadWrite, map_data_dbm)
    }

    /// Maps the `size` bytes at `addr` as data that can be written, and whose
    /// changes are not tracked.
    pub fn map_data_noflush<M: FnOnce(MemoryRange) -> Result<(), ()>>(
        &mut self,
        addr: usize,
        size: usize,
        map_data: M,
    ) -> (r: Result<(), MemoryTrackerError>)
        requires
            old(self).wf(),
            addr + size <= usize::MAX,
            call_requires(map_data, (spec_range_of(addr, size),)),
        ensures
            final(self).wf(),
            exists|allocated: Result<MemoryRange, MemoryTrackerError>, mapped: Result<(), ()>|
                #[trigger] is_mapped(
                    r,
                    allocated,
                    *old(self),
                    *final(self),
                    addr,
                    size,
                    MemoryType::ReadWrite,
                    map_data,
                    mapped,
                ),
    {
        self.map_region(addr, size, MemoryType::ReadWrite, map_data)
    }

    /// Maps the `size` bytes at `addr` as data that can only be read.
    pub fn map_rodata<M: FnOnce(MemoryRange) -> Result<(), ()>>(
        &mut self,
        addr: usize,
        size: usize,
        map_rodata: M,
    ) -> (r: Result<(), MemoryTrackerError>)
        requires
            old(self).wf(),
            addr + size <= usize::MAX,
            call_requires(map_rodata, (spec_range_of(addr, size),)),
        ensures
            final(self).wf(),
            exists|allocated: Result<MemoryRange, MemoryTrackerError>, mapped: Result<(), ()>|
                #[trigger] is_mapped(
                    r,
                    allocated,
                    *old(self),
                    *final(self),
                    addr,
                    size,
                    MemoryType::ReadOnly,
                    map_rodata,
                    mapped,
                ),
    {
        self.map_region(addr, size, MemoryType::ReadOnly, map_rodata)
    }

    /// Maps the `size` bytes at `addr` as a region of main memory.
    pub fn map_region<M: FnOnce(MemoryRange) -> Result<(), ()>>(
        &mut self,
        addr: usize,
        size: usize,
        mem_type: MemoryType,
        map: M,
    ) -> (r: Result<(), MemoryTrackerError>)
        requires
            old(self).wf(),
            addr + size <= usize::MAX,
            call_requires(map, (spec_range_of(addr, size),)),
        ensures
            final(self).wf(),
            exists|allocated: Result<MemoryRange, MemoryTrackerError>, mapped: Result<(), ()>|
                #[trigger] is_mapped(
                    r,
                    allocated,
                    *old(self),
                    *final(self),
                    addr,
                    size,
                    mem_type,
                    map,
                    mapped,
                ),
    {
        let ghost before = *self;
        let range = addr..addr + size;
        let allocated = self.alloc_range(&range, mem_type, map);
        let r = match allocated {
            Ok(_) => Ok(()),
            Err(e) => Err(e),
        };
        proof {
            let mapped = choose|mapped: Result<(), ()>|
                is_allocation(
                    allocated,
                    spec_check_allocatable(before.total, before@.regions, range),
                    range,
                    map,
                    mapped,
                    before@,
                    self@,
                    before@.with_region(MemoryRegion { start: addr, end: range.end, mem_type }),
                );
            assert(is_mapped(r, allocated, before, *self, addr, size, mem_type, map, mapped));
        }
        r
    }

    /// Checks that the range lies in the memory for MMIO and maps it as a device.
    ///
    /// The range is mapped by `map_device_lazy` under an MMIO guard, which maps a
    /// page when it is first used, and by `map_device` else.
    pub fn map_mmio_range<
        L: FnOnce(MemoryRange) -> Result<(), ()>,
        D: FnOnce(MemoryRange) -> Result<(), ()>,
    >(
        &mut self,
        range: MemoryRange,
        mmio_guard: bool,
        map_device_lazy: L,
        map_device: D,
    ) -> (r: Result<(), MemoryTrackerError>)
        requires
            old(self).wf(),
            call_requires(map_device_lazy, (range,)),
            call_requires(map_device, (range,)),
        ensures
            final(self).wf(),
            exists|mapped: Result<(), ()>|
                #[trigger] is_mmio_mapped(
                    r,
                    *old(self),
                    *final(self),
                    range,
                    mmio_guard,
                    map_device_lazy,
                    map_device,
                    mapped,
                ),
    {
        let ghost before = *self;
        let region = MemoryRegion {
            start: range.start,
            end: range.end,
            mem_type: MemoryType::ReadWrite,
        };
        assert(region.spec_range() == range);
        if !is_within(&range, &self.mmio_range) {
            let r = Err(MemoryTrackerError::OutOfRange);
            assert(is_mmio_mapped(
                r,
                before,
                *self,
                range,
                mmio_guard,
                map_device_lazy,
                map_device,
                Ok(()),
            ));
            return r;
        }
        if let Err(e) = Self::check_no_overlap(&self.mmio_regions, &range) {
            let r = Err(e);
            assert(is_mmio_mapped(
                r,
                before,
                *self,
                range,
                mmio_guard,
                map_device_lazy,
                map_device,
                Ok(()),
            ));
            return r;
        }
        let mapped = if mmio_guard {
            map_device_lazy(range.start..range.end)
        } else {
            map_device(range.start..range.end)
        };
        assert((Range { start: range.start, end: range.end }) == range);
        if mapped.is_err() {
            let r = Err(MemoryTrackerError::FailedToMap);
            assert(is_mmio_mapped(
                r,
                before,
                *self,
                range,
                mmio_guard,
                map_device_lazy,
                map_device,
                mapped,
            ));
            return r;
        }
        let ghost held = self@.mmio_regions;
        if regions_try_push(&mut self.mmio_regions, region).is_some() {
            return Err(MemoryTrackerError::Full);
        }
        proof {
            lemma_disjoint_push(held, region);
            assert forall|i: int| 0 <= i < self@.mmio_regions.len() implies spec_is_within(
                (#[trigger] self@.mmio_regions[i]).spec_range(),
                self.mmio_range,
            ) by {
                if i < held.len() {
                    assert(self@.mmio_regions[i] == held[i]);
                }
            }
        }
        let r = Ok(());
        assert(is_mmio_mapped(
            r,
            before,
            *self,
            range,
            mmio_guard,
            map_device_lazy,
            map_device,
            mapped,
        ));
        r
    }

    /// Maps the `size` bytes at `addr` as a device.
    pub fn map_device<
        L: FnOnce(MemoryRange) -> Result<(), ()>,
        D: FnOnce(MemoryRange) -> Result<(), ()>,
    >(
        &mut self,
        addr: usize,
        size: usize,
        mmio_guard: bool,
        map_device_lazy: L,
        map_device: D,
    ) -> (r: Result<(), MemoryTrackerError>)
        requires
            old(self).wf(),
            addr + size <= usize::MAX,
            call_requires(map_device_lazy, (spec_range_of(addr, size),)),
            call_requires(map_device, (spec_range_of(addr, size),)),
        ensures
            final(self).wf(),
            exists|mapped: Result<(), ()>|
                #[trigger] is_mmio_mapped(
                    r,
                    *old(self),
                    *final(self),
                    spec_range_of(addr, size),
                    mmio_guard,
                    map_device_lazy,
                    map_device,
                    mapped,
                ),
    {
        let range = addr..(addr + size);
        self.map_mmio_range(range, mmio_guard, map_device_lazy, map_device)
    }

    /// Maps the footer of the image, which lies at `footer`, as data that can be
    /// written. The footer can be mapped once.
    pub fn map_image_footer<M: FnOnce(MemoryRange) -> Result<(), ()>>(
        &mut self,
        footer: MemoryRange,
        map_data_dbm: M,
    ) -> (r: Result<MemoryRange, MemoryTrackerError>)
        requires
            old(self).wf(),
            call_requires(map_data_dbm, (footer,)),
        ensures
            final(self).wf(),
            exists|mapped: Result<(), ()>|
                #[trigger] is_allocation(
                    r,
                    old(self)@.spec_check_footer(),
                    footer,
                    map_data_dbm,
                    mapped,
                    old(self)@,
                    final(self)@,
                    old(self)@.with_footer(),
                ),
    {
        let ghost before = self@;
        let ghost added = self@.with_footer();
        let ghost checked = self@.spec_check_footer();
        if self.image_footer_mapped {
            let r = Err(MemoryTrackerError::FooterAlreadyMapped);
            assert(is_allocation(r, checked, footer, map_data_dbm, Ok(()), before, self@, added));
            return r;
        }
        let mapped = map_data_dbm(footer.start..footer.end);
        assert((Range { start: footer.start, end: footer.end }) == footer);
        if mapped.is_err() {
            let r = Err(MemoryTrackerError::FailedToMap);
            assert(is_allocation(r, checked, footer, map_data_dbm, mapped, before, self@, added));
            return r;
        }
        self.image_footer_mapped = true;
        let r = Ok(footer.start..footer.end);
        assert(is_allocation(r, checked, footer, map_data_dbm, mapped, before, self@, added));
        r
    }
}

/// Whether `r` is what the mapping of the `size` bytes at `addr` as a region of
/// main memory yields, given what the allocation of their range yielded.
pub open spec fn is_mapped<M: FnOnce(MemoryRange) -> Result<(), ()>>(
    r: Result<(), MemoryTrackerError>,
    allocated: Result<MemoryRange, MemoryTrackerError>,
    before: MemoryTracker,
    after: MemoryTracker,
    addr: usize,
    size: usize,
    mem_type: MemoryType,
    map: M,
    mapped: Result<(), ()>,
) -> bool {
    let range = spec_range_of(addr, size);
    &&& is_allocation(
        allocated,
        spec_check_allocatable(before.total, before@.regions, range),
        range,
        map,
        mapped,
        before@,
        after@,
        before@.with_region(MemoryRegion { start: addr, end: range.end, mem_type }),
    )
    &&& r == (match allocated {
        Ok(_) => Ok::<(), MemoryTrackerError>(()),
        Err(e) => Err::<(), MemoryTrackerError>(e),
    })
}

/// Whether `r` is what the mapping of `range` as a device yields for a tracker
/// that was `before` and is `after`.
///
/// The range must lie in the memory for MMIO and overlap with no region of MMIO
/// that is in use, and there must be room for it. It is mapped by
/// `map_device_lazy` under an MMIO guard and by `map_device` else, which yielded
/// `mapped`. On any failure the tracker is as it was.
pub open spec fn is_mmio_mapped<
    L: FnOnce(MemoryRange) -> Result<(), ()>,
    D: FnOnce(MemoryRange) -> Result<(), ()>,
>(
    r: Result<(), MemoryTrackerError>,
    before: MemoryTracker,
    after: MemoryTracker,
    range: MemoryRange,
    mmio_guard: bool,
    map_device_lazy: L,
    map_device: D,
    mapped: Result<(), ()>,
) -> bool {
    match spec_check_allocatable(before.mmio_range, before@.mmio_regions, range) {
        Err(e) => r == Err::<(), MemoryTrackerError>(e) && after@ == before@,
        Ok(()) => {
            &&& if mmio_guard {
                call_ensures(map_device_lazy, (range,), mapped)
            } else {
                call_ensures(map_device, (range,), mapped)
            }
            &&& match mapped {
                Err(()) => r == Err::<(), MemoryTrackerError>(MemoryTrackerError::FailedToMap)
                    && after@ == before@,
                Ok(()) => r == Ok::<(), MemoryTrackerError>(()) && after@
                    == before@.with_mmio_region(
                    MemoryRegion {
                        start: range.start,
                        end: range.end,
                        mem_type: MemoryType::ReadWrite,
                    },
                ),
            }
        },
    }
}

/// A region that overlaps with none of a list of disjoint regions can join them.
pub proof fn lemma_disjoint_push(regions: Seq<MemoryRegion>, region: MemoryRegion)
    requires
        pairwise_disjoint(regions),
        !overlaps_any(regions, region.spec_range()),
    ensures
        pairwise_disjoint(regions.push(region)),
{
    let all = regions.push(region);
    assert forall|i: int, j: int| 0 <= i < j < all.len() implies !spec_overlaps(
        (#[trigger] all[i]).spec_range(),
        (#[trigger] all[j]).spec_range(),
    ) by {
        if j < regions.len() {
            assert(all[i] == regions[i] && all[j] == regions[j]);
        } else {
            assert(all[i] == regions[i]);
            assert(!spec_overlaps(region.spec_range(), regions[i].spec_range()));
        }
    }
}

} // verus!
