//! The memory that a guest shares with its host: pages of MMIO under the MMIO
//! guard, and frames of main memory for the bounce buffers.

use crate::mem::{is_aligned, is_power_of_two, lemma_align_down, low_mask, unchecked_align_down};
use crate::vmbase::layout::{PAGE_SIZE, UART_PAGE_ADDR};
use crate::vmbase::memory::error::MemoryTrackerError;
use crate::vmbase::memory::tracker::MemoryRange;
use core::ops::Range;
use std::collections::BTreeSet;
use vstd::prelude::*;
use vstd::std_specs::btree::*;

verus! {

/// The granule of MMIO sharing, given the granule that the MMIO guard reports if
/// there is one: a page without a guard, else the granule of the guard, which
/// must be a number of whole pages.
pub open spec fn spec_granule(
    mmio_guard_granule: Option<Result<usize, crate::hyp::error::Error>>,
) -> Result<usize, MemoryTrackerError> {
    match mmio_guard_granule {
        None => Ok(PAGE_SIZE),
        Some(Err(e)) => Err(MemoryTrackerError::Hypervisor(e)),
        Some(Ok(granule)) => if granule % PAGE_SIZE == 0 {
            Ok(granule)
        } else {
            Err(MemoryTrackerError::UnsupportedMmioGuardGranule(granule))
        },
    }
}

/// The pages of MMIO that are shared with the MMIO guard.
pub struct MmioSharer {
    /// The size of a page of the guard.
    pub granule: usize,
    /// The addresses of the pages that are shared.
    pub frames: BTreeSet<usize>,
}

impl MmioSharer {
    /// Whether the sharer is consistent: the granule is a power of two, and the
    /// pages that are shared are aligned to it and are not the page of the UART.
    pub open spec fn wf(self) -> bool {
        &&& is_power_of_two(self.granule)
        &&& self.frames@.finite()
        &&& forall|base: usize| #[trigger]
            self.frames@.contains(base) ==> is_aligned(base, self.granule) && base
                != UART_PAGE_ADDR
    }

    /// The granule of MMIO sharing.
    pub fn get_granule(mmio_guard_granule: Option<Result<usize, crate::hyp::error::Error>>) -> (r:
        Result<usize, MemoryTrackerError>)
        ensures
            r == spec_granule(mmio_guard_granule),
    {
        match mmio_guard_granule {
            None => Ok(PAGE_SIZE),
            Some(Err(e)) => Err(MemoryTrackerError::Hypervisor(e)),
            // For good measure.
            Some(Ok(granule)) => if granule % PAGE_SIZE == 0 {
                Ok(granule)
            } else {
                Err(MemoryTrackerError::UnsupportedMmioGuardGranule(granule))
            },
        }
    }

    /// Creates a sharer that shares nothing. The granule must be a power of two,
    /// which allows addresses to be aligned to it by masking.
    pub fn new(mmio_guard_granule: Option<Result<usize, crate::hyp::error::Error>>) -> (r: Result<
        Self,
        MemoryTrackerError,
    >)
        requires
            spec_granule(mmio_guard_granule) matches Ok(granule) ==> is_power_of_two(granule),
        ensures
            match r {
                Ok(sharer) => spec_granule(mmio_guard_granule) == Ok::<usize, MemoryTrackerError>(
                    sharer.granule,
                ) && sharer.frames@ == Set::<usize>::empty() && sharer.wf(),
                Err(e) => spec_granule(mmio_guard_granule) == Err::<usize, MemoryTrackerError>(e),
            },
    {
        let granule = Self::get_granule(mmio_guard_granule)?;
        let frames = BTreeSet::new();
        Ok(Self { granule, frames })
    }

    /// The address of the page of the guard that holds `addr`.
    pub open spec fn spec_base(self, addr: usize) -> usize {
        addr & !low_mask(self.granule)
    }

    /// Whether `r` is what the sharing of the page that holds `addr` yields for a
    /// sharer that was `before` and is `after`, where `mmio_guard_map` maps a
    /// page with the guard, if there is a guard, and yielded `mapped`.
    ///
    /// A page is shared once, and the page of the UART not at all.
    pub open spec fn is_shared<G: Fn(usize) -> Result<(), crate::hyp::error::Error>>(
        r: Result<MemoryRange, MemoryTrackerError>,
        before: MmioSharer,
        after: MmioSharer,
        addr: usize,
        mmio_guard_map: Option<&G>,
        mapped: Result<(), crate::hyp::error::Error>,
    ) -> bool {
        let base = before.spec_base(addr);
        &&& after.granule == before.granule
        &&& if before.frames@.contains(base) || base == UART_PAGE_ADDR {
            r == Err::<MemoryRange, MemoryTrackerError>(
                MemoryTrackerError::DuplicateMmioShare(base),
            ) && after.frames@ == before.frames@
        } else {
            &&& mmio_guard_map matches Some(map) ==> call_ensures(*map, (base,), mapped)
            &&& if mmio_guard_map is Some && mapped is Err {
                r == Err::<MemoryRange, MemoryTrackerError>(
                    MemoryTrackerError::Hypervisor(mapped->Err_0),
                ) && after.frames@ == before.frames@
            } else {
                r == Ok::<MemoryRange, MemoryTrackerError>(
                    Range { start: base, end: (base + before.granule) as usize },
                ) && after.frames@ == before.frames@.insert(base)
            }
        }
    }

    /// Shares the page of the guard that holds `addr`, which is not checked to be
    /// an address of MMIO.
    pub fn share<G: Fn(usize) -> Result<(), crate::hyp::error::Error>>(
        &mut self,
        addr: usize,
        mmio_guard_map: Option<&G>,
    ) -> (r: Result<MemoryRange, MemoryTrackerError>)
        requires
            old(self).wf(),
            old(self).spec_base(addr) + old(self).granule <= usize::MAX,
            mmio_guard_map matches Some(map) ==> forall|base: usize| call_requires(*map, (base,)),
        ensures
            final(self).wf(),
            exists|mapped: Result<(), crate::hyp::error::Error>| #[trigger]
                Self::is_shared(r, *old(self), *final(self), addr, mmio_guard_map, mapped),
    {
        broadcast use group_btree_axioms;

        let ghost before = *self;
        let ghost unasked: Result<(), crate::hyp::error::Error> = Ok(());
        proof {
            lemma_align_down(addr, self.granule);
        }
        let base = unchecked_align_down(addr, self.granule);

        if self.frames.contains(&base) || base == UART_PAGE_ADDR {
            let r = Err(MemoryTrackerError::DuplicateMmioShare(base));
            assert(Self::is_shared(r, before, *self, addr, mmio_guard_map, unasked));
            return r;
        }
        let mut mapped: Result<(), crate::hyp::error::Error> = Ok(());
        if let Some(map) = mmio_guard_map {
            mapped = map(base);
            if let Err(e) = mapped {
                let r = Err(MemoryTrackerError::Hypervisor(e));
                assert(Self::is_shared(r, before, *self, addr, mmio_guard_map, mapped));
                return r;
            }
        }
        let inserted = self.frames.insert(base);
        let r = Ok(base..base + self.granule);
        assert(Self::is_shared(r, before, *self, addr, mmio_guard_map, mapped));
        r
    }
}

impl MmioSharer {
    /// Stops keeping track of the pages that are shared and hands them out, for
    /// the caller to unmap them with the guard.
    pub fn release_all(&mut self) -> (frames: BTreeSet<usize>)
        requires
            old(self).wf(),
        ensures
            final(self).wf(),
            final(self).granule == old(self).granule,
            final(self).frames@ == Set::<usize>::empty(),
            frames@ == old(self).frames@,
    {
        let mut frames = BTreeSet::new();
        core::mem::swap(&mut self.frames, &mut frames);
        frames
    }
}

/// The frames of main memory that are shared with the host.
pub struct MemorySharer {
    /// The size of a page that can be shared.
    pub granule: usize,
    /// The frames that are shared, each by its address and its size.
    pub frames: Vec<(usize, usize)>,
}

impl MemorySharer {
    /// Whether the sharer is consistent: the granule is a power of two.
    pub open spec fn wf(self) -> bool {
        is_power_of_two(self.granule)
    }

    /// Creates a sharer with the given granule, which must be a power of two, and
    /// with room for the given number of frames.
    pub fn new(granule: usize, capacity: usize) -> (r: Self)
        requires
            is_power_of_two(granule),
        ensures
            r.wf(),
            r.granule == granule,
            r.frames@ == Seq::<(usize, usize)>::empty(),
    {
        Self { granule, frames: Vec::with_capacity(capacity) }
    }

    /// Shares the frame of `size` bytes at `base` with the host, page by page, and
    /// keeps track of it. `share` shares one page; without it there is nothing to
    /// share with.
    ///
    /// On failure the frame is not kept track of; the pages before the one that
    /// failed are shared all the same.
    pub fn share_frame<S: Fn(usize) -> Result<(), crate::hyp::error::Error>>(
        &mut self,
        base: usize,
        size: usize,
        share: Option<&S>,
    ) -> (r: Result<(), crate::hyp::error::Error>)
        requires
            old(self).wf(),
            base + size <= usize::MAX,
            share matches Some(f) ==> forall|page: usize| call_requires(*f, (page,)),
        ensures
            final(self).wf(),
            final(self).granule == old(self).granule,
            match r {
                Ok(()) => {
                    &&& final(self).frames@ == old(self).frames@.push((base, size))
                    &&& share matches Some(f) ==> all_shared(
                        *f,
                        base as int,
                        base + size,
                        old(self).granule as int,
                    )
                },
                Err(e) => {
                    &&& final(self).frames@ == old(self).frames@
                    &&& share is Some
                    &&& exists|page: usize|
                        base <= page < base + size && #[trigger] call_ensures(
                            *share->Some_0,
                            (page,),
                            Err::<(), crate::hyp::error::Error>(e),
                        )
                },
            },
    {
        let end = base + size;
        if let Some(f) = share {
            let mut vaddr = base;
            while vaddr < end
                invariant
                    self.wf(),
                    *self == *old(self),
                    share == Some(f),
                    base <= vaddr <= end,
                    end == base + size,
                    forall|page: usize| call_requires(*f, (page,)),
                    all_shared(*f, vaddr as int, end as int, self.granule as int) ==> all_shared(
                        *f,
                        base as int,
                        end as int,
                        self.granule as int,
                    ),
                decreases end - vaddr,
            {
                let shared = f(vaddr);
                match shared {
                    Err(e) => {
                        assert(call_ensures(
                            *f,
                            (vaddr,),
                            Err::<(), crate::hyp::error::Error>(e),
                        ));
                        assert(base <= vaddr < base + size && call_ensures(
                            *share->Some_0,
                            (vaddr,),
                            Err::<(), crate::hyp::error::Error>(e),
                        ));
                        return Err(e);
                    },
                    Ok(_) => {
                        assert(call_ensures(*f, (vaddr,), shared) && shared is Ok);
                        assert(is_page_shared(*f, vaddr));
                    },
                }
                proof {
                    reveal_with_fuel(all_shared, 2);
                }
                vaddr = if end - vaddr <= self.granule {
                    end
                } else {
                    vaddr + self.granule
                };
            }
        }
        self.frames.push((base, size));
        Ok(())
    }
}

/// Whether `share` has shared the page at `page`.
pub open spec fn is_page_shared<S: Fn(usize) -> Result<(), crate::hyp::error::Error>>(
    share: S,
    page: usize,
) -> bool {
    exists|shared: Result<(), crate::hyp::error::Error>| #[trigger]
        call_ensures(share, (page,), shared) && shared is Ok
}

/// Whether `share` has shared every page of a frame from `vaddr` up to `end`: the
/// page at `vaddr` and every granule after it.
pub open spec fn all_shared<S: Fn(usize) -> Result<(), crate::hyp::error::Error>>(
    share: S,
    vaddr: int,
    end: int,
    granule: int,
) -> bool
    decreases
            (if end > vaddr {
                end - vaddr
            } else {
                0
            }),
{
    if vaddr >= end || granule <= 0 {
        true
    } else {
        is_page_shared(share, vaddr as usize) && all_shared(share, vaddr + granule, end, granule)
    }
}

} // verus!
