//! The errors of memory tracking.

use vstd::prelude::*;

verus! {

/// Why a request to the memory tracker failed.
#[derive(Clone, Copy, Debug, PartialEq, Eq, Structural)]
pub enum MemoryTrackerError {
    /// The memory tracker is not available.
    Unavailable,
    /// The new main memory does not start where the old one starts.
    DifferentBaseAddress,
    /// The new main memory is larger than the old one.
    SizeTooLarge,
    /// A region that is in use lies outside the new main memory.
    SizeTooSmall,
    /// The tracker holds as many regions as it can.
    Full,
    /// The region lies outside the memory that it must lie within.
    OutOfRange,
    /// The region overlaps with a region that is in use.
    Overlaps,
    /// The region could not be mapped.
    FailedToMap,
    /// The footer of the image is mapped already.
    FooterAlreadyMapped,
    /// The page of MMIO at this address is shared already.
    DuplicateMmioShare(usize),
    /// The granule of the MMIO guard, of this size, is not supported.
    UnsupportedMmioGuardGranule(usize),
    /// The hypervisor failed.
    Hypervisor(crate::hyp::error::Error),
}

} // verus!
