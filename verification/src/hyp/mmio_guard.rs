//! The MMIO guard: the enrollment of the guest and the mapping of pages.

use crate::hyp::hvc::{
    hvc_returned, mmio_guard_enroll, mmio_guard_info, mmio_guard_map, mmio_guard_unmap,
    spec_map_outcome, spec_unmap_outcome, VENDOR_HYP_KVM_MMIO_GUARD_ENROLL_FUNC_ID,
    VENDOR_HYP_KVM_MMIO_GUARD_INFO_FUNC_ID, VENDOR_HYP_KVM_MMIO_GUARD_MAP_FUNC_ID,
    VENDOR_HYP_KVM_MMIO_GUARD_UNMAP_FUNC_ID,
};
use crate::hyp::smccc::{spec_checked, spec_expect_zero};
use crate::mem::{page_4kb_of, SIZE_4KB};
use vstd::prelude::*;

verus! {

/// A failure of the MMIO guard.
#[derive(Clone, Copy, Debug, PartialEq, Eq, Structural)]
pub enum Error {
    /// The call that enrolls the guest failed.
    EnrollFailed(crate::hyp::smccc::Error),
    /// The granule of the MMIO guard could not be obtained.
    InfoFailed(crate::hyp::smccc::Error),
    /// A page could not be mapped.
    MapFailed(crate::hyp::smccc::Error),
    /// A page could not be unmapped.
    UnmapFailed(crate::hyp::smccc::Error),
    /// The granule that the hypervisor uses is not supported.
    UnsupportedGranule(u64),
}

/// What the initialisation yields, given the return values of the enrollment and
/// of the request for the granule: both calls must succeed and the granule must
/// be 4 KiB.
pub open spec fn spec_init(enrolled: u64, granule: u64) -> Result<(), Error> {
    match spec_expect_zero(enrolled) {
        Err(e) => Err(Error::EnrollFailed(e)),
        Ok(()) => match spec_checked(granule) {
            Err(e) => Err(Error::InfoFailed(e)),
            Ok(granule) => if granule != SIZE_4KB {
                Err(Error::UnsupportedGranule(granule))
            } else {
                Ok(())
            },
        },
    }
}

/// Whether `r` is what the initialisation yields with the hypervisor `hvc64`,
/// which returned `enrolled` for the enrollment and, if it was asked, `granule`
/// for the granule.
pub open spec fn is_init<H: Fn(u32, [u64; 17]) -> [u64; 18]>(
    r: Result<(), Error>,
    hvc64: H,
    enrolled: u64,
    granule: u64,
) -> bool {
    &&& hvc_returned(hvc64, VENDOR_HYP_KVM_MMIO_GUARD_ENROLL_FUNC_ID, 0, enrolled)
    &&& spec_expect_zero(enrolled) is Ok ==> hvc_returned(
        hvc64,
        VENDOR_HYP_KVM_MMIO_GUARD_INFO_FUNC_ID,
        0,
        granule,
    )
    &&& r == spec_init(enrolled, granule)
}

/// Enrolls the guest into the MMIO guard and checks the granule of the guard.
pub fn init<H: Fn(u32, [u64; 17]) -> [u64; 18]>(hvc64: &H) -> (r: Result<(), Error>)
    requires
        forall|function: u32, args: [u64; 17]| call_requires(*hvc64, (function, args)),
    ensures
        exists|enrolled: u64, granule: u64| is_init(r, *hvc64, enrolled, granule),
{
    let enroll = mmio_guard_enroll(hvc64);
    let ghost enrolled = choose|x0: u64|
        hvc_returned(*hvc64, VENDOR_HYP_KVM_MMIO_GUARD_ENROLL_FUNC_ID, 0, x0) && enroll
            == spec_expect_zero(x0);
    if let Err(e) = enroll {
        let r = Err(Error::EnrollFailed(e));
        assert(is_init(r, *hvc64, enrolled, 0));
        return r;
    }
    let info = mmio_guard_info(hvc64);
    let ghost granule = choose|x0: u64|
        hvc_returned(*hvc64, VENDOR_HYP_KVM_MMIO_GUARD_INFO_FUNC_ID, 0, x0) && info
            == spec_checked(x0);
    let r = match info {
        Err(e) => Err(Error::InfoFailed(e)),
        Ok(mmio_granule) => if mmio_granule != 4096 {
            Err(Error::UnsupportedGranule(mmio_granule))
        } else {
            Ok(())
        },
    };
    assert(is_init(r, *hvc64, enrolled, granule));
    r
}

/// The address of the page of 4 KiB that holds `addr`, as the argument of a call.
pub open spec fn spec_page_of(addr: usize) -> u64 {
    (addr - addr % SIZE_4KB) as u64
}

/// Maps the page of 4 KiB that holds the address `addr`.
pub fn map<H: Fn(u32, [u64; 17]) -> [u64; 18]>(hvc64: &H, addr: usize) -> (r: Result<(), Error>)
    requires
        forall|function: u32, args: [u64; 17]| call_requires(*hvc64, (function, args)),
    ensures
        exists|x0: u64|
            #[trigger] hvc_returned(
                *hvc64,
                VENDOR_HYP_KVM_MMIO_GUARD_MAP_FUNC_ID,
                spec_page_of(addr),
                x0,
            ) && r == (match spec_map_outcome(x0) {
                Ok(()) => Ok::<(), Error>(()),
                Err(e) => Err::<(), Error>(Error::MapFailed(e)),
            }),
{
    let page = page_4kb_of(addr) as u64;
    assert(page == spec_page_of(addr));
    let mapped = mmio_guard_map(hvc64, page);
    let ghost x0 = choose|x0: u64|
        hvc_returned(*hvc64, VENDOR_HYP_KVM_MMIO_GUARD_MAP_FUNC_ID, page, x0) && mapped
            == spec_map_outcome(x0);
    let r = match mapped {
        Ok(()) => Ok(()),
        Err(e) => Err(Error::MapFailed(e)),
    };
    assert(hvc_returned(*hvc64, VENDOR_HYP_KVM_MMIO_GUARD_MAP_FUNC_ID, spec_page_of(addr), x0));
    r
}

/// Unmaps the page of 4 KiB that holds the address `addr`.
pub fn unmap<H: Fn(u32, [u64; 17]) -> [u64; 18]>(hvc64: &H, addr: usize) -> (r: Result<(), Error>)
    requires
        forall|function: u32, args: [u64; 17]| call_requires(*hvc64, (function, args)),
    ensures
        exists|x0: u64|
            #[trigger] hvc_returned(
                *hvc64,
                VENDOR_HYP_KVM_MMIO_GUARD_UNMAP_FUNC_ID,
                spec_page_of(addr),
                x0,
            ) && r == (match spec_unmap_outcome(x0) {
                Ok(()) => Ok::<(), Error>(()),
                Err(e) => Err::<(), Error>(Error::UnmapFailed(e)),
            }),
{
    let page = page_4kb_of(addr) as u64;
    assert(page == spec_page_of(addr));
    let unmapped = mmio_guard_unmap(hvc64, page);
    let ghost x0 = choose|x0: u64|
        hvc_returned(*hvc64, VENDOR_HYP_KVM_MMIO_GUARD_UNMAP_FUNC_ID, page, x0) && unmapped
            == spec_unmap_outcome(x0);
    let r = match unmapped {
        Ok(()) => Ok(()),
        Err(e) => Err(Error::UnmapFailed(e)),
    };
    assert(hvc_returned(*hvc64, VENDOR_HYP_KVM_MMIO_GUARD_UNMAP_FUNC_ID, spec_page_of(addr), x0));
    r
}

} // verus!
