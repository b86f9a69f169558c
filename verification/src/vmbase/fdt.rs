//! The device tree node of the bounce buffers for DMA.

use crate::fdt::FdtError;
use core::ops::Range;
use vstd::prelude::*;

verus! {

/// An entry of a `reg` property.
#[derive(Clone, Copy, Debug, PartialEq, Eq, Structural)]
pub struct Reg {
    /// The address of the region.
    pub addr: u64,
    /// The size of the region, if the entry gives one.
    pub size: Option<u64>,
}

/// What the node of the restricted DMA pool holds, property by property: an
/// error where a property cannot be read, nothing where it is absent.
#[derive(Clone, Copy, Debug, PartialEq, Eq)]
pub struct DmaPoolNode {
    /// The first entry of the `reg` property, if the property has an entry.
    pub reg: Result<Option<Option<Reg>>, FdtError>,
    /// The `size` property.
    pub size: Result<Option<u64>, FdtError>,
    /// The `alignment` property.
    pub alignment: Result<Option<u64>, FdtError>,
}

/// The bounce buffers for DMA.
#[derive(Clone, Copy, Debug, PartialEq, Eq, Structural)]
pub struct SwiotlbInfo {
    /// The address of the buffer, if it has a fixed one.
    pub addr: Option<usize>,
    /// The size of the buffer.
    pub size: usize,
    /// The alignment of the buffer, if it has no fixed address.
    pub align: Option<usize>,
}

/// What a device tree says of the bounce buffers, given the first node that is
/// compatible with the restricted DMA pool.
///
/// A node with a `reg` property gives a fixed buffer: the property must have an
/// entry, and the entry a size. A node without gives a size and an alignment,
/// both of which must be there.
pub open spec fn spec_new_from_fdt(node: Result<Option<DmaPoolNode>, FdtError>) -> Result<
    Option<SwiotlbInfo>,
    FdtError,
> {
    match node {
        Err(e) => Err(e),
        Ok(None) => Ok(None),
        Ok(Some(node)) => match node.reg {
            Err(e) => Err(e),
            Ok(Some(first)) => match first {
                None => Err(FdtError::BadValue),
                Some(reg) => match reg.size {
                    None => Err(FdtError::BadValue),
                    Some(size) => Ok(
                        Some(
                            SwiotlbInfo {
                                addr: Some(reg.addr as usize),
                                size: size as usize,
                                align: None,
                            },
                        ),
                    ),
                },
            },
            Ok(None) => match node.size {
                Err(e) => Err(e),
                Ok(None) => Err(FdtError::NotFound),
                Ok(Some(size)) => match node.alignment {
                    Err(e) => Err(e),
                    Ok(None) => Err(FdtError::NotFound),
                    Ok(Some(align)) => Ok(
                        Some(
                            SwiotlbInfo {
                                addr: None,
                                size: size as usize,
                                align: Some(align as usize),
                            },
                        ),
                    ),
                },
            },
        },
    }
}

/// Whether the numbers of the node that make the description of the buffers are
/// addresses and sizes of this machine.
pub open spec fn fits_machine(node: Result<Option<DmaPoolNode>, FdtError>) -> bool {
    node matches Ok(Some(node)) ==> match node.reg {
        Ok(Some(Some(reg))) => reg.size matches Some(size) ==> reg.addr <= usize::MAX && size
            <= usize::MAX,
        Ok(None) => (node.size matches Ok(Some(size)) && node.alignment matches Ok(Some(align)))
            ==> node.size->Ok_0->Some_0 <= usize::MAX && node.alignment->Ok_0->Some_0
            <= usize::MAX,
        _ => true,
    }
}

impl SwiotlbInfo {
    /// Creates the description of the bounce buffers from what the device tree
    /// holds.
    pub fn new_from_fdt(node: Result<Option<DmaPoolNode>, FdtError>) -> (r: Result<
        Option<SwiotlbInfo>,
        FdtError,
    >)
        requires
            fits_machine(node),
        ensures
            r == spec_new_from_fdt(node),
    {
        let node = match node {
            Err(e) => {
                return Err(e);
            },
            Ok(None) => {
                return Ok(None);
            },
            Ok(Some(node)) => node,
        };
        let (addr, size, align) = match node.reg {
            Err(e) => {
                return Err(e);
            },
            Ok(Some(first)) => {
                let reg = match first {
                    Some(reg) => reg,
                    None => {
                        return Err(FdtError::BadValue);
                    },
                };
                let size = match reg.size {
                    Some(size) => size,
                    None => {
                        return Err(FdtError::BadValue);
                    },
                };
                (Some(reg.addr as usize), size as usize, None)
            },
            Ok(None) => {
                let size = match node.size {
                    Err(e) => {
                        return Err(e);
                    },
                    Ok(None) => {
                        return Err(FdtError::NotFound);
                    },
                    Ok(Some(size)) => size,
                };
                let align = match node.alignment {
                    Err(e) => {
                        return Err(e);
                    },
                    Ok(None) => {
                        return Err(FdtError::NotFound);
                    },
                    Ok(Some(align)) => align,
                };
                (None, size as usize, Some(align as usize))
            },
        };
        Ok(Some(SwiotlbInfo { addr, size, align }))
    }

    /// Returns the fixed range of memory of the buffer, if it has one.
    pub fn fixed_range(&self) -> (r: Option<Range<usize>>)
        requires
            self.addr matches Some(addr) ==> addr + self.size <= usize::MAX,
        ensures
            match self.addr {
                Some(addr) => r == Some(Range { start: addr, end: (addr + self.size) as usize }),
                None => r is None,
            },
    {
        match self.addr {
            Some(addr) => Some(addr..addr + self.size),
            None => None,
        }
    }
}

} // verus!
