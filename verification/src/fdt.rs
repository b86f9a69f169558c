//! The flattened device tree, as far as the firmware decides on it.

use vstd::prelude::*;

verus! {

/// An error of the device tree library, by its code.
#[derive(Clone, Copy, Debug, PartialEq, Eq, Structural)]
pub enum FdtError {
    /// The requested node or property does not exist.
    NotFound,
    /// A node or property that exists was to be created.
    Exists,
    /// The buffer has no space for the expanded tree.
    NoSpace,
    /// An offset into the structure block is out of bounds or invalid.
    BadOffset,
    /// A path is badly formatted.
    BadPath,
    /// A phandle has an invalid length or value.
    BadPhandle,
    /// The device tree is incomplete.
    BadState,
    /// The device tree or one of its blocks is improperly terminated.
    Truncated,
    /// The header of the device tree lacks its magic number.
    BadMagic,
    /// The device tree has a version that cannot be handled.
    BadVersion,
    /// The structure block of the device tree is corrupt.
    BadStructure,
    /// The blocks of the device tree are in an order that is not supported.
    BadLayout,
    /// The library failed an internal assertion.
    Internal,
    /// A number of address or size cells is badly formatted or out of range.
    BadNCells,
    /// A property has an unexpected value.
    BadValue,
    /// An overlay cannot be applied.
    BadOverlay,
    /// The device tree has no phandle left.
    NoPhandles,
    /// A flag or a combination of flags is invalid.
    BadFlags,
    /// The base address of the device tree is not aligned to 8 bytes.
    Alignment,
    /// An error code that the library does not document.
    Unknown(i32),
}

/// The error that the negative return value `val` of the library stands for.
pub open spec fn spec_error_of(val: i32) -> FdtError {
    if val == -1 {
        FdtError::NotFound
    } else if val == -2 {
        FdtError::Exists
    } else if val == -3 {
        FdtError::NoSpace
    } else if val == -4 {
        FdtError::BadOffset
    } else if val == -5 {
        FdtError::BadPath
    } else if val == -6 {
        FdtError::BadPhandle
    } else if val == -7 {
        FdtError::BadState
    } else if val == -8 {
        FdtError::Truncated
    } else if val == -9 {
        FdtError::BadMagic
    } else if val == -10 {
        FdtError::BadVersion
    } else if val == -11 {
        FdtError::BadStructure
    } else if val == -12 {
        FdtError::BadLayout
    } else if val == -13 {
        FdtError::Internal
    } else if val == -14 {
        FdtError::BadNCells
    } else if val == -15 {
        FdtError::BadValue
    } else if val == -16 {
        FdtError::BadOverlay
    } else if val == -17 {
        FdtError::NoPhandles
    } else if val == -18 {
        FdtError::BadFlags
    } else if val == -19 {
        FdtError::Alignment
    } else {
        FdtError::Unknown(val)
    }
}

/// What a return value of the library means: itself where it is not negative, an
/// error where it is.
pub open spec fn spec_fdt_err(val: i32) -> Result<i32, FdtError> {
    if val >= 0 {
        Ok(val)
    } else {
        Err(spec_error_of(val))
    }
}

/// Reads a return value of the library.
pub fn fdt_err(val: i32) -> (r: Result<i32, FdtError>)
    ensures
        r == spec_fdt_err(val),
{
    if val >= 0 {
        Ok(val)
    } else {
        Err(
            match val {
                -1 => FdtError::NotFound,
                -2 => FdtError::Exists,
                -3 => FdtError::NoSpace,
                -4 => FdtError::BadOffset,
                -5 => FdtError::BadPath,
                -6 => FdtError::BadPhandle,
                -7 => FdtError::BadState,
                -8 => FdtError::Truncated,
                -9 => FdtError::BadMagic,
                -10 => FdtError::BadVersion,
                -11 => FdtError::BadStructure,
                -12 => FdtError::BadLayout,
                -13 => FdtError::Internal,
                -14 => FdtError::BadNCells,
                -15 => FdtError::BadValue,
                -16 => FdtError::BadOverlay,
                -17 => FdtError::NoPhandles,
                -18 => FdtError::BadFlags,
                -19 => FdtError::Alignment,
                _ => FdtError::Unknown(val),
            },
        )
    }
}

/// Reads a return value of the library that is zero on success: any other value
/// that is not negative is an unknown error.
pub fn fdt_err_expect_zero(val: i32) -> (r: Result<(), FdtError>)
    ensures
        r == (match spec_fdt_err(val) {
            Ok(v) => if v == 0 {
                Ok::<(), FdtError>(())
            } else {
                Err::<(), FdtError>(FdtError::Unknown(v))
            },
            Err(e) => Err::<(), FdtError>(e),
        }),
{
    match fdt_err(val)? {
        0 => Ok(()),
        v => Err(FdtError::Unknown(v)),
    }
}

/// Reads a return value of the library that is an offset, where the lack of the
/// node or property is no error.
pub fn fdt_err_or_option(val: i32) -> (r: Result<Option<i32>, FdtError>)
    ensures
        r == (match spec_fdt_err(val) {
            Ok(v) => Ok::<Option<i32>, FdtError>(Some(v)),
            Err(FdtError::NotFound) => Ok::<Option<i32>, FdtError>(None),
            Err(e) => Err::<Option<i32>, FdtError>(e),
        }),
{
    match fdt_err(val) {
        Ok(val) => Ok(Some(val)),
        Err(FdtError::NotFound) => Ok(None),
        Err(e) => Err(e),
    }
}

/// The number that four bytes hold in big-endian order.
pub open spec fn spec_be32(bytes: Seq<u8>) -> int {
    bytes[0] as int * 0x100_0000 + bytes[1] as int * 0x1_0000 + bytes[2] as int * 0x100
        + bytes[3] as int
}

/// The size of the device tree that the header in `buffer` gives: the second word
/// of the header.
pub open spec fn spec_totalsize(buffer: Seq<u8>) -> int {
    spec_be32(buffer.subrange(4, 8))
}

/// A buffer that holds a flattened device tree.
///
/// The tree may be smaller than the buffer. The header of the tree is in the
/// buffer and the size that it gives is no larger than the buffer.
pub struct Fdt {
    /// The buffer.
    pub buffer: Vec<u8>,
}

impl Fdt {
    /// Whether the buffer holds a header whose size fits the buffer.
    pub open spec fn wf(self) -> bool {
        &&& self.buffer@.len() >= 8
        &&& spec_totalsize(self.buffer@) <= self.buffer@.len()
    }

    /// The device tree in `buffer`, if the header is there and the size that it
    /// gives fits the buffer.
    pub fn new(buffer: Vec<u8>) -> (r: Result<Self, FdtError>)
        ensures
            match r {
                Ok(fdt) => fdt.buffer@ == buffer@ && fdt.wf(),
                Err(e) => e == FdtError::Truncated && !(Fdt { buffer }).wf(),
            },
    {
        if buffer.len() < 8 {
            return Err(FdtError::Truncated);
        }
        let fdt = Fdt { buffer };
        if fdt.header_totalsize() as usize > fdt.buffer.len() {
            return Err(FdtError::Truncated);
        }
        Ok(fdt)
    }

    fn header_totalsize(&self) -> (r: u32)
        requires
            self.buffer@.len() >= 8,
        ensures
            r == spec_totalsize(self.buffer@),
    {
        let b0 = self.buffer[4] as u32;
        let b1 = self.buffer[5] as u32;
        let b2 = self.buffer[6] as u32;
        let b3 = self.buffer[7] as u32;
        assert(self.buffer@.subrange(4, 8)[0] == self.buffer@[4]);
        assert(self.buffer@.subrange(4, 8)[1] == self.buffer@[5]);
        assert(self.buffer@.subrange(4, 8)[2] == self.buffer@[6]);
        assert(self.buffer@.subrange(4, 8)[3] == self.buffer@[7]);
        b0 * 0x100_0000 + b1 * 0x1_0000 + b2 * 0x100 + b3
    }

    /// Returns the device tree as a slice, which may be smaller than the buffer
    /// that holds it.
    pub fn as_slice(&self) -> (r: &[u8])
        requires
            self.wf(),
        ensures
            r@ == self.buffer@.take(spec_totalsize(self.buffer@)),
    {
        let size = self.totalsize();
        vstd::slice::slice_subrange(self.buffer.as_slice(), 0, size)
    }

    /// The size of the buffer.
    pub fn capacity(&self) -> (r: usize)
        ensures
            r == self.buffer@.len(),
    {
        self.buffer.len()
    }

    /// The size of the device tree.
    pub fn totalsize(&self) -> (r: usize)
        requires
            self.wf(),
        ensures
            r == spec_totalsize(self.buffer@),
    {
        self.header_totalsize() as usize
    }
}

} // verus!
