//! Addresses, pages and alignment.

use vstd::prelude::*;

verus! {

/// The size of a page of 4 KiB, in bytes.
pub const SIZE_4KB: usize = 4096;

/// The mask of the bits of an address that lie below `alignment`.
pub open spec fn low_mask(alignment: usize) -> usize {
    (alignment - 1) as usize
}

/// Whether `n` is a power of two.
pub open spec fn is_power_of_two(n: usize) -> bool {
    n != 0 && n & low_mask(n) == 0
}

/// Whether `addr` is aligned to `alignment`: none of its bits below the
/// alignment is set.
pub open spec fn is_aligned(addr: usize, alignment: usize) -> bool {
    addr & low_mask(alignment) == 0
}

/// Masking the low bits of an address rounds it down to the alignment: the
/// result is aligned, no greater than the address and less than one alignment
/// below it.
pub proof fn lemma_align_down(addr: usize, alignment: usize)
    requires
        alignment != 0,
    ensures
        is_aligned(addr & !low_mask(alignment), alignment),
        addr & !low_mask(alignment) <= addr,
        addr - (addr & !low_mask(alignment)) < alignment,
{
    let mask = low_mask(alignment);
    assert((addr & !mask) & mask == 0) by (bit_vector);
    assert(addr & !mask <= addr) by (bit_vector);
    assert(addr - (addr & !mask) <= mask) by (bit_vector);
}

/// Aligns `addr` down to `alignment`, which must be a power of two: for any other
/// alignment the result is no multiple of it.
pub fn unchecked_align_down(addr: usize, alignment: usize) -> (r: usize)
    requires
        alignment != 0,
    ensures
        r == addr & !low_mask(alignment),
        is_aligned(r, alignment),
        r <= addr < r + alignment,
{
    proof {
        lemma_align_down(addr, alignment);
    }
    addr & !(alignment - 1)
}

/// The address of the page of 4 KiB that holds `addr`.
pub fn page_4kb_of(addr: usize) -> (r: usize)
    ensures
        r == addr - addr % SIZE_4KB,
{
    assert(addr & !4095usize == addr - addr % 4096usize) by (bit_vector);
    unchecked_align_down(addr, SIZE_4KB)
}

} // verus!

