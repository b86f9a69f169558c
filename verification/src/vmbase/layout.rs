//! The memory layout of the image, as the linker fixed it.

use core::ops::Range;
use vstd::prelude::*;

verus! {

/// The size of a page, in bytes.
pub const PAGE_SIZE: usize = 4096;

/// The first address above the virtual addresses.
pub const MAX_VIRT_ADDR: u64 = 0x100_0000_0000;

/// The address of the page of the console UART.
pub const UART_PAGE_ADDR: usize = 0;

/// The addresses that the linker gave to the symbols of the image.
#[derive(Clone, Copy, Debug, PartialEq, Eq, Structural)]
pub struct LinkerSymbols {
    /// The start of the executable code.
    pub text_begin: usize,
    /// The end of the executable code.
    pub text_end: usize,
    /// The start of the read-only data.
    pub rodata_begin: usize,
    /// The end of the read-only data.
    pub rodata_end: usize,
    /// The start of the footer of the image.
    pub image_footer_begin: usize,
    /// The end of the footer of the image.
    pub image_footer_end: usize,
    /// The start of the initialised writable data.
    pub data_begin: usize,
    /// The end of the initialised writable data.
    pub data_end: usize,
    /// The start of the zero-initialised writable data.
    pub bss_begin: usize,
    /// The end of the zero-initialised writable data.
    pub bss_end: usize,
    /// The lowest address of the stack.
    pub stack_limit: usize,
    /// The address that the stack grows down from.
    pub init_stack_pointer: usize,
    /// The lowest address of the stack of the exception handlers.
    pub eh_stack_limit: usize,
    /// The address that the stack of the exception handlers grows down from.
    pub init_eh_stack_pointer: usize,
    /// The address that the initialised data is loaded at.
    pub data_lma: usize,
    /// The end of the binary image.
    pub bin_end: usize,
}

/// The stack for a guest that limits its stack to `max_stack_size` bytes, or not
/// at all: the top of the linked stack, and as much below it as the limit allows.
pub open spec fn spec_stack_range(symbols: LinkerSymbols, max_stack_size: Option<usize>) -> Range<
    usize,
> {
    Range {
        start: match max_stack_size {
            Some(stack_size) => (symbols.init_stack_pointer - stack_size) as usize,
            None => symbols.stack_limit,
        },
        end: symbols.init_stack_pointer,
    }
}

impl LinkerSymbols {
    /// Memory reserved for the executable code.
    pub fn text_range(&self) -> (r: Range<usize>)
        ensures
            r == (Range { start: self.text_begin, end: self.text_end }),
    {
        self.text_begin..self.text_end
    }

    /// Memory reserved for the read-only data.
    pub fn rodata_range(&self) -> (r: Range<usize>)
        ensures
            r == (Range { start: self.rodata_begin, end: self.rodata_end }),
    {
        self.rodata_begin..self.rodata_end
    }

    /// Memory reserved for the footer of the image.
    pub fn image_footer_range(&self) -> (r: Range<usize>)
        ensures
            r == (Range { start: self.image_footer_begin, end: self.image_footer_end }),
    {
        self.image_footer_begin..self.image_footer_end
    }

    /// Initialised writable data.
    pub fn data_range(&self) -> (r: Range<usize>)
        ensures
            r == (Range { start: self.data_begin, end: self.data_end }),
    {
        self.data_begin..self.data_end
    }

    /// Zero-initialised writable data.
    pub fn bss_range(&self) -> (r: Range<usize>)
        ensures
            r == (Range { start: self.bss_begin, end: self.bss_end }),
    {
        self.bss_begin..self.bss_end
    }

    /// Writable data, initialised or not.
    pub fn data_bss_range(&self) -> (r: Range<usize>)
        ensures
            r == (Range { start: self.data_begin, end: self.bss_end }),
    {
        self.data_begin..self.bss_end
    }

    /// Range of the page at the top of the stack, or of as much of the stack as a
    /// guest that limits its stack may use.
    ///
    /// A limit is a number of whole pages that the linked stack can hold.
    pub fn stack_range(&self, max_stack_size: Option<usize>) -> (r: Range<usize>)
        requires
            max_stack_size matches Some(stack_size) ==> stack_size % PAGE_SIZE == 0 && stack_size
                <= self.init_stack_pointer && self.init_stack_pointer - stack_size
                >= self.stack_limit,
        ensures
            r == spec_stack_range(*self, max_stack_size),
            r.start >= self.stack_limit,
    {
        let end = self.init_stack_pointer;
        let start = match max_stack_size {
            Some(stack_size) => end - stack_size,
            None => self.stack_limit,
        };
        start..end
    }

    /// Range of the stack of the exception handlers.
    pub fn eh_stack_range(&self) -> (r: Range<usize>)
        ensures
            r == (Range { start: self.eh_stack_limit, end: self.init_eh_stack_pointer }),
    {
        self.eh_stack_limit..self.init_eh_stack_pointer
    }

    /// The address that the initialised data is loaded at.
    pub fn data_load_address(&self) -> (r: usize)
        ensures
            r == self.data_lma,
    {
        self.data_lma
    }

    /// The end of the binary image.
    pub fn binary_end(&self) -> (r: usize)
        ensures
            r == self.bin_end,
    {
        self.bin_end
    }
}

/// Range of the page of the console UART.
pub fn console_uart_page() -> (r: Range<usize>)
    ensures
        r == (Range { start: UART_PAGE_ADDR, end: (UART_PAGE_ADDR + PAGE_SIZE) as usize }),
{
    UART_PAGE_ADDR..UART_PAGE_ADDR + PAGE_SIZE
}

} // verus!
