//! The base of a bare-metal guest, as far as its decisions can be told apart from
//! the hardware: entropy, the memory layout and the device tree nodes that
//! describe memory.

pub mod fdt;
pub mod layout;
pub mod memory;
pub mod rand;
