//! The memory that a guest has mapped and shared.

pub mod error;
pub mod shared;
pub mod tracker;
