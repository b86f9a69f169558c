//! Verified boot, DICE derivation and rollback protection for the firmware of a
//! protected virtual machine.
//!
//! The firmware authenticates the guest payload, inspects the DICE chain that its
//! loader handed over, decides how the guest is protected against rollback and
//! prepares the inputs of the next DICE certificate. This crate holds those
//! decisions. Every function is verified against its contract, but for the few
//! that call into another crate: those are marked, and their contracts say what
//! is taken on trust.

pub mod avb;
pub mod boot;
pub mod bytes;
pub mod cbor;
pub mod config;
pub mod cose;
pub mod dice;
pub mod entry;
pub mod fdt;
pub mod hyp;
pub mod instance;
pub mod mem;
pub mod rollback;
pub mod vmbase;
