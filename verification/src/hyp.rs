//! Calls to the hypervisor, as far as the firmware decides on them: the requests
//! that it makes and what it makes of the answers.

pub mod error;
pub mod hvc;
pub mod mmio_guard;
pub mod smccc;

pub use error::{Error, GunyahError, HypervisorBackend, KvmError};
