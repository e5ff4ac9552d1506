//! Verified core logic of the Windows system-API toolkit: error values,
//! path and text handling, event payload decoding, query building, and the
//! decisions taken around operating-system calls.

pub mod text;
pub mod bytes;
pub mod pairs;
pub mod batch;
pub mod types;
pub mod etw;
pub mod error;
pub mod net;
pub mod evt;
pub mod process;
pub mod pipes;
pub mod desktop;
pub mod file;
pub mod registry;
pub mod proxy;
pub mod mitigation;
pub mod elevation;

pub use elevation::require_elevation;
pub use error::Error;
pub use types::{ProcessId, ThreadId};
