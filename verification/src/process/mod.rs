//! Processes: image paths, access rights and process records.

pub mod types;
pub mod device;
pub mod peb;
pub mod spawn;
pub mod tree;
pub mod exit;

pub use types::{
    HostMemoryMetrics, HostMetrics, ImagePath, MemoryInfo, ModuleInfo, ProcessAccess,
    ProcessCpuTimes, ProcessInfo, ProcessMemoryMetrics, ProcessMetrics, ProcessParameters,
    ThreadInfo,
};
