//! Raw file reads: open options, volume paths and retrieval pointers.

pub mod builder;
pub mod raw;
pub mod win;

pub use builder::{RawFileBuilder, RawOpenPlan, builder};
