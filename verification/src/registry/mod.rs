//! The registry: hives, access rights, key open options and value data.

pub mod builder;
pub mod types;
pub mod values;

pub use builder::{RegistryKeyBuilder, RegistryOpenPlan};
pub use types::{Access, Hive};
