//! Options for opening a file for raw volume reads.

use vstd::prelude::*;

use super::win::{drive_and_disk_spec, get_drive_and_disk};
use crate::error::{Error, InvalidParameterError};
use crate::text::str_to_string;

verus! {

/// Default number of clusters per volume read.
pub const DEFAULT_CLUSTERS_PER_READ: usize = 16;
/// Default capacity of the metadata work buffer.
pub const DEFAULT_METADATA_BUFFER_CAPACITY: usize = 32_000;
/// Smallest metadata work buffer.
pub const MIN_METADATA_BUFFER_CAPACITY: usize = 4096;

/// Builder for raw file open options.
#[derive(Debug, Clone)]
pub struct RawFileBuilder {
    /// Source file path.
    pub path: Option<String>,
    /// Clusters per volume read (at least 1).
    pub clusters_per_read: usize,
    /// Metadata work buffer capacity (at least 4096).
    pub metadata_buffer_capacity: usize,
}

/// What opening a file for raw reads does: the validated path, its volume
/// device path and root directory, and the tuning values.
#[derive(Debug, Clone)]
pub struct RawOpenPlan {
    /// Source file path.
    pub source_path: String,
    /// Volume device path (`\\.\C:`).
    pub volume_path: String,
    /// Volume root directory (`C:\`).
    pub volume_root: String,
    /// Clusters per volume read (at least 1).
    pub clusters_per_read: usize,
    /// Metadata work buffer capacity (at least 4096).
    pub metadata_buffer_capacity: usize,
}

/// The plan of opening `path` with the given tuning, or the error: an empty
/// path, then a path without a drive prefix.
pub open spec fn open_plan_spec(path: Seq<char>, clusters: usize, capacity: usize, r: Result<RawOpenPlan, Error>) -> bool {
    if path.len() == 0 {
        r matches Err(Error::InvalidParameter(e)) && e.parameter@ == "path"@ && e.reason@
            == "Raw file path cannot be empty"@
    } else {
        match drive_and_disk_spec(path) {
            Err(reason) => r matches Err(Error::InvalidParameter(e)) && e.parameter@ == "path"@ && e.reason@ == reason,
            Ok((volume, root)) => r matches Ok(p) && p.source_path@ == path && p.volume_path@ == volume
                && p.volume_root@ == root && p.clusters_per_read == if clusters < 1 { 1 } else { clusters }
                && p.metadata_buffer_capacity == if capacity < MIN_METADATA_BUFFER_CAPACITY {
                MIN_METADATA_BUFFER_CAPACITY
            } else {
                capacity
            },
        }
    }
}

/// Validates a raw open request and works out its plan; see [`open_plan_spec`].
pub fn open_with_tuning(path: &str, clusters_per_read: usize, metadata_buffer_capacity: usize) -> (r: Result<RawOpenPlan, Error>)
    ensures
        open_plan_spec(path@, clusters_per_read, metadata_buffer_capacity, r),
{
    if path.is_empty() {
        return Err(Error::InvalidParameter(InvalidParameterError::new("path", "Raw file path cannot be empty")));
    }
    let (volume_path, volume_root) = get_drive_and_disk(path)?;
    Ok(
        RawOpenPlan {
            source_path: str_to_string(path),
            volume_path,
            volume_root,
            clusters_per_read: if clusters_per_read < 1 { 1 } else { clusters_per_read },
            metadata_buffer_capacity: if metadata_buffer_capacity < MIN_METADATA_BUFFER_CAPACITY {
                MIN_METADATA_BUFFER_CAPACITY
            } else {
                metadata_buffer_capacity
            },
        },
    )
}

impl RawFileBuilder {
    /// A builder with no path, 16 clusters per read and a 32 000-byte
    /// metadata buffer.
    pub fn new() -> (r: Self)
        ensures
            r.path is None,
            r.clusters_per_read == DEFAULT_CLUSTERS_PER_READ,
            r.metadata_buffer_capacity == DEFAULT_METADATA_BUFFER_CAPACITY,
    {
        RawFileBuilder {
            path: None,
            clusters_per_read: DEFAULT_CLUSTERS_PER_READ,
            metadata_buffer_capacity: DEFAULT_METADATA_BUFFER_CAPACITY,
        }
    }

    /// Set the source file path.
    pub fn path(self, path: &str) -> (r: Self)
        ensures
            r.path matches Some(p) && p@ == path@,
            r.clusters_per_read == self.clusters_per_read,
            r.metadata_buffer_capacity == self.metadata_buffer_capacity,
    {
        RawFileBuilder { path: Some(str_to_string(path)), ..self }
    }

    /// Set the clusters per read, at least 1.
    pub fn clusters_per_read(self, clusters_per_read: usize) -> (r: Self)
        ensures
            r == (RawFileBuilder { clusters_per_read: if clusters_per_read < 1 { 1 } else { clusters_per_read }, ..self }),
    {
        RawFileBuilder { clusters_per_read: if clusters_per_read < 1 { 1 } else { clusters_per_read }, ..self }
    }

    /// Set the metadata work buffer capacity, at least 4096.
    pub fn metadata_buffer_capacity(self, metadata_buffer_capacity: usize) -> (r: Self)
        ensures
            r == (RawFileBuilder {
                metadata_buffer_capacity: if metadata_buffer_capacity < MIN_METADATA_BUFFER_CAPACITY {
                    MIN_METADATA_BUFFER_CAPACITY
                } else {
                    metadata_buffer_capacity
                },
                ..self
            }),
    {
        RawFileBuilder {
            metadata_buffer_capacity: if metadata_buffer_capacity < MIN_METADATA_BUFFER_CAPACITY {
                MIN_METADATA_BUFFER_CAPACITY
            } else {
                metadata_buffer_capacity
            },
            ..self
        }
    }

    /// Validate the options into the plan of opening the file: the path must
    /// be set, then the rules of [`open_with_tuning`] apply.
    pub fn open(self) -> (r: Result<RawOpenPlan, Error>)
        ensures
            self.path is None ==> (r matches Err(Error::InvalidParameter(e)) && e.parameter@ == "path"@
                && e.reason@ == "Raw file source path must be specified"@),
            self.path matches Some(p) ==> open_plan_spec(p@, self.clusters_per_read, self.metadata_buffer_capacity, r),
    {
        match self.path {
            Some(p) => open_with_tuning(p.as_str(), self.clusters_per_read, self.metadata_buffer_capacity),
            None => Err(
                Error::InvalidParameter(InvalidParameterError::new("path", "Raw file source path must be specified")),
            ),
        }
    }
}

/// The plan of opening a file with the default tuning.
pub fn open_default(path: &str) -> (r: Result<RawOpenPlan, Error>)
    ensures
        open_plan_spec(path@, DEFAULT_CLUSTERS_PER_READ, DEFAULT_METADATA_BUFFER_CAPACITY, r),
{
    open_with_tuning(path, DEFAULT_CLUSTERS_PER_READ, DEFAULT_METADATA_BUFFER_CAPACITY)
}

/// A builder for raw file open options.
pub fn builder() -> (r: RawFileBuilder)
    ensures
        r.path is None,
        r.clusters_per_read == DEFAULT_CLUSTERS_PER_READ,
        r.metadata_buffer_capacity == DEFAULT_METADATA_BUFFER_CAPACITY,
{
    RawFileBuilder::new()
}

} // verus!
