//! Named and anonymous pipe value types.

use vstd::prelude::*;

use crate::error::{Error, InvalidParameterError};
use crate::text::{starts_with_seq, str_to_string};
use crate::types::ProcessId;

verus! {

/// Prefix of every named pipe path.
pub const PIPE_PREFIX: &'static str = "\\\\.\\pipe\\";

/// The point in time of a file system timestamp.
#[verifier::external_type_specification]
#[verifier::external_body]
pub struct ExSystemTime(std::time::SystemTime);

/// `SystemTime::clone`: a point in time is `Copy`, so its clone is itself.
pub assume_specification[ <std::time::SystemTime as Clone>::clone ](t: &std::time::SystemTime) -> (r:
    std::time::SystemTime)
    ensures
        r == *t,
;

/// The default pipe timeout, five seconds, in milliseconds.
pub const DEFAULT_PIPE_TIMEOUT_MS: u64 = 5000;

/// A timeout in milliseconds as the system's wait functions take it: capped
/// at `u32::MAX`.
pub open spec fn wait_millis(ms: u64) -> u32 {
    if ms > u32::MAX as u64 {
        u32::MAX
    } else {
        ms as u32
    }
}

/// Caps a timeout in milliseconds at `u32::MAX`; see [`wait_millis`].
pub fn wait_millis_of(ms: u64) -> (r: u32)
    ensures
        r == wait_millis(ms),
{
    if ms > u32::MAX as u64 {
        u32::MAX
    } else {
        ms as u32
    }
}

/// Canonical named pipe path: the prefix followed by a non-empty segment.
#[derive(Debug, Clone, PartialEq, Eq, Hash)]
pub struct PipeName(String);

impl View for PipeName {
    type V = Seq<char>;

    closed spec fn view(&self) -> Seq<char> {
        self.0@
    }
}

/// The error of an invalid pipe path, by the first rule it breaks: empty,
/// not under the pipe prefix, or nothing after the prefix.
pub open spec fn pipe_name_error(path: Seq<char>) -> Option<Seq<char>> {
    if path.len() == 0 {
        Some("Pipe name cannot be empty"@)
    } else if !starts_with_seq(path, PIPE_PREFIX@) {
        Some("Pipe name must start with \\\\.\\pipe\\"@)
    } else if path == PIPE_PREFIX@ {
        Some("Pipe name must include a segment after \\\\.\\pipe\\"@)
    } else {
        None
    }
}

/// The result of validating a pipe path.
pub open spec fn pipe_name_result(path: Seq<char>, r: Result<PipeName, Error>) -> bool {
    match pipe_name_error(path) {
        None => r matches Ok(p) && p@ == path,
        Some(reason) => r matches Err(Error::InvalidParameter(e)) && e.parameter@ == "path"@
            && e.reason@ == reason,
    }
}

impl PipeName {
    /// Validate and create a named pipe path.
    pub fn new(path: &str) -> (r: Result<Self, Error>)
        ensures
            pipe_name_result(path@, r),
    {
        if path.is_empty() {
            return Err(Error::InvalidParameter(InvalidParameterError::new("path", "Pipe name cannot be empty")));
        }
        let prefix = crate::text::chars_of(PIPE_PREFIX);
        let cs = crate::text::chars_of(path);
        if !crate::text::chars_occur_at(cs.as_slice(), prefix.as_slice(), 0) {
            return Err(
                Error::InvalidParameter(
                    InvalidParameterError::new("path", "Pipe name must start with \\\\.\\pipe\\"),
                ),
            );
        }
        if cs.len() == prefix.len() {
            assert(cs@ =~= cs@.subrange(0, prefix@.len() as int));
            return Err(
                Error::InvalidParameter(
                    InvalidParameterError::new("path", "Pipe name must include a segment after \\\\.\\pipe\\"),
                ),
            );
        }
        assert(path@ != PIPE_PREFIX@);
        Ok(PipeName(str_to_string(path)))
    }

    /// Return the canonical named pipe path.
    pub fn as_str(&self) -> (r: &str)
        ensures
            r@ == self@,
    {
        self.0.as_str()
    }

    /// Renders the path.
    pub fn to_string(&self) -> (r: String)
        ensures
            r@ == self@,
    {
        str_to_string(self.0.as_str())
    }

    /// A second name with the same path.
    pub fn duplicate(&self) -> (r: Self)
        ensures
            r@ == self@,
    {
        PipeName(str_to_string(self.0.as_str()))
    }

    /// Create a canonical pipe name from a relative entry of the pipe namespace.
    pub fn from_relative_name(name: &str) -> (r: Result<Self, Error>)
        ensures
            pipe_name_result(PIPE_PREFIX@ + name@, r),
    {
        let mut full = str_to_string(PIPE_PREFIX);
        full.append(name);
        PipeName::new(full.as_str())
    }
}

/// The name reported for a pipe in errors.
pub open spec fn reported_pipe_name(pipe_name: Option<&PipeName>) -> Seq<char> {
    match pipe_name {
        Some(n) => n@,
        None => "<unnamed pipe>"@,
    }
}

/// The name reported for a pipe in errors: its path, or `<unnamed pipe>`.
pub fn pipe_name_text(pipe_name: Option<&PipeName>) -> (r: String)
    ensures
        r@ == reported_pipe_name(pipe_name),
{
    match pipe_name {
        Some(n) => n.to_string(),
        None => str_to_string("<unnamed pipe>"),
    }
}

/// Snapshot metadata for a named pipe present in the local pipe namespace.
#[derive(Debug, Clone)]
pub struct NamedPipeInfo {
    /// Canonical pipe path.
    pub pipe_name: PipeName,
    /// Relative entry name as returned by the pipe file system.
    pub relative_name: String,
    /// Creation time, when reported.
    pub creation_time: Option<std::time::SystemTime>,
    /// Last access time, when reported.
    pub last_access_time: Option<std::time::SystemTime>,
    /// Last write time, when reported.
    pub last_write_time: Option<std::time::SystemTime>,
    /// Metadata change time, when reported.
    pub change_time: Option<std::time::SystemTime>,
    /// End-of-file size.
    pub end_of_file: i64,
    /// Allocation size.
    pub allocation_size: i64,
    /// Raw Win32 file attribute bits.
    pub file_attributes: u32,
    /// Directory file index.
    pub file_index: u32,
    /// Local pipe state details, when queried.
    pub local_info: Option<NamedPipeLocalInfo>,
}

impl NamedPipeInfo {
    /// Return the canonical pipe path.
    pub fn pipe_name(&self) -> (r: &PipeName)
        ensures
            r == &self.pipe_name,
    {
        &self.pipe_name
    }
}

/// Local named-pipe state details.
#[derive(Debug, Clone, Copy, PartialEq, Eq)]
pub struct NamedPipeLocalInfo {
    /// Named pipe type as reported by the kernel.
    pub named_pipe_type: u32,
    /// Server/client configuration value.
    pub named_pipe_configuration: u32,
    /// Maximum pipe instances allowed.
    pub maximum_instances: u32,
    /// Current number of open instances.
    pub current_instances: u32,
    /// Inbound quota size in bytes.
    pub inbound_quota: u32,
    /// Bytes currently available for reading.
    pub read_data_available: u32,
    /// Outbound quota size in bytes.
    pub outbound_quota: u32,
    /// Remaining write quota in bytes.
    pub write_quota_available: u32,
    /// Current pipe state value.
    pub named_pipe_state: u32,
    /// Whether this handle is the server or the client end.
    pub named_pipe_end: u32,
    /// Process that created the pipe, if available.
    pub server_process_id: Option<ProcessId>,
}

/// Change detected between named pipe snapshots.
#[derive(Debug, Clone)]
pub enum NamedPipeChange {
    /// A pipe present now that was absent before.
    Appeared(NamedPipeInfo),
    /// A pipe that disappeared since the previous snapshot.
    Removed(NamedPipeInfo),
}

/// Access direction for a named pipe instance.
#[derive(Debug, Clone, Copy, PartialEq, Eq, Structural)]
pub enum NamedPipeOpenMode {
    /// Read-only server endpoint.
    Inbound,
    /// Write-only server endpoint.
    Outbound,
    /// Read/write server endpoint.
    Duplex,
}

/// Message semantics for a named pipe.
#[derive(Debug, Clone, Copy, PartialEq, Eq, Structural)]
pub enum NamedPipeType {
    /// Byte stream mode.
    Byte,
    /// Message-framed mode.
    Message,
}

/// Security attributes used when creating or opening a pipe handle.
#[derive(Debug, Clone, PartialEq, Eq)]
pub struct PipeSecurityOptions {
    /// Whether spawned child processes can inherit the handle.
    pub inherit_handle: bool,
    /// Security descriptor in SDDL form.
    pub security_descriptor: Option<String>,
}

impl PipeSecurityOptions {
    /// Default security options: not inheritable, no descriptor.
    pub fn new() -> (r: Self)
        ensures
            !r.inherit_handle,
            r.security_descriptor is None,
    {
        PipeSecurityOptions { inherit_handle: false, security_descriptor: None }
    }

    /// Enable or disable handle inheritance.
    pub fn inherit_handle(self, inherit_handle: bool) -> (r: Self)
        ensures
            r == (PipeSecurityOptions { inherit_handle, ..self }),
    {
        PipeSecurityOptions { inherit_handle, ..self }
    }

    /// Set the security descriptor, in SDDL form.
    pub fn security_descriptor(self, security_descriptor: &str) -> (r: Self)
        ensures
            r.inherit_handle == self.inherit_handle,
            r.security_descriptor matches Some(d) && d@ == security_descriptor@,
    {
        PipeSecurityOptions { security_descriptor: Some(str_to_string(security_descriptor)), ..self }
    }
}

impl Default for PipeSecurityOptions {
    fn default() -> (r: Self)
        ensures
            !r.inherit_handle,
            r.security_descriptor is None,
    {
        PipeSecurityOptions::new()
    }
}

/// Copies security options.
pub fn copy_security(s: &PipeSecurityOptions) -> (r: PipeSecurityOptions)
    ensures
        r.inherit_handle == s.inherit_handle,
        match (r.security_descriptor, s.security_descriptor) {
            (None, None) => true,
            (Some(a), Some(b)) => a@ == b@,
            _ => false,
        },
{
    PipeSecurityOptions {
        inherit_handle: s.inherit_handle,
        security_descriptor: match &s.security_descriptor {
            Some(d) => Some(str_to_string(d.as_str())),
            None => None,
        },
    }
}

/// Server-side named pipe endpoint: the raw handle value and whether it
/// is closed when the endpoint is released.
#[derive(Debug)]
pub struct PipeServerEndpoint {
    handle: usize,
    close_on_drop: bool,
    pipe_name: PipeName,
    open_mode: NamedPipeOpenMode,
    pipe_type: NamedPipeType,
}

impl PipeServerEndpoint {
    /// The raw handle value.
    pub closed spec fn handle_value(&self) -> usize {
        self.handle
    }

    /// Whether the handle is closed on release.
    pub closed spec fn closes_on_drop(&self) -> bool {
        self.close_on_drop
    }

    /// The pipe path.
    pub closed spec fn name(&self) -> PipeName {
        self.pipe_name
    }

    /// The open direction.
    pub closed spec fn mode(&self) -> NamedPipeOpenMode {
        self.open_mode
    }

    /// The byte/message behavior.
    pub closed spec fn kind(&self) -> NamedPipeType {
        self.pipe_type
    }

    /// Create a server endpoint from a raw handle.
    pub fn from_raw(
        handle: usize,
        close_on_drop: bool,
        pipe_name: PipeName,
        open_mode: NamedPipeOpenMode,
        pipe_type: NamedPipeType,
    ) -> (r: Self)
        ensures
            r.handle_value() == handle,
            r.closes_on_drop() == close_on_drop,
            r.name() == pipe_name,
            r.mode() == open_mode,
            r.kind() == pipe_type,
    {
        PipeServerEndpoint { handle, close_on_drop, pipe_name, open_mode, pipe_type }
    }

    /// Return the underlying handle value.
    pub fn raw_handle(&self) -> (r: usize)
        ensures
            r == self.handle_value(),
    {
        self.handle
    }

    /// Return the named pipe path.
    pub fn pipe_name(&self) -> (r: &PipeName)
        ensures
            *r == self.name(),
    {
        &self.pipe_name
    }

    /// Return the open direction.
    pub fn open_mode(&self) -> (r: NamedPipeOpenMode)
        ensures
            r == self.mode(),
    {
        self.open_mode
    }

    /// Return the byte/message behavior.
    pub fn pipe_type(&self) -> (r: NamedPipeType)
        ensures
            r == self.kind(),
    {
        self.pipe_type
    }

    /// Whether the handle is closed when the endpoint is released.
    pub fn close_on_drop(&self) -> (r: bool)
        ensures
            r == self.closes_on_drop(),
    {
        self.close_on_drop
    }

    /// Configure whether the handle is closed when the endpoint is released.
    pub fn set_close_on_drop(&mut self, close_on_drop: bool)
        ensures
            final(self).closes_on_drop() == close_on_drop,
            final(self).handle_value() == old(self).handle_value(),
            final(self).name() == old(self).name(),
            final(self).mode() == old(self).mode(),
            final(self).kind() == old(self).kind(),
    {
        self.close_on_drop = close_on_drop;
    }
}

/// Client-side named pipe endpoint: the raw handle value and whether it
/// is closed when the endpoint is released.
#[derive(Debug)]
pub struct PipeClientEndpoint {
    handle: usize,
    close_on_drop: bool,
    pipe_name: PipeName,
    open_mode: NamedPipeOpenMode,
}

impl PipeClientEndpoint {
    /// The raw handle value.
    pub closed spec fn handle_value(&self) -> usize {
        self.handle
    }

    /// Whether the handle is closed on release.
    pub closed spec fn closes_on_drop(&self) -> bool {
        self.close_on_drop
    }

    /// The pipe path.
    pub closed spec fn name(&self) -> PipeName {
        self.pipe_name
    }

    /// The open direction.
    pub closed spec fn mode(&self) -> NamedPipeOpenMode {
        self.open_mode
    }

    /// Create a client endpoint from a raw handle.
    pub fn from_raw(handle: usize, close_on_drop: bool, pipe_name: PipeName, open_mode: NamedPipeOpenMode) -> (r: Self)
        ensures
            r.handle_value() == handle,
            r.closes_on_drop() == close_on_drop,
            r.name() == pipe_name,
            r.mode() == open_mode,
    {
        PipeClientEndpoint { handle, close_on_drop, pipe_name, open_mode }
    }

    /// Return the underlying handle value.
    pub fn raw_handle(&self) -> (r: usize)
        ensures
            r == self.handle_value(),
    {
        self.handle
    }

    /// Return the named pipe path.
    pub fn pipe_name(&self) -> (r: &PipeName)
        ensures
            *r == self.name(),
    {
        &self.pipe_name
    }

    /// Return the open direction.
    pub fn open_mode(&self) -> (r: NamedPipeOpenMode)
        ensures
            r == self.mode(),
    {
        self.open_mode
    }

    /// Whether the handle is closed when the endpoint is released.
    pub fn close_on_drop(&self) -> (r: bool)
        ensures
            r == self.closes_on_drop(),
    {
        self.close_on_drop
    }

    /// Configure whether the handle is closed when the endpoint is released.
    pub fn set_close_on_drop(&mut self, close_on_drop: bool)
        ensures
            final(self).closes_on_drop() == close_on_drop,
            final(self).handle_value() == old(self).handle_value(),
            final(self).name() == old(self).name(),
            final(self).mode() == old(self).mode(),
    {
        self.close_on_drop = close_on_drop;
    }
}

} // verus!
