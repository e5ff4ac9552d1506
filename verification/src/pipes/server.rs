//! Named pipe server configuration.

use vstd::prelude::*;

use super::error_map::{ERROR_PIPE_CONNECTED_CODE, map_pipe_windows_error, pipe_error_spec};
use super::types::{
    NamedPipeOpenMode, NamedPipeType, PipeName, PipeSecurityOptions, PipeServerEndpoint,
    copy_security, reported_pipe_name, DEFAULT_PIPE_TIMEOUT_MS, wait_millis, wait_millis_of,
};
use crate::error::{Error, InvalidParameterError};

verus! {

/// `PIPE_ACCESS_INBOUND`.
pub const PIPE_ACCESS_INBOUND: u32 = 0x1;
/// `PIPE_ACCESS_OUTBOUND`.
pub const PIPE_ACCESS_OUTBOUND: u32 = 0x2;
/// `PIPE_ACCESS_DUPLEX`.
pub const PIPE_ACCESS_DUPLEX: u32 = 0x3;
/// `PIPE_TYPE_MESSAGE`.
pub const PIPE_TYPE_MESSAGE: u32 = 0x4;
/// `PIPE_READMODE_MESSAGE`.
pub const PIPE_READMODE_MESSAGE: u32 = 0x2;
/// `PIPE_REJECT_REMOTE_CLIENTS`.
pub const PIPE_REJECT_REMOTE_CLIENTS: u32 = 0x8;
/// `PIPE_UNLIMITED_INSTANCES`.
pub const PIPE_UNLIMITED_INSTANCES: u32 = 255;

/// Builder for a named pipe server configuration.
#[derive(Debug, Clone)]
pub struct NamedPipeServerBuilder {
    /// Pipe path.
    pub pipe_name: Option<PipeName>,
    /// Open direction.
    pub open_mode: NamedPipeOpenMode,
    /// Byte or message semantics.
    pub pipe_type: NamedPipeType,
    /// Number of instances (255 for unlimited).
    pub max_instances: u8,
    /// Outbound buffer size.
    pub out_buffer_size: u32,
    /// Inbound buffer size.
    pub in_buffer_size: u32,
    /// Default timeout, in milliseconds.
    pub default_timeout: u64,
    /// Security options.
    pub security: PipeSecurityOptions,
}

impl NamedPipeServerBuilder {
    /// A builder with no path, duplex byte mode, one instance, 4096-byte
    /// buffers, a five-second timeout and default security.
    pub fn new() -> (r: Self)
        ensures
            r.pipe_name is None,
            r.open_mode == NamedPipeOpenMode::Duplex,
            r.pipe_type == NamedPipeType::Byte,
            r.max_instances == 1,
            r.out_buffer_size == 4096,
            r.in_buffer_size == 4096,
            r.default_timeout == 5000,
            !r.security.inherit_handle,
            r.security.security_descriptor is None,
    {
        NamedPipeServerBuilder {
            pipe_name: None,
            open_mode: NamedPipeOpenMode::Duplex,
            pipe_type: NamedPipeType::Byte,
            max_instances: 1,
            out_buffer_size: 4096,
            in_buffer_size: 4096,
            default_timeout: DEFAULT_PIPE_TIMEOUT_MS,
            security: PipeSecurityOptions::new(),
        }
    }

    /// Set the named pipe path.
    pub fn pipe_name(self, pipe_name: PipeName) -> (r: Self)
        ensures
            r == (NamedPipeServerBuilder { pipe_name: Some(pipe_name), ..self }),
    {
        NamedPipeServerBuilder { pipe_name: Some(pipe_name), ..self }
    }

    /// Set the open direction.
    pub fn open_mode(self, open_mode: NamedPipeOpenMode) -> (r: Self)
        ensures
            r == (NamedPipeServerBuilder { open_mode, ..self }),
    {
        NamedPipeServerBuilder { open_mode, ..self }
    }

    /// Set byte/message semantics.
    pub fn pipe_type(self, pipe_type: NamedPipeType) -> (r: Self)
        ensures
            r == (NamedPipeServerBuilder { pipe_type, ..self }),
    {
        NamedPipeServerBuilder { pipe_type, ..self }
    }

    /// Set the number of server instances for this pipe name.
    pub fn max_instances(self, max_instances: u8) -> (r: Self)
        ensures
            r == (NamedPipeServerBuilder { max_instances, ..self }),
    {
        NamedPipeServerBuilder { max_instances, ..self }
    }

    /// Set the outbound buffer size.
    pub fn out_buffer_size(self, out_buffer_size: u32) -> (r: Self)
        ensures
            r == (NamedPipeServerBuilder { out_buffer_size, ..self }),
    {
        NamedPipeServerBuilder { out_buffer_size, ..self }
    }

    /// Set the inbound buffer size.
    pub fn in_buffer_size(self, in_buffer_size: u32) -> (r: Self)
        ensures
            r == (NamedPipeServerBuilder { in_buffer_size, ..self }),
    {
        NamedPipeServerBuilder { in_buffer_size, ..self }
    }

    /// Set the default timeout, in milliseconds.
    pub fn default_timeout(self, default_timeout: u64) -> (r: Self)
        ensures
            r == (NamedPipeServerBuilder { default_timeout, ..self }),
    {
        NamedPipeServerBuilder { default_timeout, ..self }
    }

    /// Set the security options.
    pub fn security(self, security: PipeSecurityOptions) -> (r: Self)
        ensures
            r == (NamedPipeServerBuilder { security, ..self }),
    {
        NamedPipeServerBuilder { security, ..self }
    }

    /// Build the configuration: the path must be set and at least one
    /// instance allowed.
    pub fn build(self) -> (r: Result<NamedPipeServerConfig, Error>)
        ensures
            self.pipe_name is None ==> (r matches Err(Error::InvalidParameter(e)) && e.parameter@
                == "pipe_name"@ && e.reason@ == "Pipe name must be specified"@),
            self.pipe_name is Some && self.max_instances == 0 ==> (r matches Err(Error::InvalidParameter(e))
                && e.parameter@ == "max_instances"@ && e.reason@ == "max_instances must be at least 1"@),
            self.pipe_name is Some && self.max_instances != 0 ==> (r matches Ok(c) && c.settings() == (
            self.pipe_name->0,
            self.open_mode,
            self.pipe_type,
            self.max_instances,
            self.out_buffer_size,
            self.in_buffer_size,
            self.default_timeout,
            self.security,
            )),
    {
        let pipe_name = match self.pipe_name {
            Some(p) => p,
            None => {
                return Err(Error::InvalidParameter(InvalidParameterError::new("pipe_name", "Pipe name must be specified")));
            },
        };
        if self.max_instances == 0 {
            return Err(Error::InvalidParameter(InvalidParameterError::new("max_instances", "max_instances must be at least 1")));
        }
        Ok(
            NamedPipeServerConfig {
                pipe_name,
                open_mode: self.open_mode,
                pipe_type: self.pipe_type,
                max_instances: self.max_instances,
                out_buffer_size: self.out_buffer_size,
                in_buffer_size: self.in_buffer_size,
                default_timeout: self.default_timeout,
                security: self.security,
            },
        )
    }
}

/// Named pipe server configuration.
#[derive(Debug)]
pub struct NamedPipeServerConfig {
    pipe_name: PipeName,
    open_mode: NamedPipeOpenMode,
    pipe_type: NamedPipeType,
    max_instances: u8,
    out_buffer_size: u32,
    in_buffer_size: u32,
    default_timeout: u64,
    security: PipeSecurityOptions,
}

impl NamedPipeServerConfig {
    /// All settings of the configuration.
    pub closed spec fn settings(&self) -> (PipeName, NamedPipeOpenMode, NamedPipeType, u8, u32, u32, u64, PipeSecurityOptions) {
        (
            self.pipe_name,
            self.open_mode,
            self.pipe_type,
            self.max_instances,
            self.out_buffer_size,
            self.in_buffer_size,
            self.default_timeout,
            self.security,
        )
    }

    /// Create a new builder.
    pub fn builder() -> (r: NamedPipeServerBuilder)
        ensures
            r.pipe_name is None,
            r.open_mode == NamedPipeOpenMode::Duplex,
            r.pipe_type == NamedPipeType::Byte,
            r.max_instances == 1,
            r.out_buffer_size == 4096,
            r.in_buffer_size == 4096,
    {
        NamedPipeServerBuilder::new()
    }

    /// Return the pipe name.
    pub fn pipe_name(&self) -> (r: &PipeName)
        ensures
            *r == self.settings().0,
    {
        &self.pipe_name
    }

    /// Return the open mode.
    pub fn open_mode(&self) -> (r: NamedPipeOpenMode)
        ensures
            r == self.settings().1,
    {
        self.open_mode
    }

    /// Return the pipe type.
    pub fn pipe_type(&self) -> (r: NamedPipeType)
        ensures
            r == self.settings().2,
    {
        self.pipe_type
    }

    /// Return the configured number of instances.
    pub fn max_instances(&self) -> (r: u8)
        ensures
            r == self.settings().3,
    {
        self.max_instances
    }

    /// Return the configured outbound buffer size.
    pub fn out_buffer_size(&self) -> (r: u32)
        ensures
            r == self.settings().4,
    {
        self.out_buffer_size
    }

    /// Return the configured inbound buffer size.
    pub fn in_buffer_size(&self) -> (r: u32)
        ensures
            r == self.settings().5,
    {
        self.in_buffer_size
    }

    /// Return the default timeout, in milliseconds.
    pub fn default_timeout(&self) -> (r: u64)
        ensures
            r == self.settings().6,
    {
        self.default_timeout
    }

    /// The default timeout that creating the pipe passes: milliseconds,
    /// capped at `u32::MAX`.
    pub fn default_timeout_millis(&self) -> (r: u32)
        ensures
            r == wait_millis(self.settings().6),
    {
        wait_millis_of(self.default_timeout)
    }

    /// Return the security options.
    pub fn security(&self) -> (r: PipeSecurityOptions)
        ensures
            r.inherit_handle == self.settings().7.inherit_handle,
            match (r.security_descriptor, self.settings().7.security_descriptor) {
                (None, None) => true,
                (Some(a), Some(b)) => a@ == b@,
                _ => false,
            },
    {
        copy_security(&self.security)
    }

    /// The open-mode flags that creating the pipe passes.
    pub fn open_mode_flags(&self) -> (r: u32)
        ensures
            r == server_open_mode(self.settings().1),
    {
        match self.open_mode {
            NamedPipeOpenMode::Inbound => PIPE_ACCESS_INBOUND,
            NamedPipeOpenMode::Outbound => PIPE_ACCESS_OUTBOUND,
            NamedPipeOpenMode::Duplex => PIPE_ACCESS_DUPLEX,
        }
    }

    /// The pipe-mode flags that creating the pipe passes: byte or message
    /// type and read mode, blocking, remote clients rejected.
    pub fn pipe_mode_flags(&self) -> (r: u32)
        ensures
            r == pipe_mode(self.settings().2),
    {
        match self.pipe_type {
            NamedPipeType::Byte => PIPE_REJECT_REMOTE_CLIENTS,
            NamedPipeType::Message => PIPE_TYPE_MESSAGE | PIPE_READMODE_MESSAGE | PIPE_REJECT_REMOTE_CLIENTS,
        }
    }

    /// The instance limit that creating the pipe passes (255 meaning unlimited).
    pub fn instance_limit(&self) -> (r: u32)
        ensures
            r == self.settings().3 as u32,
    {
        if self.max_instances == 255 {
            PIPE_UNLIMITED_INSTANCES
        } else {
            self.max_instances as u32
        }
    }
}

/// Open-mode flags of a direction.
pub open spec fn server_open_mode(m: NamedPipeOpenMode) -> u32 {
    match m {
        NamedPipeOpenMode::Inbound => PIPE_ACCESS_INBOUND,
        NamedPipeOpenMode::Outbound => PIPE_ACCESS_OUTBOUND,
        NamedPipeOpenMode::Duplex => PIPE_ACCESS_DUPLEX,
    }
}

/// Pipe-mode flags of a pipe type.
pub open spec fn pipe_mode(t: NamedPipeType) -> u32 {
    match t {
        NamedPipeType::Byte => PIPE_REJECT_REMOTE_CLIENTS,
        NamedPipeType::Message => PIPE_TYPE_MESSAGE | PIPE_READMODE_MESSAGE | PIPE_REJECT_REMOTE_CLIENTS,
    }
}

/// A connected or connectable named pipe server instance.
#[derive(Debug)]
pub struct NamedPipeServer {
    endpoint: PipeServerEndpoint,
    default_timeout: u64,
}

impl NamedPipeServer {
    /// The server's endpoint.
    pub closed spec fn endpoint_spec(&self) -> &PipeServerEndpoint {
        &self.endpoint
    }

    /// The server's default timeout.
    pub closed spec fn timeout_spec(&self) -> u64 {
        self.default_timeout
    }

    /// A server instance over a created endpoint.
    pub fn from_endpoint(endpoint: PipeServerEndpoint, default_timeout: u64) -> (r: Self)
        ensures
            *r.endpoint_spec() == endpoint,
            r.timeout_spec() == default_timeout,
    {
        NamedPipeServer { endpoint, default_timeout }
    }

    /// Return the underlying endpoint.
    pub fn endpoint(&self) -> (r: &PipeServerEndpoint)
        ensures
            r == self.endpoint_spec(),
    {
        &self.endpoint
    }

    /// Return the configured default timeout.
    pub fn default_timeout(&self) -> (r: u64)
        ensures
            r == self.timeout_spec(),
    {
        self.default_timeout
    }

    /// The outcome of a failed connect with the given Win32 code: a client
    /// that connected before the wait is a success, any other code an error.
    pub fn connect_outcome(&self, code: i32) -> (r: Result<(), Error>)
        ensures
            code == ERROR_PIPE_CONNECTED_CODE ==> r is Ok,
            code != ERROR_PIPE_CONNECTED_CODE ==> (r matches Err(e) && pipe_error_spec(
                "connect"@,
                reported_pipe_name(Some(&self.endpoint_spec().name())),
                code,
                e,
            )),
    {
        if code == ERROR_PIPE_CONNECTED_CODE {
            return Ok(());
        }
        Err(map_pipe_windows_error("connect", Some(self.endpoint.pipe_name()), code))
    }
}

} // verus!
