//! Named pipe client configuration.

use vstd::prelude::*;

use super::types::{
    NamedPipeOpenMode, PipeClientEndpoint, PipeName, PipeSecurityOptions, copy_security, DEFAULT_PIPE_TIMEOUT_MS,
    wait_millis, wait_millis_of,
};
use crate::error::{Error, InvalidParameterError};

verus! {

/// `GENERIC_READ`.
pub const GENERIC_READ: u32 = 0x8000_0000;
/// `GENERIC_WRITE`.
pub const GENERIC_WRITE: u32 = 0x4000_0000;

/// Builder for a named pipe client configuration.
#[derive(Debug, Clone)]
pub struct NamedPipeClientBuilder {
    /// Pipe path.
    pub pipe_name: Option<PipeName>,
    /// Open direction.
    pub open_mode: NamedPipeOpenMode,
    /// How long to wait for a free instance, in milliseconds.
    pub connect_timeout: u64,
    /// Security options.
    pub security: PipeSecurityOptions,
}

impl NamedPipeClientBuilder {
    /// A builder with no path, duplex access, a five-second connect timeout
    /// and default security.
    pub fn new() -> (r: Self)
        ensures
            r.pipe_name is None,
            r.open_mode == NamedPipeOpenMode::Duplex,
            r.connect_timeout == 5000,
            !r.security.inherit_handle,
            r.security.security_descriptor is None,
    {
        NamedPipeClientBuilder {
            pipe_name: None,
            open_mode: NamedPipeOpenMode::Duplex,
            connect_timeout: DEFAULT_PIPE_TIMEOUT_MS,
            security: PipeSecurityOptions::new(),
        }
    }

    /// Set the named pipe path.
    pub fn pipe_name(self, pipe_name: PipeName) -> (r: Self)
        ensures
            r == (NamedPipeClientBuilder { pipe_name: Some(pipe_name), ..self }),
    {
        NamedPipeClientBuilder { pipe_name: Some(pipe_name), ..self }
    }

    /// Set the open direction.
    pub fn open_mode(self, open_mode: NamedPipeOpenMode) -> (r: Self)
        ensures
            r == (NamedPipeClientBuilder { open_mode, ..self }),
    {
        NamedPipeClientBuilder { open_mode, ..self }
    }

    /// Set the connect timeout, in milliseconds.
    pub fn connect_timeout(self, connect_timeout: u64) -> (r: Self)
        ensures
            r == (NamedPipeClientBuilder { connect_timeout, ..self }),
    {
        NamedPipeClientBuilder { connect_timeout, ..self }
    }

    /// Set the security options.
    pub fn security(self, security: PipeSecurityOptions) -> (r: Self)
        ensures
            r == (NamedPipeClientBuilder { security, ..self }),
    {
        NamedPipeClientBuilder { security, ..self }
    }

    /// Build the configuration: the path must be set.
    pub fn build(self) -> (r: Result<NamedPipeClientConfig, Error>)
        ensures
            self.pipe_name is None ==> (r matches Err(Error::InvalidParameter(e)) && e.parameter@
                == "pipe_name"@ && e.reason@ == "Pipe name must be specified"@),
            self.pipe_name is Some ==> (r matches Ok(c) && c.settings() == (
                self.pipe_name->0,
                self.open_mode,
                self.connect_timeout,
                self.security,
            )),
    {
        match self.pipe_name {
            Some(pipe_name) => Ok(
                NamedPipeClientConfig {
                    pipe_name,
                    open_mode: self.open_mode,
                    connect_timeout: self.connect_timeout,
                    security: self.security,
                },
            ),
            None => Err(Error::InvalidParameter(InvalidParameterError::new("pipe_name", "Pipe name must be specified"))),
        }
    }
}

/// Named pipe client configuration.
#[derive(Debug)]
pub struct NamedPipeClientConfig {
    pipe_name: PipeName,
    open_mode: NamedPipeOpenMode,
    connect_timeout: u64,
    security: PipeSecurityOptions,
}

/// Desired access of a client for an open direction.
pub open spec fn client_access(m: NamedPipeOpenMode) -> u32 {
    match m {
        NamedPipeOpenMode::Inbound => GENERIC_READ,
        NamedPipeOpenMode::Outbound => GENERIC_WRITE,
        NamedPipeOpenMode::Duplex => GENERIC_READ | GENERIC_WRITE,
    }
}

impl NamedPipeClientConfig {
    /// All settings of the configuration.
    pub closed spec fn settings(&self) -> (PipeName, NamedPipeOpenMode, u64, PipeSecurityOptions) {
        (self.pipe_name, self.open_mode, self.connect_timeout, self.security)
    }

    /// Create a new builder.
    pub fn builder() -> (r: NamedPipeClientBuilder)
        ensures
            r.pipe_name is None,
            r.open_mode == NamedPipeOpenMode::Duplex,
    {
        NamedPipeClientBuilder::new()
    }

    /// Return the pipe name.
    pub fn pipe_name(&self) -> (r: &PipeName)
        ensures
            *r == self.settings().0,
    {
        &self.pipe_name
    }

    /// Return the open mode.
    pub fn open_mode(&self) -> (r: NamedPipeOpenMode)
        ensures
            r == self.settings().1,
    {
        self.open_mode
    }

    /// Return the connect timeout, in milliseconds.
    pub fn connect_timeout(&self) -> (r: u64)
        ensures
            r == self.settings().2,
    {
        self.connect_timeout
    }

    /// The timeout that waiting for a free instance passes: milliseconds,
    /// capped at `u32::MAX`.
    pub fn wait_timeout_millis(&self) -> (r: u32)
        ensures
            r == wait_millis(self.settings().2),
    {
        wait_millis_of(self.connect_timeout)
    }

    /// Return the security options.
    pub fn security(&self) -> (r: PipeSecurityOptions)
        ensures
            r.inherit_handle == self.settings().3.inherit_handle,
            match (r.security_descriptor, self.settings().3.security_descriptor) {
                (None, None) => true,
                (Some(a), Some(b)) => a@ == b@,
                _ => false,
            },
    {
        copy_security(&self.security)
    }

    /// The desired access that opening the pipe passes.
    pub fn desired_access(&self) -> (r: u32)
        ensures
            r == client_access(self.settings().1),
    {
        match self.open_mode {
            NamedPipeOpenMode::Inbound => GENERIC_READ,
            NamedPipeOpenMode::Outbound => GENERIC_WRITE,
            NamedPipeOpenMode::Duplex => GENERIC_READ | GENERIC_WRITE,
        }
    }
}

/// A connected named pipe client.
#[derive(Debug)]
pub struct NamedPipeClient {
    endpoint: PipeClientEndpoint,
}

impl NamedPipeClient {
    /// The client's endpoint.
    pub closed spec fn endpoint_spec(&self) -> &PipeClientEndpoint {
        &self.endpoint
    }

    /// A client over an opened endpoint.
    pub fn from_endpoint(endpoint: PipeClientEndpoint) -> (r: Self)
        ensures
            *r.endpoint_spec() == endpoint,
    {
        NamedPipeClient { endpoint }
    }

    /// Return the underlying endpoint.
    pub fn endpoint(&self) -> (r: &PipeClientEndpoint)
        ensures
            r == self.endpoint_spec(),
    {
        &self.endpoint
    }
}

} // verus!
