//! Anonymous pipe configuration.

use vstd::prelude::*;

use super::types::{PipeSecurityOptions, copy_security};

verus! {

/// Builder for an anonymous pipe configuration.
#[derive(Debug, Clone)]
pub struct AnonymousPipeBuilder {
    /// Suggested buffer size.
    pub buffer_size: u32,
    /// Security options.
    pub security: PipeSecurityOptions,
}

impl AnonymousPipeBuilder {
    /// A builder with a 4096-byte buffer and default security.
    pub fn new() -> (r: Self)
        ensures
            r.buffer_size == 4096,
            !r.security.inherit_handle,
            r.security.security_descriptor is None,
    {
        AnonymousPipeBuilder { buffer_size: 4096, security: PipeSecurityOptions::new() }
    }

    /// Set the suggested buffer size.
    pub fn buffer_size(self, buffer_size: u32) -> (r: Self)
        ensures
            r == (AnonymousPipeBuilder { buffer_size, ..self }),
    {
        AnonymousPipeBuilder { buffer_size, ..self }
    }

    /// Set the security options.
    pub fn security(self, security: PipeSecurityOptions) -> (r: Self)
        ensures
            r == (AnonymousPipeBuilder { security, ..self }),
    {
        AnonymousPipeBuilder { security, ..self }
    }

    /// Build the configuration.
    pub fn build(self) -> (r: AnonymousPipeConfig)
        ensures
            r.settings() == (self.buffer_size, self.security),
    {
        AnonymousPipeConfig { buffer_size: self.buffer_size, security: self.security }
    }
}

/// Anonymous pipe configuration.
#[derive(Debug, Clone)]
pub struct AnonymousPipeConfig {
    buffer_size: u32,
    security: PipeSecurityOptions,
}

impl AnonymousPipeConfig {
    /// All settings of the configuration.
    pub closed spec fn settings(&self) -> (u32, PipeSecurityOptions) {
        (self.buffer_size, self.security)
    }

    /// Return the suggested buffer size.
    pub fn buffer_size(&self) -> (r: u32)
        ensures
            r == self.settings().0,
    {
        self.buffer_size
    }

    /// Return the security options.
    pub fn security(&self) -> (r: PipeSecurityOptions)
        ensures
            r.inherit_handle == self.settings().1.inherit_handle,
            match (r.security_descriptor, self.settings().1.security_descriptor) {
                (None, None) => true,
                (Some(a), Some(b)) => a@ == b@,
                _ => false,
            },
    {
        copy_security(&self.security)
    }
}

/// Read end of an anonymous pipe: the raw handle value.
#[derive(Debug)]
pub struct AnonymousPipeReader {
    handle: usize,
}

impl AnonymousPipeReader {
    /// The raw handle value.
    pub closed spec fn handle_value(&self) -> usize {
        self.handle
    }

    /// A read end over a created handle.
    pub fn from_raw(handle: usize) -> (r: Self)
        ensures
            r.handle_value() == handle,
    {
        AnonymousPipeReader { handle }
    }

    /// Return the underlying handle value.
    pub fn raw_handle(&self) -> (r: usize)
        ensures
            r == self.handle_value(),
    {
        self.handle
    }
}

/// Write end of an anonymous pipe: the raw handle value.
#[derive(Debug)]
pub struct AnonymousPipeWriter {
    handle: usize,
}

impl AnonymousPipeWriter {
    /// The raw handle value.
    pub closed spec fn handle_value(&self) -> usize {
        self.handle
    }

    /// A write end over a created handle.
    pub fn from_raw(handle: usize) -> (r: Self)
        ensures
            r.handle_value() == handle,
    {
        AnonymousPipeWriter { handle }
    }

    /// Return the underlying handle value.
    pub fn raw_handle(&self) -> (r: usize)
        ensures
            r == self.handle_value(),
    {
        self.handle
    }
}

} // verus!
