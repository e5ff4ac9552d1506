//! Pipe endpoints wired to a child process's standard handles.

use vstd::prelude::*;

use super::types::PipeClientEndpoint;

verus! {

/// Standard I/O redirection endpoints for child process wiring.
#[derive(Debug)]
pub struct ChildPipeEndpoints {
    /// Child process stdin endpoint.
    pub stdin: Option<PipeClientEndpoint>,
    /// Child process stdout endpoint.
    pub stdout: Option<PipeClientEndpoint>,
    /// Child process stderr endpoint.
    pub stderr: Option<PipeClientEndpoint>,
}

impl Default for ChildPipeEndpoints {
    fn default() -> (r: Self)
        ensures
            r.stdin is None,
            r.stdout is None,
            r.stderr is None,
    {
        ChildPipeEndpoints { stdin: None, stdout: None, stderr: None }
    }
}

/// Pipe-backed stdio endpoint selection.
#[derive(Debug)]
pub enum PipeStdio {
    /// Inherit current process stdio endpoint.
    Inherit,
    /// Disable this stdio endpoint.
    Null,
    /// Use an explicit client endpoint.
    Endpoint(PipeClientEndpoint),
}

} // verus!
