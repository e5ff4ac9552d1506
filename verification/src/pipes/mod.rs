//! Named and anonymous pipes: names, configurations, endpoints and the
//! structured errors of Win32 pipe codes.

pub mod anonymous;
pub mod client;
pub mod enumerate;
pub mod error_map;
pub mod integration;
pub mod server;
pub mod types;

pub use anonymous::{AnonymousPipeBuilder, AnonymousPipeConfig, AnonymousPipeReader, AnonymousPipeWriter};
pub use client::{NamedPipeClient, NamedPipeClientBuilder, NamedPipeClientConfig};
pub use integration::{ChildPipeEndpoints, PipeStdio};
pub use error_map::map_pipe_windows_error as map_win32_pipe_error;
pub use server::{NamedPipeServer, NamedPipeServerBuilder, NamedPipeServerConfig};
pub use types::{
    NamedPipeChange, NamedPipeInfo, NamedPipeLocalInfo, NamedPipeOpenMode, NamedPipeType,
    PipeClientEndpoint, PipeName, PipeSecurityOptions, PipeServerEndpoint,
};
