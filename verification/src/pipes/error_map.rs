//! Structured errors for Win32 pipe error codes.

use vstd::prelude::*;

use super::types::{PipeName, pipe_name_text, reported_pipe_name};
use crate::error::{Error, PipeConnectError, PipeCreateError, PipeError, PipeIoError, PipeTimeoutError};

verus! {

/// `ERROR_BROKEN_PIPE`.
pub const ERROR_BROKEN_PIPE_CODE: i32 = 109;
/// `ERROR_PIPE_CONNECTED`.
pub const ERROR_PIPE_CONNECTED_CODE: i32 = 535;
/// `ERROR_PIPE_BUSY`.
pub const ERROR_PIPE_BUSY_CODE: i32 = 231;
/// `ERROR_SEM_TIMEOUT`.
pub const ERROR_SEM_TIMEOUT_CODE: i32 = 121;

/// The error that a pipe operation's Win32 code maps to: a timeout, a busy
/// or already connected pipe (connect errors with context), a broken pipe
/// (an I/O error), else by operation: a create, connect or I/O error.
pub open spec fn pipe_error_spec(operation: Seq<char>, name: Seq<char>, code: i32, e: Error) -> bool {
    if code == ERROR_SEM_TIMEOUT_CODE {
        e matches Error::Pipe(PipeError::Timeout(t)) && t.pipe_name@ == name && t.operation@ == operation
    } else if code == ERROR_PIPE_BUSY_CODE || code == ERROR_PIPE_CONNECTED_CODE {
        e matches Error::Pipe(PipeError::Connect(c)) && c.pipe_name@ == name && c.error_code == Some(code)
            && (c.context matches Some(x) && x@ == if code == ERROR_PIPE_BUSY_CODE {
            "pipe is busy"@
        } else {
            "pipe is already connected"@
        })
    } else if code == ERROR_BROKEN_PIPE_CODE {
        e matches Error::Pipe(PipeError::Io(i)) && i.pipe_name@ == name && i.operation@ == operation
            && i.error_code == Some(code)
    } else if operation == "create"@ {
        e matches Error::Pipe(PipeError::Create(c)) && c.pipe_name@ == name && c.operation@ == operation
            && c.error_code == Some(code)
    } else if operation == "connect"@ {
        e matches Error::Pipe(PipeError::Connect(c)) && c.pipe_name@ == name && c.context is None
            && c.error_code == Some(code)
    } else {
        e matches Error::Pipe(PipeError::Io(i)) && i.pipe_name@ == name && i.operation@ == operation
            && i.error_code == Some(code)
    }
}

/// Converts a Win32 pipe error code to a structured error; see [`pipe_error_spec`].
pub fn map_pipe_windows_error(operation: &str, pipe_name: Option<&PipeName>, error_code: i32) -> (r: Error)
    ensures
        pipe_error_spec(operation@, reported_pipe_name(pipe_name), error_code, r),
{
    let name = pipe_name_text(pipe_name);
    let n = name.as_str();
    if error_code == ERROR_SEM_TIMEOUT_CODE {
        return Error::Pipe(PipeError::Timeout(PipeTimeoutError::new(n, operation)));
    }
    if error_code == ERROR_PIPE_BUSY_CODE {
        return Error::Pipe(PipeError::Connect(PipeConnectError::new(n).with_context("pipe is busy").with_code(error_code)));
    }
    if error_code == ERROR_PIPE_CONNECTED_CODE {
        return Error::Pipe(
            PipeError::Connect(PipeConnectError::new(n).with_context("pipe is already connected").with_code(error_code)),
        );
    }
    if error_code == ERROR_BROKEN_PIPE_CODE {
        return Error::Pipe(PipeError::Io(PipeIoError::with_code(n, operation, error_code)));
    }
    if crate::text::str_eq(operation, "create") {
        Error::Pipe(PipeError::Create(PipeCreateError::with_code(n, operation, error_code)))
    } else if crate::text::str_eq(operation, "connect") {
        Error::Pipe(PipeError::Connect(PipeConnectError::new(n).with_code(error_code)))
    } else {
        Error::Pipe(PipeError::Io(PipeIoError::with_code(n, operation, error_code)))
    }
}

} // verus!
