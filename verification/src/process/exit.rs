//! Whether a process has exited, and what waiting for its exit answers, from
//! what `GetExitCodeProcess` and `WaitForSingleObject` report.

use vstd::prelude::*;

use crate::error::{Error, ProcessError, ProcessOpenError};
use crate::types::ProcessId;

verus! {

/// The exit code a running process reports (`STILL_ACTIVE`).
pub const STILL_ACTIVE: u32 = 259;
/// `WAIT_OBJECT_0`: the process exited.
pub const WAIT_OBJECT_0: u32 = 0;
/// `WAIT_TIMEOUT`: the wait timed out.
pub const WAIT_TIMEOUT: u32 = 0x102;
/// `WAIT_FAILED`: the wait itself failed.
pub const WAIT_FAILED: u32 = 0xFFFF_FFFF;

/// The exit code of a process from the code it reports: none while it runs.
pub fn exit_code_of(code: u32) -> (r: Option<u32>)
    ensures
        code == STILL_ACTIVE ==> r is None,
        code != STILL_ACTIVE ==> r == Some(code),
{
    if code == STILL_ACTIVE {
        None
    } else {
        Some(code)
    }
}

/// Whether a process that reports `code` still runs.
pub fn is_running(code: u32) -> (r: bool)
    ensures
        r == (code == STILL_ACTIVE),
{
    exit_code_of(code).is_none()
}

/// The error of a failed wait on process `pid`.
pub open spec fn wait_error(e: Error, pid: ProcessId, reason: Seq<char>) -> bool {
    e matches Error::Process(ProcessError::OpenFailed(o)) && o.pid == pid.0 && o.reason@ == reason && o.error_code is None
}

/// What a wait result means: `Ok(true)` when the process exited (its exit
/// code is to be read next), `Ok(false)` when a wait with a timeout timed
/// out, and otherwise the error of a failed or unexpected wait.
pub fn wait_result_outcome(pid: ProcessId, wait_result: u32, with_timeout: bool) -> (r: Result<bool, Error>)
    ensures
        wait_result == WAIT_OBJECT_0 ==> r == Ok::<bool, Error>(true),
        wait_result == WAIT_TIMEOUT && with_timeout ==> r == Ok::<bool, Error>(false),
        wait_result == WAIT_FAILED ==> (r matches Err(e) && wait_error(
            e,
            pid,
            if with_timeout {
                "Failed to wait for process exit with timeout"@
            } else {
                "Failed to wait for process exit"@
            },
        )),
        wait_result != WAIT_OBJECT_0 && wait_result != WAIT_FAILED && !(wait_result == WAIT_TIMEOUT && with_timeout)
            ==> (r matches Err(e) && wait_error(e, pid, "Unexpected wait result while waiting for process exit"@)),
{
    if wait_result == WAIT_TIMEOUT && with_timeout {
        return Ok(false);
    }
    if wait_result == WAIT_OBJECT_0 {
        return Ok(true);
    }
    if wait_result == WAIT_FAILED {
        let reason = if with_timeout {
            "Failed to wait for process exit with timeout"
        } else {
            "Failed to wait for process exit"
        };
        return Err(Error::Process(ProcessError::OpenFailed(ProcessOpenError::new(pid.0, reason))));
    }
    Err(
        Error::Process(
            ProcessError::OpenFailed(
                ProcessOpenError::new(pid.0, "Unexpected wait result while waiting for process exit"),
            ),
        ),
    )
}

/// The exit code a completed wait gives: an error where the process still
/// reports itself running.
pub fn exited_code(pid: ProcessId, code: u32) -> (r: Result<u32, Error>)
    ensures
        code != STILL_ACTIVE ==> r == Ok::<u32, Error>(code),
        code == STILL_ACTIVE ==> (r matches Err(e) && wait_error(
            e,
            pid,
            "Process wait completed but exit code is still active"@,
        )),
{
    if code == STILL_ACTIVE {
        return Err(
            Error::Process(
                ProcessError::OpenFailed(
                    ProcessOpenError::new(pid.0, "Process wait completed but exit code is still active"),
                ),
            ),
        );
    }
    Ok(code)
}

/// The error of a failed `GetExitCodeProcess` or `TerminateProcess` call on
/// process `pid` with error code `code`.
pub fn process_call_error(pid: ProcessId, reason: &str, code: i32) -> (r: Error)
    ensures
        r matches Error::Process(ProcessError::OpenFailed(o)) && o.pid == pid.0 && o.reason@ == reason@
            && o.error_code == Some(code),
{
    Error::Process(ProcessError::OpenFailed(ProcessOpenError::with_code(pid.0, reason, code)))
}

} // verus!
