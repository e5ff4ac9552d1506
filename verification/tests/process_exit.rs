use windows_erg::error::ProcessError;
use windows_erg::pipes::{ChildPipeEndpoints, PipeClientEndpoint, PipeName, PipeStdio, NamedPipeOpenMode};
use windows_erg::process::exit::{
    exit_code_of, exited_code, is_running, process_call_error, wait_result_outcome, STILL_ACTIVE, WAIT_FAILED,
    WAIT_OBJECT_0, WAIT_TIMEOUT,
};
use windows_erg::process::spawn::SpawnedProcess;
use windows_erg::{Error, ProcessId, ThreadId};

fn reason(e: &Error) -> String {
    match e {
        Error::Process(ProcessError::OpenFailed(o)) => o.reason.clone(),
        other => panic!("unexpected {other:?}"),
    }
}

#[test]
fn exit_codes() {
    assert_eq!(exit_code_of(STILL_ACTIVE), None);
    assert_eq!(exit_code_of(0), Some(0));
    assert!(is_running(259));
    assert!(!is_running(1));
}

#[test]
fn wait_results() {
    let pid = ProcessId::new(42);
    assert!(matches!(wait_result_outcome(pid, WAIT_OBJECT_0, false), Ok(true)));
    assert!(matches!(wait_result_outcome(pid, WAIT_TIMEOUT, true), Ok(false)));
    assert_eq!(
        reason(&wait_result_outcome(pid, WAIT_TIMEOUT, false).unwrap_err()),
        "Unexpected wait result while waiting for process exit"
    );
    assert_eq!(reason(&wait_result_outcome(pid, WAIT_FAILED, false).unwrap_err()), "Failed to wait for process exit");
    assert_eq!(
        reason(&wait_result_outcome(pid, WAIT_FAILED, true).unwrap_err()),
        "Failed to wait for process exit with timeout"
    );
    assert_eq!(exited_code(pid, 3).unwrap(), 3);
    assert_eq!(
        reason(&exited_code(pid, STILL_ACTIVE).unwrap_err()),
        "Process wait completed but exit code is still active"
    );
    match process_call_error(pid, "Failed to terminate process", 5) {
        Error::Process(ProcessError::OpenFailed(o)) => {
            assert_eq!(o.pid, 42);
            assert_eq!(o.error_code, Some(5));
        }
        other => panic!("unexpected {other:?}"),
    }
}

#[test]
fn spawned_process_ids() {
    let p = SpawnedProcess::from_raw(ProcessId::new(10), ThreadId::new(11), 0x100, 0x104);
    assert_eq!(p.pid(), ProcessId::new(10));
    assert_eq!(p.thread_id(), ThreadId::new(11));
    assert_eq!(p.process_handle(), 0x100);
    assert_eq!(p.thread_handle(), 0x104);
}

#[test]
fn child_pipe_endpoints() {
    let endpoints = ChildPipeEndpoints::default();
    assert!(endpoints.stdin.is_none() && endpoints.stdout.is_none() && endpoints.stderr.is_none());
    let name = PipeName::new(r"\\.\pipe\child").unwrap();
    let stdio = PipeStdio::Endpoint(PipeClientEndpoint::from_raw(7, true, name, NamedPipeOpenMode::Inbound));
    match stdio {
        PipeStdio::Endpoint(e) => assert_eq!(e.raw_handle(), 7),
        _ => panic!("expected an endpoint"),
    }
    assert!(matches!(PipeStdio::Null, PipeStdio::Null));
}
