use windows_erg::error::{
    AccessDeniedError, EtwConsumeError, EtwError, EtwProviderError, EtwSessionError, Error,
    MitigationOperationError, PipeConnectError, ProcessError, ProcessNotFoundError,
    ProcessTerminatedError, WindowsApiError,
};

#[test]
fn etw_session_error_invalid_config_message_contains_field() {
    let err = EtwSessionError::invalid_config(
        "MySession",
        "providers",
        "cannot mix kernel and user providers",
    );

    assert_eq!(err.session_name, "MySession");
    assert!(err.reason.contains("Invalid providers"));
    assert!(err.reason.contains("cannot mix kernel and user providers"));
    assert!(err.error_code.is_none());
}

#[test]
fn etw_provider_error_not_found_has_expected_code() {
    let err = EtwProviderError::not_found("{provider-guid}");

    assert_eq!(err.provider, "{provider-guid}");
    assert_eq!(err.error_code, Some(0x00000490));
    assert!(err.reason.contains("Provider not registered"));
}

#[test]
fn etw_consume_error_display_with_code_contains_hex() {
    let err = EtwConsumeError::with_code("OpenTraceW failed", 0x57);
    let rendered = err.to_string();

    assert!(rendered.contains("OpenTraceW failed"));
    assert!(rendered.contains("0x00000057"));
}

#[test]
fn mitigation_operation_error_display_includes_policy_pid_and_code() {
    let err = MitigationOperationError::new("apply", "dynamic_code")
        .with_process_id(1234)
        .with_reason("Access denied")
        .with_code(5);

    let rendered = err.to_string();
    assert!(rendered.contains("dynamic_code"));
    assert!(rendered.contains("1234"));
    assert!(rendered.contains("0x00000005"));
}

#[test]
fn already_exists_message_renders_negative_code_as_bit_pattern() {
    let err = EtwSessionError::already_exists("S");
    assert_eq!(
        err.to_string(),
        "Failed to start ETW session 'S': Session already exists (error code: 0x800700B7)"
    );
}

#[test]
fn mitigation_message_without_optional_parts() {
    let err = MitigationOperationError::new("query", "cfg");
    assert_eq!(err.to_string(), "Mitigation query failed for policy 'cfg'");
}

#[test]
fn pipe_connect_message_has_four_shapes() {
    assert_eq!(PipeConnectError::new("p").to_string(), "Pipe connect failed for 'p'");
    assert_eq!(
        PipeConnectError::new("p").with_context("busy").to_string(),
        "Pipe connect failed for 'p' (busy)"
    );
    assert_eq!(
        PipeConnectError::new("p").with_code(2).to_string(),
        "Pipe connect failed for 'p' (error code: 0x00000002)"
    );
    assert_eq!(
        PipeConnectError::new("p").with_context("busy").with_code(231).to_string(),
        "Pipe connect failed for 'p' (busy, error code: 0x000000E7)"
    );
}

#[test]
fn top_level_error_delegates_to_inner_message() {
    let e = Error::Process(ProcessError::NotFound(ProcessNotFoundError::new(42)));
    assert_eq!(e.to_string(), "Process 42 not found");
    let e = Error::Process(ProcessError::InvalidProcessId);
    assert_eq!(e.to_string(), "Invalid process ID");
    let e = Error::Etw(EtwError::ConsumeFailed(EtwConsumeError::new("stopped")));
    assert_eq!(e.to_string(), "Failed to consume ETW events: stopped");
}

#[test]
fn access_denied_and_terminated_messages() {
    assert_eq!(
        AccessDeniedError::with_reason("key", "open", "policy").to_string(),
        "Access denied: cannot open 'key' (policy)"
    );
    assert_eq!(
        ProcessTerminatedError::with_exit_code(7, 0).to_string(),
        "Process 7 already terminated (exit code: 0)"
    );
}

#[test]
fn windows_api_error_keeps_code_and_context() {
    let e = WindowsApiError::with_context(5, "Access is denied.", "OpenProcess");
    assert_eq!(e.code(), 5);
    assert_eq!(e.to_string(), "Windows API error in OpenProcess: Access is denied.");
    assert_eq!(WindowsApiError::new(5, "x").to_string(), "Windows API error: x");
}
