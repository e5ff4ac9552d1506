use windows_erg::error::ProcessError;
use windows_erg::process::spawn::{
    format_command_line, get_userprofile_from_env_block, privilege_not_assigned_reason, resume_outcome,
    ProcessSpawner, CREATE_DEFAULT_ERROR_MODE, CREATE_NEW_CONSOLE, CREATE_SUSPENDED, CREATE_UNICODE_ENVIRONMENT,
    EXTENDED_STARTUPINFO_PRESENT,
};
use windows_erg::{Error, ProcessId};

fn units(s: &str) -> Vec<u16> {
    s.encode_utf16().collect()
}

#[test]
fn command_line_quotes_the_path() {
    assert_eq!(format_command_line(r"C:\Windows\notepad.exe", &[]), "\"C:\\Windows\\notepad.exe\"");
    assert_eq!(
        format_command_line(r"C:\Tools\app.exe", &["--flag".to_string(), "value".to_string()]),
        "\"C:\\Tools\\app.exe\" --flag value"
    );
}

#[test]
fn plan_of_a_plain_spawn() {
    let plan = ProcessSpawner::new(r"C:\Windows\notepad.exe").args(vec!["a.txt".to_string()]).plan().unwrap();
    assert_eq!(plan.command, "\"C:\\Windows\\notepad.exe\" a.txt");
    assert_eq!(plan.creation_flags, EXTENDED_STARTUPINFO_PRESENT | CREATE_DEFAULT_ERROR_MODE | CREATE_NEW_CONSOLE);
    assert_eq!(plan.desktop, None);
    assert_eq!(plan.parent_pid, None);
    assert!(plan.privileges.is_empty());
}

#[test]
fn plan_under_another_token() {
    let plan = ProcessSpawner::new("cmd.exe")
        .as_user_of(ProcessId::new(500))
        .parent(ProcessId::new(600))
        .suspended()
        .plan()
        .unwrap();
    assert_eq!(
        plan.creation_flags,
        EXTENDED_STARTUPINFO_PRESENT
            | CREATE_DEFAULT_ERROR_MODE
            | CREATE_NEW_CONSOLE
            | CREATE_SUSPENDED
            | CREATE_UNICODE_ENVIRONMENT
    );
    assert_eq!(plan.desktop.as_deref(), Some("winsta0\\default"));
    assert_eq!(plan.parent_pid, Some(ProcessId::new(600)));
    assert_eq!(plan.token_source_pid, Some(ProcessId::new(500)));
    assert_eq!(
        plan.privileges,
        vec!["SeAssignPrimaryTokenPrivilege".to_string(), "SeIncreaseQuotaPrivilege".to_string()]
    );
    let named = ProcessSpawner::new("cmd.exe").desktop("winsta0\\winlogon").plan().unwrap();
    assert_eq!(named.desktop.as_deref(), Some("winsta0\\winlogon"));
}

#[test]
fn plan_rejects_a_blank_path() {
    match ProcessSpawner::new("   ").plan() {
        Err(Error::InvalidParameter(e)) => {
            assert_eq!(e.parameter, "exe_path");
            assert_eq!(e.reason, "Executable path cannot be empty");
        }
        _ => panic!("expected invalid parameter"),
    }
}

#[test]
fn resume_failure_is_a_spawn_error() {
    assert!(resume_outcome(0, 0).is_ok());
    match resume_outcome(u32::MAX, 6) {
        Err(Error::Process(ProcessError::SpawnFailed(e))) => {
            assert_eq!(e.command, "<resume-thread>");
            assert_eq!(e.error_code, Some(6));
        }
        _ => panic!("expected spawn failure"),
    }
}

#[test]
fn privilege_reason_text() {
    assert_eq!(
        privilege_not_assigned_reason("SeDebugPrivilege"),
        "Privilege 'SeDebugPrivilege' was not assigned to current token"
    );
}

#[test]
fn userprofile_from_environment_block() {
    let mut block = units("PATH=C:\\Windows");
    block.push(0);
    block.extend(units("USERPROFILE=C:\\Users\\Admin"));
    block.push(0);
    block.push(0);
    let mut expected = units("C:\\Users\\Admin");
    expected.push(0);
    assert_eq!(get_userprofile_from_env_block(&block), Some(expected));
}

#[test]
fn userprofile_missing_or_after_block_end() {
    let mut block = units("PATH=C:\\Windows");
    block.push(0);
    block.push(0);
    block.extend(units("USERPROFILE=C:\\Hidden"));
    block.push(0);
    assert_eq!(get_userprofile_from_env_block(&block), None);
    assert_eq!(get_userprofile_from_env_block(&[]), None);
}
