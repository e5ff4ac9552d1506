use windows_erg::error::PipeError;
use windows_erg::pipes::enumerate::{
    directory_status_error, filetime_parts, parse_directory_entries, relative_pipe_name, snapshot_from,
    sort_by_pipe_name, NamedPipePoller,
};
use windows_erg::pipes::{
    map_win32_pipe_error, NamedPipeChange, NamedPipeClientConfig, NamedPipeInfo, NamedPipeServerConfig, PipeName,
};
use windows_erg::Error;

fn info(name: &str, eof: i64) -> NamedPipeInfo {
    NamedPipeInfo {
        pipe_name: PipeName::from_relative_name(name).unwrap(),
        relative_name: name.to_string(),
        creation_time: None,
        last_access_time: None,
        last_write_time: None,
        change_time: None,
        end_of_file: eof,
        allocation_size: 0,
        file_attributes: 0,
        file_index: 0,
        local_info: None,
    }
}

fn change_name(c: &NamedPipeChange) -> (&'static str, String) {
    match c {
        NamedPipeChange::Appeared(i) => ("appeared", i.relative_name.clone()),
        NamedPipeChange::Removed(i) => ("removed", i.relative_name.clone()),
    }
}

#[test]
fn pipe_name_validation() {
    assert_eq!(PipeName::new(r"\\.\pipe\mypipe").unwrap().as_str(), r"\\.\pipe\mypipe");
    for (path, reason) in [
        ("", "Pipe name cannot be empty"),
        (r"C:\pipe\x", r"Pipe name must start with \\.\pipe\"),
        (r"\\.\pipe\", r"Pipe name must include a segment after \\.\pipe\"),
    ] {
        match PipeName::new(path) {
            Err(Error::InvalidParameter(e)) => {
                assert_eq!(e.parameter, "path");
                assert_eq!(e.reason, reason);
            }
            _ => panic!("expected invalid parameter for {path:?}"),
        }
    }
}

#[test]
fn relative_name_round_trip() {
    let name = PipeName::from_relative_name("svc_pipe").unwrap();
    assert_eq!(name.to_string(), r"\\.\pipe\svc_pipe");
    assert_eq!(relative_pipe_name(&name).unwrap(), "svc_pipe");
}

#[test]
fn poller_reports_appeared_and_removed_in_name_order() {
    let mut poller = NamedPipePoller::new();
    assert_eq!(poller.seed_with(vec![info("b", 0), info("a", 0), info("b", 1)]), 2);
    let changes = poller.poll_with(vec![info("c", 0), info("a", 0), info("0", 0)]);
    let got: Vec<_> = changes.iter().map(change_name).collect();
    assert_eq!(
        got,
        vec![("appeared", "0".to_string()), ("removed", "b".to_string()), ("appeared", "c".to_string())]
    );
    assert!(poller.poll_with(vec![info("c", 5), info("a", 0), info("0", 0)]).is_empty());
}

#[test]
fn snapshot_keeps_last_listing_of_a_name() {
    let snap = snapshot_from(vec![info("x", 1), info("y", 2), info("x", 3)]);
    assert_eq!(snap.len(), 2);
    assert_eq!(snap[0].relative_name, "x");
    assert_eq!(snap[0].end_of_file, 3);
}

#[test]
fn sort_by_name() {
    let sorted = sort_by_pipe_name(vec![info("delta", 0), info("alpha", 0), info("charlie", 0)]);
    let names: Vec<_> = sorted.iter().map(|i| i.relative_name.clone()).collect();
    assert_eq!(names, vec!["alpha", "charlie", "delta"]);
}

fn dir_record(name: &str, next: u32, index: u32, eof: i64) -> Vec<u8> {
    let units: Vec<u16> = name.encode_utf16().collect();
    let mut b = Vec::new();
    b.extend(next.to_le_bytes());
    b.extend(index.to_le_bytes());
    for t in [1i64, 2, 3, 4] {
        b.extend(t.to_le_bytes());
    }
    b.extend(eof.to_le_bytes());
    b.extend(0i64.to_le_bytes());
    b.extend(0x80u32.to_le_bytes());
    b.extend(((units.len() * 2) as u32).to_le_bytes());
    for u in units {
        b.extend(u.to_le_bytes());
    }
    b
}

#[test]
fn directory_entries_follow_next_offsets() {
    let first = dir_record("lsass", 0, 7, 3);
    let mut buffer = first.clone();
    let next = buffer.len() as u32;
    buffer[0..4].copy_from_slice(&next.to_le_bytes());
    buffer.extend(dir_record("spoolss", 0, 8, 1));
    let entries = parse_directory_entries(&buffer);
    assert_eq!(entries.len(), 2);
    assert_eq!(entries[0].relative_name, "lsass");
    assert_eq!(entries[0].file_index, 7);
    assert_eq!(entries[0].creation_time, 1);
    assert_eq!(entries[0].end_of_file, 3);
    assert_eq!(entries[0].file_attributes, 0x80);
    assert_eq!(entries[1].relative_name, "spoolss");
}

#[test]
fn directory_entry_running_past_data_ends_list() {
    let mut buffer = dir_record("abc", 0, 0, 0);
    buffer.truncate(buffer.len() - 1);
    assert!(parse_directory_entries(&buffer).is_empty());
}

#[test]
fn filetime_to_unix_parts() {
    assert_eq!(filetime_parts(0), None);
    assert_eq!(filetime_parts(-5), None);
    assert_eq!(filetime_parts(116_444_736_000_000_000 + 15_000_001), Some((1, 500_000_100)));
}

#[test]
fn pipe_error_mapping() {
    let name = PipeName::new(r"\\.\pipe\p").unwrap();
    match map_win32_pipe_error("connect", Some(&name), 121) {
        Error::Pipe(PipeError::Timeout(e)) => assert_eq!(e.pipe_name, r"\\.\pipe\p"),
        _ => panic!("expected timeout"),
    }
    match map_win32_pipe_error("connect", Some(&name), 231) {
        Error::Pipe(PipeError::Connect(e)) => assert_eq!(e.context.as_deref(), Some("pipe is busy")),
        _ => panic!("expected busy"),
    }
    match map_win32_pipe_error("read", None, 109) {
        Error::Pipe(PipeError::Io(e)) => {
            assert_eq!(e.pipe_name, "<unnamed pipe>");
            assert_eq!(e.error_code, Some(109));
        }
        _ => panic!("expected broken pipe"),
    }
    match map_win32_pipe_error("create", None, 5) {
        Error::Pipe(PipeError::Create(_)) => {}
        _ => panic!("expected create failure"),
    }
    match directory_status_error("query directory", -1073741811, 87) {
        Error::Pipe(PipeError::Io(e)) => assert_eq!(e.error_code, Some(87)),
        _ => panic!("expected io"),
    }
}

#[test]
fn server_builder_validation() {
    match NamedPipeServerConfig::builder().build() {
        Err(Error::InvalidParameter(e)) => assert_eq!(e.parameter, "pipe_name"),
        _ => panic!("expected missing name"),
    }
    let name = PipeName::new(r"\\.\pipe\srv").unwrap();
    match NamedPipeServerConfig::builder().pipe_name(name).max_instances(0).build() {
        Err(Error::InvalidParameter(e)) => assert_eq!(e.parameter, "max_instances"),
        _ => panic!("expected bad instances"),
    }
}

#[test]
fn builders_default_to_five_second_timeouts() {
    let server = NamedPipeServerConfig::builder();
    assert_eq!(server.default_timeout, 5000);
    let config = server.pipe_name(PipeName::new(r"\\.\pipe\t").unwrap()).build().unwrap();
    assert_eq!(config.default_timeout(), 5000);
    assert_eq!(config.default_timeout_millis(), 5000);
    let client = NamedPipeClientConfig::builder();
    assert_eq!(client.connect_timeout, 5000);
    let long = client
        .pipe_name(PipeName::new(r"\\.\pipe\t").unwrap())
        .connect_timeout(u64::MAX)
        .build()
        .unwrap();
    assert_eq!(long.connect_timeout(), u64::MAX);
    assert_eq!(long.wait_timeout_millis(), u32::MAX);
}
