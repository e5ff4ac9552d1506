use std::time::SystemTime;
use windows_erg::etw::generic_map::{file_io_provider, registry_provider, tcpip_provider};
use windows_erg::etw::session::process_filter_accepts;
use windows_erg::etw::trace::TraceEvent;
use windows_erg::etw::{DecodedEvent, EventField, EventFieldValue, FileIoOperation, RegistryOperation, TcpOperation};
use windows_erg::{ProcessId, ThreadId};

fn field(name: &str, value: EventFieldValue) -> EventField {
    EventField { name: name.to_string(), value }
}

#[test]
fn decode_typed_registry_from_preparsed_fields() {
    let event = TraceEvent::from_record_parts(
        14,
        1,
        14,
        4,
        registry_provider(),
        ProcessId::new(5678),
        ThreadId::new(1),
        SystemTime::UNIX_EPOCH,
        Vec::new(),
        Some(vec![
            field("ProcessId", EventFieldValue::U32(5678)),
            field("KeyName", EventFieldValue::String("\\Registry\\Machine\\SOFTWARE".to_string())),
            field("ValueName", EventFieldValue::String("TestValue".to_string())),
            field("Status", EventFieldValue::U32(0)),
        ]),
    );
    match event.decode() {
        DecodedEvent::Registry(reg) => {
            assert_eq!(reg.operation, RegistryOperation::SetValue);
            assert_eq!(reg.process_id, Some(ProcessId::new(5678)));
            assert_eq!(reg.value_name.as_deref(), Some("TestValue"));
        }
        other => panic!("unexpected decode result: {other:?}"),
    }
}

#[test]
fn decode_typed_fileio_from_preparsed_fields() {
    let event = TraceEvent::from_record_parts(
        32,
        1,
        32,
        4,
        file_io_provider(),
        ProcessId::new(2222),
        ThreadId::new(1),
        SystemTime::UNIX_EPOCH,
        Vec::new(),
        Some(vec![
            field("ProcessId", EventFieldValue::U32(2222)),
            field("OpenPath", EventFieldValue::String("C:\\Temp\\test.txt".to_string())),
            field("FileObject", EventFieldValue::U64(0x1000)),
            field("IrpPtr", EventFieldValue::Pointer(0x2000)),
            field("CreateOptions", EventFieldValue::U32(0x20)),
        ]),
    );
    match event.decode() {
        DecodedEvent::FileIo(file) => {
            assert_eq!(file.operation, FileIoOperation::Create);
            assert_eq!(file.process_id, Some(ProcessId::new(2222)));
            assert_eq!(file.open_path.as_deref(), Some("C:\\Temp\\test.txt"));
            assert_eq!(file.file_object, Some(0x1000));
            assert_eq!(file.irp_ptr, Some(0x2000));
        }
        other => panic!("unexpected decode result: {other:?}"),
    }
}

#[test]
fn trace_event_tcp_send_and_fields_getter() {
    let event = TraceEvent::from_record_parts(
        10,
        2,
        10,
        4,
        tcpip_provider(),
        ProcessId::new(1234),
        ThreadId::new(1),
        SystemTime::UNIX_EPOCH,
        Vec::new(),
        Some(vec![
            field("PID", EventFieldValue::U32(1234)),
            field("saddr", EventFieldValue::String("10.0.0.10".to_string())),
            field("sport", EventFieldValue::U16(5050)),
            field("daddr", EventFieldValue::String("1.1.1.1".to_string())),
            field("dport", EventFieldValue::U16(443)),
        ]),
    );
    assert_eq!(event.fields().map(|f| f.len()), Some(5));
    assert!(event.thread_context.is_none());
    match event.decode() {
        DecodedEvent::Tcp(tcp) => {
            assert_eq!(tcp.operation, TcpOperation::Send);
            assert_eq!(tcp.process_id, Some(ProcessId::new(1234)));
            assert_eq!(tcp.destination_port, Some(443));
        }
        other => panic!("unexpected decode result: {other:?}"),
    }
}

#[test]
fn trace_event_without_fields_is_unknown() {
    let event = TraceEvent::from_record_parts(
        1,
        0,
        99,
        4,
        tcpip_provider(),
        ProcessId::new(1),
        ThreadId::new(1),
        SystemTime::UNIX_EPOCH,
        vec![1, 2, 3],
        None,
    );
    assert!(event.fields().is_none());
    assert!(matches!(event.decode(), DecodedEvent::Unknown));
}

#[test]
fn process_filter() {
    let filter = vec![ProcessId::new(4), ProcessId::new(8)];
    assert!(process_filter_accepts(None, 77));
    assert!(process_filter_accepts(Some(&filter), 8));
    assert!(!process_filter_accepts(Some(&filter), 77));
}
