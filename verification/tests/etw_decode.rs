use windows_erg::etw::decode::{
    ascii_string_until_null, decode_from_record_parts, decode_image_parts, decode_process_parts,
    sid_to_string_with_size, utf16_until_null,
};
use windows_erg::etw::generic_map::{
    image_load_provider, map_file, map_registry, map_tcp, parse_ip_value, process_provider,
    tcpip_provider,
};
use windows_erg::etw::{
    DecodedEvent, EventField, EventFieldValue, FileIoOperation, Guid, IpAddress,
    RegistryOperation, TcpOperation,
};
use windows_erg::ProcessId;

#[test]
fn utf16_until_null_parses_aligned_input() {
    let data = [0x68, 0x00, 0x69, 0x00, 0x00, 0x00];
    let (value, consumed) = utf16_until_null(&data).expect("expected valid UTF-16 string");
    assert_eq!(value, "hi");
    assert_eq!(consumed, 6);
}

#[test]
fn utf16_until_null_parses_misaligned_subslice() {
    let data = [0xFF, 0x48, 0x00, 0x69, 0x00, 0x00, 0x00];
    let (value, consumed) =
        utf16_until_null(&data[1..]).expect("expected valid UTF-16 string from odd offset");
    assert_eq!(value, "Hi");
    assert_eq!(consumed, 6);
}

#[test]
fn utf16_until_null_handles_empty_string() {
    let data = [0x00, 0x00];
    let (value, consumed) = utf16_until_null(&data).expect("expected empty UTF-16 string");
    assert_eq!(value, "");
    assert_eq!(consumed, 2);
}

#[test]
fn utf16_until_null_handles_truncated_input_without_panic() {
    let data = [0x41, 0x00, 0x42];
    let (value, consumed) = utf16_until_null(&data).expect("expected partial UTF-16 parse");
    assert_eq!(value, "A");
    assert_eq!(consumed, 2);
}

#[test]
fn utf16_until_null_rejects_unpaired_surrogate() {
    let data = [0x00, 0xD8, 0x41, 0x00, 0x00, 0x00];
    assert!(utf16_until_null(&data).is_none());
}

#[test]
fn ascii_until_null_counts_terminator() {
    assert_eq!(ascii_string_until_null(b"abc\0rest"), Some(("abc".to_string(), 4)));
    assert_eq!(ascii_string_until_null(b"abc"), Some(("abc".to_string(), 3)));
    assert_eq!(ascii_string_until_null(b"AB"), Some(("AB".to_string(), 2)));
    assert!(ascii_string_until_null(&[0xFF, 0x00]).is_none());
}

#[test]
fn sid_renders_authority_and_sub_authorities() {
    let sid = [1u8, 2, 0, 0, 0, 0, 0, 5, 32, 0, 0, 0, 0x20, 0x02, 0, 0];
    assert_eq!(sid_to_string_with_size(&sid), Some(("S-1-5-32-544".to_string(), 16)));
    let truncated = [1u8, 2, 0, 0, 0, 0, 0, 5, 18, 0, 0, 0];
    assert_eq!(sid_to_string_with_size(&truncated), Some(("S-1-5-18".to_string(), 12)));
    assert!(sid_to_string_with_size(&[1u8, 1, 0]).is_none());
}

fn process_v0_payload() -> Vec<u8> {
    let mut d = Vec::new();
    d.extend_from_slice(&1234u32.to_le_bytes());
    d.extend_from_slice(&4u32.to_le_bytes());
    d.extend_from_slice(&0u64.to_le_bytes());
    d.extend_from_slice(&0u64.to_le_bytes());
    d.extend_from_slice(&0u32.to_le_bytes());
    d.extend_from_slice(&[1u8, 1, 0, 0, 0, 0, 0, 5, 18, 0, 0, 0]);
    d.extend_from_slice(b"notepad.exe\0");
    d
}

#[test]
fn decode_process_v0_start_event() {
    let data = process_v0_payload();
    match decode_process_parts(0, 1, &data) {
        Some(DecodedEvent::ProcessStart(e)) => {
            assert_eq!(e.process_id, ProcessId::new(1234));
            assert_eq!(e.parent_process_id, ProcessId::new(4));
            assert_eq!(e.image_file_name, "notepad.exe");
            assert_eq!(e.user_sid.as_deref(), Some("S-1-5-18"));
            assert_eq!(e.command_line, None);
            assert_eq!(e.version, 0);
        }
        other => panic!("unexpected {other:?}"),
    }
    assert!(decode_process_parts(0, 3, &data).is_none());
    assert!(decode_process_parts(0, 1, &data[..20]).is_none());
}

#[test]
fn decode_process_without_image_terminator_is_none() {
    assert!(decode_process_parts(1, 1, &[0x41u8; 80]).is_none());
    let mut data = process_v0_payload();
    data.pop();
    assert!(decode_process_parts(0, 1, &data).is_none());
}

#[test]
fn decode_process_v3_end_event_reads_command_line() {
    let mut d = Vec::new();
    d.extend_from_slice(&0xAAAAu64.to_le_bytes());
    d.extend_from_slice(&77u32.to_le_bytes());
    d.extend_from_slice(&1u32.to_le_bytes());
    d.extend_from_slice(&2u32.to_le_bytes());
    d.extend_from_slice(&259u32.to_le_bytes());
    d.extend_from_slice(&0xBBBBu64.to_le_bytes());
    d.extend_from_slice(&[0u8; 20]);
    d.extend_from_slice(&[1u8, 1, 0, 0, 0, 0, 0, 5, 18, 0, 0, 0]);
    d.extend_from_slice(b"cmd.exe\0");
    for u in "cmd /c dir".encode_utf16() {
        d.extend_from_slice(&u.to_le_bytes());
    }
    d.extend_from_slice(&[0, 0]);
    while d.len() < 76 {
        d.push(0);
    }
    match decode_process_parts(3, 2, &d) {
        Some(DecodedEvent::ProcessEnd(e)) => {
            assert_eq!(e.process_id, ProcessId::new(77));
            assert_eq!(e.session_id, Some(2));
            assert_eq!(e.exit_status, Some(259));
            assert_eq!(e.unique_process_key, Some(0xAAAA));
            assert_eq!(e.directory_table_base, Some(0xBBBB));
            assert_eq!(e.command_line.as_deref(), Some("cmd /c dir"));
        }
        other => panic!("unexpected {other:?}"),
    }
}

fn image_payload(name: &str) -> Vec<u8> {
    let mut d = Vec::new();
    d.extend_from_slice(&0x7ff0_0000u64.to_le_bytes());
    d.extend_from_slice(&0x1000u64.to_le_bytes());
    d.extend_from_slice(&42u32.to_le_bytes());
    d.extend_from_slice(&0xABCDu32.to_le_bytes());
    d.extend_from_slice(&0x5000_0000u32.to_le_bytes());
    d.extend_from_slice(&0u32.to_le_bytes());
    d.extend_from_slice(&0x1_4000_0000u64.to_le_bytes());
    d.extend_from_slice(&[0u8; 16]);
    for u in name.encode_utf16() {
        d.extend_from_slice(&u.to_le_bytes());
    }
    d.extend_from_slice(&[0, 0]);
    while d.len() < 80 {
        d.push(0);
    }
    d
}

#[test]
fn decode_image_v2_v3_v4_load_event() {
    let data = image_payload("\\Windows\\System32\\ntdll.dll");
    for version in 2..=4u8 {
        match decode_image_parts(version, 10, &data) {
            Some(DecodedEvent::ImageLoad(e)) => {
                assert_eq!(e.process_id, ProcessId::new(42));
                assert_eq!(e.image_base, 0x7ff0_0000);
                assert_eq!(e.image_size, 0x1000);
                assert_eq!(e.checksum, 0xABCD);
                assert_eq!(e.default_base, 0x1_4000_0000);
                assert_eq!(e.file_name, "\\Windows\\System32\\ntdll.dll");
                assert_eq!(e.version, version);
            }
            other => panic!("unexpected {other:?}"),
        }
    }
    assert!(matches!(decode_image_parts(2, 2, &data), Some(DecodedEvent::ImageUnload(_))));
    assert!(decode_image_parts(1, 10, &data).is_none());
    assert!(decode_image_parts(2, 11, &data).is_none());
}

fn u16f(name: &str, value: u16) -> EventField {
    EventField { name: name.to_string(), value: EventFieldValue::U16(value) }
}

fn u32f(name: &str, value: u32) -> EventField {
    EventField { name: name.to_string(), value: EventFieldValue::U32(value) }
}

fn u64f(name: &str, value: u64) -> EventField {
    EventField { name: name.to_string(), value: EventFieldValue::U64(value) }
}

fn s(name: &str, value: &str) -> EventField {
    EventField { name: name.to_string(), value: EventFieldValue::String(value.to_string()) }
}

#[test]
fn map_tcp_v2_alias_opcode_send() {
    let fields = vec![
        u32f("PID", 100),
        EventField { name: "saddr".to_string(), value: EventFieldValue::IpAddr(IpAddress::V4([10, 0, 0, 5])) },
        u16f("sport", 5555),
        EventField { name: "daddr".to_string(), value: EventFieldValue::IpAddr(IpAddress::V4([8, 8, 8, 8])) },
        u16f("dport", 53),
    ];
    let event = map_tcp(26, &fields);
    assert_eq!(event.operation, TcpOperation::Send);
    assert_eq!(event.process_id, Some(ProcessId::new(100)));
    assert_eq!(event.destination_port, Some(53));
    assert_eq!(event.destination_ip, Some(IpAddress::V4([8, 8, 8, 8])));
}

#[test]
fn map_tcp_accepts_binary_and_u32_ip_fields() {
    let fields = vec![
        u32f("PID", 123),
        EventField { name: "SourceAddress".to_string(), value: EventFieldValue::Binary(vec![192, 168, 1, 99]) },
        EventField {
            name: "DestinationAddress".to_string(),
            value: EventFieldValue::U32(u32::from_le_bytes([8, 8, 8, 8])),
        },
    ];
    let event = map_tcp(26, &fields);
    assert_eq!(event.operation, TcpOperation::Send);
    assert_eq!(event.process_id, Some(ProcessId::new(123)));
    assert_eq!(event.source_ip, Some(IpAddress::V4([192, 168, 1, 99])));
    assert_eq!(event.destination_ip, Some(IpAddress::V4([8, 8, 8, 8])));
}

#[test]
fn map_tcp_accepts_ipv6_binary_ip_fields() {
    let a = [0x20u8, 0x01, 0x0d, 0xb8, 0, 0, 0, 0, 0, 0, 0, 0, 0, 0, 0, 1];
    let b = [0x20u8, 0x01, 0x0d, 0xb8, 0, 0, 0, 0, 0, 0, 0, 0, 0, 0, 0, 2];
    let fields = vec![
        EventField { name: "saddrv6".to_string(), value: EventFieldValue::Binary(a.to_vec()) },
        EventField { name: "daddrv6".to_string(), value: EventFieldValue::Binary(b.to_vec()) },
    ];
    let event = map_tcp(27, &fields);
    assert_eq!(event.operation, TcpOperation::Receive);
    assert_eq!(event.source_ip, Some(IpAddress::V6(a)));
    assert_eq!(event.destination_ip, Some(IpAddress::V6(b)));
}

#[test]
fn map_registry_alias_and_case_insensitive_names() {
    let fields = vec![
        u32f("processid", 200),
        s("keyname", "\\Registry\\Machine\\Software"),
        s("VALUENAME", "Run"),
        u32f("status", 0),
    ];
    let event = map_registry(27, &fields);
    assert_eq!(event.operation, RegistryOperation::Open);
    assert_eq!(event.process_id, Some(ProcessId::new(200)));
    assert_eq!(event.value_name.as_deref(), Some("Run"));
}

#[test]
fn map_file_alias_delete_and_pointer_values() {
    let fields = vec![
        u32f("ProcessId", 300),
        u64f("FileObject", 0x1111),
        EventField { name: "IrpPtr".to_string(), value: EventFieldValue::Pointer(0x2222) },
        s("OpenPath", "C:\\Temp\\x.bin"),
    ];
    let event = map_file(70, &fields);
    assert_eq!(event.operation, FileIoOperation::Delete);
    assert_eq!(event.process_id, Some(ProcessId::new(300)));
    assert_eq!(event.file_object, Some(0x1111));
    assert_eq!(event.irp_ptr, Some(0x2222));
}

#[test]
fn map_file_operation_end_opcode() {
    let event = map_file(76, &[]);
    assert_eq!(event.operation, FileIoOperation::OperationEnd);
}

#[test]
fn ip_value_from_text_and_pattern_fallback() {
    assert_eq!(
        parse_ip_value(&EventFieldValue::String("10.1.2.3".to_string())),
        Some(IpAddress::V4([10, 1, 2, 3]))
    );
    assert_eq!(parse_ip_value(&EventFieldValue::String("01.1.2.3".to_string())), None);
    assert_eq!(parse_ip_value(&EventFieldValue::String("256.1.2.3".to_string())), None);
    let fields = vec![EventField {
        name: "LocalIpv4".to_string(),
        value: EventFieldValue::Binary(vec![1, 2, 3, 4]),
    }];
    let event = map_tcp(10, &fields);
    assert_eq!(event.source_ip, Some(IpAddress::V4([1, 2, 3, 4])));
    assert_eq!(event.destination_ip, None);
}

#[test]
fn decode_generic_from_preparsed_fields() {
    let other = Guid { data1: 1, data2: 2, data3: 3, data4: [0; 8] };
    let fields = vec![u32f("Foo", 1)];
    match decode_from_record_parts(&other, 0, 0, &[], Some(&fields)) {
        DecodedEvent::Generic(v) => assert_eq!(v, fields),
        e => panic!("unexpected {e:?}"),
    }
    assert!(matches!(decode_from_record_parts(&other, 0, 0, &[], None), DecodedEvent::Unknown));
}

#[test]
fn decode_typed_tcp_from_preparsed_fields() {
    let fields = vec![u32f("PID", 9), u16f("dport", 443)];
    match decode_from_record_parts(&tcpip_provider(), 2, 12, &[], Some(&fields)) {
        DecodedEvent::Tcp(e) => {
            assert_eq!(e.operation, TcpOperation::Connect);
            assert_eq!(e.destination_port, Some(443));
        }
        e => panic!("unexpected {e:?}"),
    }
}

#[test]
fn record_dispatch_prefers_direct_decoders() {
    let data = process_v0_payload();
    assert!(matches!(
        decode_from_record_parts(&process_provider(), 0, 1, &data, None),
        DecodedEvent::ProcessStart(_)
    ));
    let image = image_payload("a.dll");
    assert!(matches!(
        decode_from_record_parts(&image_load_provider(), 3, 10, &image, None),
        DecodedEvent::ImageLoad(_)
    ));
    assert!(matches!(
        decode_from_record_parts(&process_provider(), 9, 1, &data, None),
        DecodedEvent::Unknown
    ));
}
