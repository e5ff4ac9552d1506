use windows_erg::error::{Error, EtwError};
use windows_erg::etw::session::{
    extract_stack_trace, guid_to_text, normalize_process_filter, EventStreamMode, EventTraceBuilder,
    ExtendedDataItem, SessionStartEvent, SessionStartStep, SystemProvider, MAX_SESSION_NAME_LEN,
};
use windows_erg::etw::Guid;
use windows_erg::ProcessId;

fn zero_guid() -> Guid {
    Guid { data1: 0, data2: 0, data3: 0, data4: [0; 8] }
}

fn start_reason(b: &EventTraceBuilder) -> String {
    match b.validate() {
        Err(Error::Etw(EtwError::SessionStartFailed(e))) => e.reason,
        _ => panic!("expected SessionStartFailed"),
    }
}

#[test]
fn test_builder_requires_provider() {
    let result = EventTraceBuilder::new("TestSession").validate();
    assert!(result.is_err());
}

#[test]
fn test_start_fails_when_mixing_kernel_and_user_providers() {
    let b = EventTraceBuilder::new("TestSession")
        .system_provider(SystemProvider::Process)
        .user_provider(zero_guid());
    assert!(start_reason(&b).contains("Cannot mix kernel system providers"));
}

#[test]
fn test_empty_name_fails() {
    let result = EventTraceBuilder::new("").validate();
    assert!(result.is_err());
}

#[test]
fn test_name_too_long_fails() {
    let long_name = "x".repeat(MAX_SESSION_NAME_LEN + 1);
    let b = EventTraceBuilder::new(&long_name);
    assert!(start_reason(&b).contains("exceeds 1024"));
}

#[test]
fn test_max_name_length_passes_length_validation() {
    let max_name = "x".repeat(MAX_SESSION_NAME_LEN);
    let b = EventTraceBuilder::new(&max_name);
    assert!(start_reason(&b).contains("At least one system provider or user provider GUID"));
}

#[test]
fn test_buffer_constraint_fails() {
    let b = EventTraceBuilder::new("Test")
        .system_provider(SystemProvider::Process)
        .min_buffers(10)
        .max_buffers(5);
    assert_eq!(start_reason(&b), "min_buffers (10) cannot exceed max_buffers (5)");
}

#[test]
fn test_normalize_process_filter_empty_is_none() {
    let filter = normalize_process_filter(Vec::new());
    assert!(filter.is_none());
}

#[test]
fn test_normalize_process_filter_deduplicates() {
    let filter = normalize_process_filter(vec![
        ProcessId::new(100),
        ProcessId::new(200),
        ProcessId::new(100),
    ])
    .expect("expected filter set");
    assert_eq!(filter.len(), 2);
    assert!(filter.contains(&ProcessId::new(100)));
    assert!(filter.contains(&ProcessId::new(200)));
}

#[test]
fn test_extract_stack_trace_none_without_extended_data() {
    assert!(extract_stack_trace(&[]).is_none());
}

#[test]
fn test_extract_stack_trace_64bit_payload() {
    let mut payload = Vec::new();
    payload.extend_from_slice(&0x1122_3344_5566_7788u64.to_le_bytes());
    payload.extend_from_slice(&0x0000_0000_0000_1111u64.to_le_bytes());
    payload.extend_from_slice(&0x0000_0000_0000_2222u64.to_le_bytes());
    let items = [ExtendedDataItem { ext_type: 6, data: payload }];
    let parsed = extract_stack_trace(&items).expect("stack should parse");
    assert_eq!(parsed.match_id, 0x1122_3344_5566_7788u64);
    assert_eq!(parsed.frames, vec![0x1111, 0x2222]);
}

#[test]
fn stack_trace_32bit_skips_zero_frames_and_short_items() {
    let mut payload = Vec::new();
    payload.extend_from_slice(&7u64.to_le_bytes());
    payload.extend_from_slice(&0x10u32.to_le_bytes());
    payload.extend_from_slice(&0u32.to_le_bytes());
    payload.extend_from_slice(&0x30u32.to_le_bytes());
    payload.extend_from_slice(&[1, 2]);
    let items = [
        ExtendedDataItem { ext_type: 2, data: vec![1; 16] },
        ExtendedDataItem { ext_type: 6, data: vec![1; 4] },
        ExtendedDataItem { ext_type: 5, data: payload },
    ];
    let parsed = extract_stack_trace(&items).expect("stack should parse");
    assert_eq!(parsed.match_id, 7);
    assert_eq!(parsed.frames, vec![0x10, 0x30]);
}

#[test]
fn kernel_plan_uses_reserved_name_and_combined_flags() {
    let plan = EventTraceBuilder::new("Mine")
        .system_provider(SystemProvider::Process)
        .system_provider(SystemProvider::ImageLoad)
        .with_decoded_stream()
        .with_process_filter(vec![5, 5, 6])
        .validate()
        .expect("valid");
    assert!(plan.is_kernel);
    assert_eq!(plan.session_name, "NT Kernel Logger");
    assert_eq!(plan.enable_flags, 0x7);
    assert!(!plan.raw_stream);
    assert!(plan.decoded_stream);
    assert!(plan.parse_fields);
    assert_eq!(plan.process_filter.map(|v| v.len()), Some(2));
}

#[test]
fn user_plan_keeps_name_and_defaults() {
    let b = EventTraceBuilder::new("Mine").user_provider(zero_guid());
    assert_eq!(b.stream_mode, EventStreamMode::Raw);
    let plan = b.validate().expect("valid");
    assert!(!plan.is_kernel);
    assert_eq!(plan.session_name, "Mine");
    assert_eq!(plan.enable_flags, 0);
    assert_eq!((plan.buffer_size, plan.min_buffers, plan.max_buffers), (64, 2, 20));
    assert!(plan.raw_stream && !plan.decoded_stream && !plan.parse_fields);
    assert!(plan.process_filter.is_none());
}

#[test]
fn guid_is_written_in_registry_form() {
    let g = Guid { data1: 0x22FB2CD6, data2: 0x0E7B, data3: 0x422B, data4: [0xA0, 0xC7, 0x2F, 0xAD, 0x1F, 0xD0, 0xE7, 0x16] };
    assert_eq!(guid_to_text(&g), "22FB2CD6-0E7B-422B-A0C7-2FAD1FD0E716");
    assert_eq!(guid_to_text(&zero_guid()), "00000000-0000-0000-0000-000000000000");
}

#[test]
fn kernel_session_start_steps() {
    let plan = EventTraceBuilder::new("K").system_provider(SystemProvider::Process).validate().unwrap();
    assert!(matches!(plan.next_start_step(SessionStartEvent::TraceStarted(183)), SessionStartStep::StopStaleAndRetry));
    assert!(matches!(plan.next_start_step(SessionStartEvent::TraceStarted(0)), SessionStartStep::OpenTrace));
    match plan.next_start_step(SessionStartEvent::TraceRestarted(5)) {
        SessionStartStep::Fail { stop_session: false, error: Error::Etw(EtwError::SessionStartFailed(e)) } => {
            assert_eq!(e.session_name, "NT Kernel Logger");
            assert_eq!(e.reason, "Failed to start trace after stopping stale session");
            assert_eq!(e.error_code, Some(5));
        }
        other => panic!("unexpected {other:?}"),
    }
    match plan.next_start_step(SessionStartEvent::TraceOpened(false)) {
        SessionStartStep::Fail { stop_session: true, error: Error::Etw(EtwError::ConsumeFailed(e)) } => {
            assert_eq!(e.reason, "OpenTraceW failed");
        }
        other => panic!("unexpected {other:?}"),
    }
    assert!(matches!(plan.next_start_step(SessionStartEvent::TraceOpened(true)), SessionStartStep::Consume));
}

#[test]
fn user_session_start_steps() {
    let g = Guid { data1: 1, data2: 2, data3: 3, data4: [4, 5, 6, 7, 8, 9, 10, 11] };
    let plan = EventTraceBuilder::new("U").user_provider(zero_guid()).user_provider(g).validate().unwrap();
    match plan.next_start_step(SessionStartEvent::TraceStarted(183)) {
        SessionStartStep::Fail { stop_session: false, error: Error::Etw(EtwError::SessionStartFailed(e)) } => {
            assert_eq!(e.session_name, "U");
            assert_eq!(e.reason, "Failed to start trace session");
            assert_eq!(e.error_code, Some(183));
        }
        other => panic!("unexpected {other:?}"),
    }
    assert!(matches!(plan.next_start_step(SessionStartEvent::TraceStarted(0)), SessionStartStep::EnableProvider(0)));
    assert!(matches!(plan.next_start_step(SessionStartEvent::ProviderEnabled(0, 0)), SessionStartStep::EnableProvider(1)));
    assert!(matches!(plan.next_start_step(SessionStartEvent::ProviderEnabled(1, 0)), SessionStartStep::OpenTrace));
    match plan.next_start_step(SessionStartEvent::ProviderEnabled(1, 87)) {
        SessionStartStep::Fail { stop_session: true, error: Error::Etw(EtwError::ProviderEnableFailed(e)) } => {
            assert_eq!(e.provider, "00000001-0002-0003-0405-060708090A0B");
            assert_eq!(e.reason, "Failed to enable user-mode ETW provider");
            assert_eq!(e.error_code, Some(87));
        }
        other => panic!("unexpected {other:?}"),
    }
}
