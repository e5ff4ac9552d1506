use std::time::SystemTime;
use windows_erg::error::{Error, EtwError};
use windows_erg::etw::consumer::TraceConsumer;
use windows_erg::etw::session::{EventTraceBuilder, SystemProvider};
use windows_erg::etw::trace::TraceEvent;
use windows_erg::etw::{DecodedEvent, Guid};
use windows_erg::{ProcessId, ThreadId};

fn make_trace_event(id: u16, process_id: u32) -> TraceEvent {
    TraceEvent::from_record_parts(
        id,
        0,
        0,
        0,
        Guid { data1: 0, data2: 0, data3: 0, data4: [0; 8] },
        ProcessId::new(process_id),
        ThreadId::new(1),
        SystemTime::UNIX_EPOCH,
        Vec::new(),
        None,
    )
}

#[test]
fn test_next_batch_fails_when_raw_stream_disabled() {
    let mut trace = TraceConsumer::new(false, false);
    let mut out = Vec::new();
    let result = trace.next_batch(&mut out, vec![make_trace_event(1, 1)]);
    match result {
        Err(Error::Etw(EtwError::ConsumeFailed(e))) => {
            assert!(e.reason.contains("Raw event stream is disabled"));
        }
        _ => panic!("expected ConsumeFailed"),
    }
}

#[test]
fn test_next_batch_decoded_fails_when_decoded_stream_disabled() {
    let mut trace = TraceConsumer::new(false, false);
    let mut out = Vec::new();
    let result = trace.next_batch_decoded(&mut out, vec![DecodedEvent::Unknown]);
    match result {
        Err(Error::Etw(EtwError::ConsumeFailed(e))) => {
            assert!(e.reason.contains("Decoded event stream is disabled"));
        }
        _ => panic!("expected ConsumeFailed"),
    }
}

#[test]
fn test_next_batch_drains_raw_stream_and_updates_counter() {
    let mut trace = TraceConsumer::new(true, false);
    let mut out = Vec::new();
    let received = vec![make_trace_event(1, 100), make_trace_event(2, 200)];
    let count = trace.next_batch(&mut out, received).expect("next_batch should succeed");
    assert_eq!(count, 2);
    assert_eq!(out.len(), 2);
    assert_eq!(trace.events_processed(), 2);
}

#[test]
fn test_next_batch_with_filter_filters_during_drain() {
    let mut trace = TraceConsumer::new(true, false);
    let mut out = Vec::new();
    let received = vec![make_trace_event(1, 111), make_trace_event(2, 222), make_trace_event(3, 333)];
    let count = trace
        .next_batch_with_filter(&mut out, received, &|e: &TraceEvent| e.process_id != ProcessId::new(222))
        .expect("next_batch_with_filter should succeed");
    assert_eq!(count, 2);
    assert_eq!(out.len(), 2);
    assert!(out.iter().all(|e| e.process_id != ProcessId::new(222)));
    assert_eq!(trace.events_processed(), 2);
}

#[test]
fn test_next_batch_decoded_drains_stream_and_updates_counter() {
    let mut trace = TraceConsumer::new(false, true);
    let mut out = Vec::new();
    let count = trace
        .next_batch_decoded(&mut out, vec![DecodedEvent::Unknown, DecodedEvent::Unknown])
        .expect("next_batch_decoded should succeed");
    assert_eq!(count, 2);
    assert_eq!(out.len(), 2);
    assert_eq!(trace.events_processed(), 2);
}

#[test]
fn consumer_follows_the_plan_streams_and_counts_across_batches() {
    let plan = EventTraceBuilder::new("C").system_provider(SystemProvider::Process).with_both_streams().validate().unwrap();
    let mut trace = TraceConsumer::from_plan(&plan);
    let mut out = Vec::new();
    assert_eq!(trace.next_batch(&mut out, vec![make_trace_event(1, 1)]).unwrap(), 1);
    let mut decoded = Vec::new();
    assert_eq!(trace.next_batch_decoded(&mut decoded, vec![DecodedEvent::Unknown]).unwrap(), 1);
    assert_eq!(trace.events_processed(), 2);
    let kept = trace.next_batch_with_filter(&mut out, vec![make_trace_event(4, 4)], &|_: &TraceEvent| false).unwrap();
    assert_eq!(kept, 0);
    assert!(out.is_empty());
    assert_eq!(trace.events_processed(), 2);
}
