//! A raw trace event as the session hands it out: the header values of the
//! event record, its payload bytes, the enrichments asked for, and the
//! fields the schema parsed.

use vstd::prelude::*;

use super::decode::{decode_from_record_parts, record_spec};
use super::event::{DecodedEvent, EventField, Guid, fields_view};
use super::session::{CpuSample, StackTrace, ThreadContext};
use crate::types::{ProcessId, ThreadId};

verus! {

/// A raw event received from a trace session.
#[derive(Debug, Clone)]
pub struct TraceEvent {
    /// Event ID — identifies the event type within the provider.
    pub id: u16,
    /// Event version.
    pub version: u8,
    /// Opcode — identifies the operation phase (start, stop, info, etc.).
    pub opcode: u8,
    /// Severity level of this event.
    pub level: u8,
    /// GUID of the provider that emitted this event.
    pub provider_guid: Guid,
    /// ID of the process that triggered the event.
    pub process_id: ProcessId,
    /// ID of the thread that triggered the event.
    pub thread_id: ThreadId,
    /// When the event was recorded.
    pub timestamp: std::time::SystemTime,
    /// Raw binary payload. Layout depends on the provider and event ID.
    pub data: Vec<u8>,
    /// Optional thread context enrichment.
    pub thread_context: Option<ThreadContext>,
    /// Optional stack trace enrichment.
    pub stack_trace: Option<StackTrace>,
    /// Optional CPU sampling enrichment.
    pub cpu_sample: Option<CpuSample>,
    /// Schema-parsed fields, when detailed event parsing is enabled.
    pub fields: Option<Vec<EventField>>,
}

impl TraceEvent {
    /// The schema-parsed fields.
    pub open spec fn spec_fields(&self) -> Option<Seq<EventField>> {
        match self.fields {
            Some(f) => Some(f@),
            None => None,
        }
    }

    /// An event from the header values of its record, its payload and the
    /// fields the schema parsed; no enrichment yet.
    pub fn from_record_parts(
        id: u16,
        version: u8,
        opcode: u8,
        level: u8,
        provider_guid: Guid,
        process_id: ProcessId,
        thread_id: ThreadId,
        timestamp: std::time::SystemTime,
        data: Vec<u8>,
        fields: Option<Vec<EventField>>,
    ) -> (r: Self)
        ensures
            r.id == id,
            r.version == version,
            r.opcode == opcode,
            r.level == level,
            r.provider_guid == provider_guid,
            r.process_id == process_id,
            r.thread_id == thread_id,
            r.timestamp == timestamp,
            r.data@ == data@,
            r.thread_context is None,
            r.stack_trace is None,
            r.cpu_sample is None,
            r.spec_fields() == match fields {
                Some(f) => Some(f@),
                None => None::<Seq<EventField>>,
            },
    {
        TraceEvent {
            id,
            version,
            opcode,
            level,
            provider_guid,
            process_id,
            thread_id,
            timestamp,
            data,
            thread_context: None,
            stack_trace: None,
            cpu_sample: None,
            fields,
        }
    }

    /// Decode this event into a typed variant when the provider and opcode
    /// are known; see [`record_spec`].
    pub fn decode(&self) -> (r: DecodedEvent)
        ensures
            record_spec(
                self.provider_guid@,
                self.version,
                self.opcode,
                self.data@,
                match self.spec_fields() {
                    Some(f) => Some(fields_view(f)),
                    None => None,
                },
                r,
            ),
    {
        match &self.fields {
            Some(f) => decode_from_record_parts(&self.provider_guid, self.version, self.opcode, self.data.as_slice(), Some(f.as_slice())),
            None => decode_from_record_parts(&self.provider_guid, self.version, self.opcode, self.data.as_slice(), None),
        }
    }

    /// Returns schema-parsed fields when detailed event parsing is enabled.
    pub fn fields(&self) -> (r: Option<&[EventField]>)
        ensures
            match self.spec_fields() {
                Some(f) => r matches Some(s) && s@ == f,
                None => r is None,
            },
    {
        match &self.fields {
            Some(f) => Some(f.as_slice()),
            None => None,
        }
    }
}

} // verus!
