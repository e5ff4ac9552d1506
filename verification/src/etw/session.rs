//! Trace session configuration: providers, buffers, output streams and
//! enrichment, validated into the plan that starting a session follows.

use vstd::prelude::*;
use vstd::utf8::*;

use super::event::{Guid, GuidModel};
use crate::bytes::{read_u32_le, read_u64_le, le4, le8};
use crate::error::{Error, EtwConsumeError, EtwError, EtwProviderError, EtwSessionError};
use crate::text::{dec, hex_fixed, push_char, push_dec, push_hex_fixed, str_to_string};
use crate::types::{ProcessId, ThreadId};

verus! {

/// Longest accepted session name, in bytes.
pub const MAX_SESSION_NAME_LEN: usize = 1024;

/// Bits of `EVENT_TRACE_FLAG_PROCESS`.
pub const EVENT_TRACE_FLAG_PROCESS: u32 = 0x0000_0001;
/// Bits of `EVENT_TRACE_FLAG_THREAD`.
pub const EVENT_TRACE_FLAG_THREAD: u32 = 0x0000_0002;
/// Bits of `EVENT_TRACE_FLAG_IMAGE_LOAD`.
pub const EVENT_TRACE_FLAG_IMAGE_LOAD: u32 = 0x0000_0004;
/// Bits of `EVENT_TRACE_FLAG_NETWORK_TCPIP`.
pub const EVENT_TRACE_FLAG_NETWORK_TCPIP: u32 = 0x0001_0000;
/// Bits of `EVENT_TRACE_FLAG_REGISTRY`.
pub const EVENT_TRACE_FLAG_REGISTRY: u32 = 0x0002_0000;
/// Bits of `EVENT_TRACE_FLAG_FILE_IO`.
pub const EVENT_TRACE_FLAG_FILE_IO: u32 = 0x0200_0000;
/// Bits of `EVENT_TRACE_FLAG_FILE_IO_INIT`.
pub const EVENT_TRACE_FLAG_FILE_IO_INIT: u32 = 0x0400_0000;

/// Extended data item type of a 32-bit stack trace.
pub const EVENT_HEADER_EXT_TYPE_STACK_TRACE32: u16 = 5;
/// Extended data item type of a 64-bit stack trace.
pub const EVENT_HEADER_EXT_TYPE_STACK_TRACE64: u16 = 6;

/// System-level event sources for kernel tracing.
///
/// Enabling any of them needs administrator rights; kernel sessions run
/// under the reserved `NT Kernel Logger` name.
#[derive(Debug, Clone, Copy, PartialEq, Eq, Structural)]
pub enum SystemProvider {
    /// Process and thread creation/termination events.
    Process,
    /// Registry key and value operations.
    Registry,
    /// TCP/IP network connections and data transfer.
    Network,
    /// File I/O operations (create, read, write, delete).
    FileIo,
    /// DLL and EXE image load/unload events.
    ImageLoad,
}

impl SystemProvider {
    /// The `EVENT_TRACE_FLAG` bits of a provider.
    pub open spec fn flags(self) -> u32 {
        match self {
            SystemProvider::Process => EVENT_TRACE_FLAG_PROCESS | EVENT_TRACE_FLAG_THREAD,
            SystemProvider::Registry => EVENT_TRACE_FLAG_REGISTRY,
            SystemProvider::Network => EVENT_TRACE_FLAG_NETWORK_TCPIP,
            SystemProvider::FileIo => EVENT_TRACE_FLAG_FILE_IO | EVENT_TRACE_FLAG_FILE_IO_INIT,
            SystemProvider::ImageLoad => EVENT_TRACE_FLAG_IMAGE_LOAD,
        }
    }

    /// Each kernel provider turns on its own event classes: process takes
    /// the process and thread bits (`0x1 | 0x2`), registry `0x2_0000`,
    /// network the TCP/IP bit `0x1_0000`, file I/O the file I/O and file
    /// I/O init bits (`0x200_0000 | 0x400_0000`), image load `0x4`. No
    /// provider's flags are empty, and two different providers share no bit.
    pub proof fn lemma_provider_flags(self, other: SystemProvider)
        ensures
            self == SystemProvider::Process ==> self.flags() == 0x3,
            self == SystemProvider::Registry ==> self.flags() == 0x2_0000,
            self == SystemProvider::Network ==> self.flags() == 0x1_0000,
            self == SystemProvider::FileIo ==> self.flags() == 0x600_0000,
            self == SystemProvider::ImageLoad ==> self.flags() == 0x4,
            self.flags() != 0,
            self != other ==> self.flags() & other.flags() == 0,
    {
        assert(0x1u32 | 0x2u32 == 0x3u32 && 0x0200_0000u32 | 0x0400_0000u32 == 0x600_0000u32
            && 0x3u32 & 0x2_0000u32 == 0 && 0x3u32 & 0x1_0000u32 == 0 && 0x3u32 & 0x600_0000u32 == 0
            && 0x3u32 & 0x4u32 == 0 && 0x2_0000u32 & 0x3u32 == 0 && 0x2_0000u32 & 0x1_0000u32 == 0
            && 0x2_0000u32 & 0x600_0000u32 == 0 && 0x2_0000u32 & 0x4u32 == 0 && 0x1_0000u32 & 0x3u32 == 0
            && 0x1_0000u32 & 0x2_0000u32 == 0 && 0x1_0000u32 & 0x600_0000u32 == 0 && 0x1_0000u32 & 0x4u32 == 0
            && 0x600_0000u32 & 0x3u32 == 0 && 0x600_0000u32 & 0x2_0000u32 == 0 && 0x600_0000u32 & 0x1_0000u32 == 0
            && 0x600_0000u32 & 0x4u32 == 0 && 0x4u32 & 0x3u32 == 0 && 0x4u32 & 0x2_0000u32 == 0
            && 0x4u32 & 0x1_0000u32 == 0 && 0x4u32 & 0x600_0000u32 == 0) by (bit_vector);
    }

    /// Get the `EVENT_TRACE_FLAG` bitmask for this provider.
    pub fn trace_flags(self) -> (r: u32)
        ensures
            r == self.flags(),
            self == SystemProvider::Process ==> r == 0x3,
            self == SystemProvider::Registry ==> r == 0x2_0000,
            self == SystemProvider::Network ==> r == 0x1_0000,
            self == SystemProvider::FileIo ==> r == 0x600_0000,
            self == SystemProvider::ImageLoad ==> r == 0x4,
    {
        proof {
            self.lemma_provider_flags(self);
        }
        match self {
            SystemProvider::Process => EVENT_TRACE_FLAG_PROCESS | EVENT_TRACE_FLAG_THREAD,
            SystemProvider::Registry => EVENT_TRACE_FLAG_REGISTRY,
            SystemProvider::Network => EVENT_TRACE_FLAG_NETWORK_TCPIP,
            SystemProvider::FileIo => EVENT_TRACE_FLAG_FILE_IO | EVENT_TRACE_FLAG_FILE_IO_INIT,
            SystemProvider::ImageLoad => EVENT_TRACE_FLAG_IMAGE_LOAD,
        }
    }
}

/// Verbosity level for a trace session.
#[derive(Debug, Clone, Copy, PartialEq, Eq, Structural)]
pub enum TraceLevel {
    /// Critical events only.
    Critical,
    /// Error events.
    Error,
    /// Warning events.
    Warning,
    /// Informational events.
    Info,
    /// Verbose / debug events.
    Verbose,
}

impl TraceLevel {
    /// The numeric level: 1 (critical) to 5 (verbose).
    pub fn value(self) -> (r: u8)
        ensures
            r == match self {
                TraceLevel::Critical => 1u8,
                TraceLevel::Error => 2u8,
                TraceLevel::Warning => 3u8,
                TraceLevel::Info => 4u8,
                TraceLevel::Verbose => 5u8,
            },
    {
        match self {
            TraceLevel::Critical => 1,
            TraceLevel::Error => 2,
            TraceLevel::Warning => 3,
            TraceLevel::Info => 4,
            TraceLevel::Verbose => 5,
        }
    }
}

/// Optional per-event thread metadata enrichment.
#[derive(Debug, Clone, Copy, PartialEq, Eq)]
pub struct ThreadContext {
    /// Process ID associated with the event's thread.
    pub process_id: ProcessId,
    /// Thread ID that emitted the event.
    pub thread_id: ThreadId,
}

impl ThreadContext {
    /// Create a new thread context value.
    pub fn new(process_id: ProcessId, thread_id: ThreadId) -> (r: Self)
        ensures
            r.process_id == process_id,
            r.thread_id == thread_id,
    {
        ThreadContext { process_id, thread_id }
    }
}

/// Optional per-event stack trace enrichment.
#[derive(Debug, Clone, PartialEq, Eq)]
pub struct StackTrace {
    /// Correlation identifier for matching stack begin/end context.
    pub match_id: u64,
    /// Captured instruction pointer frames (normalized as 64-bit addresses).
    pub frames: Vec<u64>,
}

impl StackTrace {
    /// Create a new stack trace enrichment payload.
    pub fn new(match_id: u64, frames: Vec<u64>) -> (r: Self)
        ensures
            r.match_id == match_id,
            r.frames@ == frames@,
    {
        StackTrace { match_id, frames }
    }
}

/// Optional per-event CPU sampling enrichment.
#[derive(Debug, Clone, Copy, PartialEq, Eq)]
pub struct CpuSample {
    /// Logical processor number that emitted the event.
    pub processor_number: u8,
}

impl CpuSample {
    /// Create a new CPU sample enrichment payload.
    pub fn new(processor_number: u8) -> (r: Self)
        ensures
            r.processor_number == processor_number,
    {
        CpuSample { processor_number }
    }
}

/// One extended data item of an event record: its type and its bytes
/// (empty when the record gives no data pointer).
#[derive(Debug, Clone)]
pub struct ExtendedDataItem {
    /// Item type (`EVENT_HEADER_EXT_TYPE_*`).
    pub ext_type: u16,
    /// Item bytes.
    pub data: Vec<u8>,
}

/// Output stream strategy for trace events.
#[derive(Debug, Clone, Copy, PartialEq, Eq, Structural)]
pub enum EventStreamMode {
    /// Emit only raw events.
    Raw,
    /// Emit only decoded events.
    Decoded,
    /// Emit both raw and decoded streams.
    Both,
}

// ---------------------------------------------------------------------------
// Process filter
// ---------------------------------------------------------------------------

/// The identifiers of a list of processes.
pub open spec fn pid_values(pids: Seq<ProcessId>) -> Seq<u32> {
    Seq::new(pids.len(), |i: int| pids[i].0)
}

/// No identifier occurs twice.
pub open spec fn no_duplicates(s: Seq<u32>) -> bool {
    forall|i: int, j: int| 0 <= i < j < s.len() ==> s[i] != s[j]
}

/// Collects the process filter: `None` for an empty list, else each distinct
/// identifier once, in order of first occurrence.
pub fn normalize_process_filter(pids: Vec<ProcessId>) -> (r: Option<Vec<ProcessId>>)
    ensures
        pids@.len() == 0 <==> r is None,
        r matches Some(v) ==> no_duplicates(pid_values(v@)) && pid_values(v@).to_set()
            == pid_values(pids@).to_set(),
{
    if pids.len() == 0 {
        return None;
    }
    let mut out: Vec<ProcessId> = Vec::new();
    let mut i: usize = 0;
    while i < pids.len()
        invariant
            i <= pids@.len(),
            no_duplicates(pid_values(out@)),
            pid_values(out@).to_set() == pid_values(pids@.subrange(0, i as int)).to_set(),
        decreases pids@.len() - i,
    {
        let p = pids[i];
        let mut found = false;
        let mut j: usize = 0;
        while j < out.len()
            invariant
                j <= out@.len(),
                found <==> exists|k: int| 0 <= k < j && out@[k].0 == p.0,
            decreases out@.len() - j,
        {
            if out[j].0 == p.0 {
                found = true;
            }
            j = j + 1;
        }
        let ghost before = pid_values(out@);
        let ghost prefix = pid_values(pids@.subrange(0, i as int));
        assert(pid_values(pids@.subrange(0, i + 1)) == prefix.push(p.0));
        proof {
            prefix.lemma_push_to_set_commute(p.0);
            before.lemma_push_to_set_commute(p.0);
        }
        if !found {
            out.push(p);
            assert(pid_values(out@) =~= before.push(p.0));
        } else {
            proof {
                let k = choose|k: int| 0 <= k < out@.len() && out@[k].0 == p.0;
                assert(before[k] == p.0);
                assert(before.to_set().insert(p.0) == before.to_set());
            }
        }
        i = i + 1;
    }
    assert(pids@.subrange(0, pids@.len() as int) == pids@);
    Some(out)
}

/// Whether an event of process `pid` passes the process filter: every
/// event does without a filter, else only those of a listed process.
pub fn process_filter_accepts(filter: Option<&Vec<ProcessId>>, pid: u32) -> (r: bool)
    ensures
        r == match filter {
            None => true,
            Some(f) => pid_values(f@).contains(pid),
        },
{
    match filter {
        None => true,
        Some(f) => {
            let mut i: usize = 0;
            while i < f.len()
                invariant
                    filter == Some(f),
                    i <= f@.len(),
                    forall|k: int| 0 <= k < i ==> f@[k].0 != pid,
                decreases f@.len() - i,
            {
                if f[i].0 == pid {
                    assert(pid_values(f@)[i as int] == pid);
                    return true;
                }
                i = i + 1;
            }
            assert forall|k: int| 0 <= k < pid_values(f@).len() implies pid_values(f@)[k] != pid by {
                assert(pid_values(f@)[k] == f@[k].0);
            }
            false
        },
    }
}

// ---------------------------------------------------------------------------
// Stack traces
// ---------------------------------------------------------------------------

/// The non-zero frame addresses of a stack payload from `offset`, each frame
/// `frame_size` little-endian bytes, up to the last whole frame.
pub open spec fn stack_frames(raw: Seq<u8>, offset: int, frame_size: int) -> Seq<u64>
    decreases raw.len() - offset,
{
    if frame_size <= 0 || offset < 0 || offset + frame_size > raw.len() {
        Seq::empty()
    } else {
        let addr: u64 = if frame_size == 4 { le4(raw, offset) as u64 } else { le8(raw, offset) as u64 };
        let rest = stack_frames(raw, offset + frame_size, frame_size);
        if addr != 0 {
            seq![addr] + rest
        } else {
            rest
        }
    }
}

/// The stack trace of the first stack item that has at least eight bytes.
pub open spec fn stack_trace_spec(items: Seq<ExtendedDataItem>) -> Option<(u64, Seq<u64>)>
    decreases items.len(),
{
    if items.len() == 0 {
        None
    } else {
        let it = items[0];
        let is32 = it.ext_type == EVENT_HEADER_EXT_TYPE_STACK_TRACE32;
        let is64 = it.ext_type == EVENT_HEADER_EXT_TYPE_STACK_TRACE64;
        if (is32 || is64) && it.data@.len() >= 8 {
            Some((le8(it.data@, 0) as u64, stack_frames(it.data@, 8, if is32 { 4 } else { 8 })))
        } else {
            stack_trace_spec(items.drop_first())
        }
    }
}

/// Reads the frames of a stack payload.
fn read_frames(raw: &[u8], frame_size: usize) -> (r: Vec<u64>)
    requires
        frame_size == 4 || frame_size == 8,
        raw@.len() >= 8,
    ensures
        r@ == stack_frames(raw@, 8, frame_size as int),
{
    let mut frames: Vec<u64> = Vec::new();
    let mut offset: usize = 8;
    while frame_size <= raw.len() - offset
        invariant
            frame_size == 4 || frame_size == 8,
            8 <= offset <= raw@.len(),
            stack_frames(raw@, 8, frame_size as int) == frames@ + stack_frames(raw@, offset as int, frame_size as int),
        decreases raw@.len() - offset,
    {
        let addr: u64 = if frame_size == 4 {
            read_u32_le(raw, offset) as u64
        } else {
            read_u64_le(raw, offset)
        };
        let ghost before = frames@;
        let ghost rest = stack_frames(raw@, (offset + frame_size) as int, frame_size as int);
        if addr != 0 {
            frames.push(addr);
            assert(before + (seq![addr] + rest) == before.push(addr) + rest);
        }
        offset = offset + frame_size;
    }
    assert(frames@ + Seq::<u64>::empty() == frames@);
    frames
}

/// Extracts the stack trace from an event's extended data items: the first
/// 32- or 64-bit stack item with at least eight bytes gives the match id and
/// its non-zero frames.
pub fn extract_stack_trace(items: &[ExtendedDataItem]) -> (r: Option<StackTrace>)
    ensures
        match (r, stack_trace_spec(items@)) {
            (None, None) => true,
            (Some(t), Some((id, frames))) => t.match_id == id && t.frames@ == frames,
            _ => false,
        },
{
    let mut i: usize = 0;
    assert(items@.subrange(0, items@.len() as int) == items@);
    while i < items.len()
        invariant
            i <= items@.len(),
            stack_trace_spec(items@) == stack_trace_spec(items@.subrange(i as int, items@.len() as int)),
        decreases items@.len() - i,
    {
        let ghost rest = items@.subrange(i as int, items@.len() as int);
        assert(rest.drop_first() == items@.subrange(i + 1, items@.len() as int));
        let item = &items[i];
        let is32 = item.ext_type == EVENT_HEADER_EXT_TYPE_STACK_TRACE32;
        let is64 = item.ext_type == EVENT_HEADER_EXT_TYPE_STACK_TRACE64;
        if (is32 || is64) && item.data.len() >= 8 {
            let raw = item.data.as_slice();
            let match_id = read_u64_le(raw, 0);
            let frame_size: usize = if is32 { 4 } else { 8 };
            let frames = read_frames(raw, frame_size);
            return Some(StackTrace::new(match_id, frames));
        }
        i = i + 1;
    }
    assert(items@.subrange(i as int, items@.len() as int) =~= Seq::<ExtendedDataItem>::empty());
    None
}

// ---------------------------------------------------------------------------
// Builder
// ---------------------------------------------------------------------------

/// Builder for configuring a trace session.
///
/// Chain configuration methods, then [`validate`][Self::validate] it into the
/// plan that starting the session follows.
#[derive(Debug, Clone)]
pub struct EventTraceBuilder {
    /// Requested session name.
    pub name: String,
    /// Kernel providers to enable.
    pub system_providers: Vec<SystemProvider>,
    /// User-mode providers to enable.
    pub user_providers: Vec<Guid>,
    /// Buffer size in kilobytes.
    pub buffer_size: u32,
    /// Minimum number of buffers.
    pub min_buffers: u32,
    /// Maximum number of buffers.
    pub max_buffers: u32,
    /// Flush interval in seconds.
    pub flush_interval: u32,
    /// Capacity of the event channels.
    pub channel_capacity: usize,
    /// Which streams the session emits.
    pub stream_mode: EventStreamMode,
    /// Capture stack traces.
    pub stack_traces: bool,
    /// Include thread context.
    pub thread_context: bool,
    /// Parse payloads into schema fields.
    pub detailed_events: bool,
    /// Attach CPU samples.
    pub cpu_samples: bool,
    /// Process identifiers to keep; empty keeps all.
    pub process_filter: Vec<ProcessId>,
}

/// What starting a validated session does.
#[derive(Debug, Clone)]
pub struct SessionPlan {
    /// Name the session runs under: `NT Kernel Logger` for kernel sessions.
    pub session_name: String,
    /// Whether the session enables kernel providers.
    pub is_kernel: bool,
    /// Combined kernel flags (0 for user-mode sessions).
    pub enable_flags: u32,
    /// User-mode providers to enable after the session starts.
    pub user_providers: Vec<Guid>,
    /// Buffer size in kilobytes.
    pub buffer_size: u32,
    /// Minimum number of buffers.
    pub min_buffers: u32,
    /// Maximum number of buffers.
    pub max_buffers: u32,
    /// Flush interval in seconds.
    pub flush_interval: u32,
    /// Capacity of each event channel.
    pub channel_capacity: usize,
    /// Whether raw events are emitted.
    pub raw_stream: bool,
    /// Whether decoded events are emitted.
    pub decoded_stream: bool,
    /// Whether payloads are parsed with the provider schema.
    pub parse_fields: bool,
    /// Normalized process filter.
    pub process_filter: Option<Vec<ProcessId>>,
    /// Include thread context.
    pub thread_context: bool,
    /// Capture stack traces.
    pub stack_traces: bool,
    /// Attach CPU samples.
    pub cpu_samples: bool,
}

/// `ERROR_ALREADY_EXISTS`: a session of that name is running already.
pub const ERROR_ALREADY_EXISTS_CODE: u32 = 183;

/// The bytes as two uppercase hexadecimal digits each, in order.
pub open spec fn bytes_hex(b: Seq<u8>) -> Seq<char>
    decreases b.len(),
{
    if b.len() == 0 {
        Seq::empty()
    } else {
        bytes_hex(b.drop_last()) + hex_fixed(b.last() as nat, 2)
    }
}

/// A GUID as `XXXXXXXX-XXXX-XXXX-XXXX-XXXXXXXXXXXX`, uppercase: the way a
/// failed provider is named.
pub open spec fn guid_text(g: GuidModel) -> Seq<char> {
    hex_fixed(g.data1 as nat, 8) + seq!['-'] + hex_fixed(g.data2 as nat, 4) + seq!['-'] + hex_fixed(
        g.data3 as nat,
        4,
    ) + seq!['-'] + bytes_hex(g.data4.subrange(0, 2)) + seq!['-'] + bytes_hex(g.data4.subrange(2, 8))
}

/// Writes a GUID; see [`guid_text`].
pub fn guid_to_text(g: &Guid) -> (r: String)
    ensures
        r@ == guid_text(g@),
{
    let mut out = String::new();
    push_hex_fixed(&mut out, g.data1 as u64, 8);
    push_char(&mut out, '-');
    push_hex_fixed(&mut out, g.data2 as u64, 4);
    push_char(&mut out, '-');
    push_hex_fixed(&mut out, g.data3 as u64, 4);
    push_char(&mut out, '-');
    let ghost head = out@;
    let mut i: usize = 0;
    while i < 8
        invariant
            i <= 8,
            g.data4@.len() == 8,
            i <= 2 ==> out@ == head + bytes_hex(g.data4@.subrange(0, i as int)),
            i > 2 ==> out@ == head + bytes_hex(g.data4@.subrange(0, 2)) + seq!['-'] + bytes_hex(
                g.data4@.subrange(2, i as int),
            ),
        decreases 8 - i,
    {
        if i == 2 {
            push_char(&mut out, '-');
            assert(g.data4@.subrange(2, 2) =~= Seq::<u8>::empty());
            assert(bytes_hex(g.data4@.subrange(0, 2)) + seq!['-'] + bytes_hex(Seq::<u8>::empty())
                =~= bytes_hex(g.data4@.subrange(0, 2)) + seq!['-']);
        }
        let ghost before = out@;
        push_hex_fixed(&mut out, g.data4[i] as u64, 2);
        proof {
            let lo: int = if i < 2 { 0 } else { 2 };
            assert(g.data4@.subrange(lo, i + 1).drop_last() =~= g.data4@.subrange(lo, i as int));
            assert(g.data4@.subrange(lo, i + 1).last() == g.data4@[i as int]);
        }
        i = i + 1;
    }
    assert(g.data4@.subrange(0, 2).len() == 2);
    out
}

/// What the system answered while a session starts.
#[derive(Debug, Clone, Copy, PartialEq, Eq, Structural)]
pub enum SessionStartEvent {
    /// The first `StartTraceW` returned this code.
    TraceStarted(u32),
    /// `StartTraceW`, after a stale session was stopped, returned this code.
    TraceRestarted(u32),
    /// Enabling the user provider at this index returned this code.
    ProviderEnabled(usize, u32),
    /// Whether opening the trace for consumption gave a handle.
    TraceOpened(bool),
}

/// What starting a session does next.
#[derive(Debug)]
pub enum SessionStartStep {
    /// Stop the stale session of the same name, then start again.
    StopStaleAndRetry,
    /// Enable the user provider at this index.
    EnableProvider(usize),
    /// Open the trace for consumption.
    OpenTrace,
    /// The session runs: consume its events.
    Consume,
    /// Stop the started session first when `stop_session`, then fail.
    Fail { stop_session: bool, error: Error },
}

impl SessionPlan {
    /// The step after the session started: enable the first user provider,
    /// or, when there is none to enable, open the trace.
    pub open spec fn step_after_start(&self, r: SessionStartStep) -> bool {
        if !self.is_kernel && self.user_providers@.len() > 0 {
            r matches SessionStartStep::EnableProvider(k) && k == 0
        } else {
            r is OpenTrace
        }
    }

    /// `r` stops nothing and fails with a session-start error of the
    /// session's name, `reason` and `code`.
    pub open spec fn start_failure(&self, r: SessionStartStep, reason: Seq<char>, code: u32) -> bool {
        r matches SessionStartStep::Fail { stop_session, error: Error::Etw(EtwError::SessionStartFailed(e)) }
            && !stop_session && e.session_name@ == self.session_name@ && e.reason@ == reason
            && e.error_code == Some(code as i32)
    }

    /// The next step of starting the session, given what the system
    /// answered: a kernel session that exists already is stopped and started
    /// again; a failed start fails; then each user provider is enabled in
    /// order, and a failed enabling stops the session and fails with the
    /// provider's GUID; then the trace is opened, and a failed opening stops
    /// the session and fails.
    pub fn next_start_step(&self, event: SessionStartEvent) -> (r: SessionStartStep)
        requires
            event matches SessionStartEvent::ProviderEnabled(i, _) ==> i < self.user_providers@.len(),
        ensures
            match event {
                SessionStartEvent::TraceStarted(c) => if c == ERROR_ALREADY_EXISTS_CODE && self.is_kernel {
                    r is StopStaleAndRetry
                } else if c != 0 {
                    self.start_failure(r, "Failed to start trace session"@, c)
                } else {
                    self.step_after_start(r)
                },
                SessionStartEvent::TraceRestarted(c) => if c != 0 {
                    self.start_failure(r, "Failed to start trace after stopping stale session"@, c)
                } else {
                    self.step_after_start(r)
                },
                SessionStartEvent::ProviderEnabled(i, c) => if c != 0 {
                    r matches SessionStartStep::Fail {
                        stop_session,
                        error: Error::Etw(EtwError::ProviderEnableFailed(e)),
                    } && stop_session && e.provider@ == guid_text(self.user_providers@[i as int]@) && e.reason@
                        == "Failed to enable user-mode ETW provider"@ && e.error_code == Some(c as i32)
                } else if i + 1 < self.user_providers@.len() {
                    r matches SessionStartStep::EnableProvider(k) && k == i + 1
                } else {
                    r is OpenTrace
                },
                SessionStartEvent::TraceOpened(ok) => if ok {
                    r is Consume
                } else {
                    r matches SessionStartStep::Fail { stop_session, error: Error::Etw(EtwError::ConsumeFailed(e)) }
                        && stop_session && e.reason@ == "OpenTraceW failed"@ && e.error_code is None
                },
            },
    {
        match event {
            SessionStartEvent::TraceStarted(c) => {
                if c == ERROR_ALREADY_EXISTS_CODE && self.is_kernel {
                    SessionStartStep::StopStaleAndRetry
                } else if c != 0 {
                    let e = EtwSessionError::with_code(
                        self.session_name.as_str(),
                        "Failed to start trace session",
                        c as i32,
                    );
                    SessionStartStep::Fail { stop_session: false, error: Error::Etw(EtwError::SessionStartFailed(e)) }
                } else {
                    self.first_step_after_start()
                }
            },
            SessionStartEvent::TraceRestarted(c) => {
                if c != 0 {
                    let e = EtwSessionError::with_code(
                        self.session_name.as_str(),
                        "Failed to start trace after stopping stale session",
                        c as i32,
                    );
                    SessionStartStep::Fail { stop_session: false, error: Error::Etw(EtwError::SessionStartFailed(e)) }
                } else {
                    self.first_step_after_start()
                }
            },
            SessionStartEvent::ProviderEnabled(i, c) => {
                if c != 0 {
                    let name = guid_to_text(&self.user_providers[i]);
                    let e = EtwProviderError::with_code(
                        name.as_str(),
                        "Failed to enable user-mode ETW provider",
                        c as i32,
                    );
                    SessionStartStep::Fail { stop_session: true, error: Error::Etw(EtwError::ProviderEnableFailed(e)) }
                } else if i < self.user_providers.len() - 1 {
                    SessionStartStep::EnableProvider(i + 1)
                } else {
                    SessionStartStep::OpenTrace
                }
            },
            SessionStartEvent::TraceOpened(ok) => {
                if ok {
                    SessionStartStep::Consume
                } else {
                    let e = EtwConsumeError::new("OpenTraceW failed");
                    SessionStartStep::Fail { stop_session: true, error: Error::Etw(EtwError::ConsumeFailed(e)) }
                }
            },
        }
    }

    /// The step after the session started; see [`SessionPlan::step_after_start`].
    fn first_step_after_start(&self) -> (r: SessionStartStep)
        ensures
            self.step_after_start(r),
    {
        if !self.is_kernel && self.user_providers.len() > 0 {
            SessionStartStep::EnableProvider(0)
        } else {
            SessionStartStep::OpenTrace
        }
    }
}

/// Combined flags of a list of kernel providers.
pub open spec fn flags_of(providers: Seq<SystemProvider>) -> u32
    decreases providers.len(),
{
    if providers.len() == 0 {
        0
    } else {
        flags_of(providers.drop_last()) | providers.last().flags()
    }
}

/// A kernel session's flags turn on exactly the event classes of the
/// providers chosen: all bits of each chosen provider, and none of a
/// provider not chosen.
pub proof fn lemma_session_flags_select_providers(providers: Seq<SystemProvider>, p: SystemProvider)
    ensures
        providers.contains(p) ==> flags_of(providers) & p.flags() == p.flags(),
        !providers.contains(p) ==> flags_of(providers) & p.flags() == 0,
    decreases providers.len(),
{
    if providers.len() > 0 {
        let rest = providers.drop_last();
        let last = providers.last();
        lemma_session_flags_select_providers(rest, p);
        last.lemma_provider_flags(p);
        let a = flags_of(rest);
        let b = last.flags();
        let c = p.flags();
        assert((a | b) & c == (a & c) | (b & c)) by (bit_vector);
        assert(c | 0u32 == c && 0u32 | c == c && c | c == c && 0u32 | 0u32 == 0u32 && c & c == c) by (bit_vector);
        if last == p {
            assert(providers.contains(p)) by {
                assert(providers[providers.len() - 1] == p);
            }
        }
        assert(providers.contains(p) <==> rest.contains(p) || last == p) by {
            if providers.contains(p) {
                let k = choose|k: int| 0 <= k < providers.len() && providers[k] == p;
                if k < providers.len() - 1 {
                    assert(rest[k] == p);
                }
            }
            if rest.contains(p) {
                let k = choose|k: int| 0 <= k < rest.len() && rest[k] == p;
                assert(providers[k] == p);
            }
        }
    } else {
        assert(0u32 & p.flags() == 0) by (bit_vector);
    }
}

/// The UTF-8 length of a text held in memory (which always fits a `usize`).
pub open spec fn utf8_len(s: Seq<char>) -> usize {
    encode_utf8(s).len() as usize
}

/// The failure message of a `min_buffers` above `max_buffers`.
pub open spec fn buffer_order_message(min: u32, max: u32) -> Seq<char> {
    "min_buffers ("@ + dec(min as nat) + ") cannot exceed max_buffers ("@ + dec(max as nat) + ")"@
}

impl EventTraceBuilder {
    /// A builder with the default configuration: no providers, 64 KB buffers,
    /// 2 to 20 buffers, one-second flushes, channels of 10 000 events, the raw
    /// stream only, and no enrichment or filter.
    pub fn new(name: &str) -> (r: Self)
        ensures
            r.name@ == name@,
            r.system_providers@.len() == 0,
            r.user_providers@.len() == 0,
            r.buffer_size == 64,
            r.min_buffers == 2,
            r.max_buffers == 20,
            r.flush_interval == 1,
            r.channel_capacity == 10_000,
            r.stream_mode == EventStreamMode::Raw,
            !r.stack_traces && !r.thread_context && !r.detailed_events && !r.cpu_samples,
            r.process_filter@.len() == 0,
    {
        EventTraceBuilder {
            name: str_to_string(name),
            system_providers: Vec::new(),
            user_providers: Vec::new(),
            buffer_size: 64,
            min_buffers: 2,
            max_buffers: 20,
            flush_interval: 1,
            channel_capacity: 10_000,
            stream_mode: EventStreamMode::Raw,
            stack_traces: false,
            thread_context: false,
            detailed_events: false,
            cpu_samples: false,
            process_filter: Vec::new(),
        }
    }

    /// Add a kernel event source to this trace session.
    pub fn system_provider(self, provider: SystemProvider) -> (r: Self)
        ensures
            r == (EventTraceBuilder { system_providers: r.system_providers, ..self }),
            r.system_providers@ == self.system_providers@.push(provider),
    {
        let mut s = self;
        s.system_providers.push(provider);
        s
    }

    /// Add a user-mode provider by GUID.
    pub fn user_provider(self, provider_guid: Guid) -> (r: Self)
        ensures
            r == (EventTraceBuilder { user_providers: r.user_providers, ..self }),
            r.user_providers@ == self.user_providers@.push(provider_guid),
    {
        let mut s = self;
        s.user_providers.push(provider_guid);
        s
    }

    /// Set buffer size in kilobytes (default: 64 KB).
    pub fn buffer_size(self, size_kb: u32) -> (r: Self)
        ensures
            r == (EventTraceBuilder { buffer_size: size_kb, ..self }),
    {
        EventTraceBuilder { buffer_size: size_kb, ..self }
    }

    /// Set the minimum number of buffers (default: 2).
    pub fn min_buffers(self, count: u32) -> (r: Self)
        ensures
            r == (EventTraceBuilder { min_buffers: count, ..self }),
    {
        EventTraceBuilder { min_buffers: count, ..self }
    }

    /// Set the maximum number of buffers (default: 20).
    pub fn max_buffers(self, count: u32) -> (r: Self)
        ensures
            r == (EventTraceBuilder { max_buffers: count, ..self }),
    {
        EventTraceBuilder { max_buffers: count, ..self }
    }

    /// Set how often filled buffers are flushed, in seconds (default: 1).
    pub fn flush_interval(self, seconds: u32) -> (r: Self)
        ensures
            r == (EventTraceBuilder { flush_interval: seconds, ..self }),
    {
        EventTraceBuilder { flush_interval: seconds, ..self }
    }

    /// Set the event channel capacity (default: 10 000).
    pub fn channel_capacity(self, capacity: usize) -> (r: Self)
        ensures
            r == (EventTraceBuilder { channel_capacity: capacity, ..self }),
    {
        EventTraceBuilder { channel_capacity: capacity, ..self }
    }

    /// Emit only decoded events.
    pub fn with_decoded_stream(self) -> (r: Self)
        ensures
            r == (EventTraceBuilder { stream_mode: EventStreamMode::Decoded, ..self }),
    {
        EventTraceBuilder { stream_mode: EventStreamMode::Decoded, ..self }
    }

    /// Emit both raw and decoded events.
    pub fn with_both_streams(self) -> (r: Self)
        ensures
            r == (EventTraceBuilder { stream_mode: EventStreamMode::Both, ..self }),
    {
        EventTraceBuilder { stream_mode: EventStreamMode::Both, ..self }
    }

    /// Capture stack trace metadata for events when it is provided.
    pub fn with_stack_traces(self) -> (r: Self)
        ensures
            r == (EventTraceBuilder { stack_traces: true, ..self }),
    {
        EventTraceBuilder { stack_traces: true, ..self }
    }

    /// Include thread context metadata in each event.
    pub fn with_thread_context(self) -> (r: Self)
        ensures
            r == (EventTraceBuilder { thread_context: true, ..self }),
    {
        EventTraceBuilder { thread_context: true, ..self }
    }

    /// Parse event payloads into named fields using the provider schema.
    pub fn with_detailed_events(self) -> (r: Self)
        ensures
            r == (EventTraceBuilder { detailed_events: true, ..self }),
    {
        EventTraceBuilder { detailed_events: true, ..self }
    }

    /// Attach the logical processor number to each raw event.
    pub fn with_cpu_samples(self) -> (r: Self)
        ensures
            r == (EventTraceBuilder { cpu_samples: true, ..self }),
    {
        EventTraceBuilder { cpu_samples: true, ..self }
    }

    /// Restrict event collection to the given process identifiers.
    pub fn with_process_filter(self, pids: Vec<u32>) -> (r: Self)
        ensures
            r == (EventTraceBuilder { process_filter: r.process_filter, ..self }),
            pid_values(r.process_filter@) == pids@,
    {
        let mut filter: Vec<ProcessId> = Vec::new();
        let mut i: usize = 0;
        while i < pids.len()
            invariant
                i <= pids@.len(),
                pid_values(filter@) == pids@.subrange(0, i as int),
            decreases pids@.len() - i,
        {
            let ghost before = pid_values(filter@);
            filter.push(ProcessId::new(pids[i]));
            assert(pid_values(filter@) =~= before.push(pids@[i as int]));
            assert(pids@.subrange(0, i + 1) =~= pids@.subrange(0, i as int).push(pids@[i as int]));
            i = i + 1;
            assert(pid_values(filter@) =~= pids@.subrange(0, i as int));
        }
        assert(pids@.subrange(0, pids@.len() as int) == pids@);
        EventTraceBuilder { process_filter: filter, ..self }
    }

    /// The session name and reason of the first configuration check that
    /// fails, in the order: empty name, name over 1024 bytes, no provider,
    /// kernel and user providers mixed, `min_buffers` above `max_buffers`.
    pub open spec fn start_error(&self) -> Option<(Seq<char>, Seq<char>)> {
        if self.name@.len() == 0 {
            Some((""@, "Session name cannot be empty"@))
        } else if utf8_len(self.name@) > MAX_SESSION_NAME_LEN {
            Some((self.name@, "Session name exceeds 1024 characters"@))
        } else if self.system_providers@.len() == 0 && self.user_providers@.len() == 0 {
            Some((self.name@, "At least one system provider or user provider GUID must be specified"@))
        } else if self.system_providers@.len() > 0 && self.user_providers@.len() > 0 {
            Some((
                self.name@,
                "Invalid "@ + "providers"@ + ": "@
                    + "Cannot mix kernel system providers with user-mode provider GUIDs in one session"@,
            ))
        } else if self.min_buffers > self.max_buffers {
            Some((self.name@, buffer_order_message(self.min_buffers, self.max_buffers)))
        } else {
            None
        }
    }

    /// The plan that a configuration which passes every check starts.
    pub open spec fn plan_matches(&self, p: SessionPlan) -> bool {
        let kernel = self.system_providers@.len() > 0;
        &&& p.is_kernel == kernel
        &&& p.session_name@ == if kernel { "NT Kernel Logger"@ } else { self.name@ }
        &&& p.enable_flags == if kernel { flags_of(self.system_providers@) } else { 0 }
        &&& p.user_providers@ == self.user_providers@
        &&& p.buffer_size == self.buffer_size
        &&& p.min_buffers == self.min_buffers
        &&& p.max_buffers == self.max_buffers
        &&& p.flush_interval == self.flush_interval
        &&& p.channel_capacity == self.channel_capacity
        &&& p.raw_stream == (self.stream_mode != EventStreamMode::Decoded)
        &&& p.decoded_stream == (self.stream_mode != EventStreamMode::Raw)
        &&& p.parse_fields == (self.detailed_events || self.stream_mode != EventStreamMode::Raw)
        &&& (self.process_filter@.len() == 0 <==> p.process_filter is None)
        &&& (p.process_filter matches Some(v) ==> no_duplicates(pid_values(v@)) && pid_values(v@).to_set()
            == pid_values(self.process_filter@).to_set())
        &&& p.thread_context == self.thread_context
        &&& p.stack_traces == self.stack_traces
        &&& p.cpu_samples == self.cpu_samples
    }

    /// Checks the configuration and works out the session plan; a failed
    /// check gives the session-start error that starting would report.
    pub fn validate(&self) -> (r: Result<SessionPlan, Error>)
        ensures
            match r {
                Ok(p) => self.start_error() is None && self.plan_matches(p),
                Err(Error::Etw(EtwError::SessionStartFailed(e))) => self.start_error() == Some(
                    (e.session_name@, e.reason@),
                ) && e.error_code is None,
                Err(_) => false,
            },
    {
        let name = self.name.as_str();
        if name.is_empty() {
            return Err(
                Error::Etw(
                    EtwError::SessionStartFailed(EtwSessionError::new("", "Session name cannot be empty")),
                ),
            );
        }
        if name.len() > MAX_SESSION_NAME_LEN {
            return Err(
                Error::Etw(
                    EtwError::SessionStartFailed(
                        EtwSessionError::new(name, "Session name exceeds 1024 characters"),
                    ),
                ),
            );
        }
        if self.system_providers.len() == 0 && self.user_providers.len() == 0 {
            return Err(
                Error::Etw(
                    EtwError::SessionStartFailed(
                        EtwSessionError::new(
                            name,
                            "At least one system provider or user provider GUID must be specified",
                        ),
                    ),
                ),
            );
        }
        if self.system_providers.len() > 0 && self.user_providers.len() > 0 {
            return Err(
                Error::Etw(
                    EtwError::SessionStartFailed(
                        EtwSessionError::invalid_config(
                            name,
                            "providers",
                            "Cannot mix kernel system providers with user-mode provider GUIDs in one session",
                        ),
                    ),
                ),
            );
        }
        if self.min_buffers > self.max_buffers {
            let mut reason = str_to_string("min_buffers (");
            push_dec(&mut reason, self.min_buffers as u64);
            reason.append(") cannot exceed max_buffers (");
            push_dec(&mut reason, self.max_buffers as u64);
            reason.append(")");
            let e = EtwSessionError::new(name, reason.as_str());
            return Err(Error::Etw(EtwError::SessionStartFailed(e)));
        }
        let is_kernel = self.system_providers.len() > 0;
        let session_name = if is_kernel {
            str_to_string("NT Kernel Logger")
        } else {
            str_to_string(name)
        };
        let mut flags: u32 = 0;
        if is_kernel {
            let mut i: usize = 0;
            while i < self.system_providers.len()
                invariant
                    i <= self.system_providers@.len(),
                    flags == flags_of(self.system_providers@.subrange(0, i as int)),
                decreases self.system_providers@.len() - i,
            {
                let ghost pre = self.system_providers@.subrange(0, i as int);
                flags = flags | self.system_providers[i].trace_flags();
                assert(self.system_providers@.subrange(0, i + 1).drop_last() == pre);
                i = i + 1;
            }
            assert(self.system_providers@.subrange(0, self.system_providers@.len() as int)
                == self.system_providers@);
        }
        let raw_stream = match self.stream_mode {
            EventStreamMode::Decoded => false,
            _ => true,
        };
        let decoded_stream = match self.stream_mode {
            EventStreamMode::Raw => false,
            _ => true,
        };
        let mut users: Vec<Guid> = Vec::new();
        let mut j: usize = 0;
        while j < self.user_providers.len()
            invariant
                j <= self.user_providers@.len(),
                users@ == self.user_providers@.subrange(0, j as int),
            decreases self.user_providers@.len() - j,
        {
            users.push(self.user_providers[j]);
            j = j + 1;
        }
        assert(self.user_providers@.subrange(0, self.user_providers@.len() as int) == self.user_providers@);
        let mut pids: Vec<ProcessId> = Vec::new();
        let mut k: usize = 0;
        while k < self.process_filter.len()
            invariant
                k <= self.process_filter@.len(),
                pids@ == self.process_filter@.subrange(0, k as int),
            decreases self.process_filter@.len() - k,
        {
            pids.push(self.process_filter[k]);
            k = k + 1;
        }
        assert(self.process_filter@.subrange(0, self.process_filter@.len() as int) == self.process_filter@);
        Ok(
            SessionPlan {
                session_name,
                is_kernel,
                enable_flags: flags,
                user_providers: users,
                buffer_size: self.buffer_size,
                min_buffers: self.min_buffers,
                max_buffers: self.max_buffers,
                flush_interval: self.flush_interval,
                channel_capacity: self.channel_capacity,
                raw_stream,
                decoded_stream,
                parse_fields: self.detailed_events || decoded_stream,
                process_filter: normalize_process_filter(pids),
                thread_context: self.thread_context,
                stack_traces: self.stack_traces,
                cpu_samples: self.cpu_samples,
            },
        )
    }
}

} // verus!
