//! Event Log value types.

use vstd::prelude::*;

use crate::process::types::str_views;
use crate::text::{str_eq, str_to_string};
use crate::pairs::pairs_view;
use crate::types::{ProcessId, ThreadId};

verus! {

/// Type-safe event ID.
#[derive(Debug, Clone, Copy, PartialEq, Eq, Hash, Default, Structural)]
pub struct EventId(pub u32);

impl EventId {
    /// Create a new event ID.
    pub fn new(id: u32) -> (r: Self)
        ensures
            r.0 == id,
    {
        EventId(id)
    }

    /// Get the raw event ID value.
    pub fn as_u32(&self) -> (r: u32)
        ensures
            r == self.0,
    {
        self.0
    }
}

/// Type-safe record ID.
#[derive(Debug, Clone, Copy, PartialEq, Eq, Hash, Structural)]
pub struct RecordId(pub u64);

impl RecordId {
    /// Create a new record ID.
    pub fn new(id: u64) -> (r: Self)
        ensures
            r.0 == id,
    {
        RecordId(id)
    }

    /// Get the raw record ID value.
    pub fn as_u64(&self) -> (r: u64)
        ensures
            r == self.0,
    {
        self.0
    }
}

/// Event severity level.
#[derive(Debug, Clone, Copy, PartialEq, Eq, Structural)]
pub enum EventLevel {
    /// Audit successful (code 0).
    AuditSuccess,
    /// Audit failure (code 1).
    AuditFailure,
    /// Critical (code 2).
    Critical,
    /// Error (code 3).
    Error,
    /// Warning (code 4).
    Warning,
    /// Informational (code 5).
    Informational,
    /// Verbose (code 6).
    Verbose,
}

impl EventLevel {
    /// The level whose Windows Event Log code is `code`, if any.
    pub open spec fn spec_from_code(code: u8) -> Option<Self> {
        if code == 0 {
            Some(EventLevel::AuditSuccess)
        } else if code == 1 {
            Some(EventLevel::AuditFailure)
        } else if code == 2 {
            Some(EventLevel::Critical)
        } else if code == 3 {
            Some(EventLevel::Error)
        } else if code == 4 {
            Some(EventLevel::Warning)
        } else if code == 5 {
            Some(EventLevel::Informational)
        } else if code == 6 {
            Some(EventLevel::Verbose)
        } else {
            None
        }
    }

    /// The Windows Event Log level code of a level.
    pub open spec fn spec_code(self) -> u8 {
        match self {
            EventLevel::AuditSuccess => 0,
            EventLevel::AuditFailure => 1,
            EventLevel::Critical => 2,
            EventLevel::Error => 3,
            EventLevel::Warning => 4,
            EventLevel::Informational => 5,
            EventLevel::Verbose => 6,
        }
    }

    /// A level's code reads back as that level, and a code that names a
    /// level is that level's code.
    pub proof fn lemma_code_round_trip(self, code: u8)
        ensures
            Self::spec_from_code(self.spec_code()) == Some(self),
            Self::spec_from_code(code) matches Some(l) ==> l.spec_code() == code,
    {
    }

    /// The codes are the Windows Event Log level numbers: 0 audit success,
    /// 1 audit failure, 2 critical, 3 error, 4 warning, 5 informational and
    /// 6 verbose. The severity levels thus rise in code from critical to
    /// verbose, so that `Level <= n` keeps a level with every more severe
    /// one, and exactly the codes up to 6 name a level.
    pub proof fn lemma_windows_level_numbers(self, code: u8)
        ensures
            (self == EventLevel::AuditSuccess) <==> self.spec_code() == 0,
            (self == EventLevel::AuditFailure) <==> self.spec_code() == 1,
            (self == EventLevel::Critical) <==> self.spec_code() == 2,
            (self == EventLevel::Error) <==> self.spec_code() == 3,
            (self == EventLevel::Warning) <==> self.spec_code() == 4,
            (self == EventLevel::Informational) <==> self.spec_code() == 5,
            (self == EventLevel::Verbose) <==> self.spec_code() == 6,
            EventLevel::Critical.spec_code() < EventLevel::Error.spec_code() < EventLevel::Warning.spec_code()
                < EventLevel::Informational.spec_code() < EventLevel::Verbose.spec_code(),
            Self::spec_from_code(code) is Some <==> code <= 6,
    {
    }

    /// The Windows Event Log level code of this level.
    pub fn code(self) -> (r: u8)
        ensures
            r == self.spec_code(),
            self == EventLevel::AuditSuccess ==> r == 0,
            self == EventLevel::AuditFailure ==> r == 1,
            self == EventLevel::Critical ==> r == 2,
            self == EventLevel::Error ==> r == 3,
            self == EventLevel::Warning ==> r == 4,
            self == EventLevel::Informational ==> r == 5,
            self == EventLevel::Verbose ==> r == 6,
    {
        match self {
            EventLevel::AuditSuccess => 0,
            EventLevel::AuditFailure => 1,
            EventLevel::Critical => 2,
            EventLevel::Error => 3,
            EventLevel::Warning => 4,
            EventLevel::Informational => 5,
            EventLevel::Verbose => 6,
        }
    }

    /// Create from Windows Event Log level code: the level whose code it is,
    /// or `None` above 6.
    pub fn from_code(code: u8) -> (r: Option<Self>)
        ensures
            r == Self::spec_from_code(code),
            r matches Some(l) ==> l.spec_code() == code,
            r is None <==> code > 6,
            code == 0 ==> r == Some(EventLevel::AuditSuccess),
            code == 1 ==> r == Some(EventLevel::AuditFailure),
            code == 2 ==> r == Some(EventLevel::Critical),
            code == 3 ==> r == Some(EventLevel::Error),
            code == 4 ==> r == Some(EventLevel::Warning),
            code == 5 ==> r == Some(EventLevel::Informational),
            code == 6 ==> r == Some(EventLevel::Verbose),
    {
        match code {
            0 => Some(EventLevel::AuditSuccess),
            1 => Some(EventLevel::AuditFailure),
            2 => Some(EventLevel::Critical),
            3 => Some(EventLevel::Error),
            4 => Some(EventLevel::Warning),
            5 => Some(EventLevel::Informational),
            6 => Some(EventLevel::Verbose),
            _ => None,
        }
    }

    /// The name of this level.
    pub fn name(self) -> (r: &'static str)
        ensures
            r@ == match self {
                EventLevel::AuditSuccess => "AuditSuccess"@,
                EventLevel::AuditFailure => "AuditFailure"@,
                EventLevel::Critical => "Critical"@,
                EventLevel::Error => "Error"@,
                EventLevel::Warning => "Warning"@,
                EventLevel::Informational => "Informational"@,
                EventLevel::Verbose => "Verbose"@,
            },
    {
        match self {
            EventLevel::AuditSuccess => "AuditSuccess",
            EventLevel::AuditFailure => "AuditFailure",
            EventLevel::Critical => "Critical",
            EventLevel::Error => "Error",
            EventLevel::Warning => "Warning",
            EventLevel::Informational => "Informational",
            EventLevel::Verbose => "Verbose",
        }
    }
}

/// Get the provider name as an owned value; the text is always the input's.
pub fn intern_provider(name: &str) -> (r: String)
    ensures
        r@ == name@,
{
    str_to_string(name)
}

/// Get the channel name as an owned value; the text is always the input's.
pub fn intern_channel(name: &str) -> (r: String)
    ensures
        r@ == name@,
{
    str_to_string(name)
}

/// The EventData field names that are shared rather than copied: common
/// names of Security, Sysmon and PowerShell events.
pub open spec fn common_field_names() -> Seq<Seq<char>> {
    seq![
        "SubjectUserName"@,
        "SubjectDomainName"@,
        "SubjectUserSid"@,
        "SubjectLogonId"@,
        "TargetUserName"@,
        "TargetDomainName"@,
        "TargetUserSid"@,
        "TargetLogonId"@,
        "LogonType"@,
        "IpAddress"@,
        "IpPort"@,
        "WorkstationName"@,
        "AuthenticationPackageName"@,
        "ProcessName"@,
        "ProcessId"@,
        "CommandLine"@,
        "NewProcessName"@,
        "NewProcessId"@,
        "ParentProcessName"@,
        "ObjectName"@,
        "AccessList"@,
        "PrivilegeList"@,
        "Image"@,
        "ImageLoaded"@,
        "ParentImage"@,
        "ParentCommandLine"@,
        "ParentProcessId"@,
        "Hashes"@,
        "User"@,
        "IntegrityLevel"@,
        "SourceIp"@,
        "SourcePort"@,
        "SourceHostname"@,
        "DestinationIp"@,
        "DestinationPort"@,
        "DestinationHostname"@,
        "Protocol"@,
        "TargetFilename"@,
        "TargetObject"@,
        "Details"@,
        "ScriptBlockText"@,
        "Path"@,
        "MessageNumber"@,
        "MessageTotal"@,
        "EventID"@,
        "Level"@,
        "Keywords"@,
        "Message"@,
        "Data"@
    ]
}

/// The shared field names.
fn common_field_name_table() -> (r: [&'static str; 49])
    ensures
        str_views(r@) == common_field_names(),
{
    let r: [&'static str; 49] = [
        "SubjectUserName",
        "SubjectDomainName",
        "SubjectUserSid",
        "SubjectLogonId",
        "TargetUserName",
        "TargetDomainName",
        "TargetUserSid",
        "TargetLogonId",
        "LogonType",
        "IpAddress",
        "IpPort",
        "WorkstationName",
        "AuthenticationPackageName",
        "ProcessName",
        "ProcessId",
        "CommandLine",
        "NewProcessName",
        "NewProcessId",
        "ParentProcessName",
        "ObjectName",
        "AccessList",
        "PrivilegeList",
        "Image",
        "ImageLoaded",
        "ParentImage",
        "ParentCommandLine",
        "ParentProcessId",
        "Hashes",
        "User",
        "IntegrityLevel",
        "SourceIp",
        "SourcePort",
        "SourceHostname",
        "DestinationIp",
        "DestinationPort",
        "DestinationHostname",
        "Protocol",
        "TargetFilename",
        "TargetObject",
        "Details",
        "ScriptBlockText",
        "Path",
        "MessageNumber",
        "MessageTotal",
        "EventID",
        "Level",
        "Keywords",
        "Message",
        "Data"
    ];
    assert(str_views(r@) =~= common_field_names());
    r
}

/// An EventData field name: a shared entry of the common names, or an owned
/// copy.
#[derive(Debug, Clone)]
pub enum FieldName {
    /// Reference to a shared name.
    Shared(&'static str),
    /// Owned name.
    Owned(String),
}

impl View for FieldName {
    type V = Seq<char>;

    open spec fn view(&self) -> Seq<char> {
        match self {
            FieldName::Shared(s) => s@,
            FieldName::Owned(s) => s@,
        }
    }
}

impl FieldName {
    /// The name's text.
    pub fn as_str(&self) -> (r: &str)
        ensures
            r@ == self@,
    {
        match self {
            FieldName::Shared(s) => s,
            FieldName::Owned(s) => s.as_str(),
        }
    }

    /// The name's text as an owned value.
    pub fn into_string(self) -> (r: String)
        ensures
            r@ == self@,
    {
        match self {
            FieldName::Shared(s) => str_to_string(s),
            FieldName::Owned(s) => s,
        }
    }
}

/// Get an EventData field name: the shared entry when the name is one of
/// the common names (exactly), else an owned copy.
pub fn intern_field_name(name: &str) -> (r: FieldName)
    ensures
        r@ == name@,
        r is Shared <==> common_field_names().contains(name@),
{
    let table = common_field_name_table();
    let ghost views = str_views(table@);
    let mut i: usize = 0;
    while i < 49
        invariant
            i <= 49,
            views == str_views(table@),
            views == common_field_names(),
            table@.len() == 49,
            forall|j: int| 0 <= j < i ==> views[j] != name@,
        decreases 49 - i,
    {
        if str_eq(table[i], name) {
            assert(views[i as int] == name@);
            return FieldName::Shared(table[i]);
        }
        i = i + 1;
    }
    proof {
        if common_field_names().contains(name@) {
            let k = choose|k: int| 0 <= k < views.len() && views[k] == name@;
            assert(views[k] == name@);
        }
    }
    FieldName::Owned(str_to_string(name))
}

/// A complete Windows Event Log record.
#[derive(Debug, Clone)]
pub struct Event {
    /// Event ID (event type identifier).
    pub id: EventId,
    /// Event severity level.
    pub level: EventLevel,
    /// Provider/source name.
    pub provider: String,
    /// Channel name.
    pub channel: String,
    /// Computer name where the event occurred.
    pub computer: String,
    /// Event time as 100-nanosecond intervals since 1601-01-01 UTC, when known.
    pub timestamp: Option<u64>,
    /// Event record ID (unique per log, may wrap).
    pub record_id: Option<RecordId>,
    /// Process ID that generated the event.
    pub process_id: Option<ProcessId>,
    /// Thread ID that generated the event.
    pub thread_id: Option<ThreadId>,
    /// User event data as name and value pairs.
    pub data: Option<Vec<(String, String)>>,
    /// Formatted event message.
    pub formatted_message: Option<String>,
}

/// The contents of an [`Event`] as plain values.
pub struct EventView {
    pub id: u32,
    pub level: EventLevel,
    pub provider: Seq<char>,
    pub channel: Seq<char>,
    pub computer: Seq<char>,
    pub timestamp: Option<u64>,
    pub record_id: Option<u64>,
    pub process_id: Option<u32>,
    pub thread_id: Option<u32>,
    pub data: Option<Seq<(Seq<char>, Seq<char>)>>,
    pub formatted_message: Option<Seq<char>>,
}

impl View for Event {
    type V = EventView;

    open spec fn view(&self) -> EventView {
        EventView {
            id: self.id.0,
            level: self.level,
            provider: self.provider@,
            channel: self.channel@,
            computer: self.computer@,
            timestamp: self.timestamp,
            record_id: match self.record_id {
                Some(r) => Some(r.0),
                None => None,
            },
            process_id: match self.process_id {
                Some(p) => Some(p.0),
                None => None,
            },
            thread_id: match self.thread_id {
                Some(t) => Some(t.0),
                None => None,
            },
            data: match self.data {
                Some(d) => Some(pairs_view(d@)),
                None => None,
            },
            formatted_message: match self.formatted_message {
                Some(m) => Some(m@),
                None => None,
            },
        }
    }
}

/// The event every parse starts from: ID 0, informational, nothing else known.
pub open spec fn empty_event_view() -> EventView {
    EventView {
        id: 0,
        level: EventLevel::Informational,
        provider: Seq::empty(),
        channel: Seq::empty(),
        computer: Seq::empty(),
        timestamp: None,
        record_id: None,
        process_id: None,
        thread_id: None,
        data: None,
        formatted_message: None,
    }
}

impl Event {
    /// Create an empty event: ID 0, informational, empty names, nothing else known.
    pub fn new() -> (r: Self)
        ensures
            r@ == empty_event_view(),
            r.id.0 == 0,
            r.level == EventLevel::Informational,
            r.provider@.len() == 0,
            r.channel@.len() == 0,
            r.computer@.len() == 0,
            r.timestamp is None,
            r.record_id is None,
            r.process_id is None,
            r.thread_id is None,
            r.data is None,
            r.formatted_message is None,
    {
        Event {
            id: EventId(0),
            level: EventLevel::Informational,
            provider: String::new(),
            channel: String::new(),
            computer: String::new(),
            timestamp: None,
            record_id: None,
            process_id: None,
            thread_id: None,
            data: None,
            formatted_message: None,
        }
    }
}

/// Rendering format for events.
#[derive(Debug, Clone, Copy, PartialEq, Eq, Structural)]
pub enum RenderFormat {
    /// Render as individual property values.
    Values,
    /// Render as XML.
    Xml,
}

/// Corrupted or unparseable event.
#[derive(Debug, Clone)]
pub struct CorruptedEvent {
    /// Record ID if available.
    pub record_id: Option<u64>,
    /// Component that failed.
    pub component: String,
    /// Error reason.
    pub reason: String,
}

/// Channel filter for listing event log channels.
#[derive(Debug, Clone, Copy, PartialEq, Eq, Structural)]
pub enum ChannelFilter {
    /// All channels.
    All,
    /// Operational channels only.
    Operational,
    /// Admin and higher severity.
    AdminOrHigher,
    /// Include analytic channels.
    IncludeAnalytic,
}

/// Result of an event query.
#[derive(Debug, Clone)]
pub struct EventQueryResult {
    /// Events returned by the query.
    pub events: Vec<Event>,
    /// Corrupted events encountered during the query.
    pub corrupted: Vec<CorruptedEvent>,
    /// Total events processed (including corrupted).
    pub total_processed: usize,
}

} // verus!
