//! Reading an event's System fields and its EventData out of the event XML.

use vstd::prelude::*;
use vstd::utf8::{decode_utf8, encode_utf8, valid_utf8};

use crate::bytes::{bytes_eq, copy_range};
use crate::evt::timestamp::{
    iso_out_of_range, iso_ticks, iso_timestamp_fields, parse_iso8601_timestamp, parse_unsigned, unsigned_text,
};
use crate::evt::types::{
    CorruptedEvent, Event, EventId, EventLevel, EventView, RecordId, empty_event_view,
    intern_channel, intern_provider,
};
use crate::evt::xml::{
    XmlAttr, XmlCursor, XmlStep, XmlToken, attrs_view, read_step, tag_attributes,
    token_well_formed, xml_tag_attributes, xml_token_at,
};
use crate::text::{str_eq, str_to_string, string_from_utf8, utf8_lossy, utf8_lossy_text};
use crate::pairs::{insert_pair, pairs_insert, pairs_view};
use crate::types::{ProcessId, ThreadId};

verus! {

broadcast use vstd::utf8::decode_utf8_encode_utf8;

/// An attribute as plain bytes, `None` where it is malformed.
pub type AttrView = Option<(Seq<u8>, Seq<u8>)>;

// ---------------------------------------------------------------------------
// Attribute lists
// ---------------------------------------------------------------------------

/// The provider name after the attributes of a `Provider` tag: each
/// well-formed `Name` attribute whose value is UTF-8 replaces it, in order.
pub open spec fn provider_from_attrs(attrs: Seq<AttrView>, cur: Seq<char>) -> Seq<char>
    decreases attrs.len(),
{
    if attrs.len() == 0 {
        cur
    } else {
        let prev = provider_from_attrs(attrs.drop_last(), cur);
        match attrs.last() {
            Some((k, v)) => if k == encode_utf8("Name"@) && valid_utf8(v) {
                decode_utf8(v)
            } else {
                prev
            },
            None => prev,
        }
    }
}

/// What a `SystemTime` value sets the timestamp to; `None` where its day is 0
/// or its month past 13, which the day count cannot take.
pub open spec fn stamp_of(v: Seq<u8>) -> Option<Option<u64>> {
    let b = encode_utf8(decode_utf8(v));
    if iso_out_of_range(b) {
        None
    } else {
        Some(
            match iso_ticks(b) {
                Some(t) => Some(t as u64),
                None => None,
            },
        )
    }
}

/// The timestamp after the attributes of a `TimeCreated` tag: each
/// well-formed `SystemTime` attribute whose value is UTF-8 sets it to the
/// parsed value, in order; `None` where one of them is out of range.
pub open spec fn time_from_attrs(attrs: Seq<AttrView>, cur: Option<u64>) -> Option<Option<u64>>
    decreases attrs.len(),
{
    if attrs.len() == 0 {
        Some(cur)
    } else {
        match time_from_attrs(attrs.drop_last(), cur) {
            None => None,
            Some(prev) => match attrs.last() {
                Some((k, v)) => if k == encode_utf8("SystemTime"@) && valid_utf8(v) {
                    stamp_of(v)
                } else {
                    Some(prev)
                },
                None => Some(prev),
            },
        }
    }
}

/// The process and thread IDs after the attributes of an `Execution` tag:
/// a `ProcessID` or `ThreadID` attribute with a UTF-8 value that parses as
/// `u32` sets the matching ID, in order.
pub open spec fn execution_from_attrs(
    attrs: Seq<AttrView>,
    pid: Option<u32>,
    tid: Option<u32>,
) -> (Option<u32>, Option<u32>)
    decreases attrs.len(),
{
    if attrs.len() == 0 {
        (pid, tid)
    } else {
        let prev = execution_from_attrs(attrs.drop_last(), pid, tid);
        match attrs.last() {
            Some((k, v)) => if valid_utf8(v) {
                let name = utf8_lossy_text(k);
                let b = encode_utf8(decode_utf8(v));
                if name == "ProcessID"@ {
                    match unsigned_text(b, 0xffff_ffff) {
                        Some(p) => (Some(p as u32), prev.1),
                        None => prev,
                    }
                } else if name == "ThreadID"@ {
                    match unsigned_text(b, 0xffff_ffff) {
                        Some(t) => (prev.0, Some(t as u32)),
                        None => prev,
                    }
                } else {
                    prev
                }
            } else {
                prev
            },
            None => prev,
        }
    }
}

/// The attributes of a tag whose content is UTF-8; none otherwise.
pub open spec fn tag_attrs_of(content: Seq<u8>, name_len: nat) -> Seq<AttrView> {
    if valid_utf8(content) {
        xml_tag_attributes(decode_utf8(content), name_len)
    } else {
        Seq::empty()
    }
}

/// The attribute list of a start or empty tag.
pub fn attributes_of(content: &Vec<u8>, name_len: usize) -> (r: Vec<Option<XmlAttr>>)
    requires
        name_len <= content@.len(),
    ensures
        attrs_view(r@) == tag_attrs_of(content@, name_len as nat),
{
    match string_from_utf8(content.clone()) {
        Some(s) => tag_attributes(s.as_str(), name_len),
        None => Vec::new(),
    }
}

/// Applies the `Name` attributes of a `Provider` tag; see [`provider_from_attrs`].
pub fn provider_from(attrs: &Vec<Option<XmlAttr>>, cur: String) -> (r: String)
    ensures
        r@ == provider_from_attrs(attrs_view(attrs@), cur@),
{
    let ghost a = attrs_view(attrs@);
    let mut out = cur;
    let mut i: usize = 0;
    while i < attrs.len()
        invariant
            a == attrs_view(attrs@),
            i <= attrs@.len(),
            out@ == provider_from_attrs(a.subrange(0, i as int), cur@),
        decreases attrs.len() - i,
    {
        assert(a.subrange(0, i + 1).drop_last() == a.subrange(0, i as int));
        if let Some(at) = &attrs[i] {
            if bytes_eq(at.key.as_slice(), "Name".as_bytes()) {
                if let Some(v) = string_from_utf8(at.value.clone()) {
                    out = intern_provider(v.as_str());
                }
            }
        }
        i = i + 1;
    }
    assert(a.subrange(0, attrs@.len() as int) == a);
    out
}

/// Applies the `SystemTime` attributes of a `TimeCreated` tag; see
/// [`time_from_attrs`].
pub fn time_from(attrs: &Vec<Option<XmlAttr>>, cur: Option<u64>) -> (r: Option<Option<u64>>)
    ensures
        r == time_from_attrs(attrs_view(attrs@), cur),
{
    let ghost a = attrs_view(attrs@);
    let mut out = cur;
    let mut i: usize = 0;
    while i < attrs.len()
        invariant
            a == attrs_view(attrs@),
            i <= attrs@.len(),
            time_from_attrs(a.subrange(0, i as int), cur) == Some(out),
        decreases attrs.len() - i,
    {
        assert(a.subrange(0, i + 1).drop_last() == a.subrange(0, i as int));
        if let Some(at) = &attrs[i] {
            if bytes_eq(at.key.as_slice(), "SystemTime".as_bytes()) {
                if let Some(v) = string_from_utf8(at.value.clone()) {
                    if !stamp_in_range(v.as_str()) {
                        proof {
                            lemma_time_stays_out(a, i as nat, cur);
                        }
                        return None;
                    }
                    out = parse_iso8601_timestamp(v.as_str());
                }
            }
        }
        i = i + 1;
    }
    assert(a.subrange(0, attrs@.len() as int) == a);
    Some(out)
}

/// Once a stamp is out of range, the whole attribute list is.
proof fn lemma_time_stays_out(a: Seq<AttrView>, i: nat, cur: Option<u64>)
    requires
        i < a.len(),
        time_from_attrs(a.subrange(0, (i + 1) as int), cur) is None,
    ensures
        time_from_attrs(a, cur) is None,
    decreases a.len() - i,
{
    if i + 1 < a.len() {
        assert(a.subrange(0, (i + 2) as int).drop_last() == a.subrange(0, (i + 1) as int));
        lemma_time_stays_out(a, i + 1, cur);
    } else {
        assert(a.subrange(0, (i + 1) as int) == a);
    }
}

/// Whether a stamp can be turned into a time: not a day of 0 nor a month past 13.
pub fn stamp_in_range(v: &str) -> (r: bool)
    ensures
        r == !iso_out_of_range(encode_utf8(v@)),
{
    match iso_timestamp_fields(v) {
        Some((_, month, day, _, _, _, _)) => !(day == 0 || month > 13),
        None => true,
    }
}

// ---------------------------------------------------------------------------
// The System element
// ---------------------------------------------------------------------------

/// Where a reading of the System element stands: the event so far, whether
/// the reader is inside `<System>`, and the innermost open tag's name.
pub struct SystemXmlState {
    pub event: Event,
    pub in_system: bool,
    pub current_tag: String,
}

/// The plain contents of a [`SystemXmlState`].
pub struct SystemXmlView {
    pub event: EventView,
    pub in_system: bool,
    pub tag: Seq<char>,
}

impl View for SystemXmlState {
    type V = SystemXmlView;

    open spec fn view(&self) -> SystemXmlView {
        SystemXmlView { event: self.event@, in_system: self.in_system, tag: self.current_tag@ }
    }
}

/// Where every reading starts.
pub open spec fn initial_system_view() -> SystemXmlView {
    SystemXmlView { event: empty_event_view(), in_system: false, tag: Seq::empty() }
}

/// A tag's name as text.
pub open spec fn name_text(content: Seq<u8>, name_len: nat) -> Seq<char> {
    utf8_lossy_text(content.subrange(0, name_len as int))
}

/// What the character data of a System child sets in the event.
pub open spec fn apply_text(e: EventView, tag: Seq<char>, value: Seq<char>) -> EventView {
    let b = encode_utf8(value);
    if tag == "EventID"@ {
        EventView {
            id: match unsigned_text(b, 0xffff_ffff) {
                Some(v) => v as u32,
                None => 0,
            },
            ..e
        }
    } else if tag == "Level"@ {
        let code: u8 = match unsigned_text(b, 0xff) {
            Some(v) => v as u8,
            None => 4,
        };
        EventView {
            level: match EventLevel::spec_from_code(code) {
                Some(l) => l,
                None => EventLevel::Verbose,
            },
            ..e
        }
    } else if tag == "Channel"@ {
        EventView { channel: value, ..e }
    } else if tag == "Computer"@ {
        EventView { computer: value, ..e }
    } else if tag == "EventRecordID"@ {
        match unsigned_text(b, 0xffff_ffff_ffff_ffff) {
            Some(r) => EventView { record_id: Some(r as u64), ..e },
            None => e,
        }
    } else {
        e
    }
}

/// The token's tag reads attributes: `Provider` or `TimeCreated` opened inside
/// System, or an empty `Execution` tag inside System.
pub open spec fn uses_attributes(s: SystemXmlView, t: XmlToken) -> bool {
    match t {
        XmlToken::Start(c, n) => {
            let nm = name_text(c, n);
            nm != "System"@ && s.in_system && (nm == "Provider"@ || nm == "TimeCreated"@)
        },
        XmlToken::Empty(c, n) => s.in_system && name_text(c, n) == "Execution"@,
        _ => false,
    }
}

/// One token of the System reading; `None` where a `TimeCreated` stamp is out
/// of range.
pub open spec fn system_xml_step(s: SystemXmlView, t: XmlToken, attrs: Seq<AttrView>) -> Option<
    SystemXmlView,
> {
    match t {
        XmlToken::Start(c, n) => {
            let nm = name_text(c, n);
            if nm == "System"@ {
                Some(SystemXmlView { in_system: true, ..s })
            } else if s.in_system {
                if nm == "Provider"@ {
                    Some(
                        SystemXmlView {
                            tag: nm,
                            event: EventView {
                                provider: provider_from_attrs(attrs, s.event.provider),
                                ..s.event
                            },
                            ..s
                        },
                    )
                } else if nm == "TimeCreated"@ {
                    match time_from_attrs(attrs, s.event.timestamp) {
                        Some(ts) => Some(
                            SystemXmlView {
                                tag: nm,
                                event: EventView { timestamp: ts, ..s.event },
                                ..s
                            },
                        ),
                        None => None,
                    }
                } else {
                    Some(SystemXmlView { tag: nm, ..s })
                }
            } else {
                Some(s)
            }
        },
        XmlToken::End(name) => Some(
            SystemXmlView {
                in_system: if utf8_lossy_text(name) == "System"@ {
                    false
                } else {
                    s.in_system
                },
                tag: Seq::empty(),
                ..s
            },
        ),
        XmlToken::Text(raw) => if s.in_system && s.tag.len() > 0 {
            Some(SystemXmlView { event: apply_text(s.event, s.tag, utf8_lossy_text(raw)), ..s })
        } else {
            Some(s)
        },
        XmlToken::Empty(c, n) => if s.in_system && name_text(c, n) == "Execution"@ {
            let ids = execution_from_attrs(attrs, s.event.process_id, s.event.thread_id);
            Some(
                SystemXmlView {
                    event: EventView { process_id: ids.0, thread_id: ids.1, ..s.event },
                    ..s
                },
            )
        } else {
            Some(s)
        },
        _ => Some(s),
    }
}

/// Applies the attributes of an `Execution` tag; see [`execution_from_attrs`].
pub fn execution_from(attrs: &Vec<Option<XmlAttr>>, pid: Option<u32>, tid: Option<u32>) -> (r: (
    Option<u32>,
    Option<u32>,
))
    ensures
        r == execution_from_attrs(attrs_view(attrs@), pid, tid),
{
    let ghost a = attrs_view(attrs@);
    let mut p = pid;
    let mut t = tid;
    let mut i: usize = 0;
    while i < attrs.len()
        invariant
            a == attrs_view(attrs@),
            i <= attrs@.len(),
            (p, t) == execution_from_attrs(a.subrange(0, i as int), pid, tid),
        decreases attrs.len() - i,
    {
        assert(a.subrange(0, i + 1).drop_last() == a.subrange(0, i as int));
        if let Some(at) = &attrs[i] {
            let name = utf8_lossy(at.key.as_slice());
            if let Some(v) = string_from_utf8(at.value.clone()) {
                if str_eq(name.as_str(), "ProcessID") {
                    if let Some(n) = parse_unsigned(v.as_str().as_bytes(), 0xffff_ffff) {
                        p = Some(n as u32);
                    }
                } else if str_eq(name.as_str(), "ThreadID") {
                    if let Some(n) = parse_unsigned(v.as_str().as_bytes(), 0xffff_ffff) {
                        t = Some(n as u32);
                    }
                }
            }
        }
        i = i + 1;
    }
    assert(a.subrange(0, attrs@.len() as int) == a);
    (p, t)
}

/// Sets what the character data of a System child carries; see [`apply_text`].
pub fn apply_text_to(event: &mut Event, tag: &str, value: String)
    ensures
        final(event)@ == apply_text(old(event)@, tag@, value@),
{
    let b = value.as_str().as_bytes();
    if str_eq(tag, "EventID") {
        let id: u32 = match parse_unsigned(b, 0xffff_ffff) {
            Some(v) => v as u32,
            None => 0,
        };
        event.id = EventId::new(id);
    } else if str_eq(tag, "Level") {
        let code: u8 = match parse_unsigned(b, 0xff) {
            Some(v) => v as u8,
            None => 4,
        };
        event.level = match EventLevel::from_code(code) {
            Some(l) => l,
            None => EventLevel::Verbose,
        };
    } else if str_eq(tag, "Channel") {
        event.channel = intern_channel(value.as_str());
    } else if str_eq(tag, "Computer") {
        event.computer = value;
    } else if str_eq(tag, "EventRecordID") {
        if let Some(r) = parse_unsigned(b, 0xffff_ffff_ffff_ffff) {
            event.record_id = Some(RecordId::new(r));
        }
    }
}

/// A tag's name as text.
pub fn tag_name(content: &Vec<u8>, name_len: usize) -> (r: String)
    requires
        name_len <= content@.len(),
    ensures
        r@ == name_text(content@, name_len as nat),
{
    let name = copy_range(content.as_slice(), 0, name_len);
    utf8_lossy(name.as_slice())
}

/// Whether the token's tag reads attributes; see [`uses_attributes`].
pub fn token_uses_attributes(state: &SystemXmlState, tok: &XmlStep) -> (r: bool)
    requires
        token_well_formed(tok@),
    ensures
        r == uses_attributes(state@, tok@),
{
    match tok {
        XmlStep::Start { content, name_len } => {
            let nm = tag_name(content, *name_len);
            !str_eq(nm.as_str(), "System") && state.in_system && (str_eq(nm.as_str(), "Provider")
                || str_eq(nm.as_str(), "TimeCreated"))
        },
        XmlStep::Empty { content, name_len } => {
            let nm = tag_name(content, *name_len);
            state.in_system && str_eq(nm.as_str(), "Execution")
        },
        _ => false,
    }
}

/// Takes one token of the System reading; see [`system_xml_step`]. Returns
/// `false`, leaving the state as it was, where a `TimeCreated` stamp is out
/// of range.
pub fn apply_system_token(
    state: &mut SystemXmlState,
    tok: &XmlStep,
    attrs: &Vec<Option<XmlAttr>>,
) -> (ok: bool)
    requires
        token_well_formed(tok@),
    ensures
        match system_xml_step(old(state)@, tok@, attrs_view(attrs@)) {
            Some(s) => ok && final(state)@ == s,
            None => !ok && final(state)@ == old(state)@,
        },
{
    match tok {
        XmlStep::Start { content, name_len } => {
            let nm = tag_name(content, *name_len);
            if str_eq(nm.as_str(), "System") {
                state.in_system = true;
            } else if state.in_system {
                if str_eq(nm.as_str(), "Provider") {
                    let cur = str_to_string(state.event.provider.as_str());
                    state.event.provider = provider_from(attrs, cur);
                    state.current_tag = nm;
                } else if str_eq(nm.as_str(), "TimeCreated") {
                    match time_from(attrs, state.event.timestamp) {
                        Some(ts) => {
                            state.event.timestamp = ts;
                            state.current_tag = nm;
                        },
                        None => {
                            return false;
                        },
                    }
                } else {
                    state.current_tag = nm;
                }
            }
            true
        },
        XmlStep::End { name } => {
            let nm = utf8_lossy(name.as_slice());
            if str_eq(nm.as_str(), "System") {
                state.in_system = false;
            }
            state.current_tag = String::new();
            true
        },
        XmlStep::Text { raw } => {
            if state.in_system && !state.current_tag.as_str().is_empty() {
                let value = utf8_lossy(raw.as_slice());
                let tag = str_to_string(state.current_tag.as_str());
                apply_text_to(&mut state.event, tag.as_str(), value);
            }
            true
        },
        XmlStep::Empty { content, name_len } => {
            let nm = tag_name(content, *name_len);
            if state.in_system && str_eq(nm.as_str(), "Execution") {
                let pid = match state.event.process_id {
                    Some(p) => Some(p.as_u32()),
                    None => None,
                };
                let tid = match state.event.thread_id {
                    Some(t) => Some(t.as_u32()),
                    None => None,
                };
                let (p, t) = execution_from(attrs, pid, tid);
                state.event.process_id = match p {
                    Some(v) => Some(ProcessId::new(v)),
                    None => None,
                };
                state.event.thread_id = match t {
                    Some(v) => Some(ThreadId::new(v)),
                    None => None,
                };
            }
            true
        },
        _ => true,
    }
}

// ---------------------------------------------------------------------------
// Reading a whole event
// ---------------------------------------------------------------------------

/// How a reading of an event's XML stands or ended.
pub enum SystemXmlRun {
    /// Still reading, with the state so far.
    Reading(SystemXmlView),
    /// The text ended; the event read.
    Finished(EventView),
    /// The reader reported malformed XML; the record ID read before it.
    Broken(Option<u64>),
    /// A `TimeCreated` stamp had a day of 0 or a month past 13.
    StampOutOfRange,
}

/// The attributes a token's step reads: those of its tag where the step
/// uses them, none otherwise.
pub open spec fn system_attrs(s: SystemXmlView, t: XmlToken) -> Seq<AttrView> {
    if uses_attributes(s, t) {
        match t {
            XmlToken::Start(c, n) => tag_attrs_of(c, n),
            XmlToken::Empty(c, n) => tag_attrs_of(c, n),
            _ => Seq::empty(),
        }
    } else {
        Seq::empty()
    }
}

/// The reading after the first `k` tokens of `text`.
pub open spec fn system_run(text: Seq<char>, k: nat) -> SystemXmlRun
    decreases k,
{
    if k == 0 {
        SystemXmlRun::Reading(initial_system_view())
    } else {
        match system_run(text, (k - 1) as nat) {
            SystemXmlRun::Reading(s) => {
                let t = xml_token_at(text, (k - 1) as nat);
                match t {
                    XmlToken::Eof => SystemXmlRun::Finished(s.event),
                    XmlToken::Failed => SystemXmlRun::Broken(s.event.record_id),
                    _ => match system_xml_step(s, t, system_attrs(s, t)) {
                        Some(s2) => SystemXmlRun::Reading(s2),
                        None => SystemXmlRun::StampOutOfRange,
                    },
                }
            },
            other => other,
        }
    }
}

/// Every token the reader yields takes at least one byte of the text, so a
/// text of `n` bytes is read to its end within `n + 1` tokens; a reading
/// stops there.
pub open spec fn token_budget(text: Seq<char>) -> nat {
    encode_utf8(text).len() + 1
}

/// How reading an event's XML ends.
pub open spec fn system_xml_outcome(text: Seq<char>) -> SystemXmlRun {
    match system_run(text, token_budget(text)) {
        SystemXmlRun::Reading(s) => SystemXmlRun::Finished(s.event),
        other => other,
    }
}

/// A reading that has ended stays ended.
pub proof fn lemma_system_run_stays(text: Seq<char>, k: nat, j: nat)
    requires
        k <= j,
        !(system_run(text, k) is Reading),
    ensures
        system_run(text, j) == system_run(text, k),
    decreases j - k,
{
    if k < j {
        lemma_system_run_stays(text, k, (j - 1) as nat);
    }
}

/// Reads an event's System fields out of its XML; see [`system_xml_outcome`].
/// `None` where a `TimeCreated` stamp is out of range.
pub fn parse_event_xml_with_quick_xml(xml_str: &str) -> (r: Option<Result<Event, CorruptedEvent>>)
    ensures
        r is None <==> system_xml_outcome(xml_str@) is StampOutOfRange,
        system_xml_outcome(xml_str@) matches SystemXmlRun::Finished(e) ==> (r matches Some(Ok(ev))
            && ev@ == e),
        system_xml_outcome(xml_str@) matches SystemXmlRun::Broken(rid) ==> (r matches Some(Err(c))
            && c.record_id == rid && c.component@ == "quick-xml"@ && c.reason@
            == "XML parsing error"@),
{
    let ghost text = xml_str@;
    let mut cur = XmlCursor::new(xml_str);
    let mut state = SystemXmlState { event: Event::new(), in_system: false, current_tag: String::new() };
    let mut remaining: usize = xml_str.as_bytes().len();
    loop
        invariant
            text == xml_str@,
            cur.text() == text,
            cur.index() + remaining + 1 == token_budget(text),
            system_run(text, cur.index()) == SystemXmlRun::Reading(state@),
        decreases remaining,
    {
        let ghost k = cur.index();
        let tok = read_step(&mut cur);
        match tok {
            XmlStep::Eof => {
                assert(system_run(text, k + 1) == SystemXmlRun::Finished(state@.event));
                proof {
                    lemma_system_run_stays(text, k + 1, token_budget(text));
                }
                return Some(Ok(state.event));
            },
            XmlStep::Failed => {
                assert(system_run(text, k + 1) == SystemXmlRun::Broken(state@.event.record_id));
                proof {
                    lemma_system_run_stays(text, k + 1, token_budget(text));
                }
                let record_id = match state.event.record_id {
                    Some(rid) => Some(rid.as_u64()),
                    None => None,
                };
                return Some(
                    Err(
                        CorruptedEvent {
                            record_id,
                            component: str_to_string("quick-xml"),
                            reason: str_to_string("XML parsing error"),
                        },
                    ),
                );
            },
            _ => {
                let attrs = if token_uses_attributes(&state, &tok) {
                    match &tok {
                        XmlStep::Start { content, name_len } => attributes_of(content, *name_len),
                        XmlStep::Empty { content, name_len } => attributes_of(content, *name_len),
                        _ => Vec::new(),
                    }
                } else {
                    Vec::new()
                };
                assert(attrs_view(attrs@) == system_attrs(state@, tok@));
                if !apply_system_token(&mut state, &tok, &attrs) {
                    proof {
                        lemma_system_run_stays(text, k + 1, token_budget(text));
                    }
                    return None;
                }
            },
        }
        if remaining == 0 {
            return Some(Ok(state.event));
        }
        remaining = remaining - 1;
    }
}

// ---------------------------------------------------------------------------
// The EventData element
// ---------------------------------------------------------------------------

/// Where a reading of the EventData element stands: whether the reader is
/// inside `<EventData>`, the name of the `Data` field whose value comes next,
/// and the fields so far.
pub struct DataXmlState {
    pub in_event_data: bool,
    pub current_field_name: Option<String>,
    pub fields: Vec<(String, String)>,
}

/// The plain contents of a [`DataXmlState`].
pub struct DataXmlView {
    pub in_data: bool,
    pub field: Option<Seq<char>>,
    pub fields: Seq<(Seq<char>, Seq<char>)>,
}

impl View for DataXmlState {
    type V = DataXmlView;

    open spec fn view(&self) -> DataXmlView {
        DataXmlView {
            in_data: self.in_event_data,
            field: match self.current_field_name {
                Some(n) => Some(n@),
                None => None,
            },
            fields: pairs_view(self.fields@),
        }
    }
}

/// The value of the first well-formed `Name` attribute.
pub open spec fn first_name_value(attrs: Seq<AttrView>) -> Option<Seq<u8>>
    decreases attrs.len(),
{
    if attrs.len() == 0 {
        None
    } else {
        match attrs[0] {
            Some((k, v)) => if k == encode_utf8("Name"@) {
                Some(v)
            } else {
                first_name_value(attrs.drop_first())
            },
            None => first_name_value(attrs.drop_first()),
        }
    }
}

/// The field name a `Data` tag gives: its first `Name` attribute, where the
/// value is UTF-8.
pub open spec fn data_field_name(attrs: Seq<AttrView>) -> Option<Seq<char>> {
    match first_name_value(attrs) {
        Some(v) => if valid_utf8(v) {
            Some(decode_utf8(v))
        } else {
            None
        },
        None => None,
    }
}

/// The token is a `Data` tag opened inside EventData.
pub open spec fn data_uses_attributes(s: DataXmlView, t: XmlToken) -> bool {
    match t {
        XmlToken::Start(c, n) => {
            let nm = c.subrange(0, n as int);
            nm != encode_utf8("EventData"@) && s.in_data && nm == encode_utf8("Data"@)
        },
        _ => false,
    }
}

/// One token of the EventData reading.
pub open spec fn data_xml_step(s: DataXmlView, t: XmlToken, attrs: Seq<AttrView>) -> DataXmlView {
    match t {
        XmlToken::Start(c, n) => {
            let nm = c.subrange(0, n as int);
            if nm == encode_utf8("EventData"@) {
                DataXmlView { in_data: true, ..s }
            } else if s.in_data && nm == encode_utf8("Data"@) {
                DataXmlView { field: data_field_name(attrs), ..s }
            } else {
                s
            }
        },
        XmlToken::End(name) => if name == encode_utf8("EventData"@) {
            DataXmlView { in_data: false, ..s }
        } else {
            s
        },
        XmlToken::Text(raw) => if s.in_data && s.field is Some {
            DataXmlView {
                fields: pairs_insert(s.fields, s.field->0, utf8_lossy_text(raw)),
                field: None,
                ..s
            }
        } else {
            s
        },
        _ => s,
    }
}

/// The field name of a `Data` tag's attributes; see [`data_field_name`].
pub fn field_name_from(attrs: &Vec<Option<XmlAttr>>) -> (r: Option<String>)
    ensures
        match data_field_name(attrs_view(attrs@)) {
            Some(n) => r matches Some(s) && s@ == n,
            None => r is None,
        },
{
    let ghost a = attrs_view(attrs@);
    assert(a.subrange(0, a.len() as int) == a);
    let mut i: usize = 0;
    while i < attrs.len()
        invariant
            a == attrs_view(attrs@),
            i <= attrs@.len(),
            first_name_value(a) == first_name_value(a.subrange(i as int, a.len() as int)),
        decreases attrs.len() - i,
    {
        assert(a.subrange(i as int, a.len() as int).drop_first() == a.subrange(i + 1, a.len() as int));
        if let Some(at) = &attrs[i] {
            if bytes_eq(at.key.as_slice(), "Name".as_bytes()) {
                return string_from_utf8(at.value.clone());
            }
        }
        i = i + 1;
    }
    None
}

/// Takes one token of the EventData reading; see [`data_xml_step`].
pub fn apply_data_token(state: &mut DataXmlState, tok: &XmlStep, attrs: &Vec<Option<XmlAttr>>)
    requires
        token_well_formed(tok@),
    ensures
        final(state)@ == data_xml_step(old(state)@, tok@, attrs_view(attrs@)),
{
    match tok {
        XmlStep::Start { content, name_len } => {
            let nm = copy_range(content.as_slice(), 0, *name_len);
            if bytes_eq(nm.as_slice(), "EventData".as_bytes()) {
                state.in_event_data = true;
            } else if state.in_event_data && bytes_eq(nm.as_slice(), "Data".as_bytes()) {
                state.current_field_name = field_name_from(attrs);
            }
        },
        XmlStep::End { name } => {
            if bytes_eq(name.as_slice(), "EventData".as_bytes()) {
                state.in_event_data = false;
            }
        },
        XmlStep::Text { raw } => {
            if state.in_event_data && state.current_field_name.is_some() {
                let value = utf8_lossy(raw.as_slice());
                let field_name = state.current_field_name.take().unwrap();
                let key = crate::evt::types::intern_field_name(field_name.as_str()).into_string();
                insert_pair(&mut state.fields, key, value);
            }
        },
        _ => {},
    }
}

/// How a reading of the EventData element stands or ended.
pub enum DataXmlRun {
    Reading(DataXmlView),
    /// The text ended or turned out malformed; the fields read.
    Stopped(Seq<(Seq<char>, Seq<char>)>),
}

/// The attributes a token's EventData step reads.
pub open spec fn data_attrs(s: DataXmlView, t: XmlToken) -> Seq<AttrView> {
    if data_uses_attributes(s, t) {
        match t {
            XmlToken::Start(c, n) => tag_attrs_of(c, n),
            _ => Seq::empty(),
        }
    } else {
        Seq::empty()
    }
}

/// Where every EventData reading starts.
pub open spec fn initial_data_view() -> DataXmlView {
    DataXmlView { in_data: false, field: None, fields: Seq::empty() }
}

/// The EventData reading after the first `k` tokens of `text`.
pub open spec fn data_run(text: Seq<char>, k: nat) -> DataXmlRun
    decreases k,
{
    if k == 0 {
        DataXmlRun::Reading(initial_data_view())
    } else {
        match data_run(text, (k - 1) as nat) {
            DataXmlRun::Reading(s) => {
                let t = xml_token_at(text, (k - 1) as nat);
                match t {
                    XmlToken::Eof => DataXmlRun::Stopped(s.fields),
                    XmlToken::Failed => DataXmlRun::Stopped(s.fields),
                    _ => DataXmlRun::Reading(data_xml_step(s, t, data_attrs(s, t))),
                }
            },
            other => other,
        }
    }
}

/// The fields an EventData reading of the whole text ends with.
pub open spec fn event_data_fields(text: Seq<char>) -> Seq<(Seq<char>, Seq<char>)> {
    match data_run(text, token_budget(text)) {
        DataXmlRun::Reading(s) => s.fields,
        DataXmlRun::Stopped(f) => f,
    }
}

/// The EventData fields of an event's XML; `None` where there are none.
pub open spec fn event_data_outcome(text: Seq<char>) -> Option<Seq<(Seq<char>, Seq<char>)>> {
    let f = event_data_fields(text);
    if f.len() == 0 {
        None
    } else {
        Some(f)
    }
}

/// An EventData reading that has stopped stays stopped.
pub proof fn lemma_data_run_stays(text: Seq<char>, k: nat, j: nat)
    requires
        k <= j,
        data_run(text, k) is Stopped,
    ensures
        data_run(text, j) == data_run(text, k),
    decreases j - k,
{
    if k < j {
        lemma_data_run_stays(text, k, (j - 1) as nat);
    }
}

/// Reads the EventData fields out of an event's XML; see
/// [`event_data_outcome`]. Malformed XML ends the reading with the fields
/// read before it.
pub fn extract_event_data_from_xml(xml: &str) -> (r: Option<Vec<(String, String)>>)
    ensures
        match event_data_outcome(xml@) {
            Some(f) => r matches Some(v) && pairs_view(v@) == f,
            None => r is None,
        },
{
    let ghost text = xml@;
    let mut cur = XmlCursor::new(xml);
    let mut state = DataXmlState { in_event_data: false, current_field_name: None, fields: Vec::new() };
    assert(state@.fields =~= Seq::<(Seq<char>, Seq<char>)>::empty());
    let mut remaining: usize = xml.as_bytes().len();
    loop
        invariant_except_break
            cur.text() == text,
            cur.index() + remaining + 1 == token_budget(text),
            data_run(text, cur.index()) == DataXmlRun::Reading(state@),
        invariant
            text == xml@,
        ensures
            event_data_fields(text) == state@.fields,
        decreases remaining,
    {
        let ghost k = cur.index();
        let tok = read_step(&mut cur);
        match tok {
            XmlStep::Eof => {
                assert(data_run(text, k + 1) == DataXmlRun::Stopped(state@.fields));
                proof {
                    lemma_data_run_stays(text, k + 1, token_budget(text));
                }
                break;
            },
            XmlStep::Failed => {
                assert(data_run(text, k + 1) == DataXmlRun::Stopped(state@.fields));
                proof {
                    lemma_data_run_stays(text, k + 1, token_budget(text));
                }
                break;
            },
            _ => {
                let uses = match &tok {
                    XmlStep::Start { content, name_len } => {
                        let nm = copy_range(content.as_slice(), 0, *name_len);
                        !bytes_eq(nm.as_slice(), "EventData".as_bytes()) && state.in_event_data
                            && bytes_eq(nm.as_slice(), "Data".as_bytes())
                    },
                    _ => false,
                };
                let attrs = if uses {
                    match &tok {
                        XmlStep::Start { content, name_len } => attributes_of(content, *name_len),
                        _ => Vec::new(),
                    }
                } else {
                    Vec::new()
                };
                assert(attrs_view(attrs@) == data_attrs(state@, tok@));
                apply_data_token(&mut state, &tok, &attrs);
            },
        }
        if remaining == 0 {
            break;
        }
        remaining = remaining - 1;
    }
    if state.fields.len() == 0 {
        None
    } else {
        Some(state.fields)
    }
}

} // verus!
