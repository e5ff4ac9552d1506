//! Building an event out of the values `EvtRender` gives for its System
//! properties, each value held as its variant type and contents.

use vstd::prelude::*;

use crate::evt::render::{
    SystemXmlRun, event_data_outcome, extract_event_data_from_xml, parse_event_xml_with_quick_xml, system_xml_outcome,
};
use crate::evt::timestamp::FILETIME_UNIX_EPOCH;
use crate::evt::types::{
    CorruptedEvent, Event, EventId, EventLevel, EventView, RecordId, RenderFormat, empty_event_view, intern_channel,
    intern_provider,
};
use crate::pairs::pairs_view;
use crate::process::peb::{before_nul, lemma_before_nul};
use crate::text::{decode_utf16, str_to_string, utf16_decode};
use crate::types::{ProcessId, ThreadId};

verus! {

/// `EvtVarTypeByte`.
pub const EVT_VAR_TYPE_BYTE: u32 = 2;
/// `EvtVarTypeUInt16`.
pub const EVT_VAR_TYPE_UINT16: u32 = 6;
/// `EvtVarTypeUInt32`.
pub const EVT_VAR_TYPE_UINT32: u32 = 8;
/// `EvtVarTypeUInt64`.
pub const EVT_VAR_TYPE_UINT64: u32 = 10;
/// `EvtVarTypeString`.
pub const EVT_VAR_TYPE_STRING: u32 = 21;
/// `EvtVarTypeFileTime`.
pub const EVT_VAR_TYPE_FILETIME: u32 = 29;

/// One rendered property: an `EVT_VARIANT`'s type and the value its type
/// selects. A string is the UTF-16 units its pointer leads to (read up to a
/// NUL), or `None` for a null pointer.
#[derive(Debug, Clone, PartialEq, Eq)]
pub enum EvtValue {
    Byte(u8),
    UInt16(u16),
    UInt32(u32),
    UInt64(u64),
    String(Option<Vec<u16>>),
    FileTime(u64),
    /// A variant of any other type, by its type code.
    Other(u32),
}

/// The plain contents of an [`EvtValue`].
pub enum EvtValueView {
    Byte(u8),
    UInt16(u16),
    UInt32(u32),
    UInt64(u64),
    String(Option<Seq<u16>>),
    FileTime(u64),
    Other(u32),
}

impl View for EvtValue {
    type V = EvtValueView;

    open spec fn view(&self) -> EvtValueView {
        match self {
            EvtValue::Byte(b) => EvtValueView::Byte(*b),
            EvtValue::UInt16(v) => EvtValueView::UInt16(*v),
            EvtValue::UInt32(v) => EvtValueView::UInt32(*v),
            EvtValue::UInt64(v) => EvtValueView::UInt64(*v),
            EvtValue::String(s) => EvtValueView::String(
                match s {
                    Some(u) => Some(u@),
                    None => None,
                },
            ),
            EvtValue::FileTime(t) => EvtValueView::FileTime(*t),
            EvtValue::Other(t) => EvtValueView::Other(*t),
        }
    }
}

/// The values as plain contents.
pub open spec fn values_view(v: Seq<EvtValue>) -> Seq<EvtValueView> {
    v.map_values(|x: EvtValue| x@)
}

/// The byte of a `Byte` value.
pub open spec fn byte_of(v: EvtValueView) -> Option<u8> {
    match v {
        EvtValueView::Byte(b) => Some(b),
        _ => None,
    }
}

/// The number of a `UInt32` value.
pub open spec fn u32_of(v: EvtValueView) -> Option<u32> {
    match v {
        EvtValueView::UInt32(x) => Some(x),
        _ => None,
    }
}

/// The number of a `UInt64` value.
pub open spec fn u64_of(v: EvtValueView) -> Option<u64> {
    match v {
        EvtValueView::UInt64(x) => Some(x),
        _ => None,
    }
}

/// The text of a non-null `String` value: its units up to the first NUL,
/// unpaired surrogates as U+FFFD.
pub open spec fn text_of(v: EvtValueView) -> Option<Seq<char>> {
    match v {
        EvtValueView::String(Some(u)) => Some(utf16_decode(before_nul(u), true)),
        _ => None,
    }
}

/// The time of a `FileTime` value after the Unix epoch, in 100-nanosecond
/// intervals since 1601-01-01; none at or before the epoch.
pub open spec fn time_of(v: EvtValueView) -> Option<u64> {
    match v {
        EvtValueView::FileTime(t) => if t > FILETIME_UNIX_EPOCH {
            Some(t)
        } else {
            None
        },
        _ => None,
    }
}

/// The byte of a `Byte` value; see [`byte_of`].
pub fn extract_u8_from_variant(v: &EvtValue) -> (r: Option<u8>)
    ensures
        r == byte_of(v@),
{
    match v {
        EvtValue::Byte(b) => Some(*b),
        _ => None,
    }
}

/// The number of a `UInt16` value.
pub fn extract_u16_from_variant(v: &EvtValue) -> (r: Option<u16>)
    ensures
        r == match v@ {
            EvtValueView::UInt16(x) => Some(x),
            _ => None::<u16>,
        },
{
    match v {
        EvtValue::UInt16(x) => Some(*x),
        _ => None,
    }
}

/// The number of a `UInt32` value; see [`u32_of`].
pub fn extract_u32_from_variant(v: &EvtValue) -> (r: Option<u32>)
    ensures
        r == u32_of(v@),
{
    match v {
        EvtValue::UInt32(x) => Some(*x),
        _ => None,
    }
}

/// The number of a `UInt64` value; see [`u64_of`].
pub fn extract_u64_from_variant(v: &EvtValue) -> (r: Option<u64>)
    ensures
        r == u64_of(v@),
{
    match v {
        EvtValue::UInt64(x) => Some(*x),
        _ => None,
    }
}

/// The text of a `String` value; see [`text_of`].
pub fn extract_string_from_variant(v: &EvtValue) -> (r: Option<String>)
    ensures
        match text_of(v@) {
            Some(t) => r matches Some(s) && s@ == t,
            None => r is None,
        },
{
    match v {
        EvtValue::String(Some(u)) => {
            let mut end: usize = 0;
            while end < u.len() && u[end] != 0
                invariant
                    end <= u@.len(),
                    forall|k: int| 0 <= k < end ==> u@[k] != 0,
                decreases u.len() - end,
            {
                end = end + 1;
            }
            proof {
                lemma_before_nul(u@, end as int);
            }
            let mut head: Vec<u16> = Vec::new();
            let mut i: usize = 0;
            while i < end
                invariant
                    i <= end <= u@.len(),
                    head@ == u@.subrange(0, i as int),
                decreases end - i,
            {
                head.push(u[i]);
                i = i + 1;
            }
            Some(decode_utf16(head.as_slice(), true))
        },
        _ => None,
    }
}

/// The time of a `FileTime` value; see [`time_of`].
pub fn extract_systemtime_from_variant(v: &EvtValue) -> (r: Option<u64>)
    ensures
        r == time_of(v@),
{
    match v {
        EvtValue::FileTime(t) => if *t > FILETIME_UNIX_EPOCH {
            Some(*t)
        } else {
            None
        },
        _ => None,
    }
}

/// The value at `i`, when there is one.
pub open spec fn value_at(vals: Seq<EvtValueView>, i: int) -> Option<EvtValueView> {
    if 0 <= i < vals.len() {
        Some(vals[i])
    } else {
        None
    }
}

/// A setting read from the value at `i` with `f`, when both are there.
pub open spec fn read_at<T>(vals: Seq<EvtValueView>, i: int, f: spec_fn(EvtValueView) -> Option<T>) -> Option<T> {
    match value_at(vals, i) {
        Some(v) => f(v),
        None => None,
    }
}

/// The event the System property values give, in their fixed order: event
/// ID (0 unless a `UInt32`), level (a `Byte` code, 4 where it is not one,
/// verbose where the code is unknown), provider, channel, computer (each
/// kept as it was unless a string), time, record ID, process ID, thread ID;
/// and empty event data where more values follow.
pub open spec fn values_event(vals: Seq<EvtValueView>) -> EventView {
    let e = empty_event_view();
    if vals.len() == 0 {
        e
    } else {
        let level_code: u8 = match read_at(vals, 1, |v: EvtValueView| byte_of(v)) {
            Some(c) => c,
            None => 4,
        };
        EventView {
            id: match u32_of(vals[0]) {
                Some(x) => x,
                None => 0,
            },
            level: if vals.len() > 1 {
                match EventLevel::spec_from_code(level_code) {
                    Some(l) => l,
                    None => EventLevel::Verbose,
                }
            } else {
                e.level
            },
            provider: match read_at(vals, 2, |v: EvtValueView| text_of(v)) {
                Some(t) => t,
                None => e.provider,
            },
            channel: match read_at(vals, 3, |v: EvtValueView| text_of(v)) {
                Some(t) => t,
                None => e.channel,
            },
            computer: match read_at(vals, 4, |v: EvtValueView| text_of(v)) {
                Some(t) => t,
                None => e.computer,
            },
            timestamp: read_at(vals, 5, |v: EvtValueView| time_of(v)),
            record_id: read_at(vals, 6, |v: EvtValueView| u64_of(v)),
            process_id: read_at(vals, 7, |v: EvtValueView| u32_of(v)),
            thread_id: read_at(vals, 8, |v: EvtValueView| u32_of(v)),
            data: if vals.len() > 9 {
                Some(Seq::empty())
            } else {
                None
            },
            formatted_message: None,
        }
    }
}

/// Builds an event from its rendered System property values; see
/// [`values_event`]. `None` stands for a rendering that failed.
pub fn render_event_values(rendered: Option<Vec<EvtValue>>) -> (r: Result<Event, CorruptedEvent>)
    ensures
        rendered is None ==> (r matches Err(c) && c.record_id is None && c.component@ == "EvtRender_Values"@
            && c.reason@ == "Failed to render event values"@),
        rendered matches Some(v) ==> (r matches Ok(e) && e@ == values_event(values_view(v@))),
{
    let vals = match rendered {
        Some(v) => v,
        None => {
            return Err(
                CorruptedEvent {
                    record_id: None,
                    component: str_to_string("EvtRender_Values"),
                    reason: str_to_string("Failed to render event values"),
                },
            );
        },
    };
    let ghost vv = values_view(vals@);
    let mut event = Event::new();
    let n = vals.len();
    if n == 0 {
        return Ok(event);
    }
    event.id = EventId::new(
        match extract_u32_from_variant(&vals[0]) {
            Some(x) => x,
            None => 0,
        },
    );
    if n > 1 {
        let code: u8 = match extract_u8_from_variant(&vals[1]) {
            Some(c) => c,
            None => 4,
        };
        event.level = match EventLevel::from_code(code) {
            Some(l) => l,
            None => EventLevel::Verbose,
        };
    }
    if n > 2 {
        if let Some(p) = extract_string_from_variant(&vals[2]) {
            event.provider = intern_provider(p.as_str());
        }
    }
    if n > 3 {
        if let Some(c) = extract_string_from_variant(&vals[3]) {
            event.channel = intern_channel(c.as_str());
        }
    }
    if n > 4 {
        if let Some(c) = extract_string_from_variant(&vals[4]) {
            event.computer = c;
        }
    }
    if n > 5 {
        event.timestamp = extract_systemtime_from_variant(&vals[5]);
    }
    if n > 6 {
        event.record_id = match extract_u64_from_variant(&vals[6]) {
            Some(x) => Some(RecordId::new(x)),
            None => None,
        };
    }
    if n > 7 {
        event.process_id = match extract_u32_from_variant(&vals[7]) {
            Some(x) => Some(ProcessId::new(x)),
            None => None,
        };
    }
    if n > 8 {
        event.thread_id = match extract_u32_from_variant(&vals[8]) {
            Some(x) => Some(ThreadId::new(x)),
            None => None,
        };
    }
    if n > 9 {
        event.data = Some(Vec::new());
    }
    assert(event@.data == values_event(vv).data) by {
        if n > 9 {
            assert(pairs_view(Seq::<(String, String)>::empty()) =~= Seq::<(Seq<char>, Seq<char>)>::empty());
        }
    }
    Ok(event)
}

/// Reads an event from its XML rendering; `None` stands for a rendering
/// that failed. The outer `None` is a `TimeCreated` stamp out of range, as
/// for [`parse_event_xml_with_quick_xml`].
pub fn render_event_xml(rendered: Option<&str>) -> (r: Option<Result<Event, CorruptedEvent>>)
    ensures
        rendered is None ==> (r matches Some(Err(c)) && c.record_id is None && c.component@ == "EvtRender_Xml"@
            && c.reason@ == "Failed to render event as XML"@),
        rendered matches Some(x) ==> xml_render_result(x@, r),
{
    match rendered {
        Some(x) => parse_event_xml_with_quick_xml(x),
        None => Some(
            Err(
                CorruptedEvent {
                    record_id: None,
                    component: str_to_string("EvtRender_Xml"),
                    reason: str_to_string("Failed to render event as XML"),
                },
            ),
        ),
    }
}

/// What reading an event's XML `text` gives, as
/// [`parse_event_xml_with_quick_xml`] states it.
pub open spec fn xml_render_result(text: Seq<char>, r: Option<Result<Event, CorruptedEvent>>) -> bool {
    match system_xml_outcome(text) {
        SystemXmlRun::StampOutOfRange => r is None,
        SystemXmlRun::Finished(e) => r matches Some(Ok(ev)) && ev@ == e,
        SystemXmlRun::Broken(rid) => r matches Some(Err(c)) && c.record_id == rid && c.component@ == "quick-xml"@
            && c.reason@ == "XML parsing error"@,
        SystemXmlRun::Reading(_) => false,
    }
}

/// The event after the optional steps of rendering: with event data asked
/// for, in either format, the data of a second XML rendering (when that
/// rendering succeeded); with a message asked for, the formatted message.
pub open spec fn finish_event(
    e: EventView,
    format: RenderFormat,
    include_event_data: bool,
    data_xml: Option<Seq<char>>,
    parse_message: bool,
    message: Option<Seq<char>>,
) -> EventView {
    let with_data = if include_event_data {
        match data_xml {
            Some(x) => EventView { data: event_data_outcome(x), ..e },
            None => e,
        }
    } else {
        e
    };
    if parse_message {
        EventView { formatted_message: message, ..with_data }
    } else {
        with_data
    }
}

/// The text of an optional string.
pub open spec fn opt_text(s: Option<&str>) -> Option<Seq<char>> {
    match s {
        Some(t) => Some(t@),
        None => None,
    }
}

/// Renders an event in the given format from what the event log gave:
/// the property values or the XML (each `None` where rendering failed);
/// then, as asked, the EventData of a second XML rendering and the
/// formatted message (`None` where there is none). The outer `None` is an
/// XML `TimeCreated` stamp out of range.
pub fn render_event(
    format: RenderFormat,
    values: Option<Vec<EvtValue>>,
    xml: Option<&str>,
    include_event_data: bool,
    data_xml: Option<&str>,
    parse_message: bool,
    message: Option<String>,
) -> (r: Option<Result<Event, CorruptedEvent>>)
    ensures
        ({
            let msg = match message {
                Some(m) => Some(m@),
                None => None,
            };
            let finish = |e: EventView|
                finish_event(e, format, include_event_data, opt_text(data_xml), parse_message, msg);
            &&& (format == RenderFormat::Values && values is None) ==> (r matches Some(Err(c))
                && c.record_id is None && c.component@ == "EvtRender_Values"@ && c.reason@
                == "Failed to render event values"@)
            &&& (format == RenderFormat::Values && values is Some) ==> (r matches Some(Ok(e)) && e@ == finish(
                values_event(values_view(values->0@)),
            ))
            &&& (format == RenderFormat::Xml && xml is None) ==> (r matches Some(Err(c)) && c.record_id is None
                && c.component@ == "EvtRender_Xml"@ && c.reason@ == "Failed to render event as XML"@)
            &&& (format == RenderFormat::Xml && xml is Some) ==> match system_xml_outcome(xml->0@) {
                SystemXmlRun::StampOutOfRange => r is None,
                SystemXmlRun::Finished(e) => r matches Some(Ok(ev)) && ev@ == finish(e),
                SystemXmlRun::Broken(rid) => r matches Some(Err(c)) && c.record_id == rid && c.component@
                    == "quick-xml"@ && c.reason@ == "XML parsing error"@,
                SystemXmlRun::Reading(_) => false,
            }
        }),
{
    let base = match format {
        RenderFormat::Values => render_event_values(values),
        RenderFormat::Xml => match render_event_xml(xml) {
            Some(b) => b,
            None => return None,
        },
    };
    let mut event = match base {
        Ok(e) => e,
        Err(c) => return Some(Err(c)),
    };
    if include_event_data {
        if let Some(x) = data_xml {
            event.data = extract_event_data_from_xml(x);
        }
    }
    if parse_message {
        event.formatted_message = message;
    }
    Some(Ok(event))
}

} // verus!
