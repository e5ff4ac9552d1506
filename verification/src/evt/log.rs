//! Event logs and event queries: which channels to list, how a query is
//! opened, and how each batch of fetched events is accounted for.

use vstd::prelude::*;

use crate::error::{Error, EventLogError, EventLogQueryError};
use crate::evt::types::{ChannelFilter, CorruptedEvent, Event, EventQueryResult, RenderFormat};
use crate::text::{chars_contain, chars_of, contains_seq, str_to_string};

verus! {

/// `EvtQueryChannelPath`.
pub const EVT_QUERY_CHANNEL_PATH: u32 = 0x1;
/// `EvtQueryFilePath`.
pub const EVT_QUERY_FILE_PATH: u32 = 0x2;
/// `ERROR_NO_MORE_ITEMS`: the end of a query's results.
pub const ERROR_NO_MORE_ITEMS: u32 = 259;

/// A channel passes the filter: every channel for `All` and
/// `IncludeAnalytic`; for the others, only channels whose name mentions
/// neither `Analytic` nor `Debug`.
pub open spec fn channel_included(name: Seq<char>, filter: ChannelFilter) -> bool {
    match filter {
        ChannelFilter::All => true,
        ChannelFilter::IncludeAnalytic => true,
        _ => !contains_seq(name, "Analytic"@) && !contains_seq(name, "Debug"@),
    }
}

/// Determine if a channel should be included based on filter.
pub fn should_include_channel(channel_name: &str, filter: ChannelFilter) -> (r: bool)
    ensures
        r == channel_included(channel_name@, filter),
{
    match filter {
        ChannelFilter::All => true,
        ChannelFilter::IncludeAnalytic => true,
        _ => {
            let cs = chars_of(channel_name);
            let analytic = chars_of("Analytic");
            let debug = chars_of("Debug");
            !chars_contain(cs.as_slice(), analytic.as_slice()) && !chars_contain(cs.as_slice(), debug.as_slice())
        },
    }
}

/// The error of a channel that could not be opened.
pub fn open_channel_error(channel_name: &str) -> (r: Error)
    ensures
        r matches Error::EventLog(EventLogError::QueryFailed(e)) && e.log_name@ == channel_name@
            && e.reason@ == "Channel not found or access denied"@ && e.error_code is None,
{
    Error::EventLog(EventLogError::QueryFailed(EventLogQueryError::new(channel_name, "Channel not found or access denied")))
}

/// The error of a log file that could not be opened.
pub fn open_file_error(path: &str) -> (r: Error)
    ensures
        r matches Error::EventLog(EventLogError::QueryFailed(e)) && e.log_name@ == path@
            && e.reason@ == "Log file not found or cannot be read"@ && e.error_code is None,
{
    Error::EventLog(EventLogError::QueryFailed(EventLogQueryError::new(path, "Log file not found or cannot be read")))
}

/// The error of a log file path that is not Unicode.
pub fn invalid_file_path_error() -> (r: Error)
    ensures
        r matches Error::EventLog(EventLogError::QueryFailed(e)) && e.log_name@ == "file_path"@
            && e.reason@ == "Invalid file path"@ && e.error_code is None,
{
    Error::EventLog(EventLogError::QueryFailed(EventLogQueryError::new("file_path", "Invalid file path")))
}

/// Handle to an opened event log or log file.
pub struct EventLog {
    handle: usize,
    channel_or_path: String,
    is_file: bool,
}

impl EventLog {
    /// The raw log handle.
    pub closed spec fn spec_handle(&self) -> usize {
        self.handle
    }

    /// The channel name or file path the log was opened with.
    pub closed spec fn spec_source(&self) -> Seq<char> {
        self.channel_or_path@
    }

    /// Whether the log is a file.
    pub closed spec fn spec_is_file(&self) -> bool {
        self.is_file
    }

    /// A log opened on a channel, from its raw handle.
    pub fn from_channel(handle: usize, channel_name: &str) -> (r: Self)
        ensures
            r.spec_handle() == handle,
            r.spec_source() == channel_name@,
            !r.spec_is_file(),
    {
        EventLog { handle, channel_or_path: str_to_string(channel_name), is_file: false }
    }

    /// A log opened on a file, from its raw handle.
    pub fn from_file(handle: usize, path: &str) -> (r: Self)
        ensures
            r.spec_handle() == handle,
            r.spec_source() == path@,
            r.spec_is_file(),
    {
        EventLog { handle, channel_or_path: str_to_string(path), is_file: true }
    }

    /// The raw log handle.
    pub fn handle(&self) -> (r: usize)
        ensures
            r == self.spec_handle(),
    {
        self.handle
    }

    /// The channel name or file path the log was opened with.
    pub fn source(&self) -> (r: &str)
        ensures
            r@ == self.spec_source(),
    {
        self.channel_or_path.as_str()
    }

    /// The `EvtQuery` flags for this log: a file path query for files, a
    /// channel path query for channels.
    pub fn query_flags(&self) -> (r: u32)
        ensures
            r == if self.spec_is_file() {
                EVT_QUERY_FILE_PATH
            } else {
                EVT_QUERY_CHANNEL_PATH
            },
    {
        if self.is_file {
            EVT_QUERY_FILE_PATH
        } else {
            EVT_QUERY_CHANNEL_PATH
        }
    }

    /// The error of a query that could not be created on this log.
    pub fn query_error(&self) -> (r: Error)
        ensures
            r matches Error::EventLog(EventLogError::QueryFailed(e)) && e.log_name@
                == self.spec_source() && e.reason@ == "Failed to create query handle"@
                && e.error_code is None,
    {
        Error::EventLog(
            EventLogError::QueryFailed(
                EventLogQueryError::new(self.channel_or_path.as_str(), "Failed to create query handle"),
            ),
        )
    }
}

/// Query result stream for batch iteration: the raw query handle, how
/// events are rendered, the corrupted events met so far and how many events
/// were processed.
pub struct EventQuery {
    handle: usize,
    render_format: RenderFormat,
    include_event_data: bool,
    parse_message: bool,
    corrupted: Vec<CorruptedEvent>,
    total_processed: usize,
}

/// How fetching a batch ended.
pub enum BatchFetch {
    /// Events were fetched.
    Fetched,
    /// The query has no more events.
    Done,
}

impl EventQuery {
    /// The raw query handle.
    pub closed spec fn spec_handle(&self) -> usize {
        self.handle
    }

    /// The rendering format.
    pub closed spec fn spec_render_format(&self) -> RenderFormat {
        self.render_format
    }

    /// Whether EventData is extracted.
    pub closed spec fn spec_include_event_data(&self) -> bool {
        self.include_event_data
    }

    /// Whether messages are formatted.
    pub closed spec fn spec_parse_message(&self) -> bool {
        self.parse_message
    }

    /// The corrupted events met so far.
    pub closed spec fn spec_corrupted(&self) -> Seq<CorruptedEvent> {
        self.corrupted@
    }

    /// How many events were processed so far, corrupted ones included.
    pub closed spec fn spec_total_processed(&self) -> usize {
        self.total_processed
    }

    /// A fresh query over a raw query handle: values rendering, no EventData,
    /// no messages, nothing processed.
    pub fn new(handle: usize) -> (r: Self)
        ensures
            r.spec_handle() == handle,
            r.spec_render_format() == RenderFormat::Values,
            !r.spec_include_event_data(),
            !r.spec_parse_message(),
            r.spec_corrupted().len() == 0,
            r.spec_total_processed() == 0,
    {
        EventQuery {
            handle,
            render_format: RenderFormat::Values,
            include_event_data: false,
            parse_message: false,
            corrupted: Vec::new(),
            total_processed: 0,
        }
    }

    /// The raw query handle.
    pub fn handle(&self) -> (r: usize)
        ensures
            r == self.spec_handle(),
    {
        self.handle
    }

    /// Enable EventData extraction (opt-in).
    pub fn with_event_data(self) -> (r: Self)
        ensures
            r.spec_include_event_data(),
            r.spec_handle() == self.spec_handle(),
            r.spec_render_format() == self.spec_render_format(),
            r.spec_parse_message() == self.spec_parse_message(),
            r.spec_corrupted() == self.spec_corrupted(),
            r.spec_total_processed() == self.spec_total_processed(),
    {
        EventQuery { include_event_data: true, ..self }
    }

    /// Enable message formatting via EvtFormatMessage (opt-in).
    pub fn with_message(self) -> (r: Self)
        ensures
            r.spec_parse_message(),
            r.spec_handle() == self.spec_handle(),
            r.spec_render_format() == self.spec_render_format(),
            r.spec_include_event_data() == self.spec_include_event_data(),
            r.spec_corrupted() == self.spec_corrupted(),
            r.spec_total_processed() == self.spec_total_processed(),
    {
        EventQuery { parse_message: true, ..self }
    }

    /// Set the rendering format for events (default: Values).
    pub fn set_render_format(&mut self, format: RenderFormat)
        ensures
            final(self).spec_render_format() == format,
            final(self).spec_handle() == old(self).spec_handle(),
            final(self).spec_include_event_data() == old(self).spec_include_event_data(),
            final(self).spec_parse_message() == old(self).spec_parse_message(),
            final(self).spec_corrupted() == old(self).spec_corrupted(),
            final(self).spec_total_processed() == old(self).spec_total_processed(),
    {
        self.render_format = format;
    }

    /// How rendering goes: the format, whether EventData is extracted (in
    /// either format, from a second XML rendering), and whether messages are
    /// formatted.
    pub fn render_options(&self) -> (r: (RenderFormat, bool, bool))
        ensures
            r == (self.spec_render_format(), self.spec_include_event_data(), self.spec_parse_message()),
    {
        (self.render_format, self.include_event_data, self.parse_message)
    }

    /// What an `EvtNext` call came to: events where it succeeded; the end of
    /// the query where it failed with `ERROR_NO_MORE_ITEMS`; an error with
    /// the last error code otherwise.
    pub fn fetch_outcome(succeeded: bool, last_error: u32) -> (r: Result<BatchFetch, Error>)
        ensures
            succeeded ==> r matches Ok(BatchFetch::Fetched),
            !succeeded && last_error == ERROR_NO_MORE_ITEMS ==> r matches Ok(BatchFetch::Done),
            !succeeded && last_error != ERROR_NO_MORE_ITEMS ==> (r matches Err(
                Error::EventLog(EventLogError::QueryFailed(e)),
            ) && e.log_name@ == ""@ && e.reason@ == "EvtNext failed"@ && e.error_code == Some(
                last_error as i32,
            )),
    {
        if succeeded {
            return Ok(BatchFetch::Fetched);
        }
        if last_error == ERROR_NO_MORE_ITEMS {
            return Ok(BatchFetch::Done);
        }
        Err(Error::EventLog(EventLogError::QueryFailed(EventLogQueryError::with_code("", "EvtNext failed", last_error as i32))))
    }

    /// Accounts for one rendered event: a rendered event that the filter
    /// kept (`keep`) joins the batch, a corrupted one joins the corrupted
    /// events; either way one more event was processed.
    pub fn record(&mut self, rendered: Result<Event, CorruptedEvent>, keep: bool, out_events: &mut Vec<Event>)
        requires
            old(self).spec_total_processed() < usize::MAX,
        ensures
            final(self).spec_total_processed() == old(self).spec_total_processed() + 1,
            final(self).spec_handle() == old(self).spec_handle(),
            final(self).spec_render_format() == old(self).spec_render_format(),
            final(self).spec_include_event_data() == old(self).spec_include_event_data(),
            final(self).spec_parse_message() == old(self).spec_parse_message(),
            match rendered {
                Ok(e) => final(self).spec_corrupted() == old(self).spec_corrupted() && final(out_events)@
                    == if keep {
                    old(out_events)@.push(e)
                } else {
                    old(out_events)@
                },
                Err(c) => final(self).spec_corrupted() == old(self).spec_corrupted().push(c)
                    && final(out_events)@ == old(out_events)@,
            },
    {
        match rendered {
            Ok(event) => {
                if keep {
                    out_events.push(event);
                }
            },
            Err(c) => {
                self.corrupted.push(c);
            },
        }
        self.total_processed = self.total_processed + 1;
    }

    /// The query's corrupted events so far.
    pub fn corrupted(&self) -> (r: &Vec<CorruptedEvent>)
        ensures
            r@ == self.spec_corrupted(),
    {
        &self.corrupted
    }

    /// How many events were processed so far, corrupted ones included.
    pub fn total_processed(&self) -> (r: usize)
        ensures
            r == self.spec_total_processed(),
    {
        self.total_processed
    }

    /// The whole result once the query is drained: the events gathered,
    /// the corrupted events and the count processed.
    pub fn into_result(self, events: Vec<Event>) -> (r: EventQueryResult)
        ensures
            r.events@ == events@,
            r.corrupted@ == self.spec_corrupted(),
            r.total_processed == self.spec_total_processed(),
    {
        EventQueryResult { events, corrupted: self.corrupted, total_processed: self.total_processed }
    }
}

} // verus!
