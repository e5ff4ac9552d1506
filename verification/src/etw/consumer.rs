//! The consumer side of a started trace session: which streams it hands
//! out, the batches it fills from the events a stream delivered, and how
//! many events it has handed out.

use vstd::prelude::*;

use super::event::DecodedEvent;
use super::session::SessionPlan;
use super::trace::TraceEvent;
use crate::batch::{fill_batch, kept_by, lemma_select_all, selected};
use crate::error::{Error, EtwConsumeError, EtwError};

verus! {

/// Where consuming a started session stands.
#[derive(Debug)]
pub struct TraceConsumer {
    raw_stream: bool,
    decoded_stream: bool,
    events_processed: usize,
}

/// `r` fails with a consume error of `reason` and no code.
pub open spec fn consume_failure(r: Result<usize, Error>, reason: Seq<char>) -> bool {
    r matches Err(Error::Etw(EtwError::ConsumeFailed(e))) && e.reason@ == reason && e.error_code is None
}

impl TraceConsumer {
    /// Whether raw events are handed out.
    pub closed spec fn spec_raw_stream(&self) -> bool {
        self.raw_stream
    }

    /// Whether decoded events are handed out.
    pub closed spec fn spec_decoded_stream(&self) -> bool {
        self.decoded_stream
    }

    /// Events handed out so far.
    pub closed spec fn spec_events_processed(&self) -> usize {
        self.events_processed
    }

    /// A consumer of the given streams, with nothing handed out yet.
    pub fn new(raw_stream: bool, decoded_stream: bool) -> (r: Self)
        ensures
            r.spec_raw_stream() == raw_stream,
            r.spec_decoded_stream() == decoded_stream,
            r.spec_events_processed() == 0,
    {
        TraceConsumer { raw_stream, decoded_stream, events_processed: 0 }
    }

    /// A consumer of the streams a session plan asks for, with nothing handed
    /// out yet.
    pub fn from_plan(plan: &SessionPlan) -> (r: Self)
        ensures
            r.spec_raw_stream() == plan.raw_stream,
            r.spec_decoded_stream() == plan.decoded_stream,
            r.spec_events_processed() == 0,
    {
        TraceConsumer { raw_stream: plan.raw_stream, decoded_stream: plan.decoded_stream, events_processed: 0 }
    }

    /// Total events handed out so far across all batches.
    pub fn events_processed(&self) -> (r: usize)
        ensures
            r == self.spec_events_processed(),
    {
        self.events_processed
    }

    /// Fills `out` with the raw events of `received` that `filter` keeps,
    /// in order, and counts them as handed out; returns how many. Without a
    /// raw stream it fails and leaves `out` and the count as they were.
    pub fn next_batch_with_filter<F: Fn(&TraceEvent) -> bool>(
        &mut self,
        out: &mut Vec<TraceEvent>,
        received: Vec<TraceEvent>,
        filter: &F,
    ) -> (r: Result<usize, Error>)
        requires
            forall|x: &TraceEvent| filter.requires((x,)),
            old(self).spec_events_processed() + received@.len() <= usize::MAX,
        ensures
            final(self).spec_raw_stream() == old(self).spec_raw_stream(),
            final(self).spec_decoded_stream() == old(self).spec_decoded_stream(),
            !old(self).spec_raw_stream() ==> consume_failure(r, "Raw event stream is disabled for this session"@)
                && final(out)@ == old(out)@ && final(self).spec_events_processed()
                == old(self).spec_events_processed(),
            old(self).spec_raw_stream() ==> (r matches Ok(n) && n == final(out)@.len() && kept_by(
                *filter,
                received@,
                final(out)@,
            ) && final(self).spec_events_processed() == old(self).spec_events_processed() + n),
    {
        if !self.raw_stream {
            return Err(
                Error::Etw(EtwError::ConsumeFailed(EtwConsumeError::new("Raw event stream is disabled for this session"))),
            );
        }
        let ghost items = received@;
        let n = fill_batch(out, received, filter);
        proof {
            let keep = choose|keep: Seq<bool>|
                {
                    &&& keep.len() == items.len()
                    &&& forall|i: int| 0 <= i < items.len() ==> filter.ensures((&items[i],), #[trigger] keep[i])
                    &&& out@ == selected(items, keep)
                };
            lemma_selected_len(items, keep);
        }
        self.events_processed = self.events_processed + n;
        Ok(n)
    }

    /// Fills `out` with all raw events of `received`, in order, and counts
    /// them as handed out; see [`TraceConsumer::next_batch_with_filter`].
    pub fn next_batch(&mut self, out: &mut Vec<TraceEvent>, received: Vec<TraceEvent>) -> (r: Result<usize, Error>)
        requires
            old(self).spec_events_processed() + received@.len() <= usize::MAX,
        ensures
            final(self).spec_raw_stream() == old(self).spec_raw_stream(),
            !old(self).spec_raw_stream() ==> consume_failure(r, "Raw event stream is disabled for this session"@)
                && final(out)@ == old(out)@ && final(self).spec_events_processed()
                == old(self).spec_events_processed(),
            old(self).spec_raw_stream() ==> (r matches Ok(n) && n == received@.len() && final(out)@ == received@
                && final(self).spec_events_processed() == old(self).spec_events_processed() + n),
    {
        let all = |e: &TraceEvent| -> (b: bool)
            ensures
                b,
            { true };
        let ghost items = received@;
        let r = self.next_batch_with_filter(out, received, &all);
        proof {
            if old(self).spec_raw_stream() {
                let keep = choose|keep: Seq<bool>|
                    {
                        &&& keep.len() == items.len()
                        &&& forall|i: int| 0 <= i < items.len() ==> all.ensures((&items[i],), #[trigger] keep[i])
                        &&& out@ == selected(items, keep)
                    };
                lemma_select_all(items, keep);
            }
        }
        r
    }

    /// Fills `out` with the decoded events of `received` that `filter`
    /// keeps, in order, and counts them as handed out; returns how many.
    /// Without a decoded stream it fails and leaves `out` and the count as
    /// they were.
    pub fn next_batch_decoded_with_filter<F: Fn(&DecodedEvent) -> bool>(
        &mut self,
        out: &mut Vec<DecodedEvent>,
        received: Vec<DecodedEvent>,
        filter: &F,
    ) -> (r: Result<usize, Error>)
        requires
            forall|x: &DecodedEvent| filter.requires((x,)),
            old(self).spec_events_processed() + received@.len() <= usize::MAX,
        ensures
            final(self).spec_raw_stream() == old(self).spec_raw_stream(),
            final(self).spec_decoded_stream() == old(self).spec_decoded_stream(),
            !old(self).spec_decoded_stream() ==> consume_failure(
                r,
                "Decoded event stream is disabled for this session"@,
            ) && final(out)@ == old(out)@ && final(self).spec_events_processed()
                == old(self).spec_events_processed(),
            old(self).spec_decoded_stream() ==> (r matches Ok(n) && n == final(out)@.len() && kept_by(
                *filter,
                received@,
                final(out)@,
            ) && final(self).spec_events_processed() == old(self).spec_events_processed() + n),
    {
        if !self.decoded_stream {
            return Err(
                Error::Etw(
                    EtwError::ConsumeFailed(EtwConsumeError::new("Decoded event stream is disabled for this session")),
                ),
            );
        }
        let ghost items = received@;
        let n = fill_batch(out, received, filter);
        proof {
            let keep = choose|keep: Seq<bool>|
                {
                    &&& keep.len() == items.len()
                    &&& forall|i: int| 0 <= i < items.len() ==> filter.ensures((&items[i],), #[trigger] keep[i])
                    &&& out@ == selected(items, keep)
                };
            lemma_selected_len(items, keep);
        }
        self.events_processed = self.events_processed + n;
        Ok(n)
    }

    /// Fills `out` with all decoded events of `received`, in order, and
    /// counts them as handed out; see
    /// [`TraceConsumer::next_batch_decoded_with_filter`].
    pub fn next_batch_decoded(&mut self, out: &mut Vec<DecodedEvent>, received: Vec<DecodedEvent>) -> (r: Result<
        usize,
        Error,
    >)
        requires
            old(self).spec_events_processed() + received@.len() <= usize::MAX,
        ensures
            final(self).spec_decoded_stream() == old(self).spec_decoded_stream(),
            !old(self).spec_decoded_stream() ==> consume_failure(
                r,
                "Decoded event stream is disabled for this session"@,
            ) && final(out)@ == old(out)@ && final(self).spec_events_processed()
                == old(self).spec_events_processed(),
            old(self).spec_decoded_stream() ==> (r matches Ok(n) && n == received@.len() && final(out)@
                == received@ && final(self).spec_events_processed() == old(self).spec_events_processed() + n),
    {
        let all = |e: &DecodedEvent| -> (b: bool)
            ensures
                b,
            { true };
        let ghost items = received@;
        let r = self.next_batch_decoded_with_filter(out, received, &all);
        proof {
            if old(self).spec_decoded_stream() {
                let keep = choose|keep: Seq<bool>|
                    {
                        &&& keep.len() == items.len()
                        &&& forall|i: int| 0 <= i < items.len() ==> all.ensures((&items[i],), #[trigger] keep[i])
                        &&& out@ == selected(items, keep)
                    };
                lemma_select_all(items, keep);
            }
        }
        r
    }
}

/// No more items are selected than there are.
proof fn lemma_selected_len<T>(items: Seq<T>, keep: Seq<bool>)
    ensures
        selected(items, keep).len() <= items.len(),
    decreases items.len(),
{
    if items.len() > 0 && keep.len() > 0 {
        lemma_selected_len(items.drop_last(), keep.drop_last());
    }
}

} // verus!
