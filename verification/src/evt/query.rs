//! Event query building and XPath query construction.

use vstd::prelude::*;

use super::types::EventLevel;
use crate::text::{chars_have, chars_of, dec, has_char, join_with, push_char, push_chars, push_dec, str_to_string};

verus! {

/// Query builder for constructing event queries.
///
/// A raw XPath expression, when set, takes precedence over the other filters.
#[derive(Debug, Clone)]
pub struct QueryBuilder {
    /// Raw XPath expression.
    pub xpath: Option<String>,
    /// Highest level to include.
    pub level: Option<EventLevel>,
    /// Provider name to match.
    pub provider: Option<String>,
    /// Event ID to match.
    pub event_id: Option<u32>,
    /// Newest events first.
    pub reverse: bool,
    /// Result limit.
    pub max_results: Option<usize>,
    /// Parse EventData fields.
    pub include_event_data: bool,
    /// Format event messages.
    pub parse_message: bool,
}

/// A provider name written as one XPath string literal whose value is the
/// name: in single quotes when it holds no `'`; in double quotes when it holds
/// `'` but no `"`; otherwise a `concat(..)` of its `'`-free pieces, each in
/// single quotes, with `"'"` between each two.
pub open spec fn escape_xpath_spec(s: Seq<char>) -> Seq<char> {
    if !has_char(s, '\'') {
        "'"@ + s + "'"@
    } else if !has_char(s, '"') {
        "\""@ + s + "\""@
    } else {
        "concat('"@ + replace_single_quotes(s) + "')"@
    }
}

/// Every `'` replaced by `', "'", '`, which closes a single-quoted piece,
/// adds a quote as a piece of its own and opens the next piece.
pub open spec fn replace_single_quotes(s: Seq<char>) -> Seq<char>
    decreases s.len(),
{
    if s.len() == 0 {
        Seq::empty()
    } else {
        replace_single_quotes(s.drop_last()) + if s.last() == '\'' {
            "', \"'\", '"@
        } else {
            seq![s.last()]
        }
    }
}

/// The conditions of a query, in order: level, provider, event ID.
pub open spec fn conditions(b: QueryBuilder) -> Seq<Seq<char>> {
    let l = match b.level {
        Some(level) => seq!["Level <= "@ + dec(level.spec_code() as nat)],
        None => Seq::empty(),
    };
    let p = match b.provider {
        Some(name) => seq!["System/Provider/@Name="@ + escape_xpath_spec(name@)],
        None => Seq::empty(),
    };
    let e = match b.event_id {
        Some(id) => seq!["EventID="@ + dec(id as nat)],
        None => Seq::empty(),
    };
    l + p + e
}

/// The XPath expression of a query.
pub open spec fn xpath_spec(b: QueryBuilder) -> Seq<char> {
    match b.xpath {
        Some(x) => x@,
        None => {
            let c = conditions(b);
            if c.len() == 0 {
                "Event"@
            } else {
                "Event/System["@ + join_with(c, " and "@) + "]"@
            }
        },
    }
}

/// Writes a provider name as an XPath string literal; see [`escape_xpath_spec`].
pub fn escape_xpath_string(s: &str) -> (r: String)
    ensures
        r@ == escape_xpath_spec(s@),
{
    let cs = chars_of(s);
    if !chars_have(cs.as_slice(), '\'') {
        let mut out = str_to_string("'");
        out.append(s);
        out.append("'");
        out
    } else if !chars_have(cs.as_slice(), '"') {
        let mut out = str_to_string("\"");
        out.append(s);
        out.append("\"");
        out
    } else {
        let mut out = str_to_string("concat('");
        let mut i: usize = 0;
        while i < cs.len()
            invariant
                i <= cs@.len(),
                out@ == "concat('"@ + replace_single_quotes(cs@.subrange(0, i as int)),
            decreases cs@.len() - i,
        {
            let ghost before = out@;
            assert(cs@.subrange(0, i + 1).drop_last() == cs@.subrange(0, i as int));
            if cs[i] == '\'' {
                out.append("', \"'\", '");
            } else {
                push_char(&mut out, cs[i]);
                assert(before.push(cs@[i as int]) == before + seq![cs@[i as int]]);
            }
            i = i + 1;
        }
        assert(cs@.subrange(0, cs@.len() as int) == cs@);
        out.append("')");
        out
    }
}

impl QueryBuilder {
    /// Create a new query builder with no filters.
    pub fn new() -> (r: Self)
        ensures
            r.xpath is None,
            r.level is None,
            r.provider is None,
            r.event_id is None,
            !r.reverse,
            r.max_results is None,
            !r.include_event_data,
            !r.parse_message,
    {
        QueryBuilder {
            xpath: None,
            level: None,
            provider: None,
            event_id: None,
            reverse: false,
            max_results: None,
            include_event_data: false,
            parse_message: false,
        }
    }

    /// Set a raw XPath query expression; it takes precedence over other fields.
    pub fn xpath(self, xpath: &str) -> (r: Self)
        ensures
            r == (QueryBuilder { xpath: r.xpath, ..self }),
            r.xpath matches Some(x) && x@ == xpath@,
    {
        QueryBuilder { xpath: Some(str_to_string(xpath)), ..self }
    }

    /// Filter by event level.
    pub fn level(self, level: EventLevel) -> (r: Self)
        ensures
            r == (QueryBuilder { level: Some(level), ..self }),
    {
        QueryBuilder { level: Some(level), ..self }
    }

    /// Filter by provider/source name.
    pub fn provider(self, name: &str) -> (r: Self)
        ensures
            r == (QueryBuilder { provider: r.provider, ..self }),
            r.provider matches Some(p) && p@ == name@,
    {
        QueryBuilder { provider: Some(str_to_string(name)), ..self }
    }

    /// Filter by specific event ID.
    pub fn event_id(self, id: u32) -> (r: Self)
        ensures
            r == (QueryBuilder { event_id: Some(id), ..self }),
    {
        QueryBuilder { event_id: Some(id), ..self }
    }

    /// Query in reverse order (newest to oldest).
    pub fn reverse(self) -> (r: Self)
        ensures
            r == (QueryBuilder { reverse: true, ..self }),
    {
        QueryBuilder { reverse: true, ..self }
    }

    /// Limit the maximum number of results returned.
    pub fn max_results(self, count: usize) -> (r: Self)
        ensures
            r == (QueryBuilder { max_results: Some(count), ..self }),
    {
        QueryBuilder { max_results: Some(count), ..self }
    }

    /// Parse EventData fields.
    pub fn with_event_data(self) -> (r: Self)
        ensures
            r == (QueryBuilder { include_event_data: true, ..self }),
    {
        QueryBuilder { include_event_data: true, ..self }
    }

    /// Format event messages using publisher metadata.
    pub fn with_message(self) -> (r: Self)
        ensures
            r == (QueryBuilder { parse_message: true, ..self }),
    {
        QueryBuilder { parse_message: true, ..self }
    }

    /// Check if EventData parsing is enabled.
    pub fn should_parse_event_data(&self) -> (r: bool)
        ensures
            r == self.include_event_data,
    {
        self.include_event_data
    }

    /// Check if message parsing is enabled.
    pub fn should_parse_message(&self) -> (r: bool)
        ensures
            r == self.parse_message,
    {
        self.parse_message
    }

    /// Build the XPath expression: the raw expression when set, else
    /// `Event`, or `Event/System[...]` with the level, provider and event ID
    /// conditions joined by ` and `.
    pub fn build_xpath(&self) -> (r: String)
        ensures
            r@ == xpath_spec(*self),
    {
        if let Some(x) = &self.xpath {
            return str_to_string(x.as_str());
        }
        let mut parts: Vec<String> = Vec::new();
        if let Some(level) = self.level {
            let mut c = str_to_string("Level <= ");
            push_dec(&mut c, level.code() as u64);
            parts.push(c);
        }
        if let Some(name) = &self.provider {
            let mut c = str_to_string("System/Provider/@Name=");
            let esc = escape_xpath_string(name.as_str());
            c.append(esc.as_str());
            parts.push(c);
        }
        if let Some(id) = self.event_id {
            let mut c = str_to_string("EventID=");
            push_dec(&mut c, id as u64);
            parts.push(c);
        }
        let ghost views = Seq::new(parts@.len(), |i: int| parts@[i]@);
        assert(views =~= conditions(*self));
        if parts.len() == 0 {
            return str_to_string("Event");
        }
        let mut out = str_to_string("Event/System[");
        let mut i: usize = 0;
        while i < parts.len()
            invariant
                i <= parts@.len(),
                parts@.len() > 0,
                views == Seq::new(parts@.len(), |k: int| parts@[k]@),
                i > 0 ==> out@ == "Event/System["@ + join_with(views.subrange(0, i as int), " and "@),
                i == 0 ==> out@ == "Event/System["@,
            decreases parts@.len() - i,
        {
            let ghost before = out@;
            if i > 0 {
                out.append(" and ");
            }
            out.append(parts[i].as_str());
            proof {
                let pj = views.subrange(0, i + 1);
                if i == 0 {
                    assert(pj.len() == 1);
                    assert(join_with(pj, " and "@) == pj[0]);
                } else {
                    assert(pj.drop_last() == views.subrange(0, i as int));
                }
            }
            i = i + 1;
        }
        out.append("]");
        assert(views.subrange(0, parts@.len() as int) == views);
        out
    }

    /// Whether the query is reversed.
    pub fn is_reverse(&self) -> (r: bool)
        ensures
            r == self.reverse,
    {
        self.reverse
    }

    /// The maximum results limit, if set.
    pub fn max_results_limit(&self) -> (r: Option<usize>)
        ensures
            r == self.max_results,
    {
        self.max_results
    }
}

/// `n` capped at the limit, when there is one.
pub open spec fn limited_count(n: usize, max_results: Option<usize>) -> usize {
    match max_results {
        Some(m) => if n < m {
            n
        } else {
            m
        },
        None => n,
    }
}

/// Caps a count of results at the limit, when there is one.
pub fn limit_results(n: usize, max_results: Option<usize>) -> (r: usize)
    ensures
        r == limited_count(n, max_results),
{
    match max_results {
        Some(m) => if n < m {
            n
        } else {
            m
        },
        None => n,
    }
}

} // verus!
