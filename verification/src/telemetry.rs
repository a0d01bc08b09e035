//! Trace propagation through message headers, and the names under which a
//! service reports its metrics.

use crate::text::join;
use crate::text::decimal;
use crate::text::decimal_string;
use crate::text::lemma_decimal_round_trip;
use crate::text::parse_u8;
use crate::text::parse_u8_spec;
use crate::text::replace_char;
use crate::text::replace_char_spec;
use crate::text::unsigned_digits;
use vstd::hash_map::StringHashMap;
use vstd::prelude::*;
use vstd::string::StringExecFns;

verus! {

/// Header fields by name: at most one value for each name.
pub struct Headers {
    entries: StringHashMap<String>,
}

impl View for Headers {
    type V = Map<Seq<char>, Seq<char>>;

    closed spec fn view(&self) -> Map<Seq<char>, Seq<char>> {
        self.entries@.map_values(|v: String| v@)
    }
}

impl Headers {
    /// No headers.
    pub fn new() -> (headers: Headers)
        ensures
            headers@ == Map::<Seq<char>, Seq<char>>::empty(),
    {
        let headers = Headers { entries: StringHashMap::new() };
        assert(headers@ =~= Map::<Seq<char>, Seq<char>>::empty());
        headers
    }

    /// Sets the header `name` to `value`, replacing an earlier value.
    pub fn insert(&mut self, name: String, value: String)
        ensures
            final(self)@ == old(self)@.insert(name@, value@),
    {
        self.entries.insert(name, value);
        assert(self@ =~= old(self)@.insert(name@, value@));
    }

    /// The value of the header `name`, if it is set.
    pub fn get(&self, name: &str) -> (value: Option<&String>)
        ensures
            value is Some <==> self@.contains_key(name@),
            value matches Some(v) ==> v@ == self@[name@],
    {
        self.entries.get(name)
    }

    /// Whether the header `name` is set.
    pub fn contains_key(&self, name: &str) -> (found: bool)
        ensures
            found == self@.contains_key(name@),
    {
        self.entries.contains_key(name)
    }
}

/// The mathematical value of a [`TraceContext`].
pub struct TraceContextView {
    pub trace_id: Seq<char>,
    pub span_id: Seq<char>,
    pub trace_flags: u8,
}

/// Trace context for distributed tracing
#[derive(Clone)]
pub struct TraceContext {
    trace_id: String,
    span_id: String,
    trace_flags: u8,
}

impl View for TraceContext {
    type V = TraceContextView;

    closed spec fn view(&self) -> TraceContextView {
        TraceContextView {
            trace_id: self.trace_id@,
            span_id: self.span_id@,
            trace_flags: self.trace_flags,
        }
    }
}

/// The trace flags that a header value stands for: its number, or 0 where the
/// header is missing or is not the decimal numeral of a `u8`.
pub open spec fn flags_of(headers: Map<Seq<char>, Seq<char>>) -> u8 {
    if headers.contains_key("x-trace-flags"@) {
        match parse_u8_spec(headers["x-trace-flags"@]) {
            Some(flags) => flags,
            None => 0,
        }
    } else {
        0
    }
}

/// The trace context that a set of headers carries: it needs a trace ID and a
/// span ID; the flags are optional.
pub open spec fn context_of(headers: Map<Seq<char>, Seq<char>>) -> Option<TraceContextView> {
    if headers.contains_key("x-trace-id"@) && headers.contains_key("x-span-id"@) {
        Some(
            TraceContextView {
                trace_id: headers["x-trace-id"@],
                span_id: headers["x-span-id"@],
                trace_flags: flags_of(headers),
            },
        )
    } else {
        None
    }
}

/// The headers that carry a trace context.
pub open spec fn headers_of(context: TraceContextView) -> Map<Seq<char>, Seq<char>> {
    Map::<Seq<char>, Seq<char>>::empty().insert("x-trace-id"@, context.trace_id).insert(
        "x-span-id"@,
        context.span_id,
    ).insert("x-trace-flags"@, decimal(context.trace_flags as nat))
}

/// The three header names are pairwise distinct.
pub proof fn lemma_header_names_distinct()
    ensures
        "x-trace-id"@ != "x-span-id"@,
        "x-trace-id"@ != "x-trace-flags"@,
        "x-span-id"@ != "x-trace-flags"@,
{
    reveal_strlit("x-trace-id");
    reveal_strlit("x-span-id");
    reveal_strlit("x-trace-flags");
    assert("x-trace-id"@.len() == 10);
    assert("x-span-id"@.len() == 9);
    assert("x-trace-flags"@.len() == 13);
}

/// A trace context survives the trip through its headers unchanged.
pub proof fn lemma_trace_context_round_trip(context: TraceContextView)
    ensures
        context_of(headers_of(context)) == Some(context),
{
    lemma_header_names_distinct();
    lemma_decimal_round_trip(context.trace_flags as nat);
    let headers = headers_of(context);
    let numeral = decimal(context.trace_flags as nat);
    assert(headers["x-trace-flags"@] == numeral);
    assert(unsigned_digits(numeral) == numeral);
    assert(parse_u8_spec(numeral) == Some(context.trace_flags));
}

impl TraceContext {
    /// Create from current span: the all-zero context, which stands for "no
    /// trace".
    pub fn current() -> (context: TraceContext)
        ensures
            context@ == (TraceContextView {
                trace_id: "00000000000000000000000000000000"@,
                span_id: "0000000000000000"@,
                trace_flags: 0,
            }),
    {
        TraceContext {
            trace_id: String::from_str("00000000000000000000000000000000"),
            span_id: String::from_str("0000000000000000"),
            trace_flags: 0,
        }
    }

    /// Create from headers
    pub fn from_headers(headers: &Headers) -> (context: Option<TraceContext>)
        ensures
            context is Some <==> context_of(headers@) is Some,
            context matches Some(c) ==> Some(c@) == context_of(headers@),
    {
        let trace_id = match headers.get("x-trace-id") {
            Some(v) => v,
            None => {
                return None;
            },
        };
        let span_id = match headers.get("x-span-id") {
            Some(v) => v,
            None => {
                return None;
            },
        };
        let trace_flags: u8 = match headers.get("x-trace-flags") {
            Some(v) => match parse_u8(v.as_str()) {
                Some(flags) => flags,
                None => 0,
            },
            None => 0,
        };
        Some(TraceContext { trace_id: trace_id.clone(), span_id: span_id.clone(), trace_flags })
    }

    /// Convert to headers
    pub fn to_headers(&self) -> (headers: Headers)
        ensures
            headers@ == headers_of(self@),
    {
        let mut headers = Headers::new();
        headers.insert(String::from_str("x-trace-id"), self.trace_id.clone());
        headers.insert(String::from_str("x-span-id"), self.span_id.clone());
        headers.insert(String::from_str("x-trace-flags"), decimal_string(self.trace_flags as u64));
        headers
    }

    /// Get trace ID
    pub fn trace_id(&self) -> (id: &str)
        ensures
            id@ == self@.trace_id,
    {
        self.trace_id.as_str()
    }

    /// Get span ID
    pub fn span_id(&self) -> (id: &str)
        ensures
            id@ == self@.span_id,
    {
        self.span_id.as_str()
    }

    /// Get trace flags
    pub fn trace_flags(&self) -> (flags: u8)
        ensures
            flags == self@.trace_flags,
    {
        self.trace_flags
    }
}

/// The names under which a service reports its standard metrics.
#[derive(Debug, Clone, PartialEq, Eq)]
pub struct MetricNames {
    pub requests_total: String,
    pub requests_duration: String,
    pub requests_in_flight: String,
    pub errors_total: String,
}

/// The prefix of a service's metric names: the service name with every hyphen
/// turned into an underscore, and one more underscore.
pub open spec fn metric_prefix_spec(service_name: Seq<char>) -> Seq<char> {
    replace_char_spec(service_name, '-', "_"@) + "_"@
}

/// The prefix of a service's metric names.
pub fn metric_prefix(service_name: &str) -> (prefix: String)
    ensures
        prefix@ == metric_prefix_spec(service_name@),
{
    let mut prefix = replace_char(service_name, '-', "_");
    prefix.append("_");
    prefix
}

impl MetricNames {
    /// The names of the standard metrics of the service `service_name`.
    pub fn new(service_name: &str) -> (names: MetricNames)
        ensures
            names.requests_total@ == metric_prefix_spec(service_name@) + "requests_total"@,
            names.requests_duration@ == metric_prefix_spec(service_name@)
                + "request_duration_seconds"@,
            names.requests_in_flight@ == metric_prefix_spec(service_name@) + "requests_in_flight"@,
            names.errors_total@ == metric_prefix_spec(service_name@) + "errors_total"@,
    {
        let prefix = metric_prefix(service_name);
        MetricNames {
            requests_total: join(prefix.as_str(), "requests_total"),
            requests_duration: join(prefix.as_str(), "request_duration_seconds"),
            requests_in_flight: join(prefix.as_str(), "requests_in_flight"),
            errors_total: join(prefix.as_str(), "errors_total"),
        }
    }
}

} // verus!
