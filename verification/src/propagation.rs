//! The W3C trace context that crosses process and runtime boundaries.

use opentelemetry::propagation::{Extractor, Injector, TextMapPropagator as _};
use opentelemetry::trace::TraceContextExt as _;
use vstd::prelude::*;

use crate::text::{hex_range, lemma_lower_hex_chars, lemma_lower_hex_injective, lower_hex, str_eq};

verus! {

/// The part of a span that identifies it to other processes.
#[derive(Clone, Debug)]
pub struct SpanContext {
    pub trace_id: u128,
    pub span_id: u64,
    pub trace_flags: u8,
    pub is_remote: bool,
    /// The trace state as its header text.
    pub trace_state: String,
}

/// What a [`SpanContext`] holds, as mathematical values.
#[verifier::ext_equal]
pub struct SpanContextView {
    pub trace_id: u128,
    pub span_id: u64,
    pub trace_flags: u8,
    pub is_remote: bool,
    pub trace_state: Seq<char>,
}

impl View for SpanContext {
    type V = SpanContextView;

    open spec fn view(&self) -> SpanContextView {
        SpanContextView {
            trace_id: self.trace_id,
            span_id: self.span_id,
            trace_flags: self.trace_flags,
            is_remote: self.is_remote,
            trace_state: self.trace_state@,
        }
    }
}

impl SpanContextView {
    /// A context identifies a span when neither of its ids is zero.
    pub open spec fn is_valid(self) -> bool {
        self.trace_id != 0 && self.span_id != 0
    }
}

impl SpanContext {
    /// Whether the context identifies a span.
    pub fn is_valid(&self) -> (res: bool)
        ensures
            res == self@.is_valid(),
    {
        self.trace_id != 0 && self.span_id != 0
    }

    /// Keeps the context only if it identifies a span.
    pub fn into_valid(self) -> (res: Option<SpanContext>)
        ensures
            res == (if self@.is_valid() {
                Some(self)
            } else {
                None
            }),
    {
        if self.is_valid() {
            Some(self)
        } else {
            None
        }
    }
}

/// The two W3C header fields that carry a trace context.
#[derive(Clone, Debug)]
pub struct TraceHeaders {
    pub traceparent: Option<String>,
    pub tracestate: Option<String>,
}

/// The characters of an optional text.
pub open spec fn text_of(text: Option<String>) -> Option<Seq<char>> {
    match text {
        Some(text) => Some(text@),
        None => None,
    }
}

/// The characters of an optional borrowed text.
pub open spec fn str_of(text: Option<&str>) -> Option<Seq<char>> {
    match text {
        Some(text) => Some(text@),
        None => None,
    }
}

impl TraceHeaders {
    /// The field that a carrier key selects.
    pub open spec fn field(self, key: Seq<char>) -> Option<Seq<char>> {
        if key == "traceparent"@ {
            text_of(self.traceparent)
        } else if key == "tracestate"@ {
            text_of(self.tracestate)
        } else {
            None
        }
    }

    /// The keys of the fields that are present, `traceparent` first.
    pub open spec fn present(self) -> Seq<Seq<char>> {
        (if self.traceparent is Some {
            seq!["traceparent"@]
        } else {
            Seq::empty()
        }) + (if self.tracestate is Some {
            seq!["tracestate"@]
        } else {
            Seq::empty()
        })
    }
}

impl Extractor for TraceHeaders {
    fn get(&self, key: &str) -> (res: Option<&str>)
        ensures
            str_of(res) == self.field(key@),
    {
        let field = if str_eq(key, "traceparent") {
            &self.traceparent
        } else if str_eq(key, "tracestate") {
            &self.tracestate
        } else {
            return None;
        };
        match field {
            Some(text) => Some(text.as_str()),
            None => None,
        }
    }

    fn keys(&self) -> (res: Vec<&str>)
        ensures
            res@.map_values(|key: &str| key@) == self.present(),
    {
        let mut keys: Vec<&str> = Vec::new();
        if self.traceparent.is_some() {
            keys.push("traceparent");
        }
        if self.tracestate.is_some() {
            keys.push("tracestate");
        }
        assert(keys@.map_values(|key: &str| key@) =~= self.present());
        keys
    }
}

impl Injector for TraceHeaders {
    fn set(&mut self, key: &str, value: String)
        ensures
            final(self).traceparent == (if key@ == "traceparent"@ {
                Some(value)
            } else {
                old(self).traceparent
            }),
            final(self).tracestate == (if key@ == "tracestate"@ {
                Some(value)
            } else {
                old(self).tracestate
            }),
            key@ == "traceparent"@ || key@ == "tracestate"@ ==> final(self).field(key@) == Some(
                value@,
            ),
            forall|other: Seq<char>|
                other != key@ ==> #[trigger] final(self).field(other) == old(self).field(other),
    {
        proof {
            reveal_strlit("traceparent");
            reveal_strlit("tracestate");
            assert("traceparent"@.len() != "tracestate"@.len());
        }
        if str_eq(key, "traceparent") {
            self.traceparent = Some(value);
        } else if str_eq(key, "tracestate") {
            self.tracestate = Some(value);
        }
    }
}

/// The trace state header that `opentelemetry`'s `TraceState` renders after it has
/// parsed a text: the empty text where the text is no list of valid entries.
pub uninterp spec fn trace_state_header(text: Seq<char>) -> Seq<char>;

/// The span context that `opentelemetry_sdk`'s `TraceContextPropagator` reads from the
/// two header fields.
pub uninterp spec fn extracted_context(
    traceparent: Option<Seq<char>>,
    tracestate: Option<Seq<char>>,
) -> SpanContextView;

/// The trace state that is carried on for a text: a text that was rendered before stays as it
/// is, and another one is parsed and rendered.
pub open spec fn carried_state(text: Seq<char>) -> Seq<char> {
    if exists|source: Seq<char>| text == #[trigger] trace_state_header(source) {
        text
    } else {
        trace_state_header(text)
    }
}

/// The `traceparent` field that names a span of a trace.
pub open spec fn traceparent_text(trace_id: u128, span_id: u64, trace_flags: u8) -> Seq<char> {
    "00-"@ + lower_hex(trace_id as nat, 32) + "-"@ + lower_hex(span_id as nat, 16) + "-"@
        + lower_hex(trace_flags as nat, 2)
}

/// Whether a `traceparent` field names this span, with no flag but the sampling flag.
pub open spec fn names_span(
    traceparent: Option<Seq<char>>,
    trace_id: u128,
    span_id: u64,
    trace_flags: u8,
) -> bool {
    &&& trace_id != 0
    &&& span_id != 0
    &&& trace_flags <= 1
    &&& traceparent == Some(traceparent_text(trace_id, span_id, trace_flags))
}

/// The span context that two header fields carry: the named span where `traceparent` has
/// the form that this library writes, and `other` where it has not.
pub open spec fn read_context(
    traceparent: Option<Seq<char>>,
    tracestate: Option<Seq<char>>,
    other: SpanContextView,
) -> SpanContextView {
    if exists|trace_id: u128, span_id: u64, trace_flags: u8|
        names_span(traceparent, trace_id, span_id, trace_flags) {
        let (trace_id, span_id, trace_flags) = choose|
            trace_id: u128,
            span_id: u64,
            trace_flags: u8,
        |
            names_span(traceparent, trace_id, span_id, trace_flags);
        SpanContextView {
            trace_id,
            span_id,
            trace_flags,
            is_remote: true,
            trace_state: match tracestate {
                Some(text) => carried_state(text),
                None => Seq::empty(),
            },
        }
    } else {
        other
    }
}

/// The span context that two header fields carry, if they carry a valid one.
pub open spec fn parsed_context(
    traceparent: Seq<char>,
    tracestate: Option<Seq<char>>,
) -> Option<SpanContextView> {
    let found = read_context(
        Some(traceparent),
        tracestate,
        extracted_context(Some(traceparent), tracestate),
    );
    if found.is_valid() {
        Some(found)
    } else {
        None
    }
}

/// What a [`SpanContext`] holds, where there is one.
pub open spec fn context_of(context: Option<SpanContext>) -> Option<SpanContextView> {
    match context {
        Some(context) => Some(context@),
        None => None,
    }
}

/// Calls `TraceContextPropagator::extract_with_context` of `opentelemetry_sdk` on an empty
/// context, so nothing but the two fields decides the result.
///
/// Believed of it: the result is a function of the two fields. A `traceparent` that names a
/// span with valid ids, in version zero, lowercase and without other flags, gives that span,
/// and the trace state as parsing and rendering `tracestate` gives it, which leaves a state that
/// was rendered before as it is. A valid result is marked remote and has no flag but the
/// sampling flag.
#[verifier::external_body]
fn extract_context(headers: &TraceHeaders) -> (res: SpanContext)
    ensures
        res@ == extracted_context(text_of(headers.traceparent), text_of(headers.tracestate)),
        res@ == read_context(text_of(headers.traceparent), text_of(headers.tracestate), res@),
        res@.is_valid() ==> res@.is_remote && res@.trace_flags <= 1,
{
    let context = opentelemetry_sdk::propagation::TraceContextPropagator::new()
        .extract_with_context(&opentelemetry::Context::new(), headers);
    let span = context.span();
    let found = span.span_context();
    SpanContext {
        trace_id: u128::from_be_bytes(found.trace_id().to_bytes()),
        span_id: u64::from_be_bytes(found.span_id().to_bytes()),
        trace_flags: found.trace_flags().to_u8(),
        is_remote: found.is_remote(),
        trace_state: found.trace_state().header(),
    }
}

/// Calls `TraceContextPropagator::inject_context` of `opentelemetry_sdk` on a context that
/// holds the given span context.
///
/// Believed of it: a valid span context fills both fields, `traceparent` with the ids in
/// lowercase hexadecimal and the sampling flag alone, and `tracestate` with the trace state
/// after parsing and rendering, which leaves a state that was rendered before as it is; another
/// span context leaves the carrier as it is.
#[verifier::external_body]
pub(crate) fn inject_context(context: &SpanContext, carrier: &mut TraceHeaders)
    ensures
        context@.is_valid() ==> text_of(final(carrier).traceparent) == Some(
            traceparent_text(context.trace_id, context.span_id, context.trace_flags % 2),
        ),
        context@.is_valid() ==> text_of(final(carrier).tracestate) == Some(
            trace_state_header(context.trace_state@),
        ),
        context@.is_valid() ==> text_of(final(carrier).tracestate) == Some(
            carried_state(context.trace_state@),
        ),
        !context@.is_valid() ==> *final(carrier) == *old(carrier),
{
    let span = opentelemetry::trace::SpanContext::new(
        opentelemetry::TraceId::from(context.trace_id),
        opentelemetry::SpanId::from(context.span_id),
        opentelemetry::TraceFlags::new(context.trace_flags),
        context.is_remote,
        context.trace_state.parse().unwrap_or_default(),
    );
    opentelemetry_sdk::propagation::TraceContextPropagator::new().inject_context(
        &opentelemetry::Context::new().with_remote_span_context(span),
        carrier,
    );
}

/// Calls `to_string` of `opentelemetry`'s `TraceId`.
///
/// Believed of it: the text is the id in thirty-two lowercase hexadecimal digits.
#[verifier::external_body]
pub(crate) fn trace_id_text(trace_id: u128) -> (res: String)
    ensures
        res@ == lower_hex(trace_id as nat, 32),
{
    opentelemetry::TraceId::from(trace_id).to_string()
}

/// Calls `to_string` of `opentelemetry`'s `SpanId`.
///
/// Believed of it: the text is the id in sixteen lowercase hexadecimal digits.
#[verifier::external_body]
pub(crate) fn span_id_text(span_id: u64) -> (res: String)
    ensures
        res@ == lower_hex(span_id as nat, 16),
{
    opentelemetry::SpanId::from(span_id).to_string()
}

/// Reads the span context that incoming W3C fields carry; `None` where they carry no valid
/// one.
pub fn parse_span_context(traceparent: &str, tracestate: Option<&str>) -> (res: Option<
    SpanContext,
>)
    ensures
        context_of(res) == parsed_context(traceparent@, str_of(tracestate)),
        res matches Some(context) ==> context.is_remote && context.trace_flags <= 1,
        res matches Some(context) ==> context.trace_id != 0 && context.span_id != 0,
{
    let carrier = TraceHeaders {
        traceparent: Some(traceparent.to_owned()),
        tracestate: match tracestate {
            Some(text) => Some(text.to_owned()),
            None => None,
        },
    };
    assert(text_of(carrier.traceparent) == Some(traceparent@));
    assert(text_of(carrier.tracestate) == str_of(tracestate));
    extract_context(&carrier).into_valid()
}

/// Different spans have different `traceparent` fields.
proof fn lemma_traceparent_injective(
    trace_id: u128,
    span_id: u64,
    trace_flags: u8,
    other_trace_id: u128,
    other_span_id: u64,
    other_trace_flags: u8,
)
    requires
        traceparent_text(trace_id, span_id, trace_flags) == traceparent_text(
            other_trace_id,
            other_span_id,
            other_trace_flags,
        ),
    ensures
        trace_id == other_trace_id,
        span_id == other_span_id,
        trace_flags == other_trace_flags,
{
    reveal_strlit("00-");
    reveal_strlit("-");
    let text = traceparent_text(trace_id, span_id, trace_flags);
    let other = traceparent_text(other_trace_id, other_span_id, other_trace_flags);
    lemma_lower_hex_chars(trace_id as nat, 32);
    lemma_lower_hex_chars(span_id as nat, 16);
    lemma_lower_hex_chars(trace_flags as nat, 2);
    lemma_lower_hex_chars(other_trace_id as nat, 32);
    lemma_lower_hex_chars(other_span_id as nat, 16);
    lemma_lower_hex_chars(other_trace_flags as nat, 2);
    assert(text.subrange(3, 35) =~= lower_hex(trace_id as nat, 32));
    assert(other.subrange(3, 35) =~= lower_hex(other_trace_id as nat, 32));
    assert(text.subrange(36, 52) =~= lower_hex(span_id as nat, 16));
    assert(other.subrange(36, 52) =~= lower_hex(other_span_id as nat, 16));
    assert(text.subrange(53, 55) =~= lower_hex(trace_flags as nat, 2));
    assert(other.subrange(53, 55) =~= lower_hex(other_trace_flags as nat, 2));
    assert(hex_range(2) == 0x100) by {
        reveal_with_fuel(hex_range, 3);
    }
    assert(hex_range(16) == 0x1_0000_0000_0000_0000) by {
        reveal_with_fuel(hex_range, 17);
    }
    assert(hex_range(32) == 0x1_0000_0000_0000_0000_0000_0000_0000_0000) by {
        reveal_with_fuel(hex_range, 33);
    }
    lemma_lower_hex_injective(trace_id as nat, other_trace_id as nat, 32);
    lemma_lower_hex_injective(span_id as nat, other_span_id as nat, 16);
    lemma_lower_hex_injective(trace_flags as nat, other_trace_flags as nat, 2);
}

/// A `traceparent` field that this library writes for a span is read back as that span: the
/// same trace, the same span, the sampling flag, marked remote.
pub proof fn written_traceparent_is_read_back(
    trace_id: u128,
    span_id: u64,
    trace_flags: u8,
    tracestate: Option<Seq<char>>,
)
    requires
        trace_id != 0,
        span_id != 0,
    ensures
        parsed_context(
            traceparent_text(trace_id, span_id, trace_flags % 2),
            tracestate,
        ) == Some(
            SpanContextView {
                trace_id,
                span_id,
                trace_flags: trace_flags % 2,
                is_remote: true,
                trace_state: match tracestate {
                    Some(text) => carried_state(text),
                    None => Seq::empty(),
                },
            },
        ),
{
    let sampled = trace_flags % 2;
    let text = Some(traceparent_text(trace_id, span_id, sampled));
    assert(names_span(text, trace_id, span_id, sampled));
    let (t, s, f) = choose|t: u128, s: u64, f: u8| names_span(text, t, s, f);
    lemma_traceparent_injective(trace_id, span_id, sampled, t, s, f);
}

/// A trace state that was carried once is carried on unchanged.
pub proof fn carried_state_is_stable(text: Seq<char>)
    ensures
        carried_state(carried_state(text)) == carried_state(text),
{
    let once = carried_state(text);
    assert(exists|source: Seq<char>| once == #[trigger] trace_state_header(source)) by {
        if !exists|source: Seq<char>| text == #[trigger] trace_state_header(source) {
            assert(once == trace_state_header(text));
        }
    }
}

/// A `traceparent` field is laid out in fixed columns: the version, the trace, the span and the
/// flags, with a hyphen between each two.
pub proof fn traceparent_columns(trace_id: u128, span_id: u64, trace_flags: u8)
    ensures
        ({
            let text = traceparent_text(trace_id, span_id, trace_flags);
            &&& text.len() == 55
            &&& text[0] == '0' && text[1] == '0'
            &&& text[2] == '-' && text[35] == '-' && text[52] == '-'
            &&& text.subrange(3, 35) == lower_hex(trace_id as nat, 32)
            &&& text.subrange(36, 52) == lower_hex(span_id as nat, 16)
            &&& text.subrange(53, 55) == lower_hex(trace_flags as nat, 2)
        }),
{
    reveal_strlit("00-");
    reveal_strlit("-");
    lemma_lower_hex_chars(trace_id as nat, 32);
    lemma_lower_hex_chars(span_id as nat, 16);
    lemma_lower_hex_chars(trace_flags as nat, 2);
    let text = traceparent_text(trace_id, span_id, trace_flags);
    assert(text.subrange(3, 35) =~= lower_hex(trace_id as nat, 32));
    assert(text.subrange(36, 52) =~= lower_hex(span_id as nat, 16));
    assert(text.subrange(53, 55) =~= lower_hex(trace_flags as nat, 2));
}

/// Only a context with two ids that are not zero is ever read from header fields. Where
/// `traceparent` is not one that this library writes for a span, it is what the propagator
/// extracts, if that has such ids, and nothing otherwise.
pub proof fn read_contexts_are_valid(traceparent: Seq<char>, tracestate: Option<Seq<char>>)
    ensures
        parsed_context(traceparent, tracestate) matches Some(found) ==> found.trace_id != 0
            && found.span_id != 0,
        (forall|trace_id: u128, span_id: u64, trace_flags: u8|
            trace_id != 0 && span_id != 0 && trace_flags <= 1 ==> traceparent
                != #[trigger] traceparent_text(trace_id, span_id, trace_flags)) ==> ({
            let found = extracted_context(Some(traceparent), tracestate);
            parsed_context(traceparent, tracestate) == (if found.trace_id != 0 && found.span_id
                != 0 {
                Some(found)
            } else {
                None
            })
        }),
{
}

/// A carrier gives each field under its own key and nothing under another key. It lists a key
/// exactly when it gives a field under it, `traceparent` before `tracestate` and neither twice.
pub proof fn carrier_keys_select_fields(headers: TraceHeaders, key: Seq<char>)
    ensures
        headers.field("traceparent"@) == text_of(headers.traceparent),
        headers.field("tracestate"@) == text_of(headers.tracestate),
        key != "traceparent"@ && key != "tracestate"@ ==> headers.field(key) is None,
        headers.present().contains(key) <==> headers.field(key) is Some,
        headers.present().no_duplicates(),
        headers.traceparent is Some ==> headers.present()[0] == "traceparent"@,
{
    reveal_strlit("traceparent");
    reveal_strlit("tracestate");
    assert("traceparent"@.len() != "tracestate"@.len());
    let keys = headers.present();
    if headers.traceparent is Some {
        assert(keys[0] == "traceparent"@);
        if headers.tracestate is Some {
            assert(keys[1] == "tracestate"@);
        }
    } else if headers.tracestate is Some {
        assert(keys[0] == "tracestate"@);
    }
}

} // verus!
