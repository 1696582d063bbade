//! Trace context of an invocation, for outbound calls, correlated logs and durable work.

use vstd::prelude::*;

use crate::propagation::{
    carried_state, carried_state_is_stable, context_of, inject_context, parse_span_context,
    parsed_context, span_id_text, text_of, trace_id_text, trace_state_header,
    traceparent_columns, traceparent_text, written_traceparent_is_read_back, SpanContext,
    SpanContextView, TraceHeaders,
};
use crate::span::remote_parent;
use crate::text::{hex_range, lemma_lower_hex_injective, lower_hex};

verus! {

/// Propagation fields for work started by the active actor invocation.
#[derive(Clone, Debug)]
pub struct ActorInvocationTraceContext {
    pub ray_id: String,
    pub span: Option<ActorInvocationSpanContext>,
}

/// The span part of an invocation's propagation fields.
#[derive(Clone, Debug)]
pub struct ActorInvocationSpanContext {
    pub trace_id: String,
    pub span_id: String,
    pub trace_flags: u8,
    pub traceparent: String,
    pub tracestate: Option<String>,
}

/// Trace correlation persisted with work that may run after its creator exits.
#[derive(Clone, Debug)]
pub struct DurableTraceContext {
    pub ray_id: String,
    pub traceparent: Option<String>,
    pub tracestate: Option<String>,
}

/// What an [`ActorInvocationSpanContext`] holds, as mathematical values.
#[verifier::ext_equal]
pub struct SpanFieldsView {
    pub trace_id: Seq<char>,
    pub span_id: Seq<char>,
    pub trace_flags: u8,
    pub traceparent: Seq<char>,
    pub tracestate: Option<Seq<char>>,
}

/// What an [`ActorInvocationTraceContext`] holds, as mathematical values.
#[verifier::ext_equal]
pub struct TraceContextView {
    pub ray_id: Seq<char>,
    pub span: Option<SpanFieldsView>,
}

/// What a [`DurableTraceContext`] holds, as mathematical values.
#[verifier::ext_equal]
pub struct DurableContextView {
    pub ray_id: Seq<char>,
    pub traceparent: Option<Seq<char>>,
    pub tracestate: Option<Seq<char>>,
}

impl View for ActorInvocationSpanContext {
    type V = SpanFieldsView;

    open spec fn view(&self) -> SpanFieldsView {
        SpanFieldsView {
            trace_id: self.trace_id@,
            span_id: self.span_id@,
            trace_flags: self.trace_flags,
            traceparent: self.traceparent@,
            tracestate: text_of(self.tracestate),
        }
    }
}

impl View for ActorInvocationTraceContext {
    type V = TraceContextView;

    open spec fn view(&self) -> TraceContextView {
        TraceContextView { ray_id: self.ray_id@, span: fields_of(self.span) }
    }
}

impl View for DurableTraceContext {
    type V = DurableContextView;

    open spec fn view(&self) -> DurableContextView {
        DurableContextView {
            ray_id: self.ray_id@,
            traceparent: text_of(self.traceparent),
            tracestate: text_of(self.tracestate),
        }
    }
}

/// What an [`ActorInvocationSpanContext`] holds, where there is one.
pub open spec fn fields_of(span: Option<ActorInvocationSpanContext>) -> Option<SpanFieldsView> {
    match span {
        Some(span) => Some(span@),
        None => None,
    }
}

/// What is persisted of an invocation's propagation fields.
pub open spec fn durable_of(context: TraceContextView) -> DurableContextView {
    DurableContextView {
        ray_id: context.ray_id,
        traceparent: match context.span {
            Some(span) => Some(span.traceparent),
            None => None,
        },
        tracestate: match context.span {
            Some(span) => span.tracestate,
            None => None,
        },
    }
}

impl From<ActorInvocationTraceContext> for DurableTraceContext {
    fn from(value: ActorInvocationTraceContext) -> (res: Self)
        ensures
            res@ == durable_of(value@),
    {
        match value.span {
            Some(span) => DurableTraceContext {
                ray_id: value.ray_id,
                traceparent: Some(span.traceparent),
                tracestate: span.tracestate,
            },
            None => DurableTraceContext {
                ray_id: value.ray_id,
                traceparent: None,
                tracestate: None,
            },
        }
    }
}

impl vstd::std_specs::convert::FromSpecImpl<ActorInvocationTraceContext> for DurableTraceContext {
    open spec fn obeys_from_spec() -> bool {
        true
    }

    open spec fn from_spec(value: ActorInvocationTraceContext) -> Self {
        match value.span {
            Some(span) => DurableTraceContext {
                ray_id: value.ray_id,
                traceparent: Some(span.traceparent),
                tracestate: span.tracestate,
            },
            None => DurableTraceContext {
                ray_id: value.ray_id,
                traceparent: None,
                tracestate: None,
            },
        }
    }
}

/// The propagation fields of a span, if its context identifies one.
pub open spec fn span_fields(context: SpanContextView) -> Option<SpanFieldsView> {
    if context.is_valid() {
        Some(
            SpanFieldsView {
                trace_id: lower_hex(context.trace_id as nat, 32),
                span_id: lower_hex(context.span_id as nat, 16),
                trace_flags: context.trace_flags,
                traceparent: traceparent_text(
                    context.trace_id,
                    context.span_id,
                    context.trace_flags % 2,
                ),
                tracestate: Some(carried_state(context.trace_state)),
            },
        )
    } else {
        None
    }
}

/// Lists the propagation fields of a span; `None` where its context identifies none.
pub fn propagation_fields(context: &SpanContext) -> (res: Option<ActorInvocationSpanContext>)
    ensures
        fields_of(res) == span_fields(context@),
        res is Some <==> context.trace_id != 0 && context.span_id != 0,
        res matches Some(fields) ==> fields.trace_flags == context.trace_flags,
{
    if !context.is_valid() {
        return None;
    }
    let mut carrier = TraceHeaders { traceparent: None, tracestate: None };
    inject_context(context, &mut carrier);
    match carrier.traceparent {
        Some(traceparent) => Some(
            ActorInvocationSpanContext {
                trace_id: trace_id_text(context.trace_id),
                span_id: span_id_text(context.span_id),
                trace_flags: context.trace_flags,
                traceparent,
                tracestate: carrier.tracestate,
            },
        ),
        None => None,
    }
}

/// The span that durable work links back to, if one was recorded.
pub open spec fn durable_link(link: DurableContextView) -> Option<SpanContextView> {
    remote_parent(link.traceparent, link.tracestate)
}

/// Reads the span that durable work links back to.
pub fn parse_durable_link(link: &DurableTraceContext) -> (res: Option<SpanContext>)
    ensures
        context_of(res) == durable_link(link@),
{
    match &link.traceparent {
        Some(traceparent) => parse_span_context(
            traceparent.as_str(),
            match &link.tracestate {
                Some(tracestate) => Some(tracestate.as_str()),
                None => None,
            },
        ),
        None => None,
    }
}

/// What the receiver of an outbound call, or the durable work that was scheduled, learns of a
/// span.
pub open spec fn received(context: SpanContextView) -> SpanContextView {
    SpanContextView {
        trace_flags: context.trace_flags % 2,
        is_remote: true,
        trace_state: carried_state(context.trace_state),
        ..context
    }
}

/// The propagation fields of a valid span lead the receiver back to that span: same trace,
/// same span, same sampling decision.
pub proof fn outbound_call_stays_in_trace(context: SpanContextView)
    requires
        context.is_valid(),
    ensures
        span_fields(context) matches Some(fields) && remote_parent(
            Some(fields.traceparent),
            fields.tracestate,
        ) == Some(received(context)),
{
    let fields = span_fields(context)->0;
    written_traceparent_is_read_back(
        context.trace_id,
        context.span_id,
        context.trace_flags,
        fields.tracestate,
    );
    carried_state_is_stable(context.trace_state);
}

/// Passing a trace on does not change it further: what the second receiver learns of a span
/// is what the first one learned.
pub proof fn forwarding_keeps_the_context(context: SpanContextView)
    ensures
        received(received(context)) == received(context),
{
    carried_state_is_stable(context.trace_state);
}

/// Durable work keeps its creator's ray. It links to the creator's span when there was a valid
/// one, and to nothing when there was none.
pub proof fn durable_work_links_to_its_creator(ray_id: Seq<char>, context: SpanContextView)
    ensures
        durable_of(TraceContextView { ray_id, span: span_fields(context) }).ray_id == ray_id,
        durable_link(durable_of(TraceContextView { ray_id, span: span_fields(context) })) == (
        if context.is_valid() {
            Some(received(context))
        } else {
            None
        }),
{
    if context.is_valid() {
        outbound_call_stays_in_trace(context);
    }
}

/// The ids and flags that are handed out are those of the span, and agree with the `traceparent`
/// field beside them: its columns hold the same trace and the same span, and the sampling flag
/// alone. The trace state is handed on as it is where it was rendered before, and as it is
/// rendered otherwise. Whatever the trace state, fields are handed out exactly when neither id is
/// zero.
pub proof fn handed_out_ids_agree_with_traceparent(
    handed_out: Option<ActorInvocationSpanContext>,
    context: SpanContext,
)
    requires
        fields_of(handed_out) == span_fields(context@),
    ensures
        handed_out is Some <==> context.trace_id != 0 && context.span_id != 0,
        handed_out matches Some(fields) ==> {
            &&& fields.trace_id@ == lower_hex(context.trace_id as nat, 32)
            &&& fields.span_id@ == lower_hex(context.span_id as nat, 16)
            &&& fields.trace_flags == context.trace_flags
            &&& fields.traceparent@.len() == 55
            &&& fields.traceparent@.subrange(3, 35) == fields.trace_id@
            &&& fields.traceparent@.subrange(36, 52) == fields.span_id@
            &&& fields.traceparent@.subrange(53, 55) == lower_hex(
                (fields.trace_flags % 2) as nat,
                2,
            )
            &&& fields.tracestate matches Some(state) && (state@ == context.trace_state@
                || state@ == trace_state_header(context.trace_state@))
            &&& (exists|source: Seq<char>|
                context.trace_state@ == #[trigger] trace_state_header(source))
                ==> text_of(fields.tracestate) == Some(context.trace_state@)
        },
{
    if context@.is_valid() {
        traceparent_columns(context.trace_id, context.span_id, context.trace_flags % 2);
    }
}

/// Two spans of one trace are handed out under one trace id, and spans of two traces under two,
/// whatever else differs between them; and likewise for span ids.
pub proof fn handed_out_ids_tell_spans_apart(
    fields: ActorInvocationSpanContext,
    other_fields: ActorInvocationSpanContext,
    context: SpanContext,
    other: SpanContext,
)
    requires
        span_fields(context@) == Some(fields@),
        span_fields(other@) == Some(other_fields@),
    ensures
        fields.trace_id@ == other_fields.trace_id@ <==> context.trace_id == other.trace_id,
        fields.span_id@ == other_fields.span_id@ <==> context.span_id == other.span_id,
{
    assert(hex_range(16) == 0x1_0000_0000_0000_0000) by {
        reveal_with_fuel(hex_range, 17);
    }
    assert(hex_range(32) == 0x1_0000_0000_0000_0000_0000_0000_0000_0000) by {
        reveal_with_fuel(hex_range, 33);
    }
    if fields.trace_id@ == other_fields.trace_id@ {
        lemma_lower_hex_injective(context.trace_id as nat, other.trace_id as nat, 32);
    }
    if fields.span_id@ == other_fields.span_id@ {
        lemma_lower_hex_injective(context.span_id as nat, other.span_id as nat, 16);
    }
}

/// What is persisted of an invocation's fields is the ray and, where there is a span, its
/// `traceparent` and its trace state, all as they are; without a span there is neither.
pub proof fn durable_context_keeps_the_fields(
    durable: DurableTraceContext,
    context: ActorInvocationTraceContext,
)
    requires
        durable@ == durable_of(context@),
    ensures
        durable.ray_id@ == context.ray_id@,
        match context.span {
            Some(span) => text_of(durable.traceparent) == Some(span.traceparent@) && text_of(
                durable.tracestate,
            ) == text_of(span.tracestate),
            None => durable.traceparent is None && durable.tracestate is None,
        },
{
}

/// Durable work links to the span that its persisted fields are read as, and to nothing where no
/// `traceparent` was persisted.
pub proof fn durable_link_is_what_was_persisted(link: DurableTraceContext)
    ensures
        match link.traceparent {
            Some(traceparent) => durable_link(link@) == parsed_context(
                traceparent@,
                text_of(link.tracestate),
            ),
            None => durable_link(link@) is None,
        },
{
}

} // verus!
