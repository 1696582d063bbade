//! What holds of telemetry as a whole.

use vstd::prelude::*;

use crate::callback::{
    callback_of, callback_parent, callback_span, inherited_ray, started, ActorCallbackTelemetry,
    ActorContext, ActorView, CallbackView,
};
use crate::context::{
    durable_of, durable_work_links_to_its_creator, outbound_call_stays_in_trace, received,
};
use crate::headers::{field_text, is_text_byte, value_text};
use crate::invocation::{
    answer, finished, invocation_span, link_of, operation_span, propagated, started_invocation,
    InvocationSpanView, InvocationView,
};
use crate::propagation::{
    carried_state, parsed_context, traceparent_text, written_traceparent_is_read_back,
    SpanContextView,
};
use crate::ray::{
    actor_ray_is_read, fresh_ray_ids_are_accepted, gateway_ray_is_read, is_random_uuid, is_ray_id,
    no_ray_is_made_up, sends_a_ray, sent_as,
};
use crate::span::{outcome, remote_parent, ErrorIdentity, SpanParent, SpanParentView};
use crate::text::{is_lower_hex_char, lemma_lower_hex_chars, lower_hex, lowered};

verus! {

/// An invocation hands its ray on from its start until it is answered, with export or without.
pub proof fn running_invocation_has_its_ray(
    enabled: bool,
    actor_id: Seq<char>,
    actor_name: Seq<char>,
    actor_key: Seq<char>,
    action_name: Seq<char>,
    invocation_type: Seq<char>,
    ray_id: Seq<char>,
    parent: Option<SpanContextView>,
    link: Option<SpanContextView>,
    context: SpanContextView,
)
    ensures
        ({
            let telemetry = started_invocation(
                enabled,
                actor_id,
                actor_name,
                actor_key,
                action_name,
                invocation_type,
                ray_id,
                parent,
                link,
            );
            &&& propagated(telemetry, context) matches Some(fields) && fields.ray_id == ray_id && (
            fields.span is Some <==> enabled && context.is_valid())
            &&& propagated(finished(telemetry), context) is None
        }),
{
}

/// An answered invocation stays answered: answering again records nothing and changes nothing,
/// and no context is handed out.
pub proof fn answering_is_final(
    telemetry: InvocationView,
    status: Seq<char>,
    error_type: Option<Seq<char>>,
    context: SpanContextView,
)
    ensures
        finished(finished(telemetry)) == finished(telemetry),
        answer(finished(telemetry), status, error_type) == Seq::<(Seq<char>, Seq<char>)>::empty(),
        propagated(finished(telemetry), context) is None,
        !(finished(telemetry).span is Active),
{
}

/// A trace context that cannot be read is ignored: the invocation starts as if there were none.
pub proof fn invalid_context_is_ignored(
    enabled: bool,
    actor_id: Seq<char>,
    actor_name: Seq<char>,
    actor_key: Seq<char>,
    action_name: Seq<char>,
    invocation_type: Seq<char>,
    ray_id: Seq<char>,
    traceparent: Seq<char>,
    tracestate: Option<Seq<char>>,
    link: Option<SpanContextView>,
)
    requires
        parsed_context(traceparent, tracestate) is None,
    ensures
        started_invocation(
            enabled,
            actor_id,
            actor_name,
            actor_key,
            action_name,
            invocation_type,
            ray_id,
            remote_parent(Some(traceparent), tracestate),
            link,
        ) == started_invocation(
            enabled,
            actor_id,
            actor_name,
            actor_key,
            action_name,
            invocation_type,
            ray_id,
            None,
            link,
        ),
{
}

/// A callback ignores a trace context that cannot be read: it starts a trace of its own.
pub proof fn callback_ignores_an_invalid_context(values: Map<Seq<char>, Seq<u8>>)
    requires
        match field_text(values, "traceparent"@) {
            Some(text) => parsed_context(text, field_text(values, "tracestate"@)) is None,
            None => true,
        },
    ensures
        callback_parent(None, Some(values)) == SpanParentView::Root,
{
}

/// An actor that is called with a running invocation's fields continues that invocation's trace
/// beneath its span and keeps its ray.
pub proof fn called_actor_joins_the_trace(
    caller: InvocationView,
    context: SpanContextView,
    actor_id: Seq<char>,
    actor_name: Seq<char>,
    actor_key: Seq<char>,
    action_name: Seq<char>,
    invocation_type: Seq<char>,
)
    requires
        caller.span is Active,
        context.is_valid(),
    ensures
        ({
            let sent = propagated(caller, context)->0;
            let fields = sent.span->0;
            let called = started_invocation(
                true,
                actor_id,
                actor_name,
                actor_key,
                action_name,
                invocation_type,
                sent.ray_id,
                remote_parent(Some(fields.traceparent), fields.tracestate),
                None,
            );
            &&& propagated(caller, context) is Some
            &&& sent.span is Some
            &&& called.ray_id == caller.ray_id
            &&& called.span matches InvocationSpanView::Active(span) && span.parent
                == SpanParentView::Remote(received(context))
        }),
{
    outbound_call_stays_in_trace(context);
}

/// What is persisted of a running creator holds the creator's ray, so a one-shot invocation that
/// is started under the persisted ray shares it. Under this ray or, for a recurring schedule, a
/// ray of its own, a scheduled invocation starts a trace of its own, and links to the creator's
/// span if the creator ran with a valid one and to nothing otherwise.
pub proof fn scheduled_invocation_links_to_its_creator(
    creator: InvocationView,
    context: SpanContextView,
    actor_id: Seq<char>,
    actor_name: Seq<char>,
    actor_key: Seq<char>,
    action_name: Seq<char>,
    ray_id: Seq<char>,
)
    requires
        !(creator.span is Finished),
    ensures
        ({
            let persisted = durable_of(propagated(creator, context)->0);
            let scheduled = started_invocation(
                true,
                actor_id,
                actor_name,
                actor_key,
                action_name,
                "scheduled"@,
                ray_id,
                None,
                link_of(Some(persisted)),
            );
            &&& propagated(creator, context) is Some
            &&& persisted.ray_id == creator.ray_id
            &&& scheduled.ray_id == ray_id
            &&& scheduled.span matches InvocationSpanView::Active(span) && span.parent
                == SpanParentView::Root && span.links == (if creator.span is Active
                && context.is_valid() {
                seq![received(context)]
            } else {
                Seq::empty()
            })
        }),
{
    durable_work_links_to_its_creator(creator.ray_id, context);
    if creator.span is Active && context.is_valid() {
        assert(Seq::<SpanContextView>::empty().push(received(context)) =~= seq![received(context)]);
    }
}

/// Every callback has a ray that other actors accept, as long as a parent's was one; a callback
/// beneath a parent shares the parent's ray, and hangs under the parent's span while it is open.
pub proof fn callbacks_share_the_ray(
    telemetry: CallbackView,
    actor: ActorView,
    system: Seq<char>,
    operation: Seq<char>,
    parent: Option<CallbackView>,
    request: Option<Map<Seq<char>, Seq<u8>>>,
    connection_id: Option<Seq<char>>,
)
    requires
        started(telemetry, actor, system, operation, parent, request, connection_id),
        parent matches Some(parent) ==> is_ray_id(parent.ray_id),
    ensures
        is_ray_id(telemetry.ray_id),
        telemetry.wf(),
        parent matches Some(parent) ==> telemetry.ray_id == parent.ray_id,
        parent matches Some(parent) && parent.span is Some ==> telemetry.span->0.parent
            == SpanParentView::Local,
{
    if inherited_ray(parent, request) is None {
        fresh_ray_ids_are_accepted(telemetry.ray_id);
    }
    assert(telemetry.span->0.attributes[6] == ("rivet.ray.id"@, telemetry.ray_id));
}

/// A `traceparent` field that was sent in a request is the field that the receiver reads.
pub proof fn sent_traceparent_is_received(
    values: Map<Seq<char>, Seq<u8>>,
    trace_id: u128,
    span_id: u64,
    trace_flags: u8,
)
    requires
        values.contains_key(lowered("traceparent"@)),
        values[lowered("traceparent"@)] == Seq::new(
            traceparent_text(trace_id, span_id, trace_flags).len(),
            |i: int| traceparent_text(trace_id, span_id, trace_flags)[i] as u8,
        ),
    ensures
        field_text(values, "traceparent"@) == Some(
            traceparent_text(trace_id, span_id, trace_flags),
        ),
{
    reveal_strlit("00-");
    reveal_strlit("-");
    lemma_lower_hex_chars(trace_id as nat, 32);
    lemma_lower_hex_chars(span_id as nat, 16);
    lemma_lower_hex_chars(trace_flags as nat, 2);
    let text = traceparent_text(trace_id, span_id, trace_flags);
    let bytes = values[lowered("traceparent"@)];
    assert forall|i: int| 0 <= i < text.len() implies is_lower_hex_char(#[trigger] text[i])
        || text[i] == '-' by {
        let ids = lower_hex(trace_id as nat, 32);
        let spans = lower_hex(span_id as nat, 16);
        let flags = lower_hex(trace_flags as nat, 2);
        if 3 <= i < 35 {
            assert(text[i] == ids[i - 3]);
        } else if 36 <= i < 52 {
            assert(text[i] == spans[i - 36]);
        } else if 53 <= i {
            assert(text[i] == flags[i - 53]);
        }
    }
    assert forall|i: int| 0 <= i < bytes.len() implies is_text_byte(#[trigger] bytes[i]) by {
        assert(bytes[i] == text[i] as u8);
    }
    let read = value_text(bytes)->0;
    assert forall|i: int| 0 <= i < text.len() implies read[i] == text[i] by {
        assert(bytes[i] == text[i] as u8);
    }
    assert(read =~= text);
}

/// A callback without a parent continues the trace of a request that carries the `traceparent`
/// field of a valid span: it hangs under that very span.
pub proof fn callback_continues_the_requests_trace(
    values: Map<Seq<char>, Seq<u8>>,
    trace_id: u128,
    span_id: u64,
    trace_flags: u8,
)
    requires
        trace_id != 0,
        span_id != 0,
        values.contains_key(lowered("traceparent"@)),
        values[lowered("traceparent"@)] == Seq::new(
            traceparent_text(trace_id, span_id, trace_flags % 2).len(),
            |i: int| traceparent_text(trace_id, span_id, trace_flags % 2)[i] as u8,
        ),
    ensures
        callback_parent(None, Some(values)) == SpanParentView::Remote(
            SpanContextView {
                trace_id,
                span_id,
                trace_flags: trace_flags % 2,
                is_remote: true,
                trace_state: match field_text(values, "tracestate"@) {
                    Some(text) => carried_state(text),
                    None => Seq::empty(),
                },
            },
        ),
{
    sent_traceparent_is_received(values, trace_id, span_id, trace_flags % 2);
    written_traceparent_is_read_back(
        trace_id,
        span_id,
        trace_flags,
        field_text(values, "tracestate"@),
    );
}

/// Connection callbacks carry the connection's id: connect and disconnect are joined by it.
pub proof fn connection_callbacks_carry_the_connection(
    telemetry: CallbackView,
    actor: ActorView,
    system: Seq<char>,
    operation: Seq<char>,
    request: Option<Map<Seq<char>, Seq<u8>>>,
    connection_id: Seq<char>,
)
    requires
        started(telemetry, actor, system, operation, None, request, Some(connection_id)),
    ensures
        telemetry.span matches Some(span) && span.attributes.contains(
            ("rivet.connection.id"@, connection_id),
        ) && span.attributes.contains(("rivet.actor.id"@, actor.actor_id)),
{
    let span = telemetry.span->0;
    assert(span.attributes[7] == ("rivet.connection.id"@, connection_id));
    assert(span.attributes[3] == ("rivet.actor.id"@, actor.actor_id));
}

/// The keys that spans may record: runtime metadata, and no arguments, results, state, stored
/// data or error messages.
pub open spec fn is_metadata_key(key: Seq<char>) -> bool {
    ||| key == "otel.name"@
    ||| key == "otel.kind"@
    ||| key == "otel.status_code"@
    ||| key == "error.type"@
    ||| key == "rivet.ray.id"@
    ||| key == "rivet.actor.id"@
    ||| key == "rivet.actor.name"@
    ||| key == "rivet.actor.key"@
    ||| key == "rivet.action.name"@
    ||| key == "rivet.invocation.type"@
    ||| key == "rivet.callback.name"@
    ||| key == "rivet.connection.id"@
    ||| key == "rivet.operation.system"@
    ||| key == "rivet.operation.name"@
}

/// Whether all keys of a list are metadata keys.
pub open spec fn only_metadata(attributes: Seq<(Seq<char>, Seq<char>)>) -> bool {
    forall|i: int| 0 <= i < attributes.len() ==> is_metadata_key((#[trigger] attributes[i]).0)
}

/// Spans record runtime metadata only.
pub proof fn spans_record_metadata_only<T>(
    actor: ActorView,
    telemetry: InvocationView,
    system: Seq<char>,
    operation: Seq<char>,
    connection_id: Option<Seq<char>>,
    action_name: Seq<char>,
    invocation_type: Seq<char>,
    parent: SpanParentView,
    result: Result<T, ErrorIdentity>,
    status: Seq<char>,
    error_type: Option<Seq<char>>,
)
    ensures
        only_metadata(
            callback_span(
                actor,
                system,
                operation,
                connection_id,
                telemetry.ray_id,
                parent,
            ).attributes,
        ),
        only_metadata(
            invocation_span(
                telemetry.actor_id,
                telemetry.actor_name,
                telemetry.actor_key,
                action_name,
                invocation_type,
                telemetry.ray_id,
            ).attributes,
        ),
        only_metadata(operation_span(telemetry, system, operation).attributes),
        only_metadata(outcome(result)),
        only_metadata(answer(telemetry, status, error_type)),
{
}

/// An error is recorded by its group and code alone, and a success without an error type.
pub proof fn outcomes_are_bounded<T, U>(
    result: Result<T, ErrorIdentity>,
    other: Result<U, ErrorIdentity>,
)
    requires
        match (result, other) {
            (Ok(_), Ok(_)) => true,
            (Err(error), Err(same)) => error.group@ == same.group@ && error.code@ == same.code@,
            _ => false,
        },
    ensures
        outcome(result) == outcome(other),
        result is Ok <==> outcome(result) == seq![("otel.status_code"@, "OK"@)],
{
    reveal_strlit("OK");
    reveal_strlit("ERROR");
    if result is Err {
        assert(outcome(result).len() == 2);
    }
}

/// A callback runs under its parent's ray; without a parent under an acceptable ray id that an
/// actor or the gateway sent with the request, the actor's first; and under a made-up one only
/// where neither was sent.
pub proof fn callback_takes_the_sent_ray(
    telemetry: ActorCallbackTelemetry,
    ctx: ActorContext,
    system: Seq<char>,
    operation: Seq<char>,
    parent: Option<&ActorCallbackTelemetry>,
    request: Option<Map<Seq<char>, Seq<u8>>>,
    connection_id: Option<Seq<char>>,
    ray_id: Seq<char>,
)
    requires
        started(
            telemetry@,
            ctx@,
            system,
            operation,
            callback_of(parent),
            request,
            connection_id,
        ),
        is_ray_id(ray_id),
    ensures
        match (parent, request) {
            (Some(parent), _) => telemetry.ray_id@ == parent.ray_id@,
            (None, Some(values)) => {
                &&& values.contains_key("x-rivetkit-ray-id"@) && values["x-rivetkit-ray-id"@]
                    == sent_as(ray_id) ==> telemetry.ray_id@ == ray_id
                &&& !sends_a_ray(values, "x-rivetkit-ray-id"@) && values.contains_key(
                    "x-rivet-ray-id"@,
                ) && values["x-rivet-ray-id"@] == sent_as(ray_id) ==> telemetry.ray_id@ == ray_id
                &&& !sends_a_ray(values, "x-rivetkit-ray-id"@) && !sends_a_ray(
                    values,
                    "x-rivet-ray-id"@,
                ) ==> is_random_uuid(telemetry.ray_id@)
            },
            (None, None) => is_random_uuid(telemetry.ray_id@),
        },
{
    if let (None, Some(values)) = (parent, request) {
        if values.contains_key("x-rivetkit-ray-id"@) && values["x-rivetkit-ray-id"@] == sent_as(
            ray_id,
        ) {
            actor_ray_is_read(values, ray_id);
        }
        if !sends_a_ray(values, "x-rivetkit-ray-id"@) {
            if values.contains_key("x-rivet-ray-id"@) && values["x-rivet-ray-id"@] == sent_as(
                ray_id,
            ) {
                gateway_ray_is_read(values, ray_id);
            }
            if !sends_a_ray(values, "x-rivet-ray-id"@) {
                no_ray_is_made_up(values);
            }
        }
    }
}

/// A callback beneath a parent is a child of the parent's span while that is open, and starts a
/// trace once it is closed, whatever the request names. Without a parent it continues exactly the
/// trace that the request's two fields are read as, and starts one where they are read as none.
pub proof fn callback_is_placed_by_parent_or_request(
    telemetry: ActorCallbackTelemetry,
    ctx: ActorContext,
    system: Seq<char>,
    operation: Seq<char>,
    parent: Option<&ActorCallbackTelemetry>,
    request: Option<Map<Seq<char>, Seq<u8>>>,
    connection_id: Option<Seq<char>>,
)
    requires
        started(
            telemetry@,
            ctx@,
            system,
            operation,
            callback_of(parent),
            request,
            connection_id,
        ),
    ensures
        telemetry.span matches Some(span) && match (parent, request) {
            (Some(parent), _) => if parent.span is Some {
                span.parent is Local
            } else {
                span.parent is Root
            },
            (None, None) => span.parent is Root,
            (None, Some(values)) => match field_text(values, "traceparent"@) {
                Some(text) => match parsed_context(text, field_text(values, "tracestate"@)) {
                    Some(context) => span.parent matches SpanParent::Remote(kept) && kept@
                        == context,
                    None => span.parent is Root,
                },
                None => span.parent is Root,
            },
        },
{
}

} // verus!
