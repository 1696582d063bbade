//! What the spans of callbacks, invocations and operations hold, field by field.

use vstd::prelude::*;

use crate::callback::{callback_of, callback_span, started, ActorCallbackTelemetry, ActorContext};
use crate::context::{span_fields, ActorInvocationTraceContext};
use crate::invocation::{
    answer, finished, invocation_span, linked, operation_span, propagated, started_invocation,
    trace_context_of, ActorInvocationTelemetry, InvocationSpan,
};
use crate::propagation::{context_of, parsed_context, text_of, SpanContext};
use crate::span::{
    adopted, outcome, recorded, remote_parent, Attribute, ErrorIdentity, Span, SpanParent,
};

verus! {

/// Whether a list has exactly one field under a key, and this field has the given value.
pub open spec fn holds_once(fields: Seq<Attribute>, key: Seq<char>, value: Seq<char>) -> bool {
    exists|i: int|
        #![trigger fields[i]]
        0 <= i < fields.len() && fields[i].key@ == key && fields[i].value@ == value && forall|
            j: int,
        |
            #![trigger fields[j]]
            0 <= j < fields.len() && fields[j].key@ == key ==> j == i
}

/// Whether no key occurs twice in a list.
pub open spec fn keys_differ(list: Seq<(Seq<char>, Seq<char>)>) -> bool {
    forall|i: int, j: int|
        #![trigger list[i], list[j]]
        0 <= i < list.len() && 0 <= j < list.len() && i != j ==> list[i].0 != list[j].0
}

/// Where no key occurs twice, every field of a list is held once.
proof fn lemma_holds_once(fields: Seq<Attribute>, list: Seq<(Seq<char>, Seq<char>)>)
    requires
        recorded(fields) == list,
        keys_differ(list),
    ensures
        fields.len() == list.len(),
        forall|i: int|
            0 <= i < list.len() ==> holds_once(fields, (#[trigger] list[i]).0, list[i].1),
{
    assert forall|i: int| 0 <= i < list.len() implies holds_once(
        fields,
        (#[trigger] list[i]).0,
        list[i].1,
    ) by {
        assert(recorded(fields)[i] == fields[i]@);
        assert forall|j: int|
            #![trigger fields[j]]
            0 <= j < fields.len() && fields[j].key@ == list[i].0 implies j == i by {
            assert(recorded(fields)[j] == fields[j]@);
            assert(list[j].0 == list[i].0);
        }
    }
}

/// The keys that spans use are all different.
proof fn lemma_literal_keys()
    ensures
        "otel.name"@.len() == 9,
        "otel.kind"@.len() == 9,
        "otel.name"@ != "otel.kind"@,
        "rivet.ray.id"@.len() == 12,
        "rivet.actor.id"@.len() == 14,
        "rivet.actor.key"@.len() == 15,
        "rivet.actor.name"@.len() == 16,
        "rivet.action.name"@.len() == 17,
        "rivet.callback.name"@.len() == 19,
        "rivet.connection.id"@.len() == 19,
        "rivet.callback.name"@ != "rivet.connection.id"@,
        "rivet.operation.name"@.len() == 20,
        "rivet.invocation.type"@.len() == 21,
        "rivet.operation.system"@.len() == 22,
        "otel.status_code"@.len() == 16,
        "error.type"@.len() == 10,
{
    reveal_strlit("otel.name");
    reveal_strlit("otel.kind");
    assert("otel.name"@[5] != "otel.kind"@[5]);
    reveal_strlit("rivet.ray.id");
    reveal_strlit("rivet.actor.id");
    reveal_strlit("rivet.actor.key");
    reveal_strlit("rivet.actor.name");
    reveal_strlit("rivet.action.name");
    reveal_strlit("rivet.callback.name");
    reveal_strlit("rivet.connection.id");
    assert("rivet.callback.name"@[7] != "rivet.connection.id"@[7]);
    reveal_strlit("rivet.operation.name");
    reveal_strlit("rivet.invocation.type");
    reveal_strlit("rivet.operation.system");
    reveal_strlit("otel.status_code");
    reveal_strlit("error.type");
}

/// The span of a callback has each of its fields exactly once and no other field: the span's name
/// and kind, the operation, the three actor fields with the actor's values, the ray, and the
/// connection where there is one. It links to nothing and hangs where it is put.
pub proof fn callback_span_fields(
    span: Span,
    ctx: ActorContext,
    system: Seq<char>,
    operation: Seq<char>,
    connection_id: Option<Seq<char>>,
    ray_id: Seq<char>,
    parent: SpanParent,
)
    requires
        span@ == callback_span(ctx@, system, operation, connection_id, ray_id, parent@),
    ensures
        span.name@ == "rivet.actor.callback"@,
        span.links@.len() == 0,
        match parent {
            SpanParent::Root => span.parent is Root,
            SpanParent::Local => span.parent is Local,
            SpanParent::Remote(context) => span.parent matches SpanParent::Remote(kept)
                && kept.trace_id == context.trace_id && kept.span_id == context.span_id
                && kept.trace_flags == context.trace_flags && kept.is_remote == context.is_remote
                && kept.trace_state@ == context.trace_state@,
        },
        span.attributes@.len() == (if connection_id is Some {
            8nat
        } else {
            7nat
        }),
        holds_once(
            span.attributes@,
            "otel.name"@,
            "rivet.actor."@ + system + "."@ + operation,
        ),
        holds_once(span.attributes@, "otel.kind"@, "internal"@),
        holds_once(span.attributes@, "rivet.callback.name"@, operation),
        holds_once(span.attributes@, "rivet.actor.id"@, ctx.actor_id@),
        holds_once(span.attributes@, "rivet.actor.name"@, ctx.name@),
        holds_once(span.attributes@, "rivet.actor.key"@, ctx.key@),
        holds_once(span.attributes@, "rivet.ray.id"@, ray_id),
        connection_id matches Some(id) ==> holds_once(
            span.attributes@,
            "rivet.connection.id"@,
            id,
        ),
{
    lemma_literal_keys();
    let list = callback_span(
        ctx@,
        system,
        operation,
        connection_id,
        ray_id,
        parent@,
    ).attributes;
    assert(span@.links.len() == span.links@.len());
    lemma_holds_once(span.attributes@, list);
    assert(list[0].0 == "otel.name"@);
    assert(list[1].0 == "otel.kind"@);
    assert(list[2].0 == "rivet.callback.name"@);
    assert(list[3].0 == "rivet.actor.id"@);
    assert(list[4].0 == "rivet.actor.name"@);
    assert(list[5].0 == "rivet.actor.key"@);
    assert(list[6].0 == "rivet.ray.id"@);
    if connection_id is Some {
        assert(list[7].0 == "rivet.connection.id"@);
    }
}

/// A connection id is one more field of a callback's span and changes nothing else of it.
pub proof fn connection_id_is_one_more_field(
    plain: Span,
    connected: Span,
    ctx: ActorContext,
    system: Seq<char>,
    operation: Seq<char>,
    connection_id: Seq<char>,
    ray_id: Seq<char>,
    parent: SpanParent,
)
    requires
        plain@ == callback_span(ctx@, system, operation, None, ray_id, parent@),
        connected@ == callback_span(
            ctx@,
            system,
            operation,
            Some(connection_id),
            ray_id,
            parent@,
        ),
    ensures
        connected.name@ == plain.name@,
        connected.parent@ == plain.parent@,
        connected.links@.len() == plain.links@.len(),
        connected.attributes@.len() == plain.attributes@.len() + 1,
        forall|i: int|
            #![trigger connected.attributes@[i]]
            #![trigger plain.attributes@[i]]
            0 <= i < plain.attributes@.len() ==> connected.attributes@[i].key@
                == plain.attributes@[i].key@ && connected.attributes@[i].value@
                == plain.attributes@[i].value@,
        connected.attributes@.last().key@ == "rivet.connection.id"@,
        connected.attributes@.last().value@ == connection_id,
{
    let before = recorded(plain.attributes@);
    let after = recorded(connected.attributes@);
    assert(connected@.links.len() == connected.links@.len());
    assert(plain@.links.len() == plain.links@.len());
    assert(after =~= before.push(("rivet.connection.id"@, connection_id)));
    assert forall|i: int|
        #![trigger connected.attributes@[i]]
        #![trigger plain.attributes@[i]]
        0 <= i < plain.attributes@.len() implies connected.attributes@[i].key@
        == plain.attributes@[i].key@ && connected.attributes@[i].value@
        == plain.attributes@[i].value@ by {
        assert(before[i] == plain.attributes@[i]@);
        assert(after[i] == connected.attributes@[i]@);
    }
    assert(after.last() == connected.attributes@.last()@);
}

/// A started callback has an open span with every field of a callback's span once, whatever its
/// parent and its request are.
pub proof fn started_callback_fields(
    telemetry: ActorCallbackTelemetry,
    ctx: ActorContext,
    system: Seq<char>,
    operation: Seq<char>,
    parent: Option<&ActorCallbackTelemetry>,
    request: Option<Map<Seq<char>, Seq<u8>>>,
    connection_id: Option<Seq<char>>,
)
    requires
        started(
            telemetry@,
            ctx@,
            system,
            operation,
            callback_of(parent),
            request,
            connection_id,
        ),
    ensures
        telemetry.span matches Some(span) && {
            &&& span.name@ == "rivet.actor.callback"@
            &&& span.links@.len() == 0
            &&& span.attributes@.len() == (if connection_id is Some {
                8nat
            } else {
                7nat
            })
            &&& holds_once(
                span.attributes@,
                "otel.name"@,
                "rivet.actor."@ + system + "."@ + operation,
            )
            &&& holds_once(span.attributes@, "otel.kind"@, "internal"@)
            &&& holds_once(span.attributes@, "rivet.callback.name"@, operation)
            &&& holds_once(span.attributes@, "rivet.actor.id"@, ctx.actor_id@)
            &&& holds_once(span.attributes@, "rivet.actor.name"@, ctx.name@)
            &&& holds_once(span.attributes@, "rivet.actor.key"@, ctx.key@)
            &&& holds_once(span.attributes@, "rivet.ray.id"@, telemetry.ray_id@)
            &&& connection_id matches Some(id) ==> holds_once(
                span.attributes@,
                "rivet.connection.id"@,
                id,
            )
        },
{
    let span = telemetry.span->0;
    callback_span_fields(
        span,
        ctx,
        system,
        operation,
        connection_id,
        telemetry.ray_id@,
        span.parent,
    );
}

/// The span of an invocation has each of its fields exactly once and no other field, links to
/// nothing and starts a trace until it is placed elsewhere.
pub proof fn invocation_span_fields(
    span: Span,
    actor_id: Seq<char>,
    actor_name: Seq<char>,
    actor_key: Seq<char>,
    action_name: Seq<char>,
    invocation_type: Seq<char>,
    ray_id: Seq<char>,
)
    requires
        recorded(span.attributes@) == invocation_span(
            actor_id,
            actor_name,
            actor_key,
            action_name,
            invocation_type,
            ray_id,
        ).attributes,
    ensures
        span.attributes@.len() == 8,
        holds_once(span.attributes@, "otel.name"@, actor_name + "."@ + action_name),
        holds_once(span.attributes@, "otel.kind"@, "server"@),
        holds_once(span.attributes@, "rivet.invocation.type"@, invocation_type),
        holds_once(span.attributes@, "rivet.actor.id"@, actor_id),
        holds_once(span.attributes@, "rivet.actor.name"@, actor_name),
        holds_once(span.attributes@, "rivet.actor.key"@, actor_key),
        holds_once(span.attributes@, "rivet.action.name"@, action_name),
        holds_once(span.attributes@, "rivet.ray.id"@, ray_id),
{
    lemma_literal_keys();
    let list = recorded(span.attributes@);
    lemma_holds_once(span.attributes@, list);
    assert(list[0].0 == "otel.name"@);
    assert(list[1].0 == "otel.kind"@);
    assert(list[2].0 == "rivet.invocation.type"@);
    assert(list[3].0 == "rivet.actor.id"@);
    assert(list[4].0 == "rivet.actor.name"@);
    assert(list[5].0 == "rivet.actor.key"@);
    assert(list[6].0 == "rivet.action.name"@);
    assert(list[7].0 == "rivet.ray.id"@);
}

/// Whether two span contexts hold the same values.
pub open spec fn same_context(a: SpanContext, b: SpanContext) -> bool {
    &&& a.trace_id == b.trace_id
    &&& a.span_id == b.span_id
    &&& a.trace_flags == b.trace_flags
    &&& a.is_remote == b.is_remote
    &&& a.trace_state@ == b.trace_state@
}

/// A started invocation keeps the ray and the actor it was given. With export it is active: its
/// span is the child of the remote parent, if one was read, or else starts a trace; it links to
/// the creator, if one was read, and to nothing else; and it has every field of an invocation's
/// span once. Without export it has no span.
pub proof fn started_invocation_fields(
    telemetry: ActorInvocationTelemetry,
    enabled: bool,
    actor_id: Seq<char>,
    actor_name: Seq<char>,
    actor_key: Seq<char>,
    action_name: Seq<char>,
    invocation_type: Seq<char>,
    ray_id: Seq<char>,
    parent: Option<SpanContext>,
    link: Option<SpanContext>,
)
    requires
        telemetry@ == started_invocation(
            enabled,
            actor_id,
            actor_name,
            actor_key,
            action_name,
            invocation_type,
            ray_id,
            context_of(parent),
            context_of(link),
        ),
    ensures
        telemetry.ray_id@ == ray_id,
        telemetry.actor_id@ == actor_id,
        telemetry.actor_name@ == actor_name,
        telemetry.actor_key@ == actor_key,
        !enabled ==> telemetry.span is Disabled,
        enabled ==> {
            &&& telemetry.span matches InvocationSpan::Active(span)
            &&& span.name@ == "rivet.actor.invoke"@
            &&& match parent {
                Some(context) => span.parent matches SpanParent::Remote(kept) && same_context(
                    kept,
                    context,
                ),
                None => span.parent is Root,
            }
            &&& match link {
                Some(context) => span.links@.len() == 1 && same_context(span.links@[0], context),
                None => span.links@.len() == 0,
            }
            &&& span.attributes@.len() == 8
            &&& holds_once(span.attributes@, "otel.name"@, actor_name + "."@ + action_name)
            &&& holds_once(span.attributes@, "otel.kind"@, "server"@)
            &&& holds_once(span.attributes@, "rivet.invocation.type"@, invocation_type)
            &&& holds_once(span.attributes@, "rivet.actor.id"@, actor_id)
            &&& holds_once(span.attributes@, "rivet.actor.name"@, actor_name)
            &&& holds_once(span.attributes@, "rivet.actor.key"@, actor_key)
            &&& holds_once(span.attributes@, "rivet.action.name"@, action_name)
            &&& holds_once(span.attributes@, "rivet.ray.id"@, ray_id)
        },
{
    if enabled {
        let span = telemetry.span->Active_0;
        invocation_span_fields(
            span,
            actor_id,
            actor_name,
            actor_key,
            action_name,
            invocation_type,
            ray_id,
        );
        assert(span@.links.len() == span.links@.len());
        if link is Some {
            assert(span@.links[0] == span.links@[0]@);
        }
    }
}

/// A runtime operation beneath an active invocation is a child of the invocation's span, however
/// that span was placed itself. It links to nothing, and names the operation, the actor and the
/// ray, each once and nothing else.
pub proof fn operation_is_a_child_of_its_invocation(
    span: Span,
    telemetry: ActorInvocationTelemetry,
    system: Seq<char>,
    operation: Seq<char>,
)
    requires
        telemetry.span is Active,
        span@ == operation_span(telemetry@, system, operation),
    ensures
        span.name@ == "rivet.runtime.operation"@,
        span.parent is Local,
        span.links@.len() == 0,
        span.attributes@.len() == 8,
        holds_once(span.attributes@, "otel.name"@, "rivet."@ + system + "."@ + operation),
        holds_once(span.attributes@, "otel.kind"@, "internal"@),
        holds_once(span.attributes@, "rivet.operation.system"@, system),
        holds_once(span.attributes@, "rivet.operation.name"@, operation),
        holds_once(span.attributes@, "rivet.actor.id"@, telemetry.actor_id@),
        holds_once(span.attributes@, "rivet.actor.name"@, telemetry.actor_name@),
        holds_once(span.attributes@, "rivet.actor.key"@, telemetry.actor_key@),
        holds_once(span.attributes@, "rivet.ray.id"@, telemetry.ray_id@),
{
    lemma_literal_keys();
    let list = recorded(span.attributes@);
    assert(span@.links.len() == span.links@.len());
    lemma_holds_once(span.attributes@, list);
    assert(list[0].0 == "otel.name"@);
    assert(list[1].0 == "otel.kind"@);
    assert(list[2].0 == "rivet.operation.system"@);
    assert(list[3].0 == "rivet.operation.name"@);
    assert(list[4].0 == "rivet.actor.id"@);
    assert(list[5].0 == "rivet.actor.name"@);
    assert(list[6].0 == "rivet.actor.key"@);
    assert(list[7].0 == "rivet.ray.id"@);
}

/// What is recorded of a result is the status and, for an error, its identity: the group, a dot
/// and the code. Each is recorded once, and nothing else is.
pub proof fn outcome_fields<T>(fields: Seq<Attribute>, result: Result<T, ErrorIdentity>)
    requires
        recorded(fields) == outcome(result),
    ensures
        match result {
            Ok(_) => fields.len() == 1 && holds_once(fields, "otel.status_code"@, "OK"@),
            Err(error) => fields.len() == 2 && holds_once(fields, "otel.status_code"@, "ERROR"@)
                && holds_once(fields, "error.type"@, error.group@.push('.') + error.code@),
        },
{
    lemma_literal_keys();
    lemma_holds_once(fields, recorded(fields));
    let list = recorded(fields);
    assert(list[0].0 == "otel.status_code"@);
    if let Err(error) = result {
        reveal_strlit(".");
        assert(error.group@ + "."@ =~= error.group@.push('.'));
        assert(list[1].0 == "error.type"@);
    }
}

/// What is recorded when an active invocation is answered is the status and, if there is one, the
/// error type, each once and as they were given; for another invocation nothing is.
pub proof fn answer_fields(
    fields: Seq<Attribute>,
    telemetry: ActorInvocationTelemetry,
    status: Seq<char>,
    error_type: Option<String>,
)
    requires
        recorded(fields) == answer(telemetry@, status, text_of(error_type)),
    ensures
        match telemetry.span {
            InvocationSpan::Active(_) => {
                &&& fields.len() == (if error_type is Some {
                    2nat
                } else {
                    1nat
                })
                &&& holds_once(fields, "otel.status_code"@, status)
                &&& error_type matches Some(text) ==> holds_once(fields, "error.type"@, text@)
            },
            _ => fields.len() == 0,
        },
{
    lemma_literal_keys();
    lemma_holds_once(fields, recorded(fields));
    if telemetry.span is Active {
        let list = recorded(fields);
        assert(list[0].0 == "otel.status_code"@);
        if error_type is Some {
            assert(list[1].0 == "error.type"@);
        }
    } else {
        assert(recorded(fields).len() == fields.len());
    }
}

/// Answering an invocation ends its span and changes neither its ray nor its actor.
pub proof fn answering_keeps_the_identity(
    before: ActorInvocationTelemetry,
    after: ActorInvocationTelemetry,
)
    requires
        after@ == finished(before@),
    ensures
        after.span is Finished,
        after.ray_id@ == before.ray_id@,
        after.actor_id@ == before.actor_id@,
        after.actor_name@ == before.actor_name@,
        after.actor_key@ == before.actor_key@,
{
}

/// A running invocation hands out its own ray. It hands out a span exactly when it is active and
/// neither id of its span's context is zero; an answered invocation hands out nothing.
pub proof fn handed_out_context(
    handed_out: Option<ActorInvocationTraceContext>,
    telemetry: ActorInvocationTelemetry,
    context: SpanContext,
)
    requires
        trace_context_of(handed_out) == propagated(telemetry@, context@),
    ensures
        handed_out is None <==> telemetry.span is Finished,
        handed_out matches Some(fields) ==> {
            &&& fields.ray_id@ == telemetry.ray_id@
            &&& fields.span is Some <==> telemetry.span is Active && context.trace_id != 0
                && context.span_id != 0
            &&& fields.span matches Some(span) ==> Some(span@) == span_fields(context@)
        },
{
}

/// A remote parent moves a span to another trace and changes nothing else of it; without one the
/// span stays where it is.
pub proof fn adoption_moves_the_span_only(before: Span, after: Span, parent: Option<SpanContext>)
    requires
        after@ == adopted(before@, context_of(parent)),
    ensures
        after.name@ == before.name@,
        recorded(after.attributes@) == recorded(before.attributes@),
        after@.links == before@.links,
        match parent {
            Some(context) => after.parent matches SpanParent::Remote(kept) && same_context(
                kept,
                context,
            ),
            None => after.parent@ == before.parent@,
        },
{
}

/// A link is added behind those that a span has and changes nothing else of it; without one the
/// span stays as it is.
pub proof fn linking_adds_one_link(before: Span, after: Span, link: Option<SpanContext>)
    requires
        after@ == linked(before@, context_of(link)),
    ensures
        after.name@ == before.name@,
        after.parent@ == before.parent@,
        recorded(after.attributes@) == recorded(before.attributes@),
        after.links@.len() == before.links@.len() + (if link is Some {
            1int
        } else {
            0int
        }),
        forall|i: int|
            #![trigger after.links@[i]]
            #![trigger before.links@[i]]
            0 <= i < before.links@.len() ==> same_context(after.links@[i], before.links@[i]),
        link matches Some(context) ==> same_context(after.links@.last(), context),
{
    assert(after@.links.len() == after.links@.len());
    assert(before@.links.len() == before.links@.len());
    assert forall|i: int|
        #![trigger after.links@[i]]
        #![trigger before.links@[i]]
        0 <= i < before.links@.len() implies same_context(after.links@[i], before.links@[i]) by {
        assert(after@.links[i] == after.links@[i]@);
        assert(before@.links[i] == before.links@[i]@);
    }
    if link is Some {
        assert(after@.links.last() == after.links@.last()@);
    }
}

/// Recording appends one field and changes nothing else of a span.
pub proof fn recording_adds_one_field(
    before: Span,
    after: Span,
    key: Seq<char>,
    value: Seq<char>,
)
    requires
        after@ == before@.with(key, value),
    ensures
        after.name@ == before.name@,
        after.parent@ == before.parent@,
        after@.links == before@.links,
        after.attributes@.len() == before.attributes@.len() + 1,
        forall|i: int|
            #![trigger after.attributes@[i]]
            #![trigger before.attributes@[i]]
            0 <= i < before.attributes@.len() ==> after.attributes@[i].key@
                == before.attributes@[i].key@ && after.attributes@[i].value@
                == before.attributes@[i].value@,
        after.attributes@.last().key@ == key,
        after.attributes@.last().value@ == value,
{
    let list = recorded(after.attributes@);
    assert(list.len() == after.attributes@.len());
    assert(recorded(before.attributes@).len() == before.attributes@.len());
    assert forall|i: int|
        #![trigger after.attributes@[i]]
        #![trigger before.attributes@[i]]
        0 <= i < before.attributes@.len() implies after.attributes@[i].key@
        == before.attributes@[i].key@ && after.attributes@[i].value@
        == before.attributes@[i].value@ by {
        assert(list[i] == after.attributes@[i]@);
        assert(recorded(before.attributes@)[i] == before.attributes@[i]@);
    }
    assert(list.last() == after.attributes@.last()@);
}

/// There is no remote parent without a `traceparent` field, and with one the parent is what the
/// two fields are read as.
pub proof fn remote_parent_needs_a_traceparent(
    traceparent: Option<Seq<char>>,
    tracestate: Option<Seq<char>>,
)
    ensures
        traceparent is None ==> remote_parent(traceparent, tracestate) is None,
        traceparent matches Some(text) ==> remote_parent(traceparent, tracestate)
            == parsed_context(text, tracestate),
{
}

} // verus!
