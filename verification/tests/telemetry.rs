use actor_telemetry::callback::{ActorCallbackTelemetry, ActorContext};
use actor_telemetry::context::DurableTraceContext;
use actor_telemetry::headers::Request;
use actor_telemetry::invocation::{ActorInvocationTelemetry, InvocationSpan};
use actor_telemetry::propagation::SpanContext;
use actor_telemetry::ray::accepts_ray_id;
use actor_telemetry::span::{
    record_outcome, set_remote_parent, Attribute, ErrorIdentity, Span, SpanParent,
};
use http::{HeaderMap, HeaderValue};

const TRACE: u128 = 0x4bf9_2f35_77b3_4da6_a3ce_929d_0e0e_4736;
const SPAN: u64 = 0x00f0_67aa_0ba9_02b7;
const TRACEPARENT: &str = "00-4bf92f3577b34da6a3ce929d0e0e4736-00f067aa0ba902b7-01";

fn actor() -> ActorContext {
    ActorContext {
        actor_id: "id-1".to_owned(),
        name: "counter".to_owned(),
        key: "room/7".to_owned(),
    }
}

fn request(fields: &[(&'static str, &'static str)]) -> Request {
    let mut headers = HeaderMap::new();
    for (name, value) in fields {
        headers.append(*name, HeaderValue::from_static(value));
    }
    Request { headers }
}

fn context() -> SpanContext {
    SpanContext {
        trace_id: TRACE,
        span_id: SPAN,
        trace_flags: 1,
        is_remote: false,
        trace_state: "foo=bar".to_owned(),
    }
}

fn no_context() -> SpanContext {
    SpanContext {
        trace_id: 0,
        span_id: 0,
        trace_flags: 0,
        is_remote: false,
        trace_state: String::new(),
    }
}

fn pairs(attributes: &[Attribute]) -> Vec<(&str, &str)> {
    attributes.iter().map(|a| (a.key, a.value.as_str())).collect()
}

fn failure() -> Result<(), ErrorIdentity> {
    Err(ErrorIdentity {
        group: "actor".to_owned(),
        code: "action_not_found".to_owned(),
    })
}

fn invocation(enabled: bool, traceparent: Option<&str>) -> ActorInvocationTelemetry {
    ActorInvocationTelemetry::start(
        enabled,
        "id-1".to_owned(),
        "counter".to_owned(),
        "room/7".to_owned(),
        "increment",
        "action",
        Some("ray-1".to_owned()),
        traceparent,
        Some("foo=bar"),
    )
}

fn active(telemetry: &ActorInvocationTelemetry) -> &Span {
    match &telemetry.span {
        InvocationSpan::Active(span) => span,
        other => panic!("not active: {other:?}"),
    }
}

#[test]
fn disabled_callbacks_have_no_telemetry() {
    let ctx = actor();
    assert!(
        ActorCallbackTelemetry::start(false, &ctx, "lifecycle", "wake", None, None).is_none()
    );
    assert!(ActorCallbackTelemetry::start_connection(
        false, &ctx, "connection", "connect", None, "c-1"
    )
    .is_none());
}

#[test]
fn callback_span_is_described() {
    let incoming = request(&[
        ("x-rivet-ray-id", "ray-9"),
        ("traceparent", TRACEPARENT),
        ("tracestate", "foo=bar"),
    ]);
    let telemetry =
        ActorCallbackTelemetry::start(true, &actor(), "lifecycle", "wake", None, Some(&incoming))
            .unwrap();
    assert_eq!(telemetry.ray_id, "ray-9");
    let span = telemetry.span.as_ref().unwrap();
    assert_eq!(span.name, "rivet.actor.callback");
    assert!(span.links.is_empty());
    assert_eq!(
        pairs(&span.attributes),
        vec![
            ("otel.name", "rivet.actor.lifecycle.wake"),
            ("otel.kind", "internal"),
            ("rivet.callback.name", "wake"),
            ("rivet.actor.id", "id-1"),
            ("rivet.actor.name", "counter"),
            ("rivet.actor.key", "room/7"),
            ("rivet.ray.id", "ray-9"),
        ]
    );
    match &span.parent {
        SpanParent::Remote(parent) => {
            assert_eq!((parent.trace_id, parent.span_id), (TRACE, SPAN));
            assert_eq!(parent.trace_state, "foo=bar");
        }
        other => panic!("not remote: {other:?}"),
    }
}

#[test]
fn connection_callbacks_carry_the_connection_id() {
    for operation in ["connect", "disconnect"] {
        let telemetry = ActorCallbackTelemetry::start_connection(
            true,
            &actor(),
            "connection",
            operation,
            None,
            "c-1",
        )
        .unwrap();
        let span = telemetry.span.as_ref().unwrap();
        assert_eq!(
            pairs(&span.attributes).last(),
            Some(&("rivet.connection.id", "c-1"))
        );
        assert!(matches!(span.parent, SpanParent::Root));
    }
}

#[test]
fn callbacks_without_a_ray_get_a_fresh_one() {
    let first =
        ActorCallbackTelemetry::start(true, &actor(), "lifecycle", "wake", None, None).unwrap();
    let second =
        ActorCallbackTelemetry::start(true, &actor(), "lifecycle", "wake", None, None).unwrap();
    for telemetry in [&first, &second] {
        assert_eq!(telemetry.ray_id.len(), 36);
        assert_eq!(telemetry.ray_id.as_bytes()[14], b'4');
        assert!(accepts_ray_id(&telemetry.ray_id));
    }
    assert_ne!(first.ray_id, second.ray_id);
}

#[test]
fn child_callbacks_share_the_parents_ray() {
    let incoming = request(&[("x-rivet-ray-id", "other"), ("traceparent", TRACEPARENT)]);
    let mut parent =
        ActorCallbackTelemetry::start(true, &actor(), "lifecycle", "wake", None, None).unwrap();
    let child = ActorCallbackTelemetry::start(
        true,
        &actor(),
        "lifecycle",
        "create",
        Some(&parent),
        Some(&incoming),
    )
    .unwrap();
    assert_eq!(child.ray_id, parent.ray_id);
    assert!(matches!(child.span.as_ref().unwrap().parent, SpanParent::Local));

    parent.finish(&Ok::<(), ErrorIdentity>(()));
    let late = ActorCallbackTelemetry::start(
        true,
        &actor(),
        "lifecycle",
        "create",
        Some(&parent),
        Some(&incoming),
    )
    .unwrap();
    assert_eq!(late.ray_id, parent.ray_id);
    assert!(matches!(late.span.as_ref().unwrap().parent, SpanParent::Root));
}

#[test]
fn opened_callback_uses_what_it_is_given() {
    let telemetry = ActorCallbackTelemetry::open(
        &actor(),
        "websocket",
        "open",
        Some("c-2"),
        "ray-3".to_owned(),
        SpanParent::Remote(context()),
    );
    assert_eq!(telemetry.ray_id, "ray-3");
    let span = telemetry.span.unwrap();
    assert_eq!(span.attributes[0].value, "rivet.actor.websocket.open");
    assert_eq!(span.attributes[6].value, "ray-3");
    assert!(matches!(span.parent, SpanParent::Remote(_)));
}

#[test]
fn callback_is_finished_once() {
    let mut telemetry =
        ActorCallbackTelemetry::start(true, &actor(), "lifecycle", "sleep", None, None).unwrap();
    assert_eq!(
        pairs(&telemetry.finish(&failure())),
        vec![
            ("otel.status_code", "ERROR"),
            ("error.type", "actor.action_not_found"),
        ]
    );
    assert!(telemetry.span.is_none());
    assert!(telemetry.finish(&Ok::<u8, ErrorIdentity>(1)).is_empty());
}

#[test]
fn started_callback_is_finished_with_its_result() {
    let telemetry = ActorCallbackTelemetry::start(true, &actor(), "lifecycle", "sleep", None, None);
    assert_eq!(
        pairs(&ActorCallbackTelemetry::trace_started(
            telemetry,
            &Ok::<u8, ErrorIdentity>(1)
        )),
        vec![("otel.status_code", "OK")]
    );
    assert!(ActorCallbackTelemetry::trace_started(None, &failure()).is_empty());
}

#[test]
fn outcomes_name_status_and_error_identity() {
    assert_eq!(
        pairs(&record_outcome(&Ok::<&str, ErrorIdentity>("value"))),
        vec![("otel.status_code", "OK")]
    );
    assert_eq!(
        pairs(&record_outcome(&failure())),
        vec![
            ("otel.status_code", "ERROR"),
            ("error.type", "actor.action_not_found"),
        ]
    );
}

#[test]
fn remote_parent_is_set_only_when_valid() {
    let mut span = Span::new("test");
    set_remote_parent(&mut span, None, Some("foo=bar"));
    assert!(matches!(span.parent, SpanParent::Root));
    set_remote_parent(&mut span, Some("garbage"), None);
    assert!(matches!(span.parent, SpanParent::Root));
    set_remote_parent(&mut span, Some(TRACEPARENT), None);
    assert!(matches!(&span.parent, SpanParent::Remote(parent) if parent.span_id == SPAN));
    span.adopt(None);
    assert!(matches!(span.parent, SpanParent::Remote(_)));
}

#[test]
fn invocation_span_is_described() {
    let telemetry = invocation(true, Some(TRACEPARENT));
    assert_eq!(telemetry.ray_id, "ray-1");
    assert_eq!(telemetry.actor_id, "id-1");
    assert_eq!(telemetry.actor_name, "counter");
    assert_eq!(telemetry.actor_key, "room/7");
    let span = active(&telemetry);
    assert_eq!(span.name, "rivet.actor.invoke");
    assert_eq!(
        pairs(&span.attributes),
        vec![
            ("otel.name", "counter.increment"),
            ("otel.kind", "server"),
            ("rivet.invocation.type", "action"),
            ("rivet.actor.id", "id-1"),
            ("rivet.actor.name", "counter"),
            ("rivet.actor.key", "room/7"),
            ("rivet.action.name", "increment"),
            ("rivet.ray.id", "ray-1"),
        ]
    );
    assert!(matches!(&span.parent, SpanParent::Remote(parent) if parent.trace_id == TRACE));
    assert!(span.links.is_empty());
}

#[test]
fn invocation_ignores_an_invalid_context() {
    let telemetry = invocation(true, Some("garbage"));
    assert!(matches!(active(&telemetry).parent, SpanParent::Root));
}

#[test]
fn invocation_without_a_ray_gets_a_fresh_one() {
    let telemetry = ActorInvocationTelemetry::start(
        false,
        "id-1".to_owned(),
        "counter".to_owned(),
        "room/7".to_owned(),
        "increment",
        "action",
        None,
        None,
        None,
    );
    assert_eq!(telemetry.ray_id.len(), 36);
    assert!(accepts_ray_id(&telemetry.ray_id));
    assert!(matches!(telemetry.span, InvocationSpan::Disabled));
}

#[test]
fn disabled_invocation_still_has_its_ray() {
    let mut telemetry = invocation(false, Some(TRACEPARENT));
    let fields = telemetry.trace_context(&context()).unwrap();
    assert_eq!(fields.ray_id, "ray-1");
    assert!(fields.span.is_none());
    assert!(telemetry.trace("kv", "get").is_none());
    assert!(telemetry.finish("OK", None).is_empty());
    assert!(telemetry.trace_context(&context()).is_none());
}

#[test]
fn active_invocation_hands_on_its_span() {
    let telemetry = invocation(true, None);
    let fields = telemetry.trace_context(&context()).unwrap();
    assert_eq!(fields.ray_id, "ray-1");
    let span = fields.span.unwrap();
    assert_eq!(span.trace_id, "4bf92f3577b34da6a3ce929d0e0e4736");
    assert_eq!(span.span_id, "00f067aa0ba902b7");
    assert_eq!(span.trace_flags, 1);
    assert_eq!(span.traceparent, TRACEPARENT);
    assert_eq!(span.tracestate.as_deref(), Some("foo=bar"));

    let unsampled = telemetry.trace_context(&no_context()).unwrap();
    assert_eq!(unsampled.ray_id, "ray-1");
    assert!(unsampled.span.is_none());
}

#[test]
fn operations_are_children_of_an_active_invocation() {
    let mut telemetry = invocation(true, None);
    let span = telemetry.trace("kv", "get").unwrap();
    assert_eq!(span.name, "rivet.runtime.operation");
    assert!(matches!(span.parent, SpanParent::Local));
    assert_eq!(
        pairs(&span.attributes),
        vec![
            ("otel.name", "rivet.kv.get"),
            ("otel.kind", "internal"),
            ("rivet.operation.system", "kv"),
            ("rivet.operation.name", "get"),
            ("rivet.actor.id", "id-1"),
            ("rivet.actor.name", "counter"),
            ("rivet.actor.key", "room/7"),
            ("rivet.ray.id", "ray-1"),
        ]
    );
    telemetry.finish("OK", None);
    assert!(telemetry.trace("kv", "get").is_none());
}

#[test]
fn invocation_is_answered_once() {
    let mut telemetry = invocation(true, None);
    assert_eq!(
        pairs(&telemetry.finish("ERROR", Some("actor.action_not_found".to_owned()))),
        vec![
            ("otel.status_code", "ERROR"),
            ("error.type", "actor.action_not_found"),
        ]
    );
    assert!(matches!(telemetry.span, InvocationSpan::Finished));
    assert!(telemetry.finish("OK", None).is_empty());
    assert!(telemetry.trace_context(&context()).is_none());

    let mut telemetry = invocation(true, None);
    assert_eq!(
        pairs(&telemetry.finish("OK", None)),
        vec![("otel.status_code", "OK")]
    );
}

#[test]
fn called_actor_continues_the_callers_trace() {
    let caller = invocation(true, None);
    let fields = caller.trace_context(&context()).unwrap();
    let span = fields.span.unwrap();
    let called = ActorInvocationTelemetry::start(
        true,
        "id-2".to_owned(),
        "ledger".to_owned(),
        "main".to_owned(),
        "append",
        "action",
        Some(fields.ray_id),
        Some(&span.traceparent),
        span.tracestate.as_deref(),
    );
    assert_eq!(called.ray_id, caller.ray_id);
    match &active(&called).parent {
        SpanParent::Remote(parent) => {
            assert_eq!((parent.trace_id, parent.span_id), (TRACE, SPAN));
            assert_eq!(parent.trace_flags, 1);
            assert_eq!(parent.trace_state, "foo=bar");
        }
        other => panic!("not remote: {other:?}"),
    }
}

fn scheduled(link: &DurableTraceContext) -> ActorInvocationTelemetry {
    ActorInvocationTelemetry::start_with_link(
        true,
        "id-1".to_owned(),
        "counter".to_owned(),
        "room/7".to_owned(),
        "tick",
        "scheduled",
        Some(link.ray_id.clone()),
        None,
        None,
        Some(link),
    )
}

#[test]
fn scheduled_invocation_links_back() {
    let creator = invocation(true, None);
    let link = DurableTraceContext::from(creator.trace_context(&context()).unwrap());
    let telemetry = scheduled(&link);
    assert_eq!(telemetry.ray_id, "ray-1");
    let span = active(&telemetry);
    assert_eq!(span.attributes[2].value, "scheduled");
    assert!(matches!(span.parent, SpanParent::Root));
    assert_eq!(span.links.len(), 1);
    assert_eq!((span.links[0].trace_id, span.links[0].span_id), (TRACE, SPAN));
}

#[test]
fn schedule_of_a_disabled_creator_keeps_the_ray_without_a_link() {
    let creator = invocation(false, None);
    let link = DurableTraceContext::from(creator.trace_context(&no_context()).unwrap());
    assert_eq!(link.traceparent, None);
    let telemetry = scheduled(&link);
    assert_eq!(telemetry.ray_id, "ray-1");
    assert!(active(&telemetry).links.is_empty());
}

#[test]
fn activated_span_keeps_the_link_it_is_given() {
    let telemetry = ActorInvocationTelemetry::activate(
        Span::new("rivet.actor.invoke"),
        Some(context()),
        "ray-5".to_owned(),
        "id-1".to_owned(),
        "counter".to_owned(),
        "room/7".to_owned(),
    );
    assert_eq!(telemetry.ray_id, "ray-5");
    assert_eq!(active(&telemetry).links[0].span_id, SPAN);
}
