use actor_telemetry::context::{
    parse_durable_link, propagation_fields, ActorInvocationSpanContext,
    ActorInvocationTraceContext, DurableTraceContext,
};
use actor_telemetry::propagation::{parse_span_context, SpanContext, TraceHeaders};
use opentelemetry::propagation::{Extractor, Injector};
use opentelemetry::trace::TraceContextExt;

const TRACE: u128 = 0x4bf9_2f35_77b3_4da6_a3ce_929d_0e0e_4736;
const SPAN: u64 = 0x00f0_67aa_0ba9_02b7;
const TRACEPARENT: &str = "00-4bf92f3577b34da6a3ce929d0e0e4736-00f067aa0ba902b7-01";

fn span_context(trace_id: u128, span_id: u64, trace_flags: u8, state: &str) -> SpanContext {
    SpanContext {
        trace_id,
        span_id,
        trace_flags,
        is_remote: false,
        trace_state: state.to_owned(),
    }
}

#[test]
fn valid_fields_are_parsed() {
    let context = parse_span_context(TRACEPARENT, Some("foo=bar,apple=banana")).unwrap();
    assert_eq!(context.trace_id, TRACE);
    assert_eq!(context.span_id, SPAN);
    assert_eq!(context.trace_flags, 1);
    assert!(context.is_remote);
    assert_eq!(context.trace_state, "foo=bar,apple=banana");
}

#[test]
fn invalid_fields_are_ignored() {
    for traceparent in [
        "",
        "garbage",
        "00-00000000000000000000000000000000-00f067aa0ba902b7-01",
        "00-4bf92f3577b34da6a3ce929d0e0e4736-0000000000000000-01",
        "00-4BF92F3577B34DA6A3CE929D0E0E4736-00f067aa0ba902b7-01",
        "ff-4bf92f3577b34da6a3ce929d0e0e4736-00f067aa0ba902b7-01",
        "00-4bf92f3577b34da6a3ce929d0e0e4736-00f067aa0ba902b7-01-extra",
    ] {
        assert!(parse_span_context(traceparent, None).is_none(), "{traceparent}");
    }
}

#[test]
fn invalid_fields_do_not_fall_back_to_the_ambient_context() {
    let ambient = opentelemetry::trace::SpanContext::new(
        opentelemetry::TraceId::from(7),
        opentelemetry::SpanId::from(9),
        opentelemetry::TraceFlags::SAMPLED,
        false,
        opentelemetry::trace::TraceState::NONE,
    );
    let _guard = opentelemetry::Context::new()
        .with_remote_span_context(ambient)
        .attach();
    assert!(parse_span_context("garbage", None).is_none());
}

#[test]
fn invalid_trace_state_is_dropped() {
    let context = parse_span_context(TRACEPARENT, Some("no entries here")).unwrap();
    assert_eq!(context.trace_id, TRACE);
    assert_eq!(context.trace_state, "");
}

#[test]
fn contexts_without_ids_are_invalid() {
    assert!(span_context(TRACE, SPAN, 0, "").is_valid());
    assert!(!span_context(0, SPAN, 0, "").is_valid());
    assert!(!span_context(TRACE, 0, 0, "").is_valid());
    assert!(span_context(TRACE, SPAN, 0, "").into_valid().is_some());
    assert!(span_context(0, 0, 0, "").into_valid().is_none());
}

#[test]
fn propagation_fields_of_a_span() {
    let fields = propagation_fields(&span_context(TRACE, SPAN, 3, "foo=bar")).unwrap();
    assert_eq!(fields.trace_id, "4bf92f3577b34da6a3ce929d0e0e4736");
    assert_eq!(fields.span_id, "00f067aa0ba902b7");
    assert_eq!(fields.trace_flags, 3);
    assert_eq!(fields.traceparent, TRACEPARENT);
    assert_eq!(fields.tracestate.as_deref(), Some("foo=bar"));
    assert!(propagation_fields(&span_context(0, SPAN, 1, "foo=bar")).is_none());
}

#[test]
fn empty_and_invalid_trace_states_are_sent_empty() {
    let fields = propagation_fields(&span_context(TRACE, SPAN, 0, "")).unwrap();
    assert_eq!(fields.tracestate.as_deref(), Some(""));
    let fields = propagation_fields(&span_context(TRACE, SPAN, 0, "?")).unwrap();
    assert_eq!(fields.tracestate.as_deref(), Some(""));
}

#[test]
fn written_fields_are_read_back() {
    for (trace_id, span_id, flags) in [
        (TRACE, SPAN, 1_u8),
        (1, 1, 0),
        (u128::MAX, u64::MAX, 255),
        (1 << 127, 1 << 63, 2),
    ] {
        let fields = propagation_fields(&span_context(trace_id, span_id, flags, "a=1,b=2")).unwrap();
        let read =
            parse_span_context(&fields.traceparent, fields.tracestate.as_deref()).unwrap();
        assert_eq!(read.trace_id, trace_id);
        assert_eq!(read.span_id, span_id);
        assert_eq!(read.trace_flags, flags % 2);
        assert!(read.is_remote);
        assert_eq!(read.trace_state, "a=1,b=2");
    }
}

#[test]
fn carried_trace_state_is_stable() {
    for state in ["a==1", "a=1,", "", "=x", "a=1,b"] {
        let once = parse_span_context(TRACEPARENT, Some(state)).unwrap().trace_state;
        let twice = parse_span_context(TRACEPARENT, Some(&once)).unwrap().trace_state;
        assert_eq!(once, twice);
    }
    let once = parse_span_context(TRACEPARENT, Some("a==1,")).unwrap().trace_state;
    assert_eq!(once, "a=1");
}

#[test]
fn carrier_fields_are_selected_by_key() {
    let mut carrier = TraceHeaders {
        traceparent: None,
        tracestate: None,
    };
    assert!(carrier.keys().is_empty());
    carrier.set("tracestate", "foo=bar".to_owned());
    assert_eq!(carrier.keys(), vec!["tracestate"]);
    carrier.set("baggage", "ignored".to_owned());
    carrier.set("traceparent", TRACEPARENT.to_owned());
    assert_eq!(carrier.keys(), vec!["traceparent", "tracestate"]);
    assert_eq!(carrier.get("traceparent"), Some(TRACEPARENT));
    assert_eq!(carrier.get("tracestate"), Some("foo=bar"));
    assert_eq!(carrier.get("baggage"), None);
    assert_eq!(carrier.get("Traceparent"), None);
}

#[test]
fn durable_context_keeps_ray_and_span() {
    let traced = ActorInvocationTraceContext {
        ray_id: "ray-1".to_owned(),
        span: Some(ActorInvocationSpanContext {
            trace_id: "4bf92f3577b34da6a3ce929d0e0e4736".to_owned(),
            span_id: "00f067aa0ba902b7".to_owned(),
            trace_flags: 1,
            traceparent: TRACEPARENT.to_owned(),
            tracestate: Some("foo=bar".to_owned()),
        }),
    };
    let durable = DurableTraceContext::from(traced);
    assert_eq!(durable.ray_id, "ray-1");
    assert_eq!(durable.traceparent.as_deref(), Some(TRACEPARENT));
    assert_eq!(durable.tracestate.as_deref(), Some("foo=bar"));
    let link = parse_durable_link(&durable).unwrap();
    assert_eq!((link.trace_id, link.span_id), (TRACE, SPAN));
    assert_eq!(link.trace_state, "foo=bar");
}

#[test]
fn durable_context_without_a_span_links_to_nothing() {
    let durable = DurableTraceContext::from(ActorInvocationTraceContext {
        ray_id: "ray-2".to_owned(),
        span: None,
    });
    assert_eq!(durable.ray_id, "ray-2");
    assert_eq!(durable.traceparent, None);
    assert_eq!(durable.tracestate, None);
    assert!(parse_durable_link(&durable).is_none());
}
