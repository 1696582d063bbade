use actor_telemetry::headers::{header, header_field, Request};
use actor_telemetry::ray::{accepts_ray_id, invocation_ray_id};
use http::{HeaderMap, HeaderValue};

fn headers(fields: &[(&'static str, &'static str)]) -> HeaderMap {
    let mut map = HeaderMap::new();
    for (name, value) in fields {
        map.append(*name, HeaderValue::from_static(value));
    }
    map
}

#[test]
fn ray_ids_are_short_and_plain() {
    assert!(accepts_ray_id("a"));
    assert!(accepts_ray_id("AZaz09-_"));
    assert!(accepts_ray_id(&"x".repeat(128)));
    assert!(!accepts_ray_id(""));
    assert!(!accepts_ray_id(&"x".repeat(129)));
    for text in ["a b", "a.b", "a/b", "a\tb", "ray:1", "stra\u{df}e", "@", "[", "`", "{"] {
        assert!(!accepts_ray_id(text), "{text}");
    }
}

#[test]
fn actor_ray_wins_over_gateway_ray() {
    let map = headers(&[("x-rivet-ray-id", "gateway"), ("x-rivetkit-ray-id", "actor")]);
    assert_eq!(invocation_ray_id(&map).as_deref(), Some("actor"));
}

#[test]
fn invalid_actor_ray_falls_back_to_gateway_ray() {
    let map = headers(&[("x-rivetkit-ray-id", "not valid"), ("x-rivet-ray-id", "gateway")]);
    assert_eq!(invocation_ray_id(&map).as_deref(), Some("gateway"));
}

#[test]
fn no_valid_ray_is_no_ray() {
    assert_eq!(invocation_ray_id(&headers(&[])), None);
    let map = headers(&[("x-rivetkit-ray-id", ""), ("x-rivet-ray-id", "a b")]);
    assert_eq!(invocation_ray_id(&map), None);
}

#[test]
fn first_value_of_a_field_counts() {
    let map = headers(&[("x-rivet-ray-id", "first"), ("x-rivet-ray-id", "second")]);
    assert_eq!(invocation_ray_id(&map).as_deref(), Some("first"));
}

#[test]
fn field_names_ignore_case() {
    let map = headers(&[("traceparent", "value")]);
    assert_eq!(header_field(&map, "TraceParent"), Some("value"));
    assert_eq!(header_field(&map, "tracestate"), None);
    assert_eq!(header_field(&map, "not a name"), None);
}

#[test]
fn values_that_are_not_text_are_not_read() {
    let mut map = HeaderMap::new();
    map.insert("traceparent", HeaderValue::from_bytes(&[b'a', 0xff]).unwrap());
    map.insert("tracestate", HeaderValue::from_bytes(b"a\tb ~").unwrap());
    map.insert("x-rivet-ray-id", HeaderValue::from_bytes(&[0x80]).unwrap());
    assert_eq!(invocation_ray_id(&map), None);
    let request = Request { headers: map };
    assert_eq!(header(&request, "traceparent"), None);
    assert_eq!(header(&request, "tracestate"), Some("a\tb ~"));
    assert_eq!(header(&request, "absent"), None);
    assert_eq!(request.headers().len(), 3);
}
