//! Telemetry for lifecycle and connection callbacks.

use vstd::prelude::*;

use crate::headers::{field_text, header, Request};
use crate::propagation::{context_of, parse_span_context, str_of, SpanContext};
use crate::ray::{carried_ray, fresh_ray_id, invocation_ray_id, is_random_uuid};
use crate::span::{
    outcome, record_outcome, recorded, remote_parent, Attribute, ErrorIdentity, Span, SpanParent,
    SpanParentView, SpanView,
};

verus! {

/// The actor that telemetry speaks of.
#[derive(Clone, Debug)]
pub struct ActorContext {
    pub actor_id: String,
    pub name: String,
    /// The actor's key in its formatted form.
    pub key: String,
}

/// What an [`ActorContext`] holds, as mathematical values.
#[verifier::ext_equal]
pub struct ActorView {
    pub actor_id: Seq<char>,
    pub name: Seq<char>,
    pub key: Seq<char>,
}

impl View for ActorContext {
    type V = ActorView;

    open spec fn view(&self) -> ActorView {
        ActorView { actor_id: self.actor_id@, name: self.name@, key: self.key@ }
    }
}

/// Telemetry for one bounded lifecycle or connection callback.
#[derive(Debug)]
pub struct ActorCallbackTelemetry {
    pub span: Option<Span>,
    pub ray_id: String,
}

/// What an [`ActorCallbackTelemetry`] holds, as mathematical values.
#[verifier::ext_equal]
pub struct CallbackView {
    pub span: Option<SpanView>,
    pub ray_id: Seq<char>,
}

impl View for ActorCallbackTelemetry {
    type V = CallbackView;

    open spec fn view(&self) -> CallbackView {
        CallbackView {
            span: match self.span {
                Some(span) => Some(span@),
                None => None,
            },
            ray_id: self.ray_id@,
        }
    }
}

impl CallbackView {
    /// An open span carries the ray of its telemetry.
    pub open spec fn wf(self) -> bool {
        self.span matches Some(span) ==> span.attributes.contains(("rivet.ray.id"@, self.ray_id))
    }
}

/// The telemetry of a parent callback, where there is one.
pub open spec fn callback_of(parent: Option<&ActorCallbackTelemetry>) -> Option<CallbackView> {
    match parent {
        Some(parent) => Some(parent@),
        None => None,
    }
}

/// What the headers of a request hold, where there is a request.
pub open spec fn values_of(request: Option<&Request>) -> Option<Map<Seq<char>, Seq<u8>>> {
    match request {
        Some(request) => Some(request.values()),
        None => None,
    }
}

/// The text of a request's header field, where there is a request.
pub open spec fn request_field(
    request: Option<Map<Seq<char>, Seq<u8>>>,
    name: Seq<char>,
) -> Option<Seq<char>> {
    match request {
        Some(values) => field_text(values, name),
        None => None,
    }
}

/// The ray that a callback takes over: its parent's, or else the request's.
pub open spec fn inherited_ray(
    parent: Option<CallbackView>,
    request: Option<Map<Seq<char>, Seq<u8>>>,
) -> Option<Seq<char>> {
    match parent {
        Some(parent) => Some(parent.ray_id),
        None => match request {
            Some(values) => carried_ray(values),
            None => None,
        },
    }
}

/// Where a callback's span hangs: under its parent's open span, or without a parent in the
/// trace that the request names.
pub open spec fn callback_parent(
    parent: Option<CallbackView>,
    request: Option<Map<Seq<char>, Seq<u8>>>,
) -> SpanParentView {
    match parent {
        Some(parent) => if parent.span is Some {
            SpanParentView::Local
        } else {
            SpanParentView::Root
        },
        None => match remote_parent(
            request_field(request, "traceparent"@),
            request_field(request, "tracestate"@),
        ) {
            Some(context) => SpanParentView::Remote(context),
            None => SpanParentView::Root,
        },
    }
}

/// The span of a callback.
pub open spec fn callback_span(
    actor: ActorView,
    system: Seq<char>,
    operation: Seq<char>,
    connection_id: Option<Seq<char>>,
    ray_id: Seq<char>,
    parent: SpanParentView,
) -> SpanView {
    SpanView {
        name: "rivet.actor.callback"@,
        parent,
        links: Seq::empty(),
        attributes: seq![
            ("otel.name"@, "rivet.actor."@ + system + "."@ + operation),
            ("otel.kind"@, "internal"@),
            ("rivet.callback.name"@, operation),
            ("rivet.actor.id"@, actor.actor_id),
            ("rivet.actor.name"@, actor.name),
            ("rivet.actor.key"@, actor.key),
            ("rivet.ray.id"@, ray_id),
        ] + match connection_id {
            Some(connection_id) => seq![("rivet.connection.id"@, connection_id)],
            None => Seq::empty(),
        },
    }
}

/// Whether this is the telemetry of a callback that has just started: the ray is the inherited
/// one, or a random UUID where none is inherited, and the span is open.
pub open spec fn started(
    telemetry: CallbackView,
    actor: ActorView,
    system: Seq<char>,
    operation: Seq<char>,
    parent: Option<CallbackView>,
    request: Option<Map<Seq<char>, Seq<u8>>>,
    connection_id: Option<Seq<char>>,
) -> bool {
    &&& match inherited_ray(parent, request) {
        Some(ray_id) => telemetry.ray_id == ray_id,
        None => is_random_uuid(telemetry.ray_id),
    }
    &&& telemetry.span == Some(
        callback_span(
            actor,
            system,
            operation,
            connection_id,
            telemetry.ray_id,
            callback_parent(parent, request),
        ),
    )
}

impl ActorCallbackTelemetry {
    /// Starts telemetry for a callback. There is none unless `enabled`.
    pub fn start(
        enabled: bool,
        ctx: &ActorContext,
        system: &'static str,
        operation: &'static str,
        parent: Option<&Self>,
        request: Option<&Request>,
    ) -> (res: Option<Self>)
        ensures
            res is Some <==> enabled,
            res matches Some(telemetry) ==> telemetry@.wf() && started(
                telemetry@,
                ctx@,
                system@,
                operation@,
                callback_of(parent),
                values_of(request),
                None,
            ),
    {
        Self::start_with_connection(enabled, ctx, system, operation, parent, request, None)
    }

    /// Starts telemetry for a callback of a connection. There is none unless `enabled`.
    pub fn start_connection(
        enabled: bool,
        ctx: &ActorContext,
        system: &'static str,
        operation: &'static str,
        request: Option<&Request>,
        connection_id: &str,
    ) -> (res: Option<Self>)
        ensures
            res is Some <==> enabled,
            res matches Some(telemetry) ==> telemetry@.wf() && started(
                telemetry@,
                ctx@,
                system@,
                operation@,
                None,
                values_of(request),
                Some(connection_id@),
            ),
    {
        Self::start_with_connection(
            enabled,
            ctx,
            system,
            operation,
            None,
            request,
            Some(connection_id),
        )
    }

    fn start_with_connection(
        enabled: bool,
        ctx: &ActorContext,
        system: &'static str,
        operation: &'static str,
        parent: Option<&Self>,
        request: Option<&Request>,
        connection_id: Option<&str>,
    ) -> (res: Option<Self>)
        ensures
            res is Some <==> enabled,
            res matches Some(telemetry) ==> telemetry@.wf() && started(
                telemetry@,
                ctx@,
                system@,
                operation@,
                callback_of(parent),
                values_of(request),
                str_of(connection_id),
            ),
    {
        if !enabled {
            return None;
        }
        let inherited: Option<String> = match parent {
            Some(parent) => Some(parent.ray_id.clone()),
            None => match request {
                Some(request) => invocation_ray_id(request.headers()),
                None => None,
            },
        };
        let ray_id = match inherited {
            Some(ray_id) => ray_id,
            None => fresh_ray_id(),
        };
        let span_parent = match parent {
            Some(parent) => if parent.span.is_some() {
                SpanParent::Local
            } else {
                SpanParent::Root
            },
            None => match Self::request_parent(request) {
                Some(context) => SpanParent::Remote(context),
                None => SpanParent::Root,
            },
        };
        Some(Self::open(ctx, system, operation, connection_id, ray_id, span_parent))
    }

    /// The remote parent that a request names.
    fn request_parent(request: Option<&Request>) -> (res: Option<SpanContext>)
        ensures
            context_of(res) == remote_parent(
                request_field(values_of(request), "traceparent"@),
                request_field(values_of(request), "tracestate"@),
            ),
    {
        match request {
            Some(request) => match header(request, "traceparent") {
                Some(traceparent) => parse_span_context(traceparent, header(request, "tracestate")),
                None => None,
            },
            None => None,
        }
    }

    /// Opens a callback's span under a given ray and a given parent.
    pub fn open(
        ctx: &ActorContext,
        system: &'static str,
        operation: &'static str,
        connection_id: Option<&str>,
        ray_id: String,
        parent: SpanParent,
    ) -> (res: Self)
        ensures
            res@.wf(),
            res@.ray_id == ray_id@,
            res@.span == Some(
                callback_span(
                    ctx@,
                    system@,
                    operation@,
                    str_of(connection_id),
                    ray_id@,
                    parent@,
                ),
            ),
    {
        let mut otel_name = "rivet.actor.".to_owned();
        otel_name.append(system);
        otel_name.append(".");
        otel_name.append(operation);
        let mut span = Span::new("rivet.actor.callback");
        span.parent = parent;
        span.record("otel.name", otel_name.as_str());
        span.record("otel.kind", "internal");
        span.record("rivet.callback.name", operation);
        span.record("rivet.actor.id", ctx.actor_id.as_str());
        span.record("rivet.actor.name", ctx.name.as_str());
        span.record("rivet.actor.key", ctx.key.as_str());
        span.record("rivet.ray.id", ray_id.as_str());
        if let Some(connection_id) = connection_id {
            span.record("rivet.connection.id", connection_id);
        }
        assert(span@ =~= callback_span(
            ctx@,
            system@,
            operation@,
            str_of(connection_id),
            ray_id@,
            parent@,
        ));
        assert(span@.attributes[6] == ("rivet.ray.id"@, ray_id@));
        ActorCallbackTelemetry { span: Some(span), ray_id }
    }

    /// Finishes a started callback once its result is known, and lists what is recorded on its
    /// span. Without telemetry nothing is recorded.
    pub fn trace_started<T>(telemetry: Option<Self>, result: &Result<T, ErrorIdentity>) -> (res:
        Vec<Attribute>)
        requires
            telemetry matches Some(telemetry) ==> telemetry.span is Some,
        ensures
            recorded(res@) == (if telemetry is Some {
                outcome(*result)
            } else {
                Seq::empty()
            }),
            res@.len() == (match (telemetry, *result) {
                (None, _) => 0nat,
                (Some(_), Ok(_)) => 1nat,
                (Some(_), Err(_)) => 2nat,
            }),
    {
        match telemetry {
            Some(telemetry) => {
                let mut telemetry = telemetry;
                telemetry.finish(result)
            },
            None => {
                let nothing: Vec<Attribute> = Vec::new();
                assert(recorded(nothing@) =~= Seq::empty());
                nothing
            },
        }
    }

    /// Closes the callback's span and lists what is recorded on it. A span is closed once; after
    /// that nothing is recorded.
    pub fn finish<T>(&mut self, result: &Result<T, ErrorIdentity>) -> (res: Vec<Attribute>)
        ensures
            recorded(res@) == (if old(self).span is Some {
                outcome(*result)
            } else {
                Seq::empty()
            }),
            final(self).span is None,
            final(self).ray_id == old(self).ray_id,
            final(self)@.wf(),
            res@.len() == (match (old(self).span, *result) {
                (None, _) => 0nat,
                (Some(_), Ok(_)) => 1nat,
                (Some(_), Err(_)) => 2nat,
            }),
    {
        match self.span.take() {
            Some(_) => record_outcome(result),
            None => {
                let nothing: Vec<Attribute> = Vec::new();
                assert(recorded(nothing@) =~= Seq::empty());
                nothing
            },
        }
    }
}

} // verus!
