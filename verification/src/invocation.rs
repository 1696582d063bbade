//! Telemetry shared by the automatic spans of one actor invocation.

use vstd::prelude::*;

use crate::context::{
    durable_link, parse_durable_link, propagation_fields, span_fields,
    ActorInvocationTraceContext, DurableContextView, DurableTraceContext, TraceContextView,
};
use crate::propagation::{context_of, str_of, text_of, SpanContext, SpanContextView};
use crate::ray::{fresh_ray_id, is_random_uuid};
use crate::span::{
    adopted, record, recorded, remote_parent, set_remote_parent, Attribute, Span, SpanParent,
    SpanParentView, SpanView,
};

verus! {

/// The span of an invocation over its life.
#[derive(Debug)]
pub enum InvocationSpan {
    /// Telemetry was off when the invocation started.
    Disabled,
    /// The invocation runs.
    Active(Span),
    /// The invocation has been answered.
    Finished,
}

/// What an [`InvocationSpan`] holds, as mathematical values.
#[verifier::ext_equal]
pub enum InvocationSpanView {
    Disabled,
    Active(SpanView),
    Finished,
}

impl View for InvocationSpan {
    type V = InvocationSpanView;

    open spec fn view(&self) -> InvocationSpanView {
        match *self {
            InvocationSpan::Disabled => InvocationSpanView::Disabled,
            InvocationSpan::Active(span) => InvocationSpanView::Active(span@),
            InvocationSpan::Finished => InvocationSpanView::Finished,
        }
    }
}

/// Telemetry shared by the automatic spans created during one actor invocation.
#[derive(Debug)]
pub struct ActorInvocationTelemetry {
    pub span: InvocationSpan,
    pub ray_id: String,
    pub actor_id: String,
    pub actor_name: String,
    pub actor_key: String,
}

/// What an [`ActorInvocationTelemetry`] holds, as mathematical values.
#[verifier::ext_equal]
pub struct InvocationView {
    pub span: InvocationSpanView,
    pub ray_id: Seq<char>,
    pub actor_id: Seq<char>,
    pub actor_name: Seq<char>,
    pub actor_key: Seq<char>,
}

impl View for ActorInvocationTelemetry {
    type V = InvocationView;

    open spec fn view(&self) -> InvocationView {
        InvocationView {
            span: self.span@,
            ray_id: self.ray_id@,
            actor_id: self.actor_id@,
            actor_name: self.actor_name@,
            actor_key: self.actor_key@,
        }
    }
}

impl InvocationView {
    /// An active span carries the ray and the actor of its telemetry.
    pub open spec fn wf(self) -> bool {
        self.span matches InvocationSpanView::Active(span) ==> {
            &&& span.attributes.contains(("rivet.ray.id"@, self.ray_id))
            &&& span.attributes.contains(("rivet.actor.id"@, self.actor_id))
            &&& span.attributes.contains(("rivet.actor.name"@, self.actor_name))
            &&& span.attributes.contains(("rivet.actor.key"@, self.actor_key))
        }
    }
}

/// The span of an invocation before it is placed in a trace.
pub open spec fn invocation_span(
    actor_id: Seq<char>,
    actor_name: Seq<char>,
    actor_key: Seq<char>,
    action_name: Seq<char>,
    invocation_type: Seq<char>,
    ray_id: Seq<char>,
) -> SpanView {
    SpanView {
        name: "rivet.actor.invoke"@,
        parent: SpanParentView::Root,
        links: Seq::empty(),
        attributes: seq![
            ("otel.name"@, actor_name + "."@ + action_name),
            ("otel.kind"@, "server"@),
            ("rivet.invocation.type"@, invocation_type),
            ("rivet.actor.id"@, actor_id),
            ("rivet.actor.name"@, actor_name),
            ("rivet.actor.key"@, actor_key),
            ("rivet.action.name"@, action_name),
            ("rivet.ray.id"@, ray_id),
        ],
    }
}

/// A span with one more link, if there is one to add.
pub open spec fn linked(span: SpanView, link: Option<SpanContextView>) -> SpanView {
    match link {
        Some(context) => SpanView { links: span.links.push(context), ..span },
        None => span,
    }
}

/// The link that a durable context asks for.
pub open spec fn link_of(link: Option<DurableContextView>) -> Option<SpanContextView> {
    match link {
        Some(link) => durable_link(link),
        None => None,
    }
}

/// What a durable context holds, where there is one.
pub open spec fn durable_view(link: Option<&DurableTraceContext>) -> Option<DurableContextView> {
    match link {
        Some(link) => Some(link@),
        None => None,
    }
}

/// The telemetry of an invocation that starts under a given ray.
pub open spec fn started_invocation(
    enabled: bool,
    actor_id: Seq<char>,
    actor_name: Seq<char>,
    actor_key: Seq<char>,
    action_name: Seq<char>,
    invocation_type: Seq<char>,
    ray_id: Seq<char>,
    parent: Option<SpanContextView>,
    link: Option<SpanContextView>,
) -> InvocationView {
    InvocationView {
        span: if enabled {
            InvocationSpanView::Active(
                linked(
                    adopted(
                        invocation_span(
                            actor_id,
                            actor_name,
                            actor_key,
                            action_name,
                            invocation_type,
                            ray_id,
                        ),
                        parent,
                    ),
                    link,
                ),
            )
        } else {
            InvocationSpanView::Disabled
        },
        ray_id,
        actor_id,
        actor_name,
        actor_key,
    }
}

/// The span of a runtime operation beneath an active invocation.
pub open spec fn operation_span(
    telemetry: InvocationView,
    system: Seq<char>,
    operation: Seq<char>,
) -> SpanView {
    SpanView {
        name: "rivet.runtime.operation"@,
        parent: SpanParentView::Local,
        links: Seq::empty(),
        attributes: seq![
            ("otel.name"@, "rivet."@ + system + "."@ + operation),
            ("otel.kind"@, "internal"@),
            ("rivet.operation.system"@, system),
            ("rivet.operation.name"@, operation),
            ("rivet.actor.id"@, telemetry.actor_id),
            ("rivet.actor.name"@, telemetry.actor_name),
            ("rivet.actor.key"@, telemetry.actor_key),
            ("rivet.ray.id"@, telemetry.ray_id),
        ],
    }
}

/// The telemetry after the invocation was answered.
pub open spec fn finished(telemetry: InvocationView) -> InvocationView {
    InvocationView { span: InvocationSpanView::Finished, ..telemetry }
}

/// What is recorded when an invocation is answered.
pub open spec fn answer(
    telemetry: InvocationView,
    status: Seq<char>,
    error_type: Option<Seq<char>>,
) -> Seq<(Seq<char>, Seq<char>)> {
    if telemetry.span is Active {
        seq![("otel.status_code"@, status)] + match error_type {
            Some(error_type) => seq![("error.type"@, error_type)],
            None => Seq::empty(),
        }
    } else {
        Seq::empty()
    }
}

/// The propagation fields of an invocation whose span, if it is active, has this context.
pub open spec fn propagated(telemetry: InvocationView, context: SpanContextView) -> Option<
    TraceContextView,
> {
    match telemetry.span {
        InvocationSpanView::Disabled => Some(
            TraceContextView { ray_id: telemetry.ray_id, span: None },
        ),
        InvocationSpanView::Active(_) => Some(
            TraceContextView { ray_id: telemetry.ray_id, span: span_fields(context) },
        ),
        InvocationSpanView::Finished => None,
    }
}

/// What an [`ActorInvocationTraceContext`] holds, where there is one.
pub open spec fn trace_context_of(context: Option<ActorInvocationTraceContext>) -> Option<
    TraceContextView,
> {
    match context {
        Some(context) => Some(context@),
        None => None,
    }
}

/// The description of a span, where there is one.
pub open spec fn span_of(span: Option<Span>) -> Option<SpanView> {
    match span {
        Some(span) => Some(span@),
        None => None,
    }
}

impl ActorInvocationTelemetry {
    /// Starts telemetry for an invocation.
    pub fn start(
        enabled: bool,
        actor_id: String,
        actor_name: String,
        actor_key: String,
        action_name: &str,
        invocation_type: &'static str,
        ray_id: Option<String>,
        traceparent: Option<&str>,
        tracestate: Option<&str>,
    ) -> (res: Self)
        ensures
            res@.wf(),
            match ray_id {
                Some(ray_id) => res@.ray_id == ray_id@,
                None => is_random_uuid(res@.ray_id),
            },
            res@ == started_invocation(
                enabled,
                actor_id@,
                actor_name@,
                actor_key@,
                action_name@,
                invocation_type@,
                res@.ray_id,
                remote_parent(str_of(traceparent), str_of(tracestate)),
                None,
            ),
    {
        Self::start_with_link(
            enabled,
            actor_id,
            actor_name,
            actor_key,
            action_name,
            invocation_type,
            ray_id,
            traceparent,
            tracestate,
            None,
        )
    }

    /// Starts telemetry for an invocation that may link back to the one that scheduled it.
    pub fn start_with_link(
        enabled: bool,
        actor_id: String,
        actor_name: String,
        actor_key: String,
        action_name: &str,
        invocation_type: &'static str,
        ray_id: Option<String>,
        traceparent: Option<&str>,
        tracestate: Option<&str>,
        link: Option<&DurableTraceContext>,
    ) -> (res: Self)
        ensures
            res@.wf(),
            match ray_id {
                Some(ray_id) => res@.ray_id == ray_id@,
                None => is_random_uuid(res@.ray_id),
            },
            res@ == started_invocation(
                enabled,
                actor_id@,
                actor_name@,
                actor_key@,
                action_name@,
                invocation_type@,
                res@.ray_id,
                remote_parent(str_of(traceparent), str_of(tracestate)),
                link_of(durable_view(link)),
            ),
    {
        let ray_id = match ray_id {
            Some(ray_id) => ray_id,
            None => fresh_ray_id(),
        };
        if !enabled {
            return ActorInvocationTelemetry {
                span: InvocationSpan::Disabled,
                ray_id,
                actor_id,
                actor_name,
                actor_key,
            };
        }
        let mut span = Self::describe(
            &actor_id,
            &actor_name,
            &actor_key,
            action_name,
            invocation_type,
            &ray_id,
        );
        set_remote_parent(&mut span, traceparent, tracestate);
        let link = match link {
            Some(link) => parse_durable_link(link),
            None => None,
        };
        Self::activate(span, link, ray_id, actor_id, actor_name, actor_key)
    }

    /// Describes the span of an invocation before it is placed in a trace.
    fn describe(
        actor_id: &String,
        actor_name: &String,
        actor_key: &String,
        action_name: &str,
        invocation_type: &'static str,
        ray_id: &String,
    ) -> (res: Span)
        ensures
            res@ == invocation_span(
                actor_id@,
                actor_name@,
                actor_key@,
                action_name@,
                invocation_type@,
                ray_id@,
            ),
    {
        let mut otel_name = actor_name.clone();
        otel_name.append(".");
        otel_name.append(action_name);
        let mut span = Span::new("rivet.actor.invoke");
        span.record("otel.name", otel_name.as_str());
        span.record("otel.kind", "server");
        span.record("rivet.invocation.type", invocation_type);
        span.record("rivet.actor.id", actor_id.as_str());
        span.record("rivet.actor.name", actor_name.as_str());
        span.record("rivet.actor.key", actor_key.as_str());
        span.record("rivet.action.name", action_name);
        span.record("rivet.ray.id", ray_id.as_str());
        assert(span@ =~= invocation_span(
            actor_id@,
            actor_name@,
            actor_key@,
            action_name@,
            invocation_type@,
            ray_id@,
        ));
        span
    }

    /// Makes a placed span the active span of an invocation, with the link that was read.
    pub fn activate(
        span: Span,
        link: Option<SpanContext>,
        ray_id: String,
        actor_id: String,
        actor_name: String,
        actor_key: String,
    ) -> (res: Self)
        ensures
            res@ == (InvocationView {
                span: InvocationSpanView::Active(linked(span@, context_of(link))),
                ray_id: ray_id@,
                actor_id: actor_id@,
                actor_name: actor_name@,
                actor_key: actor_key@,
            }),
    {
        let mut span = span;
        if let Some(context) = link {
            span.add_link(context);
        }
        ActorInvocationTelemetry {
            span: InvocationSpan::Active(span),
            ray_id,
            actor_id,
            actor_name,
            actor_key,
        }
    }

    /// Answers the invocation and lists what is recorded on its span. A span is closed once;
    /// after that nothing is recorded.
    pub fn finish(&mut self, status: &'static str, error_type: Option<String>) -> (res: Vec<
        Attribute,
    >)
        ensures
            recorded(res@) == answer(old(self)@, status@, text_of(error_type)),
            final(self)@ == finished(old(self)@),
            final(self)@.wf(),
            final(self).span is Finished,
            res@.len() == 0 <==> !(old(self).span is Active),
    {
        let mut attributes: Vec<Attribute> = Vec::new();
        assert(recorded(attributes@) =~= Seq::empty());
        if let InvocationSpan::Active(_) = &self.span {
            record(&mut attributes, "otel.status_code", status);
            if let Some(error_type) = &error_type {
                record(&mut attributes, "error.type", error_type.as_str());
            }
        }
        self.span = InvocationSpan::Finished;
        assert(recorded(attributes@) =~= answer(old(self)@, status@, text_of(error_type)));
        attributes
    }

    /// Returns the invocation's context for outbound calls and correlated logs, where
    /// `span_context` is the context of its active span.
    pub fn trace_context(&self, span_context: &SpanContext) -> (res: Option<
        ActorInvocationTraceContext,
    >)
        ensures
            trace_context_of(res) == propagated(self@, span_context@),
            res is None <==> self.span is Finished,
            res matches Some(context) ==> context.ray_id@ == self.ray_id@,
            res matches Some(context) ==> (context.span is Some <==> self.span is Active
                && span_context.trace_id != 0 && span_context.span_id != 0),
    {
        match &self.span {
            InvocationSpan::Disabled => Some(
                ActorInvocationTraceContext { ray_id: self.ray_id.clone(), span: None },
            ),
            InvocationSpan::Active(_) => Some(
                ActorInvocationTraceContext {
                    ray_id: self.ray_id.clone(),
                    span: propagation_fields(span_context),
                },
            ),
            InvocationSpan::Finished => None,
        }
    }

    /// Describes the span of one runtime operation beneath this invocation. Work of a disabled
    /// or an answered invocation runs without one.
    pub fn trace(&self, system: &'static str, operation: &'static str) -> (res: Option<Span>)
        ensures
            span_of(res) == (if self@.span is Active {
                Some(operation_span(self@, system@, operation@))
            } else {
                None
            }),
            res is Some <==> self.span is Active,
            res matches Some(span) ==> span.parent is Local && span.links@.len() == 0,
    {
        match &self.span {
            InvocationSpan::Active(_) => {
                let mut otel_name = "rivet.".to_owned();
                otel_name.append(system);
                otel_name.append(".");
                otel_name.append(operation);
                let mut span = Span::new("rivet.runtime.operation");
                span.parent = SpanParent::Local;
                span.record("otel.name", otel_name.as_str());
                span.record("otel.kind", "internal");
                span.record("rivet.operation.system", system);
                span.record("rivet.operation.name", operation);
                span.record("rivet.actor.id", self.actor_id.as_str());
                span.record("rivet.actor.name", self.actor_name.as_str());
                span.record("rivet.actor.key", self.actor_key.as_str());
                span.record("rivet.ray.id", self.ray_id.as_str());
                assert(span@ =~= operation_span(self@, system@, operation@));
                assert(span@.links.len() == span.links@.len());
                Some(span)
            },
            InvocationSpan::Disabled => None,
            InvocationSpan::Finished => None,
        }
    }
}

} // verus!
