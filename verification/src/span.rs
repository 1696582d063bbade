//! Descriptions of the spans that telemetry opens and of what it records on them.

use vstd::prelude::*;

use crate::propagation::{
    context_of, parse_span_context, parsed_context, str_of, SpanContext, SpanContextView,
};

verus! {

/// One recorded field of a span.
#[derive(Debug)]
pub struct Attribute {
    pub key: &'static str,
    pub value: String,
}

impl View for Attribute {
    type V = (Seq<char>, Seq<char>);

    open spec fn view(&self) -> (Seq<char>, Seq<char>) {
        (self.key@, self.value@)
    }
}

/// The keys and values of a list of attributes.
pub open spec fn recorded(attributes: Seq<Attribute>) -> Seq<(Seq<char>, Seq<char>)> {
    attributes.map_values(|attribute: Attribute| attribute@)
}

/// Where a span hangs in its trace.
#[derive(Debug)]
pub enum SpanParent {
    /// The span starts a trace.
    Root,
    /// The span is a child of the span that its caller holds open.
    Local,
    /// The span continues a trace that another process started.
    Remote(SpanContext),
}

/// What a [`SpanParent`] holds, as mathematical values.
#[verifier::ext_equal]
pub enum SpanParentView {
    Root,
    Local,
    Remote(SpanContextView),
}

impl View for SpanParent {
    type V = SpanParentView;

    open spec fn view(&self) -> SpanParentView {
        match *self {
            SpanParent::Root => SpanParentView::Root,
            SpanParent::Local => SpanParentView::Local,
            SpanParent::Remote(context) => SpanParentView::Remote(context@),
        }
    }
}

/// A span: its name, its place in a trace, the spans it links to and its fields.
#[derive(Debug)]
pub struct Span {
    pub name: &'static str,
    pub parent: SpanParent,
    pub links: Vec<SpanContext>,
    pub attributes: Vec<Attribute>,
}

/// What a [`Span`] holds, as mathematical values.
#[verifier::ext_equal]
pub struct SpanView {
    pub name: Seq<char>,
    pub parent: SpanParentView,
    pub links: Seq<SpanContextView>,
    pub attributes: Seq<(Seq<char>, Seq<char>)>,
}

impl View for Span {
    type V = SpanView;

    open spec fn view(&self) -> SpanView {
        SpanView {
            name: self.name@,
            parent: self.parent@,
            links: self.links@.map_values(|link: SpanContext| link@),
            attributes: recorded(self.attributes@),
        }
    }
}

impl SpanView {
    /// The span with one more field.
    pub open spec fn with(self, key: Seq<char>, value: Seq<char>) -> SpanView {
        SpanView { attributes: self.attributes.push((key, value)), ..self }
    }
}

impl Span {
    /// A span without parent, links or fields.
    pub fn new(name: &'static str) -> (res: Span)
        ensures
            res@ == (SpanView {
                name: name@,
                parent: SpanParentView::Root,
                links: Seq::empty(),
                attributes: Seq::empty(),
            }),
    {
        let span = Span {
            name,
            parent: SpanParent::Root,
            links: Vec::new(),
            attributes: Vec::new(),
        };
        assert(span@.links =~= Seq::empty());
        assert(span@.attributes =~= Seq::empty());
        span
    }

    /// Records a field.
    pub fn record(&mut self, key: &'static str, value: &str)
        ensures
            final(self)@ == old(self)@.with(key@, value@),
    {
        record(&mut self.attributes, key, value);
    }

    /// Links the span to another one.
    pub fn add_link(&mut self, link: SpanContext)
        ensures
            final(self)@ == (SpanView { links: old(self)@.links.push(link@), ..old(self)@ }),
    {
        self.links.push(link);
        assert(self@.links =~= old(self)@.links.push(link@));
    }

    /// Continues a remote trace, if there is one to continue.
    pub fn adopt(&mut self, parent: Option<SpanContext>)
        ensures
            final(self)@ == adopted(old(self)@, context_of(parent)),
    {
        if let Some(context) = parent {
            self.parent = SpanParent::Remote(context);
        }
    }
}

/// A span after it was offered a remote parent.
pub open spec fn adopted(span: SpanView, parent: Option<SpanContextView>) -> SpanView {
    match parent {
        Some(context) => SpanView { parent: SpanParentView::Remote(context), ..span },
        None => span,
    }
}

/// Appends a field to a list of attributes.
pub(crate) fn record(attributes: &mut Vec<Attribute>, key: &'static str, value: &str)
    ensures
        recorded(final(attributes)@) == recorded(old(attributes)@).push((key@, value@)),
{
    attributes.push(Attribute { key, value: value.to_owned() });
    assert(recorded(attributes@) =~= recorded(old(attributes)@).push((key@, value@)));
}

/// The remote parent that incoming W3C fields name, if they name a valid one.
pub open spec fn remote_parent(
    traceparent: Option<Seq<char>>,
    tracestate: Option<Seq<char>>,
) -> Option<SpanContextView> {
    match traceparent {
        Some(text) => parsed_context(text, tracestate),
        None => None,
    }
}

/// Makes incoming W3C fields the span's remote parent; invalid fields are ignored.
pub fn set_remote_parent(span: &mut Span, traceparent: Option<&str>, tracestate: Option<&str>)
    ensures
        final(span)@ == adopted(
            old(span)@,
            remote_parent(str_of(traceparent), str_of(tracestate)),
        ),
{
    if let Some(text) = traceparent {
        span.adopt(parse_span_context(text, tracestate));
    }
}

/// The bounded identity of an error: its group and its code within the group.
#[derive(Debug)]
pub struct ErrorIdentity {
    pub group: String,
    pub code: String,
}

impl ErrorIdentity {
    /// The identity as one text, group first.
    pub open spec fn text(self) -> Seq<char> {
        self.group@ + "."@ + self.code@
    }

    /// The identity as one text, such as `actor.action_not_found`.
    pub fn error_type(&self) -> (res: String)
        ensures
            res@ == self.text(),
    {
        let mut text = self.group.clone();
        text.append(".");
        text.append(self.code.as_str());
        text
    }
}

/// What is recorded of a result: the status, and for an error its identity.
pub open spec fn outcome<T>(result: Result<T, ErrorIdentity>) -> Seq<(Seq<char>, Seq<char>)> {
    match result {
        Ok(_) => seq![("otel.status_code"@, "OK"@)],
        Err(error) => seq![("otel.status_code"@, "ERROR"@), ("error.type"@, error.text())],
    }
}

/// Lists what is recorded of a result.
pub fn record_outcome<T>(result: &Result<T, ErrorIdentity>) -> (res: Vec<Attribute>)
    ensures
        recorded(res@) == outcome(*result),
        res@.len() == (if result is Ok {
            1nat
        } else {
            2nat
        }),
{
    let mut attributes: Vec<Attribute> = Vec::new();
    assert(recorded(attributes@) =~= Seq::empty());
    match result {
        Ok(_) => {
            record(&mut attributes, "otel.status_code", "OK");
        },
        Err(error) => {
            record(&mut attributes, "otel.status_code", "ERROR");
            record(&mut attributes, "error.type", error.error_type().as_str());
        },
    }
    assert(recorded(attributes@) =~= outcome(*result));
    assert(attributes@.len() == recorded(attributes@).len());
    attributes
}

} // verus!
