//! Header fields of incoming requests.

use vstd::prelude::*;

use crate::text::lowered;

verus! {

#[verifier::external_type_specification]
#[verifier::external_body]
#[verifier::reject_recursive_types(T)]
pub struct ExHeaderMap<T>(http::HeaderMap<T>);

#[verifier::external_type_specification]
#[verifier::external_body]
pub struct ExHeaderValue(http::HeaderValue);

/// What a header map holds: under each field name, in lowercase, the bytes of the first
/// value.
pub uninterp spec fn first_values(headers: http::HeaderMap<http::HeaderValue>) -> Map<
    Seq<char>,
    Seq<u8>,
>;

/// The bytes that a header value holds.
pub uninterp spec fn value_bytes(value: http::HeaderValue) -> Seq<u8>;

/// Whether a byte is a tab or a visible ASCII character or space.
pub open spec fn is_text_byte(b: u8) -> bool {
    32 <= b < 127 || b == 9
}

/// The text of a header value, if all of its bytes are text.
pub open spec fn value_text(bytes: Seq<u8>) -> Option<Seq<char>> {
    if forall|i: int| 0 <= i < bytes.len() ==> is_text_byte(#[trigger] bytes[i]) {
        Some(Seq::new(bytes.len(), |i: int| bytes[i] as char))
    } else {
        None
    }
}

/// The text of the first value of a field; field names ignore ASCII case.
pub open spec fn field_text(values: Map<Seq<char>, Seq<u8>>, name: Seq<char>) -> Option<
    Seq<char>,
> {
    if values.contains_key(lowered(name)) {
        value_text(values[lowered(name)])
    } else {
        None
    }
}

/// Calls `HeaderMap::get` of `http`.
///
/// Believed of it: the first value under the name is found, whatever the name's ASCII case,
/// and nothing is found where the map has no such name.
#[verifier::external_body]
fn first_value<'a>(headers: &'a http::HeaderMap<http::HeaderValue>, name: &str) -> (res: Option<
    &'a http::HeaderValue,
>)
    ensures
        res is Some <==> first_values(*headers).contains_key(lowered(name@)),
        res matches Some(value) ==> value_bytes(*value) == first_values(*headers)[lowered(name@)],
{
    headers.get(name)
}

/// Calls `HeaderValue::to_str` of `http`.
///
/// Believed of it: the bytes are handed out as text, one character each, exactly when every
/// byte is a tab, a space or a visible ASCII character.
#[verifier::external_body]
fn visible_text(value: &http::HeaderValue) -> (res: Option<&str>)
    ensures
        match res {
            Some(text) => value_text(value_bytes(*value)) == Some(text@),
            None => value_text(value_bytes(*value)) is None,
        },
{
    value.to_str().ok()
}

/// The text of the first value of a header field.
pub fn header_field<'a>(headers: &'a http::HeaderMap<http::HeaderValue>, name: &str) -> (res: Option<
    &'a str,
>)
    ensures
        match res {
            Some(text) => field_text(first_values(*headers), name@) == Some(text@),
            None => field_text(first_values(*headers), name@) is None,
        },
{
    match first_value(headers, name) {
        Some(value) => visible_text(value),
        None => None,
    }
}

/// An incoming request, as far as telemetry reads it.
pub struct Request {
    pub headers: http::HeaderMap<http::HeaderValue>,
}

impl Request {
    /// The request's header fields.
    pub fn headers(&self) -> (res: &http::HeaderMap<http::HeaderValue>)
        ensures
            *res == self.headers,
    {
        &self.headers
    }

    /// What the request's header map holds.
    pub open spec fn values(self) -> Map<Seq<char>, Seq<u8>> {
        first_values(self.headers)
    }
}

/// The text of a request's header field.
pub fn header<'a>(request: &'a Request, name: &str) -> (res: Option<&'a str>)
    ensures
        match res {
            Some(text) => field_text(request.values(), name@) == Some(text@),
            None => field_text(request.values(), name@) is None,
        },
{
    header_field(request.headers(), name)
}

/// A field that was sent as plain text is read as that text, whatever the ASCII case of the name
/// it is asked by.
pub proof fn sent_text_is_read(
    values: Map<Seq<char>, Seq<u8>>,
    name: Seq<char>,
    asked: Seq<char>,
    text: Seq<char>,
)
    requires
        forall|i: int| 0 <= i < name.len() ==> !('A' <= #[trigger] name[i] <= 'Z'),
        asked.len() == name.len(),
        forall|i: int|
            0 <= i < name.len() ==> #[trigger] asked[i] == name[i] || 'A' <= asked[i] <= 'Z'
                && asked[i] as int + 32 == name[i] as int,
        forall|i: int| 0 <= i < text.len() ==> ' ' <= #[trigger] text[i] <= '~' || text[i] == '\t',
        values.contains_key(name),
        values[name] == Seq::new(text.len(), |i: int| text[i] as u8),
    ensures
        field_text(values, asked) == Some(text),
{
    assert forall|i: int| 0 <= i < name.len() implies lowered(asked)[i] == name[i] by {
        assert(!('A' <= name[i] <= 'Z'));
    }
    assert(lowered(asked) =~= name);
    let bytes = values[name];
    assert forall|i: int| 0 <= i < bytes.len() implies is_text_byte(#[trigger] bytes[i]) by {
        assert(bytes[i] == text[i] as u8);
    }
    let read = value_text(bytes)->0;
    assert forall|i: int| 0 <= i < text.len() implies read[i] == text[i] by {
        assert(bytes[i] == text[i] as u8);
    }
    assert(read =~= text);
}

/// Nothing is read of a field that was not sent, or of one that was sent with a control byte other
/// than a tab, or with a byte outside ASCII.
pub proof fn other_fields_are_not_read(values: Map<Seq<char>, Seq<u8>>, name: Seq<char>, at: int)
    requires
        forall|i: int| 0 <= i < name.len() ==> !('A' <= #[trigger] name[i] <= 'Z'),
        values.contains_key(name) ==> 0 <= at < values[name].len() && (values[name][at] < 32
            && values[name][at] != 9 || values[name][at] >= 127),
    ensures
        field_text(values, name) is None,
{
    assert(lowered(name) =~= name);
    if values.contains_key(name) {
        assert(!is_text_byte(values[name][at]));
    }
}

} // verus!
