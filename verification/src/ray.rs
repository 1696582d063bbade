//! Ray ids: the identity that every piece of work started by one invocation shares.

use vstd::prelude::*;
use vstd::string::{is_ascii_spec_bytes, StringSliceAdditionalSpecFns};

use crate::headers::{field_text, first_values, header_field, is_text_byte, value_text};
use crate::text::{is_lower_hex_char, lowered};

verus! {

/// Whether a ray id may hold this character.
pub open spec fn is_ray_char(c: char) -> bool {
    ||| 'a' <= c <= 'z'
    ||| 'A' <= c <= 'Z'
    ||| '0' <= c <= '9'
    ||| c == '-'
    ||| c == '_'
}

/// Whether a text is accepted as a ray id.
pub open spec fn is_ray_id(text: Seq<char>) -> bool {
    &&& 0 < text.len() <= 128
    &&& forall|i: int| 0 <= i < text.len() ==> is_ray_char(#[trigger] text[i])
}

/// Whether a text is a random UUID in hyphenated lowercase form.
pub open spec fn is_random_uuid(text: Seq<char>) -> bool {
    &&& text.len() == 36
    &&& forall|i: int|
        0 <= i < 36 ==> if i == 8 || i == 13 || i == 18 || i == 23 {
            #[trigger] text[i] == '-'
        } else {
            is_lower_hex_char(text[i])
        }
    &&& text[14] == '4'
    &&& text[19] == '8' || text[19] == '9' || text[19] == 'a' || text[19] == 'b'
}

/// The ray id that header fields carry: the actor-to-actor field first, then the gateway's;
/// a field without an acceptable ray id is passed over.
pub open spec fn carried_ray(values: Map<Seq<char>, Seq<u8>>) -> Option<Seq<char>> {
    let actor = field_text(values, "x-rivetkit-ray-id"@);
    let gateway = field_text(values, "x-rivet-ray-id"@);
    if actor is Some && is_ray_id(actor->0) {
        actor
    } else if gateway is Some && is_ray_id(gateway->0) {
        gateway
    } else {
        None
    }
}

/// Calls `Uuid::new_v4` of `uuid` and its `to_string`.
///
/// Believed of it: whatever the random bits, the text is a version four UUID in hyphenated
/// lowercase form. Which one it is rests on the system's random source and is left unsaid, and so
/// is that `uuid` panics on a system whose random source fails.
#[verifier::external_body]
pub(crate) fn fresh_ray_id() -> (res: String)
    ensures
        is_random_uuid(res@),
{
    uuid::Uuid::new_v4().to_string()
}

/// Whether a byte is an ASCII letter, a digit, a hyphen or an underscore.
fn is_ray_byte(b: u8) -> (res: bool)
    ensures
        res == is_ray_char(b as char),
{
    (97 <= b && b <= 122) || (65 <= b && b <= 90) || (48 <= b && b <= 57) || b == 45 || b == 95
}

/// Whether a text is accepted as a ray id.
pub fn accepts_ray_id(text: &str) -> (res: bool)
    ensures
        res == is_ray_id(text@),
{
    broadcast use is_ascii_spec_bytes;

    if !text.is_ascii() {
        return false;
    }
    let bytes = text.as_bytes();
    let n: usize = bytes.len();
    assert(n == text@.len());
    if n == 0 || n > 128 {
        return false;
    }
    let mut i: usize = 0;
    while i < n
        invariant
            n == bytes@.len(),
            n == text@.len(),
            0 < n <= 128,
            i <= n,
            text.is_ascii(),
            bytes@ == text.spec_bytes(),
            forall|j: int| 0 <= j < i ==> is_ray_char(#[trigger] text@[j]),
        decreases n - i,
    {
        let b: u8 = bytes[i];
        assert(b == text@[i as int] as u8);
        if !is_ray_byte(b) {
            return false;
        }
        i = i + 1;
    }
    true
}

/// The ray id that an incoming request carries, if it carries an acceptable one.
pub fn invocation_ray_id(headers: &http::HeaderMap<http::HeaderValue>) -> (res: Option<String>)
    ensures
        match res {
            Some(ray_id) => carried_ray(first_values(*headers)) == Some(ray_id@),
            None => carried_ray(first_values(*headers)) is None,
        },
{
    if let Some(text) = header_field(headers, "x-rivetkit-ray-id") {
        if accepts_ray_id(text) {
            return Some(text.to_owned());
        }
    }
    if let Some(text) = header_field(headers, "x-rivet-ray-id") {
        if accepts_ray_id(text) {
            return Some(text.to_owned());
        }
    }
    None
}

/// A ray id that was made up here is one that the next actor accepts.
pub proof fn fresh_ray_ids_are_accepted(text: Seq<char>)
    requires
        is_random_uuid(text),
    ensures
        is_ray_id(text),
{
    assert forall|i: int| 0 <= i < text.len() implies is_ray_char(#[trigger] text[i]) by {}
}

/// Ingress ends up with an acceptable ray id, be it one that the request carries or one that was
/// made up because it carries none.
pub proof fn ingress_has_an_accepted_ray(values: Map<Seq<char>, Seq<u8>>, ray_id: Seq<char>)
    requires
        match carried_ray(values) {
            Some(carried) => ray_id == carried,
            None => is_random_uuid(ray_id),
        },
    ensures
        is_ray_id(ray_id),
{
    if carried_ray(values) is None {
        fresh_ray_ids_are_accepted(ray_id);
    }
}

/// An acceptable ray id that is sent in the actor-to-actor field is the ray id that the
/// receiver reads, whatever else the request carries.
pub proof fn sent_ray_id_is_received(values: Map<Seq<char>, Seq<u8>>, ray_id: Seq<char>)
    requires
        is_ray_id(ray_id),
        values.contains_key(lowered("x-rivetkit-ray-id"@)),
        values[lowered("x-rivetkit-ray-id"@)] == Seq::new(
            ray_id.len(),
            |i: int| ray_id[i] as u8,
        ),
    ensures
        carried_ray(values) == Some(ray_id),
{
    let bytes = values[lowered("x-rivetkit-ray-id"@)];
    assert forall|i: int| 0 <= i < bytes.len() implies is_text_byte(#[trigger] bytes[i]) by {
        assert(is_ray_char(ray_id[i]));
    }
    let text = value_text(bytes)->0;
    assert forall|i: int| 0 <= i < ray_id.len() implies text[i] == ray_id[i] by {
        assert(is_ray_char(ray_id[i]));
        assert(bytes[i] == ray_id[i] as u8);
    }
    assert(text =~= ray_id);
}

/// The bytes that a plain text is sent as.
pub open spec fn sent_as(text: Seq<char>) -> Seq<u8> {
    Seq::new(text.len(), |i: int| text[i] as u8)
}

/// Whether a field, named in lowercase, was sent with an acceptable ray id.
pub open spec fn sends_a_ray(values: Map<Seq<char>, Seq<u8>>, name: Seq<char>) -> bool {
    exists|ray_id: Seq<char>|
        #[trigger] is_ray_id(ray_id) && values.contains_key(name) && values[name] == sent_as(
            ray_id,
        )
}

/// A ray id is one to one hundred and twenty-eight characters of a fixed alphabet, and any such
/// text is one.
pub proof fn ray_ids_are_words_of_the_alphabet(text: Seq<char>)
    ensures
        is_ray_id(text) <==> 1 <= text.len() <= 128 && forall|i: int|
            0 <= i < text.len()
                ==> "abcdefghijklmnopqrstuvwxyzABCDEFGHIJKLMNOPQRSTUVWXYZ0123456789-_"@.contains(
                #[trigger] text[i],
            ),
{
    let alphabet = "abcdefghijklmnopqrstuvwxyzABCDEFGHIJKLMNOPQRSTUVWXYZ0123456789-_"@;
    reveal_strlit("abcdefghijklmnopqrstuvwxyzABCDEFGHIJKLMNOPQRSTUVWXYZ0123456789-_");
    assert(forall|k: int| 0 <= k < 26 ==> #[trigger] alphabet[k] == (97 + k) as char);
    assert(forall|k: int| 26 <= k < 52 ==> #[trigger] alphabet[k] == (65 + k - 26) as char);
    assert(forall|k: int| 52 <= k < 62 ==> #[trigger] alphabet[k] == (48 + k - 52) as char);
    assert(alphabet[62] == '-' && alphabet[63] == '_' && alphabet.len() == 64);
    assert forall|c: char| is_ray_char(c) <==> #[trigger] alphabet.contains(c) by {
        if is_ray_char(c) {
            let k: int = if 'a' <= c <= 'z' {
                c as int - 97
            } else if 'A' <= c <= 'Z' {
                c as int - 65 + 26
            } else if '0' <= c <= '9' {
                c as int - 48 + 52
            } else if c == '-' {
                62
            } else {
                63
            };
            assert(alphabet[k] == c);
        }
    }
    if is_ray_id(text) {
        assert forall|i: int| 0 <= i < text.len() implies alphabet.contains(#[trigger] text[i]) by {
            assert(is_ray_char(text[i]));
        }
    }
    if 1 <= text.len() <= 128 && forall|i: int|
        0 <= i < text.len() ==> alphabet.contains(#[trigger] text[i]) {
        assert forall|i: int| 0 <= i < text.len() implies is_ray_char(#[trigger] text[i]) by {
            assert(alphabet.contains(text[i]));
        }
    }
}

/// What is read of a field: an acceptable ray id that was sent is read as it is, and whatever is
/// read as an acceptable ray id was sent as that ray id.
proof fn lemma_ray_field(values: Map<Seq<char>, Seq<u8>>, name: Seq<char>, ray_id: Seq<char>)
    requires
        is_ray_id(ray_id),
        lowered(name) == name,
    ensures
        field_text(values, name) == Some(ray_id) <==> values.contains_key(name) && values[name]
            == sent_as(ray_id),
{
    if values.contains_key(name) {
        let bytes = values[name];
        if bytes == sent_as(ray_id) {
            assert forall|i: int| 0 <= i < bytes.len() implies is_text_byte(
                #[trigger] bytes[i],
            ) by {
                assert(is_ray_char(ray_id[i]));
            }
            let text = value_text(bytes)->0;
            assert forall|i: int| 0 <= i < ray_id.len() implies text[i] == ray_id[i] by {
                assert(is_ray_char(ray_id[i]));
                assert(bytes[i] == ray_id[i] as u8);
            }
            assert(text =~= ray_id);
        }
        if field_text(values, name) == Some(ray_id) {
            assert forall|i: int| 0 <= i < bytes.len() implies bytes[i] == ray_id[i] as u8 by {
                assert(ray_id[i] == bytes[i] as char);
            }
            assert(bytes =~= sent_as(ray_id));
        }
    }
}

proof fn lemma_ray_fields_are_lowercase()
    ensures
        lowered("x-rivetkit-ray-id"@) == "x-rivetkit-ray-id"@,
        lowered("x-rivet-ray-id"@) == "x-rivet-ray-id"@,
{
    reveal_strlit("x-rivetkit-ray-id");
    reveal_strlit("x-rivet-ray-id");
    assert(lowered("x-rivetkit-ray-id"@) =~= "x-rivetkit-ray-id"@);
    assert(lowered("x-rivet-ray-id"@) =~= "x-rivet-ray-id"@);
}

/// An acceptable ray id that an actor sends is read, whatever the gateway's field holds.
pub proof fn actor_ray_is_read(values: Map<Seq<char>, Seq<u8>>, ray_id: Seq<char>)
    requires
        is_ray_id(ray_id),
        values.contains_key("x-rivetkit-ray-id"@),
        values["x-rivetkit-ray-id"@] == sent_as(ray_id),
    ensures
        carried_ray(values) == Some(ray_id),
{
    lemma_ray_fields_are_lowercase();
    lemma_ray_field(values, "x-rivetkit-ray-id"@, ray_id);
}

/// An acceptable ray id that the gateway stamps is read whenever the actor-to-actor field is
/// absent or holds no acceptable one.
pub proof fn gateway_ray_is_read(values: Map<Seq<char>, Seq<u8>>, ray_id: Seq<char>)
    requires
        is_ray_id(ray_id),
        values.contains_key("x-rivet-ray-id"@),
        values["x-rivet-ray-id"@] == sent_as(ray_id),
        !sends_a_ray(values, "x-rivetkit-ray-id"@),
    ensures
        carried_ray(values) == Some(ray_id),
{
    lemma_ray_fields_are_lowercase();
    lemma_ray_field(values, "x-rivet-ray-id"@, ray_id);
    if let Some(text) = field_text(values, "x-rivetkit-ray-id"@) {
        if is_ray_id(text) {
            lemma_ray_field(values, "x-rivetkit-ray-id"@, text);
        }
    }
}

/// No ray id is read where neither field was sent with an acceptable one.
pub proof fn no_ray_is_made_up(values: Map<Seq<char>, Seq<u8>>)
    requires
        !sends_a_ray(values, "x-rivetkit-ray-id"@),
        !sends_a_ray(values, "x-rivet-ray-id"@),
    ensures
        carried_ray(values) is None,
{
    lemma_ray_fields_are_lowercase();
    if let Some(text) = field_text(values, "x-rivetkit-ray-id"@) {
        if is_ray_id(text) {
            lemma_ray_field(values, "x-rivetkit-ray-id"@, text);
        }
    }
    if let Some(text) = field_text(values, "x-rivet-ray-id"@) {
        if is_ray_id(text) {
            lemma_ray_field(values, "x-rivet-ray-id"@, text);
        }
    }
}

} // verus!
