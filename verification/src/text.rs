//! Text helpers shared by the telemetry rules.

use vstd::prelude::*;

verus! {

/// The lowercase form of an ASCII letter; every other character is kept.
pub open spec fn ascii_lower(c: char) -> char {
    if 'A' <= c <= 'Z' {
        (c as int + 32) as char
    } else {
        c
    }
}

/// A text with every ASCII letter in lowercase.
pub open spec fn lowered(s: Seq<char>) -> Seq<char> {
    Seq::new(s.len(), |i: int| ascii_lower(s[i]))
}

/// The lowercase hexadecimal digit of a value below sixteen.
pub open spec fn hex_digit(d: nat) -> char {
    if d < 10 {
        (48 + d) as char
    } else {
        (87 + d) as char
    }
}

/// The last `width` lowercase hexadecimal digits of a value, zero padded.
pub open spec fn lower_hex(value: nat, width: nat) -> Seq<char>
    decreases width,
{
    if width == 0 {
        Seq::empty()
    } else {
        lower_hex(value / 16, (width - 1) as nat).push(hex_digit(value % 16))
    }
}

/// How many values `width` hexadecimal digits can tell apart.
pub open spec fn hex_range(width: nat) -> nat
    decreases width,
{
    if width == 0 {
        1
    } else {
        16 * hex_range((width - 1) as nat)
    }
}

/// Whether a character is a lowercase hexadecimal digit.
pub open spec fn is_lower_hex_char(c: char) -> bool {
    '0' <= c <= '9' || 'a' <= c <= 'f'
}

/// The digits of a value are as many as the width, each a lowercase hexadecimal digit.
pub proof fn lemma_lower_hex_chars(value: nat, width: nat)
    ensures
        lower_hex(value, width).len() == width,
        forall|i: int|
            0 <= i < width ==> is_lower_hex_char(#[trigger] lower_hex(value, width)[i]),
    decreases width,
{
    if width > 0 {
        lemma_lower_hex_chars(value / 16, (width - 1) as nat);
    }
}

/// Two values that fit the width and have the same digits are the same value.
pub proof fn lemma_lower_hex_injective(a: nat, b: nat, width: nat)
    requires
        a < hex_range(width),
        b < hex_range(width),
        lower_hex(a, width) == lower_hex(b, width),
    ensures
        a == b,
    decreases width,
{
    if width > 0 {
        let shorter = (width - 1) as nat;
        let x = lower_hex(a / 16, shorter);
        let y = lower_hex(b / 16, shorter);
        let c = hex_digit(a % 16);
        let d = hex_digit(b % 16);
        assert(x.push(c).last() == c);
        assert(y.push(d).last() == d);
        assert(a % 16 == b % 16);
        assert(x.push(c).drop_last() =~= x);
        assert(y.push(d).drop_last() =~= y);
        lemma_lower_hex_injective(a / 16, b / 16, shorter);
    }
}

/// Whether two texts hold the same characters.
pub(crate) fn str_eq(a: &str, b: &str) -> (res: bool)
    ensures
        res == (a@ == b@),
{
    let n: usize = a.unicode_len();
    if n != b.unicode_len() {
        return false;
    }
    let mut i: usize = 0;
    while i < n
        invariant
            n == a@.len(),
            n == b@.len(),
            i <= n,
            forall|j: int| 0 <= j < i ==> a@[j] == b@[j],
        decreases n - i,
    {
        if a.get_char(i) != b.get_char(i) {
            return false;
        }
        i = i + 1;
    }
    assert(a@ =~= b@);
    true
}

/// The code point of a character's lowercase form.
fn lower_code(c: char) -> (res: u32)
    ensures
        res == ascii_lower(c) as u32,
{
    let code: u32 = c as u32;
    if 65 <= code && code <= 90 {
        code + 32
    } else {
        code
    }
}

/// Whether two texts are the same but for the case of ASCII letters.
pub(crate) fn eq_ignore_ascii_case(a: &str, b: &str) -> (res: bool)
    ensures
        res == (lowered(a@) == lowered(b@)),
{
    let n: usize = a.unicode_len();
    if n != b.unicode_len() {
        assert(lowered(a@).len() != lowered(b@).len());
        return false;
    }
    let mut i: usize = 0;
    while i < n
        invariant
            n == a@.len(),
            n == b@.len(),
            i <= n,
            forall|j: int| 0 <= j < i ==> lowered(a@)[j] == lowered(b@)[j],
        decreases n - i,
    {
        if lower_code(a.get_char(i)) != lower_code(b.get_char(i)) {
            assert(lowered(a@)[i as int] != lowered(b@)[i as int]);
            return false;
        }
        i = i + 1;
    }
    assert(lowered(a@) =~= lowered(b@));
    true
}

} // verus!
