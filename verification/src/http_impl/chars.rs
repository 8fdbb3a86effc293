//! The byte classes of HTTP/1.1 message syntax.
use vstd::prelude::*;

verus! {

/// Whether `b` may stand in a token: a letter, a digit, or one of
/// ``! # $ % & ' * + - . ^ _ ` | ~``.
pub open spec fn spec_is_tchar(b: u8) -> bool {
    ||| 0x30 <= b <= 0x39
    ||| 0x41 <= b <= 0x5a
    ||| 0x61 <= b <= 0x7a
    ||| b == 0x21
    ||| 0x23 <= b <= 0x27
    ||| b == 0x2a
    ||| b == 0x2b
    ||| b == 0x2d
    ||| b == 0x2e
    ||| b == 0x5e
    ||| b == 0x5f
    ||| b == 0x60
    ||| b == 0x7c
    ||| b == 0x7e
}

/// Whether `s` is a token: one or more token characters.
pub open spec fn spec_is_token(s: Seq<u8>) -> bool {
    s.len() > 0 && forall|i: int| 0 <= i < s.len() ==> spec_is_tchar(#[trigger] s[i])
}

/// Longest header name that is accepted.
pub const MAX_HEADER_NAME_LEN: usize = 65535;

/// Whether `s` is a header name: a token of at most 65535 bytes.
pub open spec fn spec_is_header_name(s: Seq<u8>) -> bool {
    spec_is_token(s) && s.len() <= MAX_HEADER_NAME_LEN
}

/// Whether `b` may stand in a header value: a tab, or any byte from 32 on
/// except 127.
pub open spec fn spec_is_field_byte(b: u8) -> bool {
    (b >= 32 && b != 127) || b == 0x09
}

/// Whether `s` is a header value.
pub open spec fn spec_is_field_value(s: Seq<u8>) -> bool {
    forall|i: int| 0 <= i < s.len() ==> spec_is_field_byte(#[trigger] s[i])
}

/// Whether `b` is a tab or a printable ASCII character.
pub open spec fn spec_is_visible_ascii_byte(b: u8) -> bool {
    (32 <= b < 127) || b == 0x09
}

/// Whether `s` is made of tabs and printable ASCII characters only.
pub open spec fn spec_is_visible_ascii(s: Seq<u8>) -> bool {
    forall|i: int| 0 <= i < s.len() ==> spec_is_visible_ascii_byte(#[trigger] s[i])
}

/// `b` with an ASCII capital letter turned into the small one.
pub open spec fn spec_lower(b: u8) -> u8 {
    if 0x41 <= b <= 0x5a {
        (b + 32) as u8
    } else {
        b
    }
}

/// Whether `a` and `b` are the same up to the case of ASCII letters.
pub open spec fn spec_eq_ignore_case(a: Seq<u8>, b: Seq<u8>) -> bool {
    a.len() == b.len() && forall|i: int|
        0 <= i < a.len() ==> spec_lower(#[trigger] a[i]) == spec_lower(b[i])
}

/// `b` with an ASCII capital letter turned into the small one.
pub fn lower(b: u8) -> (l: u8)
    ensures
        l == spec_lower(b),
{
    if 0x41 <= b && b <= 0x5a {
        b + 32
    } else {
        b
    }
}

/// Whether `a` and `b` are the same up to the case of ASCII letters.
pub fn eq_ignore_case(a: &[u8], b: &[u8]) -> (r: bool)
    ensures
        r == spec_eq_ignore_case(a@, b@),
{
    if a.len() != b.len() {
        return false;
    }
    let mut i: usize = 0;
    while i < a.len()
        invariant
            i <= a@.len(),
            a@.len() == b@.len(),
            forall|j: int| 0 <= j < i ==> spec_lower(#[trigger] a@[j]) == spec_lower(b@[j]),
        decreases a@.len() - i,
    {
        if lower(a[i]) != lower(b[i]) {
            return false;
        }
        i += 1;
    }
    true
}

/// Whether `s` is made of tabs and printable ASCII characters only.
pub fn is_visible_ascii(s: &[u8]) -> (r: bool)
    ensures
        r == spec_is_visible_ascii(s@),
{
    let mut i: usize = 0;
    while i < s.len()
        invariant
            i <= s@.len(),
            forall|j: int| 0 <= j < i ==> spec_is_visible_ascii_byte(#[trigger] s@[j]),
        decreases s@.len() - i,
    {
        let b = s[i];
        if !((32 <= b && b < 127) || b == 0x09) {
            return false;
        }
        i += 1;
    }
    true
}

/// Comparing up to case is reflexive, symmetric and transitive.
pub proof fn lemma_eq_ignore_case_equivalence(a: Seq<u8>, b: Seq<u8>, c: Seq<u8>)
    ensures
        spec_eq_ignore_case(a, a),
        spec_eq_ignore_case(a, b) ==> spec_eq_ignore_case(b, a),
        spec_eq_ignore_case(a, b) && spec_eq_ignore_case(b, c) ==> spec_eq_ignore_case(a, c),
{
    if spec_eq_ignore_case(a, b) {
        assert forall|i: int| 0 <= i < b.len() implies spec_lower(#[trigger] b[i]) == spec_lower(
            a[i],
        ) by {
            assert(spec_lower(a[i]) == spec_lower(b[i]));
        }
        if spec_eq_ignore_case(b, c) {
            assert forall|i: int| 0 <= i < a.len() implies spec_lower(#[trigger] a[i])
                == spec_lower(c[i]) by {
                assert(spec_lower(a[i]) == spec_lower(b[i]));
                assert(spec_lower(b[i]) == spec_lower(c[i]));
            }
        }
    }
}

} // verus!
