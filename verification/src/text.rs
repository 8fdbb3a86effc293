//! Text as bytes: the bridge between byte buffers and `String`.
use vstd::prelude::*;
use vstd::string::StringSliceAdditionalSpecFns;
use vstd::utf8::{decode_utf8, partial_valid_utf8, valid_utf8};

verus! {

/// `String::from_utf8` of the standard library, with its error dropped.
///
/// The standard library documents that the call succeeds exactly when the
/// bytes are valid UTF-8 and that the string then holds those bytes; the
/// contract says the same with vstd's definition of UTF-8. Nothing is proved
/// of it.
#[verifier::external_body]
pub(crate) fn string_from_utf8(bytes: Vec<u8>) -> (r: Option<String>)
    ensures
        r is Some <==> valid_utf8(bytes@),
        r matches Some(s) ==> s@ == decode_utf8(bytes@),
{
    String::from_utf8(bytes).ok()
}

/// `std::str::from_utf8` of the standard library, with its error dropped.
///
/// The standard library documents that the call succeeds exactly when the
/// bytes are valid UTF-8 and that the string slice is then those bytes; the
/// contract says the same with vstd's definition of UTF-8. Nothing is proved
/// of it.
#[verifier::external_body]
pub(crate) fn str_from_utf8(bytes: &[u8]) -> (r: Option<&str>)
    ensures
        r is Some <==> valid_utf8(bytes@),
        r matches Some(s) ==> s@ == decode_utf8(bytes@),
{
    std::str::from_utf8(bytes).ok()
}

/// Whether every byte is below 128.
pub open spec fn spec_is_ascii(bytes: Seq<u8>) -> bool {
    forall|i: int| 0 <= i < bytes.len() ==> bytes[i] < 128
}

/// Bytes below 128 are valid UTF-8.
pub proof fn lemma_ascii_is_utf8(bytes: Seq<u8>)
    requires
        spec_is_ascii(bytes),
    ensures
        valid_utf8(bytes),
{
    assert(bytes.subrange(0, 0) =~= Seq::<u8>::empty());
    assert(partial_valid_utf8(bytes, 0));
    vstd::utf8::partial_valid_utf8_extend_ascii_block(bytes, 0, bytes.len() as int);
    assert(bytes.subrange(0, bytes.len() as int) =~= bytes);
}

/// The part of valid UTF-8 before an ASCII byte and the part after it are
/// valid UTF-8.
pub proof fn lemma_split_at_ascii(b: Seq<u8>, i: int)
    requires
        valid_utf8(b),
        0 <= i < b.len(),
        b[i] < 128,
    ensures
        valid_utf8(b.take(i)),
        valid_utf8(b.skip(i + 1)),
{
    vstd::utf8::is_char_boundary_iff_is_leading_byte(b, i);
    assert(vstd::utf8::is_leading_byte_width_1(b[i]));
    vstd::utf8::valid_utf8_split(b, i);
    assert(b.take(i) =~= b.subrange(0, i));
    let tail = b.subrange(i, b.len() as int);
    assert(tail[0] == b[i]);
    assert(vstd::utf8::pop_first_scalar(tail) =~= b.skip(i + 1));
}

/// Whether every byte is a decimal digit, and there is at least one.
pub open spec fn spec_is_digits(b: Seq<u8>) -> bool {
    b.len() > 0 && forall|i: int| 0 <= i < b.len() ==> 0x30 <= #[trigger] b[i] <= 0x39
}

/// The number that decimal digits stand for.
pub open spec fn spec_digits_value(b: Seq<u8>) -> nat
    decreases b.len(),
{
    if b.len() == 0 {
        0
    } else {
        spec_digits_value(b.drop_last()) * 10 + (b.last() - 0x30) as nat
    }
}

/// The 16-bit number that `b` is the decimal text of: digits, with or
/// without a plus sign in front, that stand for at most 65535.
pub open spec fn spec_parse_u16(b: Seq<u8>) -> Option<u16> {
    let digits = if b.len() > 0 && b[0] == 0x2b {
        b.skip(1)
    } else {
        b
    };
    if spec_is_digits(digits) && spec_digits_value(digits) <= 65535 {
        Some(spec_digits_value(digits) as u16)
    } else {
        None
    }
}

/// `str::parse::<u16>` of the standard library, with its error dropped.
///
/// The standard library documents that the text must be decimal digits,
/// optionally after a plus sign, and must stand for a number that fits;
/// the contract says the same. Nothing is proved of it.
#[verifier::external_body]
pub(crate) fn parse_u16(text: &str) -> (r: Option<u16>)
    ensures
        r == spec_parse_u16(text.spec_bytes()),
{
    text.parse::<u16>().ok()
}

/// The text of a result whose two sides are strings.
pub open spec fn spec_text_result(r: Result<String, String>) -> Result<Seq<char>, Seq<char>> {
    match r {
        Ok(s) => Ok(s@),
        Err(e) => Err(e@),
    }
}

/// The content of a result that holds bytes or a message.
pub open spec fn spec_bytes_result(r: Result<Vec<u8>, String>) -> Result<Seq<u8>, Seq<char>> {
    match r {
        Ok(v) => Ok(v@),
        Err(e) => Err(e@),
    }
}

/// The text of an optional string.
pub open spec fn spec_text_option(o: Option<String>) -> Option<Seq<char>> {
    match o {
        Some(s) => Some(s@),
        None => None,
    }
}

} // verus!
