//! Identifiers minted for each outgoing request.
use vstd::prelude::*;

verus! {

/// A digit of lower-case hexadecimal.
pub open spec fn is_lower_hex_digit(c: char) -> bool {
    ('0' <= c && c <= '9') || ('a' <= c && c <= 'f')
}

/// Whether position `i` of a hyphenated identifier holds a hyphen.
pub open spec fn is_hyphen_position(i: int) -> bool {
    i == 8 || i == 13 || i == 18 || i == 23
}

/// The text of a version 7 UUID in lower-case hyphenated form
/// (`xxxxxxxx-xxxx-7xxx-Vxxx-xxxxxxxxxxxx`, with `V` one of `8`, `9`, `a`, `b`).
pub open spec fn is_request_id(s: Seq<char>) -> bool {
    &&& s.len() == 36
    &&& forall|i: int|
        0 <= i < 36 ==> if is_hyphen_position(i) {
            s[i] == '-'
        } else {
            is_lower_hex_digit(#[trigger] s[i])
        }
    &&& s[14] == '7'
    &&& (s[19] == '8' || s[19] == '9' || s[19] == 'a' || s[19] == 'b')
}

/// Relies on `uuid::Uuid::now_v7` for a fresh time-ordered identifier (version 7,
/// RFC variant) and on `Uuid`'s `Display`, which writes it in lower-case
/// hyphenated form. Time and chance decide the value: only its form is stated.
#[verifier::external_body]
pub(crate) fn fresh_request_id() -> (r: String)
    ensures
        is_request_id(r@),
{
    uuid::Uuid::now_v7().to_string()
}

} // verus!
