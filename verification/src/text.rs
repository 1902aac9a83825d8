//! Header text: which bytes of a request header count as text, and the string
//! they spell.

use vstd::prelude::*;

verus! {

/// A byte that may stand in the text of a header value: a printable ASCII
/// character, a space or a tab.
pub open spec fn is_header_text_byte(b: u8) -> bool {
    (32 <= b && b < 127) || b == 9
}

/// Every byte of the value is a text byte.
pub open spec fn is_header_text(bytes: Seq<u8>) -> bool {
    forall|i: int| 0 <= i < bytes.len() ==> is_header_text_byte(#[trigger] bytes[i])
}

/// Every byte is below 128.
pub open spec fn is_ascii_bytes(bytes: Seq<u8>) -> bool {
    forall|i: int| 0 <= i < bytes.len() ==> #[trigger] bytes[i] < 128
}

/// The characters that ASCII bytes spell: one per byte, with the same code.
pub open spec fn ascii_chars(bytes: Seq<u8>) -> Seq<char> {
    Seq::new(bytes.len(), |i: int| bytes[i] as char)
}

/// The view of an optional string.
pub open spec fn optional_text(value: Option<String>) -> Option<Seq<char>> {
    match value {
        Some(s) => Some(s@),
        None => None,
    }
}

/// Calls std's `String::from_utf8` on a copy of the bytes.
///
/// Believed: ASCII bytes are accepted, and the string then holds one
/// character per byte, with the byte's code. Nothing is claimed of other
/// input.
#[verifier::external_body]
pub(crate) fn string_from_bytes(bytes: &Vec<u8>) -> (r: Option<String>)
    ensures
        is_ascii_bytes(bytes@) ==> r is Some,
        is_ascii_bytes(bytes@) ==> (r matches Some(s) ==> s@ == ascii_chars(bytes@)),
{
    String::from_utf8(bytes.clone()).ok()
}

/// Reads a header value as text.
///
/// The value is text exactly when each of its bytes is printable ASCII, a
/// space or a tab; the string then spells those bytes.
pub fn header_text(bytes: &Vec<u8>) -> (r: Option<String>)
    ensures
        r is Some <==> is_header_text(bytes@),
        r matches Some(s) ==> s@ == ascii_chars(bytes@),
{
    let mut i: usize = 0;
    while i < bytes.len()
        invariant
            i <= bytes.len(),
            forall|j: int| 0 <= j < i ==> is_header_text_byte(#[trigger] bytes@[j]),
        decreases bytes.len() - i,
    {
        let b: u8 = bytes[i];
        if !((32 <= b && b < 127) || b == 9) {
            assert(!is_header_text_byte(bytes@[i as int]));
            return None;
        }
        i += 1;
    }
    assert(is_header_text(bytes@));
    assert(is_ascii_bytes(bytes@)) by {
        assert forall|j: int| 0 <= j < bytes@.len() implies #[trigger] bytes@[j] < 128 by {
            assert(is_header_text_byte(bytes@[j]));
        }
    }
    string_from_bytes(bytes)
}

} // verus!
