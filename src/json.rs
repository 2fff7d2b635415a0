//! Reading values out of JSON documents through serde_json.
//!
//! A document is kept as its text; a value in it is addressed by a JSON
//! pointer such as `/players/online` or `/libraries/0/name`.

use vstd::prelude::*;

verus! {

/// Whether serde_json accepts the text as one JSON document.
pub uninterp spec fn json_text_parses(text: Seq<char>) -> bool;

/// The string at `pointer` in the document, if there is a string there.
pub uninterp spec fn json_str_at(text: Seq<char>, pointer: Seq<char>) -> Option<Seq<char>>;

/// The non-negative integer at `pointer` in the document, if it fits 64 bits.
pub uninterp spec fn json_u64_at(text: Seq<char>, pointer: Seq<char>) -> Option<u64>;

/// The length of the array at `pointer` in the document, if there is one.
pub uninterp spec fn json_len_at(text: Seq<char>, pointer: Seq<char>) -> Option<usize>;

/// A text that may be absent, as a character sequence.
pub open spec fn opt_text(o: Option<String>) -> Option<Seq<char>> {
    match o {
        Some(s) => Some(s@),
        None => None,
    }
}

/// Relies on `serde_json::from_str` into `serde_json::Value`: whether it
/// accepts the text.
#[verifier::external_body]
pub(crate) fn json_parses(text: &str) -> (r: bool)
    ensures
        r == json_text_parses(text@),
{
    serde_json::from_str::<serde_json::Value>(text).is_ok()
}

/// Relies on `serde_json::from_str`, `Value::pointer` and `Value::as_str`:
/// the string at the pointer of the parsed document; nothing when the text
/// does not parse.
#[verifier::external_body]
pub(crate) fn pointer_str(text: &str, pointer: &str) -> (r: Option<String>)
    ensures
        opt_text(r) == json_str_at(text@, pointer@),
        !json_text_parses(text@) ==> r is None,
{
    match serde_json::from_str::<serde_json::Value>(text) {
        Ok(doc) => match doc.pointer(pointer) {
            Some(v) => v.as_str().map(String::from),
            None => None,
        },
        Err(_) => None,
    }
}

/// Relies on `serde_json::from_str`, `Value::pointer` and `Value::as_u64`:
/// the integer at the pointer of the parsed document; nothing when the text
/// does not parse.
#[verifier::external_body]
pub(crate) fn pointer_u64(text: &str, pointer: &str) -> (r: Option<u64>)
    ensures
        r == json_u64_at(text@, pointer@),
        !json_text_parses(text@) ==> r is None,
{
    match serde_json::from_str::<serde_json::Value>(text) {
        Ok(doc) => match doc.pointer(pointer) {
            Some(v) => v.as_u64(),
            None => None,
        },
        Err(_) => None,
    }
}

/// Relies on `serde_json::from_str`, `Value::pointer` and `Value::as_array`:
/// the length of the array at the pointer of the parsed document; nothing
/// when the text does not parse.
#[verifier::external_body]
pub(crate) fn pointer_len(text: &str, pointer: &str) -> (r: Option<usize>)
    ensures
        r == json_len_at(text@, pointer@),
        !json_text_parses(text@) ==> r is None,
{
    match serde_json::from_str::<serde_json::Value>(text) {
        Ok(doc) => match doc.pointer(pointer) {
            Some(v) => v.as_array().map(|a| a.len()),
            None => None,
        },
        Err(_) => None,
    }
}

/// The pointer to the member `key` of element `i` of the array at `array`:
/// `<array>/<i>/<key>`.
pub open spec fn element_pointer(array: Seq<char>, i: nat, key: Seq<char>) -> Seq<char> {
    array + "/"@ + crate::text::decimal(i) + "/"@ + key
}

/// Builds `<array>/<i>/<key>`.
pub(crate) fn element_pointer_text(array: &str, i: usize, key: &str) -> (r: String)
    ensures
        r@ == element_pointer(array@, i as nat, key@),
{
    let mut s = String::new();
    crate::text::push_str(&mut s, array);
    crate::text::push_str(&mut s, "/");
    crate::text::push_decimal(&mut s, i as u64);
    crate::text::push_str(&mut s, "/");
    crate::text::push_str(&mut s, key);
    s
}

} // verus!
