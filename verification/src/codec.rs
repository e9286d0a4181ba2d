//! Calls that convert between text and bytes: UTF-8 from std, Base64 from
//! `base64`, JSON members from `serde_json`, and media types from `mime_guess`.
//!
//! Everything in this file is trusted: the contracts below are what the
//! outside sources or std's documentation show, and nothing here is proved.

use vstd::prelude::*;
use vstd::utf8::{decode_utf8, encode_utf8, valid_utf8};
use base64::Engine;

verus! {

/// `String::from_utf8`: a string exactly when the bytes are valid UTF-8, and
/// then the characters those bytes encode.
#[verifier::external_body]
pub(crate) fn utf8_string(bytes: &[u8]) -> (r: Option<String>)
    ensures
        r is Some <==> valid_utf8(bytes@),
        r matches Some(s) ==> s@ == decode_utf8(bytes@),
{
    String::from_utf8(bytes.to_vec()).ok()
}

/// The bytes that standard Base64 (with padding) text decodes to, or, when
/// the text is not valid standard Base64, the text (`Display`) of the
/// decoder's error.
pub uninterp spec fn base64_decoded(text: Seq<char>) -> Result<Seq<u8>, Seq<char>>;

/// The standard Base64 (with padding) text of the bytes.
pub uninterp spec fn base64_encoded(bytes: Seq<u8>) -> Seq<char>;

/// What a JSON document says of one member: nothing when `text` is not JSON;
/// otherwise the member's string, or no string when the document is not an
/// object, has no such member, or the member is not a string
/// (`serde_json::from_str::<Value>`, then `value[field].as_str()`).
pub uninterp spec fn json_string_member(text: Seq<char>, field: Seq<char>) -> Option<Option<Seq<char>>>;

/// What a JSON document says of one member as an unsigned integer: nothing
/// when `text` is not JSON; otherwise the member's value when it is an
/// integer in `u64` range, or no value (`value[field].as_u64()`).
pub uninterp spec fn json_u64_member(text: Seq<char>, field: Seq<char>) -> Option<Option<u64>>;

/// The media type that `mime_guess` gives for a path by its extension, or
/// `application/octet-stream` when it knows none
/// (`from_path(path).first_or_octet_stream().to_string()`).
pub uninterp spec fn guessed_mime(path: Seq<char>) -> Seq<char>;

/// The view of an optional optional string.
pub open spec fn opt_opt_view(r: Option<Option<String>>) -> Option<Option<Seq<char>>> {
    match r {
        Some(Some(s)) => Some(Some(s@)),
        Some(None) => Some(None),
        None => None,
    }
}

/// `general_purpose::STANDARD.decode(text)`: the decoded bytes, or the text
/// of the error when the text is not valid standard Base64.
#[verifier::external_body]
pub(crate) fn base64_decode(text: &str) -> (r: Result<Vec<u8>, String>)
    ensures
        match r {
            Ok(b) => base64_decoded(text@) == Ok::<Seq<u8>, Seq<char>>(b@),
            Err(e) => base64_decoded(text@) == Err::<Seq<u8>, Seq<char>>(e@),
        },
{
    base64::engine::general_purpose::STANDARD.decode(text).map_err(|e| e.to_string())
}

/// `general_purpose::STANDARD.encode(bytes)`; it panics when the length of
/// the text would not fit in `usize`, which the precondition leaves out.
#[verifier::external_body]
pub(crate) fn base64_encode(bytes: &[u8]) -> (r: String)
    requires
        bytes@.len() <= usize::MAX / 2,
    ensures
        r@ == base64_encoded(bytes@),
{
    base64::engine::general_purpose::STANDARD.encode(bytes)
}

/// Reads one member of a JSON document as a string
/// (`serde_json::from_str::<serde_json::Value>(text)`, then `v[field].as_str()`).
/// The string a JSON document holds takes no more UTF-8 bytes than the
/// document: the parser copies unescaped bytes and shortens each escape.
#[verifier::external_body]
pub(crate) fn json_string_field(text: &str, field: &str) -> (r: Option<Option<String>>)
    ensures
        opt_opt_view(r) == json_string_member(text@, field@),
        r matches Some(Some(s)) ==> encode_utf8(s@).len() <= encode_utf8(text@).len(),
{
    match serde_json::from_str::<serde_json::Value>(text) {
        Ok(v) => Some(v[field].as_str().map(|s| s.to_string())),
        Err(_) => None,
    }
}

/// Reads one member of a JSON document as an unsigned integer
/// (`serde_json::from_str::<serde_json::Value>(text)`, then `v[field].as_u64()`).
#[verifier::external_body]
pub(crate) fn json_u64_field(text: &str, field: &str) -> (r: Option<Option<u64>>)
    ensures
        r == json_u64_member(text@, field@),
{
    match serde_json::from_str::<serde_json::Value>(text) {
        Ok(v) => Some(v[field].as_u64()),
        Err(_) => None,
    }
}

/// The media type of a path (`mime_guess::from_path(path).first_or_octet_stream()`).
#[verifier::external_body]
pub(crate) fn mime_for_path(path: &str) -> (r: String)
    ensures
        r@ == guessed_mime(path@),
{
    mime_guess::from_path(path).first_or_octet_stream().to_string()
}

/// The compact JSON text that `serde_json::to_string` makes of an array of
/// objects, each built from its (name, string value) members in order (a
/// later member replaces an earlier one of the same name, and members come out
/// ordered by name, as `serde_json::Map` keeps them).
pub uninterp spec fn json_objects_text(records: Seq<Seq<(Seq<char>, Seq<char>)>>) -> Seq<char>;

/// The view of a list of records of (name, value) members.
pub open spec fn records_view(records: Seq<Vec<(String, String)>>) -> Seq<Seq<(Seq<char>, Seq<char>)>> {
    records.map_values(
        |r: Vec<(String, String)>| r@.map_values(|m: (String, String)| (m.0@, m.1@)),
    )
}

/// A bound on the UTF-8 size of one member and the comma after it: its name
/// and value quoted (an escape takes at most six bytes for one), and a colon.
pub open spec fn member_size_bound(m: (Seq<char>, Seq<char>)) -> nat {
    6 * (encode_utf8(m.0).len() + encode_utf8(m.1).len()) + 6
}

/// A bound on the UTF-8 size of an object of these members: its braces and
/// its members.
pub open spec fn object_size_bound(members: Seq<(Seq<char>, Seq<char>)>) -> nat
    decreases members.len(),
{
    if members.len() == 0 {
        2
    } else {
        object_size_bound(members.drop_last()) + member_size_bound(members.last())
    }
}

/// A bound on the UTF-8 size of the JSON array of these objects: its brackets,
/// and each object with the comma after it.
pub open spec fn json_objects_size_bound(records: Seq<Seq<(Seq<char>, Seq<char>)>>) -> nat
    decreases records.len(),
{
    if records.len() == 0 {
        2
    } else {
        json_objects_size_bound(records.drop_last()) + object_size_bound(records.last()) + 1
    }
}

/// Serialises records as a JSON array of objects with string members
/// (`serde_json::to_string` of `serde_json::Value` objects; serialising such
/// values cannot fail). Claims the named text, and the size bound that
/// serde_json's writer shows: brackets, braces, quotes, colons and commas
/// around the names and values, each byte of which is written as itself or as
/// an escape of at most six bytes.
#[verifier::external_body]
pub(crate) fn json_objects(records: &Vec<Vec<(String, String)>>) -> (r: String)
    ensures
        r@ == json_objects_text(records_view(records@)),
        encode_utf8(r@).len() <= json_objects_size_bound(records_view(records@)),
{
    let values: Vec<serde_json::Value> = records.iter().map(|members| {
        serde_json::Value::Object(members.iter().map(|(name, value)| {
            (name.clone(), serde_json::Value::String(value.clone()))
        }).collect())
    }).collect();
    serde_json::to_string(&values).unwrap_or_default()
}

} // verus!
