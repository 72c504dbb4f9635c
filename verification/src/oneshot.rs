//! Checking a response against the expected one in tests: the status code
//! must match, and the bodies must be equal as JSON documents.
use vstd::prelude::*;
use vstd::string::*;
use vstd::utf8::{decode_utf8, valid_utf8};
use crate::text::string_from_utf8;

verus! {

/// Why a response did not match the expected one.
#[derive(Debug, Clone, PartialEq, Eq)]
pub enum ValidationError {
    /// The router failed to answer; holds the failure's text.
    OneshotFail(String),
    /// The bodies differ; holds both bodies, the actual one first.
    JsonNotMatch(String, String),
    /// A body could not be read; holds the failure's text.
    BodyReadFail(String),
    /// The status codes differ; holds both, the actual one first.
    StatusCodeNotMatch(u16, u16),
    /// A body is not JSON.
    InvalidJson,
}

/// The document `serde_json` reads from `bytes`, `None` where they are not
/// a JSON document.
pub uninterp spec fn json_value_of(bytes: Seq<u8>) -> Option<serde_json::Value>;

/// Whether `PartialEq` of `serde_json::Value` holds `a` and `b` equal.
pub uninterp spec fn json_value_eq(a: serde_json::Value, b: serde_json::Value) -> bool;

/// The text `serde_json` writes for the document `v`.
pub uninterp spec fn json_text_of(v: serde_json::Value) -> Seq<char>;

/// Calls `serde_json::from_slice` for a `serde_json::Value`, dropping the
/// error. The result depends on the bytes alone: it is the one named for
/// them.
#[verifier::external_body]
fn json_from_slice(bytes: &[u8]) -> (r: Option<serde_json::Value>)
    ensures
        r == json_value_of(bytes@),
{
    serde_json::from_slice(bytes).ok()
}

/// Compares two JSON documents with `PartialEq` of `serde_json::Value`,
/// whose answer depends on the two documents alone.
#[verifier::external_body]
fn json_values_equal(a: &serde_json::Value, b: &serde_json::Value) -> (r: bool)
    ensures
        r == json_value_eq(*a, *b),
{
    a == b
}

/// Writes a JSON document with `serde_json::Value::to_string`, whose text
/// depends on the document alone.
#[verifier::external_body]
fn json_to_string(v: &serde_json::Value) -> (r: String)
    ensures
        r@ == json_text_of(*v),
{
    v.to_string()
}

/// Whether `a` and `b` are both JSON documents and `serde_json` holds the
/// two documents equal.
pub open spec fn json_texts_equal(a: Seq<u8>, b: Seq<u8>) -> bool {
    match (json_value_of(a), json_value_of(b)) {
        (Some(x), Some(y)) => json_value_eq(x, y),
        _ => false,
    }
}

/// The text of a body: the characters its bytes encode, or
/// `@invalid utf8 slice` where they are not UTF-8.
pub open spec fn body_text(bytes: Seq<u8>) -> Seq<char> {
    if valid_utf8(bytes) {
        decode_utf8(bytes)
    } else {
        "@invalid utf8 slice"@
    }
}

/// The text of the body `bytes`.
pub fn body_text_of(bytes: &[u8]) -> (r: String)
    ensures
        r@ == body_text(bytes@),
{
    let v = vstd::slice::slice_to_vec(bytes);
    match string_from_utf8(v) {
        Ok(s) => s,
        Err(_) => String::from_str("@invalid utf8 slice"),
    }
}

/// Checks that the status codes match.
pub fn validata_status_code(status_code: u16, expect_status_code: u16) -> (r: Result<
    (),
    ValidationError,
>)
    ensures
        status_code == expect_status_code ==> r is Ok,
        status_code != expect_status_code ==> r == Err::<(), ValidationError>(
            ValidationError::StatusCodeNotMatch(status_code, expect_status_code),
        ),
{
    if status_code != expect_status_code {
        return Err(ValidationError::StatusCodeNotMatch(status_code, expect_status_code));
    }
    Ok(())
}

/// Checks that the bodies match: both empty, or both JSON documents that
/// are equal. A mismatch names both bodies, as text where one is empty and
/// as the documents' JSON text where both are documents; a body that is not
/// JSON (where the other is not empty) is an error of its own.
pub fn validate_json_body(origin: &[u8], expect: &[u8]) -> (r: Result<(), ValidationError>)
    ensures
        r is Ok <==> (origin@.len() == 0 && expect@.len() == 0) || (origin@.len() != 0
            && expect@.len() != 0 && json_texts_equal(origin@, expect@)),
        (origin@.len() == 0) != (expect@.len() == 0) ==> (r matches Err(
            ValidationError::JsonNotMatch(a, b),
        ) && a@ == body_text(origin@) && b@ == body_text(expect@)),
        origin@.len() != 0 && expect@.len() != 0 ==> match (
            json_value_of(origin@),
            json_value_of(expect@),
        ) {
            (Some(x), Some(y)) => if json_value_eq(x, y) {
                r is Ok
            } else {
                (r matches Err(ValidationError::JsonNotMatch(a, b)) && a@ == json_text_of(x) && b@
                    == json_text_of(y))
            },
            _ => r == Err::<(), ValidationError>(ValidationError::InvalidJson),
        },
{
    let origin_empty = origin.len() == 0;
    let expect_empty = expect.len() == 0;
    if origin_empty && expect_empty {
        return Ok(());
    }
    if origin_empty != expect_empty {
        return Err(ValidationError::JsonNotMatch(body_text_of(origin), body_text_of(expect)));
    }
    let json = match json_from_slice(origin) {
        Some(v) => v,
        None => {
            return Err(ValidationError::InvalidJson);
        },
    };
    let expect_json = match json_from_slice(expect) {
        Some(v) => v,
        None => {
            return Err(ValidationError::InvalidJson);
        },
    };
    if !json_values_equal(&json, &expect_json) {
        return Err(
            ValidationError::JsonNotMatch(json_to_string(&json), json_to_string(&expect_json)),
        );
    }
    Ok(())
}

} // verus!
