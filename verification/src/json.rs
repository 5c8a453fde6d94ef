//! What the library takes from the JSON crate: parsing a text into a
//! document and writing a document back with two-space indentation.
//!
//! A document is opaque here. What the parser and the printer return is
//! spoken of through the spec functions below; each depends on its
//! argument alone.

use vstd::prelude::*;

verus! {

/// A parsed JSON document.
#[verifier::external_type_specification]
#[verifier::external_body]
pub struct ExJsonValue(serde_json::Value);

/// The error type of the JSON crate.
#[verifier::external_type_specification]
#[verifier::external_body]
pub struct ExJsonError(serde_json::Error);

/// The document that `serde_json::from_str` reads from `text`, or `None`
/// where it rejects the text.
pub uninterp spec fn json_parsed(text: Seq<char>) -> Option<serde_json::Value>;

/// The text that `serde_json::to_string_pretty` writes for a document, or
/// the error that it fails with.
pub uninterp spec fn json_pretty(doc: serde_json::Value) -> Result<Seq<char>, serde_json::Error>;

/// The text that an error's `Display` impl writes.
pub uninterp spec fn json_error_text(e: serde_json::Error) -> Seq<char>;

/// `serde_json::from_str`, read as a document. This only gives the outcome
/// its name.
#[verifier::external_body]
pub(crate) fn parse_json(text: &str) -> (r: Result<serde_json::Value, serde_json::Error>)
    ensures
        r matches Ok(doc) ==> json_parsed(text@) == Some(doc),
        r is Err ==> json_parsed(text@) is None,
{
    serde_json::from_str::<serde_json::Value>(text)
}

/// `serde_json::to_string_pretty` on a document. This only gives the outcome
/// its name.
#[verifier::external_body]
pub(crate) fn print_json(doc: &serde_json::Value) -> (r: Result<String, serde_json::Error>)
    ensures
        r matches Ok(text) ==> (json_pretty(*doc) matches Ok(written) && written == text@),
        r matches Err(e) ==> (json_pretty(*doc) matches Err(failure) && failure == e),
{
    serde_json::to_string_pretty(doc)
}

/// The text of an error, by its `Display` impl. This only gives the text
/// its name.
#[verifier::external_body]
pub(crate) fn json_error_to_string(e: &serde_json::Error) -> (r: String)
    ensures
        r@ == json_error_text(*e),
{
    e.to_string()
}

} // verus!
