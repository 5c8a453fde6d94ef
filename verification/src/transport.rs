//! What the library takes from the HTTP client crate: the method type that a
//! request carries and the error type that a failed exchange leaves behind.
//!
//! Both types are opaque here. Their contents are spoken of through the
//! spec functions below, which stand for what the crate's own accessors
//! return.

use vstd::prelude::*;

verus! {

/// The HTTP method type of the client crate.
#[verifier::external_type_specification]
#[verifier::external_body]
pub struct ExMethod(reqwest::Method);

/// The error type of the client crate.
#[verifier::external_type_specification]
#[verifier::external_body]
pub struct ExTransportError(reqwest::Error);

/// The token of a method, such as `GET`: what `Method::as_str` returns.
pub uninterp spec fn method_token(m: reqwest::Method) -> Seq<char>;

/// Whether an error reports a timeout: what `Error::is_timeout` returns.
pub uninterp spec fn is_timeout_error(e: reqwest::Error) -> bool;

/// Whether an error reports a failed connection: what `Error::is_connect`
/// returns.
pub uninterp spec fn is_connect_error(e: reqwest::Error) -> bool;

/// The text that an error's `Display` impl writes.
pub uninterp spec fn transport_error_text(e: reqwest::Error) -> Seq<char>;

/// `Method::as_str` returns the method's token. This only gives the token
/// its name.
pub assume_specification[ reqwest::Method::as_str ](m: &reqwest::Method) -> (r: &str)
    ensures
        r@ == method_token(*m),
;

/// `Error::is_timeout` walks the error's chain of sources and reports
/// whether one of them is a timeout. This only gives the answer its name.
pub assume_specification[ reqwest::Error::is_timeout ](e: &reqwest::Error) -> (r: bool)
    ensures
        r == is_timeout_error(*e),
;

/// `Error::is_connect` walks the error's chain of sources and reports
/// whether one of them is a failure to connect. This only gives the answer
/// its name.
pub assume_specification[ reqwest::Error::is_connect ](e: &reqwest::Error) -> (r: bool)
    ensures
        r == is_connect_error(*e),
;

/// The constant `Method::GET`, whose token is `GET`.
#[verifier::external_body]
pub(crate) fn method_get() -> (m: reqwest::Method)
    ensures
        method_token(m) == "GET"@,
{
    reqwest::Method::GET
}

/// The constant `Method::POST`, whose token is `POST`.
#[verifier::external_body]
pub(crate) fn method_post() -> (m: reqwest::Method)
    ensures
        method_token(m) == "POST"@,
{
    reqwest::Method::POST
}

/// The constant `Method::PUT`, whose token is `PUT`.
#[verifier::external_body]
pub(crate) fn method_put() -> (m: reqwest::Method)
    ensures
        method_token(m) == "PUT"@,
{
    reqwest::Method::PUT
}

/// The constant `Method::DELETE`, whose token is `DELETE`.
#[verifier::external_body]
pub(crate) fn method_delete() -> (m: reqwest::Method)
    ensures
        method_token(m) == "DELETE"@,
{
    reqwest::Method::DELETE
}


/// The text of an error, by its `Display` impl. This only gives the text
/// its name.
#[verifier::external_body]
pub(crate) fn transport_error_to_string(e: &reqwest::Error) -> (r: String)
    ensures
        r@ == transport_error_text(*e),
{
    e.to_string()
}

} // verus!
