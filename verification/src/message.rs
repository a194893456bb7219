//! Requests and responses, as far as the router reads or builds them.
//!
//! The request and response types are those of the `http` crate, with
//! `hyper`'s streaming body. Their insides are not visible to the verifier;
//! what the router needs of them is named here and obtained through the few
//! calls below, whose contracts are taken on trust.

use http::{Request, Response, StatusCode};
use hyper::body::HttpBody;
use hyper::Body;
use vstd::prelude::*;

verus! {

/// `http::Request`, carried through as an opaque value.
#[verifier::external_type_specification]
#[verifier::external_body]
#[verifier::reject_recursive_types(T)]
pub struct ExRequest<T>(Request<T>);

/// `http::Response`, carried through as an opaque value.
#[verifier::external_type_specification]
#[verifier::external_body]
#[verifier::reject_recursive_types(T)]
pub struct ExResponse<T>(Response<T>);

/// `hyper::Body`, the streaming body of requests and responses.
#[verifier::external_type_specification]
#[verifier::external_body]
pub struct ExBody(Body);

/// `http::Error`, the failure that building a message can end in.
#[verifier::external_type_specification]
#[verifier::external_body]
pub struct ExError(http::Error);

/// The method token of a request: what `Method::as_str` gives for
/// `Request::method`, for instance `GET`.
pub uninterp spec fn method_of(request: Request<Body>) -> Seq<char>;

/// The target of a request, exactly as its `Uri` prints itself.
pub uninterp spec fn target_of(request: Request<Body>) -> Seq<char>;

/// The status code of a response as a number: `Response::status` through
/// `StatusCode::as_u16`.
pub uninterp spec fn status_of(response: Response<Body>) -> u16;

/// The number of header entries of a response: `HeaderMap::len` of
/// `Response::headers`.
pub uninterp spec fn header_count(response: Response<Body>) -> usize;

/// Whether the body of a response has nothing left to yield: what
/// `HttpBody::is_end_stream` reports for `Response::body`. Without `hyper`'s
/// optional features a body is a single chunk or the receiving end of a
/// channel of declared length, and the report depends on the value alone.
pub uninterp spec fn body_ended(response: Response<Body>) -> bool;

/// Whether `out` is the answer to a request that no route matches: a
/// successfully built response with status 404, no headers and an empty body.
pub open spec fn is_fallback(out: Result<Response<Body>, http::Error>) -> bool {
    out matches Ok(response) && status_of(response) == 404 && header_count(response) == 0
        && body_ended(response)
}

/// Calls `Request::method` and `Method::as_str`, and copies the token. The
/// contract only names the result.
#[verifier::external_body]
pub(crate) fn method_name(request: &Request<Body>) -> (token: String)
    ensures
        token@ == method_of(*request),
{
    request.method().as_str().to_owned()
}

/// Calls `Request::uri` and prints the `Uri` into a string. The contract only
/// names the result.
#[verifier::external_body]
pub(crate) fn target(request: &Request<Body>) -> (target: String)
    ensures
        target@ == target_of(*request),
{
    request.uri().to_string()
}

/// Builds the fallback response with `Response::builder`, giving it
/// `StatusCode::NOT_FOUND` and `Body::empty()`.
///
/// Trusted: that the builder succeeds here (it starts without an error, a
/// `StatusCode` converts into itself, and `body` only attaches the body), that
/// the response then reports the status it was given and the empty header map
/// it started with, and that an empty `Body` is at its end.
#[verifier::external_body]
pub(crate) fn not_found() -> (out: Result<Response<Body>, http::Error>)
    ensures
        is_fallback(out),
{
    Response::builder().status(StatusCode::NOT_FOUND).body(Body::empty())
}

/// Reads `Response::status` as a number, with `StatusCode::as_u16`.
#[verifier::external_body]
pub(crate) fn status(response: &Response<Body>) -> (code: u16)
    ensures
        code == status_of(*response),
{
    response.status().as_u16()
}

/// Reads the number of entries of `Response::headers`, with `HeaderMap::len`.
#[verifier::external_body]
pub(crate) fn headers_len(response: &Response<Body>) -> (count: usize)
    ensures
        count == header_count(*response),
{
    response.headers().len()
}

/// Asks the body of a response whether it is at its end, with
/// `HttpBody::is_end_stream`.
#[verifier::external_body]
pub(crate) fn at_end(response: &Response<Body>) -> (ended: bool)
    ensures
        ended == body_ended(*response),
{
    response.body().is_end_stream()
}

/// Tells whether an answer is the one given when no route matches.
pub fn is_fallback_answer(out: &Result<Response<Body>, http::Error>) -> (fallback: bool)
    ensures
        fallback == is_fallback(*out),
{
    match out {
        Ok(response) => status(response) == 404 && headers_len(response) == 0 && at_end(response),
        Err(_) => false,
    }
}

} // verus!
