//! Spans for outgoing gRPC-over-HTTP calls: build a span from an
//! `http::Request`, and record the outcome from an `http::Response` or an
//! error.

use crate::span::{
    creation_model, error_model, response_model, ErrorInfo, Span,
};
use vstd::prelude::*;

verus! {

#[verifier::external_type_specification]
#[verifier::external_body]
#[verifier::reject_recursive_types(T)]
pub struct ExRequest<T>(http::Request<T>);

#[verifier::external_type_specification]
#[verifier::external_body]
#[verifier::reject_recursive_types(T)]
pub struct ExResponse<T>(http::Response<T>);

/// Relies on http::Request::uri and http::Uri::path: the path component of
/// the request's target, as text.
#[verifier::external_body]
fn request_path<T>(req: &http::Request<T>) -> (r: String) {
    req.uri().path().to_owned()
}

/// Relies on http::Request::headers, http::HeaderMap::get and
/// http::HeaderValue::to_str: the named header's text, when the request
/// carries that header and its value is visible ASCII.
#[verifier::external_body]
fn request_header<T>(req: &http::Request<T>, name: &str) -> (r: Option<String>) {
    req.headers().get(name).and_then(|v| v.to_str().ok()).map(|s| s.to_owned())
}

/// Relies on http::Request::uri and http::Uri::host: the host of the target's
/// authority, when the target has one.
#[verifier::external_body]
fn request_uri_host<T>(req: &http::Request<T>) -> (r: Option<String>) {
    req.uri().host().map(|h| h.to_owned())
}

/// Relies on http::Response::status and http::StatusCode::as_u16: the numeric
/// status code. Every status code http constructs lies in [100, 999]:
/// StatusCode::from_u16 and StatusCode::from_bytes refuse anything else, and
/// the named constants all lie within.
#[verifier::external_body]
fn response_status<T>(resp: &http::Response<T>) -> (r: u16)
    ensures
        100 <= r <= 999,
{
    resp.status().as_u16()
}

/// The request's declared user agent: the `user-agent` header, or empty when
/// the request carries none that can be read.
fn user_agent_of<T>(req: &http::Request<T>) -> String {
    match request_header(req, "user-agent") {
        Some(ua) => ua,
        None => String::new(),
    }
}

/// The destination host: the `host` header when present, else the target
/// URI's own host, else empty.
fn host_of<T>(req: &http::Request<T>) -> String {
    match request_header(req, "host") {
        Some(h) => h,
        None => match request_uri_host(req) {
            Some(h) => h,
            None => String::new(),
        },
    }
}

/// Build the span for an outgoing request: some path, user agent and host
/// read off the request fill the creation fields, and every completion field
/// is left unset. Construction never fails.
pub fn make_span_from_request<T>(req: &http::Request<T>) -> (s: Span)
    ensures
        exists|path: Seq<char>, user_agent: Seq<char>, host: Seq<char>|
            s@ == #[trigger] creation_model(path, user_agent, host),
        s@.name == "GRPC request"@,
        s@.otel_kind == "client"@,
        s@.rpc_system == "grpc"@,
        s@.otel_name == s@.rpc_service + "/"@ + s@.rpc_method,
        s@.http_status_code is None,
        s@.otel_status_code is None,
        s@.grpc_status is None,
        s@.exception_message is None,
        s@.exception_details is None,
{
    let path = request_path(req);
    let user_agent = user_agent_of(req);
    let host = host_of(req);
    let s = crate::span::make_span(path.as_str(), user_agent.as_str(), host.as_str());
    proof {
        assert(s@ == creation_model(path@, user_agent@, host@));
    }
    s
}

/// Record a successful response on the span: its status code, a value in
/// [100, 999], is written, and the overall status is classified by
/// [`response_model`].
pub fn update_span_from_response<T>(span: &mut Span, response: &http::Response<T>)
    ensures
        final(span)@.http_status_code matches Some(status) && 100 <= status <= 999
            && final(span)@ == response_model(old(span)@, status),
{
    let status = response_status(response);
    crate::span::update_span_from_status(span, status);
}

/// Record a whole outcome on the span: a success is recorded exactly as
/// [`update_span_from_response`] records the same response, a failure exactly
/// as [`crate::span::update_span_from_error`] records the same error.
pub fn update_span_from_response_or_error<T>(
    span: &mut Span,
    response: &Result<http::Response<T>, ErrorInfo>,
)
    ensures
        (*response) matches Ok(_) ==> (final(span)@.http_status_code matches Some(status) && 100
            <= status <= 999 && final(span)@ == response_model(old(span)@, status)),
        (*response) matches Err(e) ==> final(span)@ == error_model(old(span)@, e@),
{
    match response {
        Ok(resp) => {
            update_span_from_response(span, resp);
        },
        Err(err) => {
            crate::span::update_span_from_error(span, err);
        },
    }
}

} // verus!
