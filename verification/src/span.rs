//! The span model: the fields this library sets on a client RPC span, the
//! spec-level description of each update, and the laws that relate them.

use crate::rpc_path::{spec_method, spec_service};
use vstd::prelude::*;

verus! {

/// The overall status recorded on a span once its outcome is known.
#[derive(Clone, Copy, Debug, PartialEq, Eq, Structural)]
pub enum OtelStatus {
    Okay,
    Error,
}

impl OtelStatus {
    /// The conventional text of this status.
    pub fn text(&self) -> (r: &'static str)
        ensures
            *self is Okay ==> r@ == "OK"@,
            *self is Error ==> r@ == "ERROR"@,
    {
        match self {
            OtelStatus::Okay => "OK",
            OtelStatus::Error => "ERROR",
        }
    }
}

/// What this library reads of a failure: the error's own display text and,
/// when the error wraps an underlying cause, that cause's display text.
#[derive(Clone, Debug, PartialEq, Eq)]
pub struct ErrorInfo {
    pub message: String,
    pub cause: Option<String>,
}

/// The mathematical view of an [`ErrorInfo`].
#[verifier::ext_equal]
pub struct ErrorModel {
    pub message: Seq<char>,
    pub cause: Option<Seq<char>>,
}

impl View for ErrorInfo {
    type V = ErrorModel;

    open spec fn view(&self) -> ErrorModel {
        ErrorModel {
            message: self.message@,
            cause: match self.cause {
                Some(c) => Some(c@),
                None => None,
            },
        }
    }
}

/// A client RPC span as this library models it: a name and the conventional
/// fields, each completion field `None` until the outcome is recorded.
#[derive(Clone, Debug, PartialEq, Eq)]
pub struct Span {
    /// The span's display name.
    pub name: String,
    /// Conventional field `otel.kind`.
    pub otel_kind: String,
    /// Conventional field `rpc.system`.
    pub rpc_system: String,
    /// Conventional field `rpc.service`.
    pub rpc_service: String,
    /// Conventional field `rpc.method`.
    pub rpc_method: String,
    /// Conventional field `otel.name`.
    pub otel_name: String,
    /// Conventional field `server.address`.
    pub server_address: String,
    /// Conventional field `http.user_agent`.
    pub http_user_agent: String,
    /// Conventional field `http.status_code`, set on a successful outcome.
    pub http_status_code: Option<u16>,
    /// Conventional field `otel.status_code`, set on either outcome.
    pub otel_status_code: Option<OtelStatus>,
    /// Protocol status field, set on a failure. The value written there is a
    /// fixed placeholder: a real mapping to gRPC status codes has yet to
    /// replace it.
    pub grpc_status: Option<u16>,
    /// Conventional field `exception.message`, set on a failure.
    pub exception_message: Option<String>,
    /// Conventional field `exception.details`: declared, never written.
    pub exception_details: Option<String>,
}

/// The mathematical view of a [`Span`].
#[verifier::ext_equal]
pub struct SpanModel {
    pub name: Seq<char>,
    pub otel_kind: Seq<char>,
    pub rpc_system: Seq<char>,
    pub rpc_service: Seq<char>,
    pub rpc_method: Seq<char>,
    pub otel_name: Seq<char>,
    pub server_address: Seq<char>,
    pub http_user_agent: Seq<char>,
    pub http_status_code: Option<u16>,
    pub otel_status_code: Option<OtelStatus>,
    pub grpc_status: Option<u16>,
    pub exception_message: Option<Seq<char>>,
    pub exception_details: Option<Seq<char>>,
}

impl View for Span {
    type V = SpanModel;

    open spec fn view(&self) -> SpanModel {
        SpanModel {
            name: self.name@,
            otel_kind: self.otel_kind@,
            rpc_system: self.rpc_system@,
            rpc_service: self.rpc_service@,
            rpc_method: self.rpc_method@,
            otel_name: self.otel_name@,
            server_address: self.server_address@,
            http_user_agent: self.http_user_agent@,
            http_status_code: self.http_status_code,
            otel_status_code: self.otel_status_code,
            grpc_status: self.grpc_status,
            exception_message: match self.exception_message {
                Some(m) => Some(m@),
                None => None,
            },
            exception_details: match self.exception_details {
                Some(d) => Some(d@),
                None => None,
            },
        }
    }
}

/// The span a request with the given path, user agent and host gives rise to:
/// the creation fields are filled, every completion field is still unset.
pub open spec fn creation_model(
    path: Seq<char>,
    user_agent: Seq<char>,
    host: Seq<char>,
) -> SpanModel {
    SpanModel {
        name: "GRPC request"@,
        otel_kind: "client"@,
        rpc_system: "grpc"@,
        rpc_service: spec_service(path),
        rpc_method: spec_method(path),
        otel_name: spec_service(path) + "/"@ + spec_method(path),
        server_address: host,
        http_user_agent: user_agent,
        http_status_code: None,
        otel_status_code: None,
        grpc_status: None,
        exception_message: None,
        exception_details: None,
    }
}

/// Does the status code denote a server-side failure?
pub open spec fn is_server_error(status: u16) -> bool {
    500 <= status <= 599
}

/// The span after a successful response with the given status code was
/// recorded on `m`.
pub open spec fn response_model(m: SpanModel, status: u16) -> SpanModel {
    SpanModel {
        http_status_code: Some(status),
        otel_status_code: Some(
            if is_server_error(status) {
                OtelStatus::Error
            } else {
                OtelStatus::Okay
            },
        ),
        ..m
    }
}

/// The span after the failure `e` was recorded on `m`: the overall status is
/// `Error`, the protocol status field holds the placeholder value 1, and the
/// exception message is the cause's text when a cause is present, else the
/// error's own.
pub open spec fn error_model(m: SpanModel, e: ErrorModel) -> SpanModel {
    SpanModel {
        otel_status_code: Some(OtelStatus::Error),
        grpc_status: Some(1u16),
        exception_message: match e.cause {
            Some(c) => Some(c),
            None => Some(e.message),
        },
        ..m
    }
}

/// The span after a whole outcome, success or failure, was recorded on `m`.
pub open spec fn outcome_model(m: SpanModel, outcome: Result<u16, ErrorModel>) -> SpanModel {
    match outcome {
        Ok(status) => response_model(m, status),
        Err(e) => error_model(m, e),
    }
}

/// Build a span for an outgoing call from the request's path, declared user
/// agent and destination host. Construction is total: a malformed path only
/// leaves the service and method names empty.
pub fn make_span(path: &str, user_agent: &str, host: &str) -> (s: Span)
    ensures
        s@ == creation_model(path@, user_agent@, host@),
{
    let (service, method) = crate::rpc_path::extract_service_method(path);
    let mut otel_name = service.clone();
    otel_name.append("/");
    otel_name.append(method.as_str());
    let s = Span {
        name: "GRPC request".to_owned(),
        otel_kind: "client".to_owned(),
        rpc_system: "grpc".to_owned(),
        rpc_service: service,
        rpc_method: method,
        otel_name,
        server_address: host.to_owned(),
        http_user_agent: user_agent.to_owned(),
        http_status_code: None,
        otel_status_code: None,
        grpc_status: None,
        exception_message: None,
        exception_details: None,
    };
    s
}

/// Record a successful outcome with the given status code: the code itself,
/// and the overall status, `Error` exactly on a server-side failure (a code
/// in [500, 599]), `Okay` on every other code.
pub fn update_span_from_status(span: &mut Span, status: u16)
    ensures
        final(span)@ == response_model(old(span)@, status),
        final(span)@.http_status_code == Some(status),
        is_server_error(status) ==> final(span)@.otel_status_code == Some(OtelStatus::Error),
        !is_server_error(status) ==> final(span)@.otel_status_code == Some(OtelStatus::Okay),
{
    span.http_status_code = Some(status);
    if 500 <= status && status <= 599 {
        span.otel_status_code = Some(OtelStatus::Error);
    } else {
        span.otel_status_code = Some(OtelStatus::Okay);
    }
}

/// Record a failure: the overall status becomes `Error`, the protocol status
/// field receives its placeholder value, and the exception message is written
/// twice as the error is examined, so that with a cause present only the
/// cause's text survives.
pub fn update_span_from_error(span: &mut Span, error: &ErrorInfo)
    ensures
        final(span)@ == error_model(old(span)@, error@),
        final(span)@.otel_status_code == Some(OtelStatus::Error),
        final(span)@.grpc_status == Some(1u16),
        error.cause is None ==> final(span)@.exception_message == Some(error@.message),
        error@.cause matches Some(c) ==> final(span)@.exception_message == Some(c),
{
    span.otel_status_code = Some(OtelStatus::Error);
    span.grpc_status = Some(1);
    span.exception_message = Some(error.message.clone());
    match &error.cause {
        Some(c) => {
            span.exception_message = Some(c.clone());
        },
        None => {},
    }
}

/// Law: span creation sets exactly the creation fields, each to its
/// conventional value, and leaves every completion field unset.
pub proof fn lemma_creation_fields(path: Seq<char>, user_agent: Seq<char>, host: Seq<char>)
    ensures
        creation_model(path, user_agent, host).name == "GRPC request"@,
        creation_model(path, user_agent, host).otel_kind == "client"@,
        creation_model(path, user_agent, host).rpc_system == "grpc"@,
        creation_model(path, user_agent, host).rpc_service == spec_service(path),
        creation_model(path, user_agent, host).rpc_method == spec_method(path),
        creation_model(path, user_agent, host).otel_name == spec_service(path) + "/"@
            + spec_method(path),
        creation_model(path, user_agent, host).server_address == host,
        creation_model(path, user_agent, host).http_user_agent == user_agent,
        creation_model(path, user_agent, host).http_status_code is None,
        creation_model(path, user_agent, host).otel_status_code is None,
        creation_model(path, user_agent, host).grpc_status is None,
        creation_model(path, user_agent, host).exception_message is None,
        creation_model(path, user_agent, host).exception_details is None,
{
}

/// Law: recording a response sets the numeric status code, classifies the
/// overall status as `Error` exactly when the code lies in [500, 599] and as
/// `Okay` otherwise, and touches no other field.
pub proof fn lemma_response_classification(m: SpanModel, status: u16)
    ensures
        response_model(m, status).http_status_code == Some(status),
        response_model(m, status).otel_status_code == Some(OtelStatus::Error) <==> is_server_error(
            status,
        ),
        response_model(m, status).otel_status_code == Some(OtelStatus::Okay) <==> !is_server_error(
            status,
        ),
        response_model(m, status) == (SpanModel {
            http_status_code: response_model(m, status).http_status_code,
            otel_status_code: response_model(m, status).otel_status_code,
            ..m
        }),
{
    assert(response_model(m, status) =~= (SpanModel {
        http_status_code: response_model(m, status).http_status_code,
        otel_status_code: response_model(m, status).otel_status_code,
        ..m
    }));
}

/// Law: recording a failure leaves as the exception message the error's own
/// text when it has no cause, and exactly the cause's text, not the error's,
/// when it has one; the overall status becomes `Error` either way.
pub proof fn lemma_error_message(m: SpanModel, e: ErrorModel)
    ensures
        e.cause is None ==> error_model(m, e).exception_message == Some(e.message),
        e.cause matches Some(c) ==> error_model(m, e).exception_message == Some(c),
        error_model(m, e).otel_status_code == Some(OtelStatus::Error),
        error_model(m, e).grpc_status == Some(1u16),
{
}

/// Law: recording a whole outcome is the same as recording its content
/// directly: a success acts as the response update with the same status,
/// a failure as the error update with the same error.
pub proof fn lemma_dispatch(m: SpanModel, outcome: Result<u16, ErrorModel>)
    ensures
        outcome matches Ok(status) ==> outcome_model(m, outcome) == response_model(m, status),
        outcome matches Err(e) ==> outcome_model(m, outcome) == error_model(m, e),
{
}

} // verus!
