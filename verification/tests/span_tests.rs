use grpc_client_span::grpc_client::{
    make_span_from_request, update_span_from_response, update_span_from_response_or_error,
};
use grpc_client_span::rpc_path::extract_service_method;
use grpc_client_span::span::{
    make_span, update_span_from_error, update_span_from_status, ErrorInfo, OtelStatus, Span,
};

fn sample_request(uri: &str) -> http::Request<()> {
    http::Request::builder()
        .uri(uri)
        .header("user-agent", "test-agent/1.0")
        .body(())
        .unwrap()
}

fn sample_response(status: u16) -> http::Response<()> {
    http::Response::builder().status(status).body(()).unwrap()
}

#[test]
fn parses_well_formed_path() {
    let (service, method) = extract_service_method("/pkg.Service/Method");
    assert_eq!(service, "pkg.Service");
    assert_eq!(method, "Method");
}

#[test]
fn parses_malformed_paths_to_empty() {
    for path in [
        "",
        "/",
        "/pkg.Service",
        "/pkg.Service/",
        "//Method",
        "/a/b/c",
        "pkg.Service/Method",
        "/x",
    ] {
        let (service, method) = extract_service_method(path);
        assert_eq!(service, "", "path {:?}", path);
        assert_eq!(method, "", "path {:?}", path);
    }
}

#[test]
fn creation_sets_creation_fields_only() {
    let span = make_span("/pkg.Service/Method", "test-agent/1.0", "example.com");
    assert_eq!(span.name, "GRPC request");
    assert_eq!(span.otel_kind, "client");
    assert_eq!(span.rpc_system, "grpc");
    assert_eq!(span.rpc_service, "pkg.Service");
    assert_eq!(span.rpc_method, "Method");
    assert_eq!(span.otel_name, "pkg.Service/Method");
    assert_eq!(span.server_address, "example.com");
    assert_eq!(span.http_user_agent, "test-agent/1.0");
    assert_eq!(span.http_status_code, None);
    assert_eq!(span.otel_status_code, None);
    assert_eq!(span.grpc_status, None);
    assert_eq!(span.exception_message, None);
    assert_eq!(span.exception_details, None);
}

#[test]
fn creation_with_malformed_path_still_succeeds() {
    let span = make_span("not-a-grpc-path", "", "");
    assert_eq!(span.rpc_service, "");
    assert_eq!(span.rpc_method, "");
    assert_eq!(span.otel_name, "/");
    assert_eq!(span.http_status_code, None);
    assert_eq!(span.otel_status_code, None);
}

#[test]
fn span_from_http_request_reads_request_data() {
    let req = sample_request("http://example.com/pkg.Service/Method");
    let span = make_span_from_request(&req);
    assert_eq!(span.rpc_service, "pkg.Service");
    assert_eq!(span.rpc_method, "Method");
    assert_eq!(span.otel_name, "pkg.Service/Method");
    assert_eq!(span.http_user_agent, "test-agent/1.0");
    assert_eq!(span.server_address, "example.com");
    assert_eq!(span.otel_kind, "client");
    assert_eq!(span.rpc_system, "grpc");
    assert_eq!(span.http_status_code, None);
    assert_eq!(span.otel_status_code, None);
    assert_eq!(span.exception_message, None);
    assert_eq!(span.exception_details, None);
}

#[test]
fn span_from_http_request_prefers_host_header() {
    let req = http::Request::builder()
        .uri("http://example.com/pkg.Service/Method")
        .header("host", "proxy.internal:443")
        .body(())
        .unwrap();
    let span = make_span_from_request(&req);
    assert_eq!(span.server_address, "proxy.internal:443");
}

#[test]
fn status_503_records_error() {
    let mut span = make_span("/pkg.Service/Method", "", "");
    update_span_from_status(&mut span, 503);
    assert_eq!(span.http_status_code, Some(503));
    assert_eq!(span.otel_status_code, Some(OtelStatus::Error));
}

#[test]
fn status_200_records_ok() {
    let mut span = make_span("/pkg.Service/Method", "", "");
    update_span_from_status(&mut span, 200);
    assert_eq!(span.http_status_code, Some(200));
    assert_eq!(span.otel_status_code, Some(OtelStatus::Okay));
}

#[test]
fn status_404_records_ok() {
    let mut span = make_span("/pkg.Service/Method", "", "");
    update_span_from_status(&mut span, 404);
    assert_eq!(span.http_status_code, Some(404));
    assert_eq!(span.otel_status_code, Some(OtelStatus::Okay));
}

#[test]
fn status_boundaries() {
    for (status, expected) in [
        (499, OtelStatus::Okay),
        (500, OtelStatus::Error),
        (599, OtelStatus::Error),
        (600, OtelStatus::Okay),
    ] {
        let mut span = make_span("/pkg.Service/Method", "", "");
        update_span_from_status(&mut span, status);
        assert_eq!(span.otel_status_code, Some(expected), "status {}", status);
    }
}

#[test]
fn http_response_status_is_read() {
    let mut span = make_span("/pkg.Service/Method", "", "");
    update_span_from_response(&mut span, &sample_response(503));
    assert_eq!(span.http_status_code, Some(503));
    assert_eq!(span.otel_status_code, Some(OtelStatus::Error));

    let mut span = make_span("/pkg.Service/Method", "", "");
    update_span_from_response(&mut span, &sample_response(200));
    assert_eq!(span.http_status_code, Some(200));
    assert_eq!(span.otel_status_code, Some(OtelStatus::Okay));
}

#[test]
fn error_without_cause_keeps_own_message() {
    let mut span = make_span("/pkg.Service/Method", "", "");
    let error = ErrorInfo { message: "connection refused".to_string(), cause: None };
    update_span_from_error(&mut span, &error);
    assert_eq!(span.otel_status_code, Some(OtelStatus::Error));
    assert_eq!(span.grpc_status, Some(1));
    assert_eq!(span.exception_message, Some("connection refused".to_string()));
    assert_eq!(span.http_status_code, None);
    assert_eq!(span.exception_details, None);
}

#[test]
fn error_with_cause_records_cause_message() {
    let mut span = make_span("/pkg.Service/Method", "", "");
    let error = ErrorInfo {
        message: "call failed".to_string(),
        cause: Some("timeout".to_string()),
    };
    update_span_from_error(&mut span, &error);
    assert_eq!(span.otel_status_code, Some(OtelStatus::Error));
    assert_eq!(span.exception_message, Some("timeout".to_string()));
}

#[test]
fn dispatch_on_ok_matches_direct_response_update() {
    let base = make_span("/pkg.Service/Method", "agent", "example.com");

    let mut dispatched: Span = base.clone();
    let outcome: Result<http::Response<()>, ErrorInfo> = Ok(sample_response(503));
    update_span_from_response_or_error(&mut dispatched, &outcome);

    let mut direct: Span = base.clone();
    update_span_from_response(&mut direct, &sample_response(503));

    assert_eq!(dispatched, direct);
}

#[test]
fn dispatch_on_err_matches_direct_error_update() {
    let base = make_span("/pkg.Service/Method", "agent", "example.com");
    let error = ErrorInfo {
        message: "call failed".to_string(),
        cause: Some("timeout".to_string()),
    };

    let mut dispatched: Span = base.clone();
    let outcome: Result<http::Response<()>, ErrorInfo> = Err(error.clone());
    update_span_from_response_or_error(&mut dispatched, &outcome);

    let mut direct: Span = base.clone();
    update_span_from_error(&mut direct, &error);

    assert_eq!(dispatched, direct);
}

#[test]
fn span_with_relative_uri_has_empty_host_and_agent() {
    let req = http::Request::builder().uri("/pkg.Service/Method").body(()).unwrap();
    let span = make_span_from_request(&req);
    assert_eq!(span.server_address, "");
    assert_eq!(span.http_user_agent, "");
    assert_eq!(span.rpc_service, "pkg.Service");
    assert_eq!(span.rpc_method, "Method");
}

#[test]
fn parses_non_ascii_path() {
    let (service, method) = extract_service_method("/päckage.Sërvice/Méthod");
    assert_eq!(service, "päckage.Sërvice");
    assert_eq!(method, "Méthod");
}

#[test]
fn status_text() {
    assert_eq!(OtelStatus::Okay.text(), "OK");
    assert_eq!(OtelStatus::Error.text(), "ERROR");
}
