use proxy_codecs::http_impl::backend::{RawHeader, ResponseHead};
use proxy_codecs::http_impl::constants;
use proxy_codecs::http_impl::{HttpError, HttpResponse, HttpResponseBuilder, StatusCode};

#[test]
fn test_parse_simple_response() {
    let raw = b"HTTP/1.1 200 OK\r\nContent-Type: text/plain\r\n\r\nHello";
    let response = HttpResponse::parse(raw).unwrap();

    assert_eq!(response.status(), StatusCode::ok());
    assert_eq!(response.header("Content-Type").unwrap(), "text/plain");
    assert_eq!(response.body().as_slice(), b"Hello");
}

#[test]
fn response_test_test_builder_pattern() {
    let response = HttpResponseBuilder::new()
        .status(StatusCode::created())
        .header("Content-Type", "application/json")
        .body(b"{}".to_vec())
        .build()
        .finish();

    assert_eq!(response.status(), StatusCode::created());
    assert_eq!(response.body().as_slice(), b"{}");
}

#[test]
fn test_error_responses() {
    // Test 400 Bad Request
    let resp = HttpResponse::bad_request("Invalid request format");
    assert_eq!(resp.status(), StatusCode::bad_request());
    assert_eq!(resp.body().as_slice(), b"Invalid request format");
    assert_eq!(resp.header("Content-Type").unwrap(), "text/plain; charset=utf-8");

    // Test 401 Unauthorized
    let resp = HttpResponse::unauthorized("Protected Area");
    assert_eq!(resp.status(), StatusCode::unauthorized());
    assert_eq!(resp.header("WWW-Authenticate").unwrap(), "Basic realm=\"Protected Area\"");

    // Test 403 Forbidden
    let resp = HttpResponse::forbidden("Access denied");
    assert_eq!(resp.status(), StatusCode::forbidden());
    assert_eq!(resp.body().as_slice(), b"Access denied");

    // Test 404 Not Found
    let resp = HttpResponse::not_found("Resource not found");
    assert_eq!(resp.status(), StatusCode::not_found());
    assert_eq!(resp.body().as_slice(), b"Resource not found");

    // Test 407 Proxy Authentication Required
    let resp = HttpResponse::proxy_auth_required("Proxy");
    assert_eq!(resp.status(), StatusCode::proxy_authentication_required());
    assert_eq!(resp.header("Proxy-Authenticate").unwrap(), "Basic realm=\"Proxy\"");

    // Test 500 Internal Server Error
    let resp = HttpResponse::internal_server_error("Server error");
    assert_eq!(resp.status(), StatusCode::internal_server_error());
    assert_eq!(resp.body().as_slice(), b"Server error");

    // Test 502 Bad Gateway
    let resp = HttpResponse::bad_gateway("Upstream server error");
    assert_eq!(resp.status(), StatusCode::bad_gateway());
    assert_eq!(resp.body().as_slice(), b"Upstream server error");

    // Test 503 Service Unavailable
    let resp = HttpResponse::service_unavailable("Temporarily unavailable");
    assert_eq!(resp.status(), StatusCode::service_unavailable());
    assert_eq!(resp.body().as_slice(), b"Temporarily unavailable");
}

#[test]
fn test_async_response_write_to_stream() {
    let response = HttpResponseBuilder::new()
        .status(StatusCode::ok())
        .header("Content-Type", "text/plain")
        .body(b"Hello".to_vec())
        .build()
        .finish();

    let mut buffer = Vec::new();
    buffer.extend_from_slice(response.raw_bytes());

    assert!(buffer.starts_with(b"HTTP/1.1 200 OK"));
    assert!(buffer.ends_with(b"Hello"));
}

#[test]
fn response_builder_writes_the_wire_form() {
    let response = HttpResponseBuilder::new()
        .status(StatusCode::created())
        .header("Content-Type", "application/json")
        .header("Content-Length", "2")
        .body(b"{}".to_vec())
        .build()
        .finish();
    assert_eq!(
        response.raw_bytes().as_slice(),
        b"HTTP/1.1 201 Created\r\nContent-Type: application/json\r\nContent-Length: 2\r\n\r\n{}"
            as &[u8]
    );
    assert_eq!(response.reason().as_slice(), b"Created");
}

#[test]
fn response_builder_defaults_to_200() {
    let response = HttpResponseBuilder::new().build().finish();
    assert_eq!(response.status(), StatusCode::ok());
    assert_eq!(response.status().as_u16(), 200);
    assert_eq!(response.raw_bytes().as_slice(), b"HTTP/1.1 200 OK\r\n\r\n" as &[u8]);
    let response = HttpResponseBuilder::default().build().finish();
    assert_eq!(response.raw_bytes().as_slice(), b"HTTP/1.1 200 OK\r\n\r\n" as &[u8]);
}

#[test]
fn response_builder_round_trip() {
    let built = HttpResponseBuilder::new()
        .status(StatusCode::not_found())
        .header("Content-Type", "text/plain")
        .header("X-A", "b")
        .body(b"gone".to_vec())
        .build()
        .finish();
    let parsed = HttpResponse::parse(built.raw_bytes()).unwrap();
    assert_eq!(parsed.status(), built.status());
    assert_eq!(parsed.reason(), built.reason());
    assert_eq!(parsed.headers(), built.headers());
    assert_eq!(parsed.body(), built.body());
    assert_eq!(parsed.raw_bytes(), built.raw_bytes());
}

#[test]
fn response_without_a_standard_reason_has_none() {
    let status = StatusCode::from_u16(299).unwrap();
    let response = HttpResponseBuilder::new().status(status).build().finish();
    assert_eq!(response.raw_bytes().as_slice(), b"HTTP/1.1 299 \r\n\r\n" as &[u8]);
    assert_eq!(response.reason().as_slice(), b"");
}

#[test]
fn response_with_a_reason_of_its_own() {
    let response = HttpResponseBuilder::new()
        .status(StatusCode::ok())
        .header("A", "b")
        .build()
        .finish_with_reason(b"Fine".to_vec());
    assert_eq!(response.raw_bytes().as_slice(), b"HTTP/1.1 200 Fine\r\nA: b\r\n\r\n" as &[u8]);
    assert_eq!(response.reason().as_slice(), b"Fine");
}

#[test]
fn status_code_is_between_100_and_599() {
    assert_eq!(StatusCode::from_u16(100).unwrap(), StatusCode::continue_());
    assert_eq!(StatusCode::from_u16(599).unwrap().as_u16(), 599);
    let invalid = HttpError::InvalidResponse("invalid status code".to_string());
    assert_eq!(StatusCode::from_u16(99).unwrap_err(), invalid);
    assert_eq!(StatusCode::from_u16(600).unwrap_err(), invalid);
    assert_eq!(StatusCode::from_u16(0).unwrap_err(), invalid);
    assert_eq!(StatusCode::from_u16(999).unwrap_err(), invalid);
    assert_eq!(StatusCode::no_content().as_u16(), 204);

    let mut digits = Vec::new();
    StatusCode::service_unavailable().write_digits(&mut digits);
    StatusCode::continue_().write_digits(&mut digits);
    assert_eq!(digits, b"503100".to_vec());
}

#[test]
fn response_parse_refuses_a_status_beyond_599() {
    let err = HttpResponse::parse(b"HTTP/1.1 600 Strange\r\n\r\n").unwrap_err();
    assert_eq!(err, HttpError::InvalidResponse("invalid status code".to_string()));
    let err = HttpResponse::parse(b"HTTP/1.1 099 Low\r\n\r\n").unwrap_err();
    assert_eq!(err, HttpError::InvalidResponse("invalid status code".to_string()));
    let ok = HttpResponse::parse(b"HTTP/1.1 599 Edge\r\n\r\n").unwrap();
    assert_eq!(ok.status().as_u16(), 599);
    assert_eq!(ok.reason().as_slice(), b"Edge");
}

#[test]
fn response_parse_incomplete_or_malformed_is_an_error() {
    let err = HttpResponse::parse(b"HTTP/1.1 200 OK\r\nContent-Type: te").unwrap_err();
    assert_eq!(err, HttpError::InvalidResponse("Incomplete response".to_string()));
    let err = HttpResponse::parse(b"HTTP/1.1 2x0 OK\r\n\r\n").unwrap_err();
    assert_eq!(err, HttpError::InvalidResponse("invalid response status".to_string()));
    let err = HttpResponse::parse(b"HTTQ/1.1 200 OK\r\n\r\n").unwrap_err();
    assert_eq!(err, HttpError::InvalidResponse("invalid HTTP version".to_string()));
}

#[test]
fn response_status_alone() {
    let status = HttpResponse::parse_status(b"HTTP/1.1 502 Bad Gateway\r\nVia: x\r\n\r\nbody").unwrap();
    assert_eq!(status, StatusCode::bad_gateway());
    assert_eq!(
        HttpResponse::parse_status(b"HTTP/1.1 502 Bad").unwrap_err(),
        HttpError::InvalidResponse("Incomplete response".to_string())
    );
    assert_eq!(
        HttpResponse::parse_status(b"HTTP/1.1 700 Odd\r\n\r\n").unwrap_err(),
        HttpError::InvalidResponse("invalid status code".to_string())
    );
    assert_eq!(
        HttpResponse::parse_status(b"HTTP/1.1 abc\r\n\r\n").unwrap_err(),
        HttpError::InvalidResponse("invalid response status".to_string())
    );
    assert_eq!(
        HttpResponse::status_from_head(Err("boom".to_string())).unwrap_err(),
        HttpError::InvalidResponse("boom".to_string())
    );
    let head = ResponseHead { code: None, reason: None, headers: vec![], body_offset: 0 };
    assert_eq!(
        HttpResponse::status_from_head(Ok(Some(head))).unwrap_err(),
        HttpError::InvalidResponse("Missing status code".to_string())
    );
    // The header lines play no part.
    let bad = vec![RawHeader { name: b"a b".to_vec(), value: b"v".to_vec() }];
    let head = ResponseHead { code: Some(204), reason: None, headers: bad, body_offset: 0 };
    assert_eq!(HttpResponse::status_from_head(Ok(Some(head))).unwrap().as_u16(), 204);
}

#[test]
fn response_parse_bytes_is_parse() {
    let raw = b"HTTP/1.1 204 No Content\r\nA: b\r\n\r\n".to_vec();
    let a = HttpResponse::parse(&raw).unwrap();
    let b = HttpResponse::parse_bytes(raw.clone()).unwrap();
    assert_eq!(a.status(), b.status());
    assert_eq!(a.headers(), b.headers());
    assert_eq!(a.body(), b.body());
    assert_eq!(b.raw_bytes(), &raw);
}

#[test]
fn response_from_head_follows_the_order_of_checks() {
    let data = b"0123456789";
    let err = HttpResponse::from_head(data, Err("boom".to_string())).unwrap_err();
    assert_eq!(err, HttpError::InvalidResponse("boom".to_string()));
    let err = HttpResponse::from_head(data, Ok(None)).unwrap_err();
    assert_eq!(err, HttpError::InvalidResponse("Incomplete response".to_string()));
    let bad = vec![RawHeader { name: b"a b".to_vec(), value: b"v".to_vec() }];
    let head = |code: Option<u16>, headers: Vec<RawHeader>| ResponseHead {
        code,
        reason: None,
        headers,
        body_offset: 10,
    };
    let err = HttpResponse::from_head(data, Ok(Some(head(None, bad.clone())))).unwrap_err();
    assert_eq!(err, HttpError::InvalidResponse("Missing status code".to_string()));
    let err = HttpResponse::from_head(data, Ok(Some(head(Some(700), bad.clone())))).unwrap_err();
    assert_eq!(err, HttpError::InvalidResponse("invalid status code".to_string()));
    let err = HttpResponse::from_head(data, Ok(Some(head(Some(200), bad)))).unwrap_err();
    assert_eq!(err, HttpError::InvalidHeader("invalid HTTP header name".to_string()));
    let ok = HttpResponse::from_head(data, Ok(Some(head(Some(200), vec![])))).unwrap();
    assert!(ok.body().is_empty());
    assert!(ok.reason().is_empty());
}

#[test]
fn simple_responses() {
    assert_eq!(HttpResponse::ok().raw_bytes().as_slice(), b"HTTP/1.1 200 OK\r\n\r\n" as &[u8]);
    assert_eq!(HttpResponse::created().raw_bytes().as_slice(), b"HTTP/1.1 201 Created\r\n\r\n" as &[u8]);
    assert_eq!(
        HttpResponse::no_content().raw_bytes().as_slice(),
        b"HTTP/1.1 204 No Content\r\n\r\n" as &[u8]
    );
    assert_eq!(
        HttpResponse::ok_with_body(b"<p>".to_vec(), "text/html").raw_bytes().as_slice(),
        b"HTTP/1.1 200 OK\r\nContent-Type: text/html\r\n\r\n<p>" as &[u8]
    );
    assert_eq!(
        HttpResponse::unauthorized("R").raw_bytes().as_slice(),
        b"HTTP/1.1 401 Unauthorized\r\nWWW-Authenticate: Basic realm=\"R\"\r\n\r\n401 Unauthorized"
            as &[u8]
    );
    assert_eq!(
        HttpResponse::proxy_auth_required("Proxy-Login").raw_bytes().as_slice(),
        b"HTTP/1.1 407 Proxy Authentication Required\r\nProxy-Authenticate: Basic realm=\"Proxy-Login\"\r\n\r\n407 Proxy Authentication Required"
            as &[u8]
    );
    assert_eq!(
        HttpResponse::error_response(StatusCode::bad_gateway(), "no").raw_bytes().as_slice(),
        b"HTTP/1.1 502 Bad Gateway\r\nContent-Type: text/plain; charset=utf-8\r\n\r\nno" as &[u8]
    );
}

#[test]
fn canned_responses_are_the_documented_bytes() {
    assert_eq!(constants::SUCCESS.as_bytes(), b"HTTP/1.1 200 OK\r\n\r\n");
    assert_eq!(
        constants::UNAUTHORIZED.as_bytes(),
        b"HTTP/1.1 401 Unauthorized\r\n\r\nUnauthorized\r\n"
    );
    assert_eq!(
        constants::AUTHENTICATION_REQUIRED.as_bytes(),
        b"HTTP/1.1 407 Proxy Authentication Required\r\nProxy-Authenticate: Basic realm=\"Proxy-Login\"\r\n\r\n"
    );
    assert_eq!(constants::BAD_REQUEST.as_bytes(), b"HTTP/1.1 400 Bad Request\r\n\r\n");
    assert_eq!(constants::FORBIDDEN.as_bytes(), b"HTTP/1.1 403 Forbidden\r\n\r\n");
    assert_eq!(constants::NOT_FOUND.as_bytes(), b"HTTP/1.1 404 Not Found\r\n\r\n");
    assert_eq!(
        constants::INTERNAL_SERVER_ERROR.as_bytes(),
        b"HTTP/1.1 500 Internal Server Error\r\n\r\n"
    );
    assert_eq!(constants::BAD_GATEWAY.as_bytes(), b"HTTP/1.1 502 Bad Gateway\r\n\r\n");
    assert_eq!(
        constants::SERVICE_UNAVAILABLE.as_bytes(),
        b"HTTP/1.1 503 Service Unavailable\r\n\r\n"
    );
}

#[test]
fn canned_responses_parse_as_responses() {
    for (text, code) in [
        (constants::SUCCESS, 200),
        (constants::UNAUTHORIZED, 401),
        (constants::FORBIDDEN, 403),
        (constants::AUTHENTICATION_REQUIRED, 407),
        (constants::BAD_REQUEST, 400),
        (constants::NOT_FOUND, 404),
        (constants::INTERNAL_SERVER_ERROR, 500),
        (constants::BAD_GATEWAY, 502),
        (constants::SERVICE_UNAVAILABLE, 503),
    ] {
        let parsed = HttpResponse::parse(text.as_bytes()).unwrap();
        assert_eq!(parsed.status().as_u16(), code);
    }
    // The bare ones are what the builder writes for the same status.
    assert_eq!(HttpResponse::ok().raw_bytes().as_slice(), constants::SUCCESS.as_bytes());
    let built = HttpResponseBuilder::new().status(StatusCode::forbidden()).build().finish();
    assert_eq!(built.raw_bytes().as_slice(), constants::FORBIDDEN.as_bytes());
    let parsed = HttpResponse::parse(constants::AUTHENTICATION_REQUIRED.as_bytes()).unwrap();
    assert_eq!(parsed.header("proxy-authenticate"), Some("Basic realm=\"Proxy-Login\""));
}
