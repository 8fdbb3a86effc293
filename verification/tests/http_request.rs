use proxy_codecs::http_impl::backend::{RawHeader, RequestHead};
use proxy_codecs::http_impl::{HeaderMap, HttpError, HttpRequest, HttpRequestBuilder, Method, Uri};

#[test]
fn test_parse_simple_get_request() {
    let raw = b"GET /path HTTP/1.1\r\nHost: example.com\r\n\r\n";
    let request = HttpRequest::parse(raw).unwrap();

    assert_eq!(request.method(), &Method::get());
    assert_eq!(request.uri().path(), "/path");
    assert_eq!(request.header("Host").unwrap(), "example.com");
}

#[test]
fn request_test_test_builder_pattern() {
    let request = HttpRequestBuilder::new()
        .method(Method::post())
        .uri(Uri::from_bytes(b"/api").unwrap())
        .header("Content-Type", "application/json")
        .body(b"{}".to_vec())
        .build()
        .finish();

    assert_eq!(request.method(), &Method::post());
    assert_eq!(request.body().as_slice(), b"{}");
}

#[test]
fn request_builder_writes_the_wire_form() {
    let request = HttpRequestBuilder::new()
        .method(Method::post())
        .uri(Uri::from_bytes(b"/api").unwrap())
        .header("Content-Type", "application/json")
        .header("X-Trace", "abc")
        .body(b"{}".to_vec())
        .build()
        .finish();

    assert_eq!(
        request.raw_bytes().as_slice(),
        b"POST /api HTTP/1.1\r\nContent-Type: application/json\r\nX-Trace: abc\r\n\r\n{}" as &[u8]
    );
}

#[test]
fn request_builder_round_trip() {
    let built = HttpRequestBuilder::new()
        .method(Method::post())
        .uri(Uri::from_bytes(b"/api").unwrap())
        .header("Content-Type", "application/json")
        .body(b"{}".to_vec())
        .build()
        .finish();

    let parsed = HttpRequest::parse(built.raw_bytes()).unwrap();
    assert_eq!(parsed.method(), &Method::post());
    assert_eq!(parsed.method(), built.method());
    assert_eq!(parsed.uri().path(), "/api");
    assert_eq!(parsed.headers(), built.headers());
    assert_eq!(parsed.header("content-type").unwrap(), "application/json");
    assert_eq!(parsed.body().as_slice(), b"{}");
    assert_eq!(parsed.raw_bytes(), built.raw_bytes());
}

#[test]
fn request_builder_defaults_to_get_and_root() {
    let request = HttpRequestBuilder::new().build().finish();
    assert_eq!(request.method(), &Method::get());
    assert_eq!(request.method().as_str(), "GET");
    assert_eq!(request.uri().path(), "/");
    assert_eq!(request.uri().as_bytes(), b"/");
    assert!(request.headers().is_empty());
    assert!(request.body().is_empty());
    assert_eq!(request.raw_bytes().as_slice(), b"GET / HTTP/1.1\r\n\r\n" as &[u8]);

    let request = HttpRequestBuilder::default().build().finish();
    assert_eq!(request.raw_bytes().as_slice(), b"GET / HTTP/1.1\r\n\r\n" as &[u8]);
}

#[test]
fn request_builder_drops_invalid_headers() {
    let request = HttpRequestBuilder::new()
        .header("Bad Name", "x")
        .header("", "x")
        .header("X-Bad-Value", "a\r\nb")
        .header("X-Good", "yes")
        .build()
        .finish();
    assert_eq!(request.headers().len(), 1);
    assert_eq!(request.header("x-good"), Some("yes"));
    assert_eq!(request.raw_bytes().as_slice(), b"GET / HTTP/1.1\r\nX-Good: yes\r\n\r\n" as &[u8]);
}

#[test]
fn request_builder_writes_the_target_as_given() {
    let request = HttpRequestBuilder::new()
        .uri(Uri::from_bytes(b"http://example.com/a/b?x=1").unwrap())
        .build()
        .finish();
    assert_eq!(request.uri().path(), "/a/b");
    assert_eq!(request.uri().as_bytes(), b"http://example.com/a/b?x=1");
    assert_eq!(
        request.raw_bytes().as_slice(),
        b"GET http://example.com/a/b?x=1 HTTP/1.1\r\n\r\n" as &[u8]
    );

    let request = HttpRequestBuilder::new()
        .method(Method::connect())
        .uri(Uri::from_bytes(b"example.com:443").unwrap())
        .build()
        .finish();
    assert_eq!(
        request.raw_bytes().as_slice(),
        b"CONNECT example.com:443 HTTP/1.1\r\n\r\n" as &[u8]
    );
}

#[test]
fn request_round_trip_keeps_the_target() {
    for target in [
        &b"/"[..],
        &b"/api"[..],
        &b"/search?q=a%20b&n=1"[..],
        &b"http://example.com/a/b?x=1"[..],
        &b"example.com:443"[..],
        &b"*"[..],
    ] {
        let built = HttpRequestBuilder::new()
            .method(Method::options())
            .uri(Uri::from_bytes(target).unwrap())
            .header("Host", "example.com")
            .header("X-N", "1")
            .body(b"payload".to_vec())
            .build()
            .finish();
        let parsed = HttpRequest::parse(built.raw_bytes()).unwrap();
        assert_eq!(parsed.method(), built.method());
        assert_eq!(parsed.uri(), built.uri());
        assert_eq!(parsed.uri().as_bytes(), target);
        assert_eq!(parsed.headers(), built.headers());
        assert_eq!(parsed.headers().len(), 2);
        assert_eq!(parsed.header("Host"), Some("example.com"));
        assert_eq!(parsed.header("X-N"), Some("1"));
        assert_eq!(parsed.body(), built.body());
        assert_eq!(parsed.raw_bytes(), built.raw_bytes());
    }
}

#[test]
fn request_parse_keeps_body_and_raw_bytes() {
    let raw = b"POST /submit HTTP/1.1\r\nHost: a\r\nContent-Length: 5\r\n\r\nhello, and more";
    let request = HttpRequest::parse(raw).unwrap();
    assert_eq!(request.method().as_str(), "POST");
    assert_eq!(request.method().as_bytes(), b"POST");
    assert_eq!(request.body().as_slice(), b"hello, and more");
    assert_eq!(request.raw_bytes().as_slice(), raw as &[u8]);
    assert_eq!(request.headers().len(), 2);
    assert_eq!(request.headers().name_at(0), b"Host");
    assert_eq!(request.headers().value_at(0), b"a");
    assert_eq!(request.headers().name_at(1), b"Content-Length");
    assert_eq!(request.headers().value_at(1), b"5");
}

#[test]
fn request_parse_bytes_is_parse() {
    let raw = b"GET /x HTTP/1.1\r\nA: b\r\n\r\nbody".to_vec();
    let a = HttpRequest::parse(&raw).unwrap();
    let b = HttpRequest::parse_bytes(raw.clone()).unwrap();
    assert_eq!(a.method(), b.method());
    assert_eq!(a.uri(), b.uri());
    assert_eq!(a.headers(), b.headers());
    assert_eq!(a.body(), b.body());
    assert_eq!(b.raw_bytes(), &raw);
}

#[test]
fn request_parse_incomplete_is_an_error() {
    let err = HttpRequest::parse(b"GET /path HTTP/1.1\r\nHost: exam").unwrap_err();
    assert_eq!(err, HttpError::InvalidRequest("Incomplete request".to_string()));
    let err = HttpRequest::parse(b"").unwrap_err();
    assert_eq!(err, HttpError::InvalidRequest("Incomplete request".to_string()));
}

#[test]
fn request_parse_malformed_is_an_error() {
    let err = HttpRequest::parse(b"GET /path HTTP/9.9\r\n\r\n").unwrap_err();
    assert_eq!(err, HttpError::InvalidRequest("invalid HTTP version".to_string()));
    assert_eq!(err.message(), "invalid HTTP version");
    let err = HttpRequest::parse(b"G\x01T / HTTP/1.1\r\n\r\n").unwrap_err();
    assert_eq!(err, HttpError::InvalidRequest("invalid token".to_string()));
    let err = HttpRequest::parse(b"GET / HTTP/1.1\r\nBad Name: x\r\n\r\n").unwrap_err();
    assert_eq!(err, HttpError::InvalidRequest("invalid header name".to_string()));
}

#[test]
fn request_parse_refuses_more_than_64_headers() {
    let mut raw = b"GET / HTTP/1.1\r\n".to_vec();
    for i in 0..64 {
        raw.extend_from_slice(format!("X-H{}: v\r\n", i).as_bytes());
    }
    let mut ok = raw.clone();
    ok.extend_from_slice(b"\r\n");
    assert_eq!(HttpRequest::parse(&ok).unwrap().headers().len(), 64);

    raw.extend_from_slice(b"X-One-More: v\r\n\r\n");
    let err = HttpRequest::parse(&raw).unwrap_err();
    assert_eq!(err, HttpError::InvalidRequest("too many headers".to_string()));
}

#[test]
fn request_parse_refuses_a_bad_uri() {
    let err = HttpRequest::parse(b"GET http://exa mple/ HTTP/1.1\r\n\r\n");
    assert!(err.is_err());
    let err = HttpRequest::parse(b"GET /a{b HTTP/1.1\r\n\r\n");
    assert!(matches!(err, Ok(_) | Err(HttpError::InvalidUri(_)) | Err(HttpError::InvalidRequest(_))));
    assert!(matches!(Uri::from_bytes(b""), Err(HttpError::InvalidUri(_))));
    assert!(matches!(Uri::from_bytes(b"http://[::1"), Err(HttpError::InvalidUri(_))));
}

#[test]
fn request_from_head_follows_the_order_of_checks() {
    let data = b"ignored";
    let err = HttpRequest::from_head(data, Err("boom".to_string())).unwrap_err();
    assert_eq!(err, HttpError::InvalidRequest("boom".to_string()));
    let err = HttpRequest::from_head(data, Ok(None)).unwrap_err();
    assert_eq!(err, HttpError::InvalidRequest("Incomplete request".to_string()));

    let head = |method: Option<&[u8]>, path: Option<&[u8]>, headers: Vec<RawHeader>| RequestHead {
        method: method.map(|m| m.to_vec()),
        path: path.map(|p| p.to_vec()),
        headers,
        body_offset: 3,
    };
    let bad_header = vec![RawHeader { name: b"a b".to_vec(), value: b"v".to_vec() }];
    let bad_value = vec![RawHeader { name: b"ab".to_vec(), value: b"v\n".to_vec() }];

    let err = HttpRequest::from_head(data, Ok(Some(head(None, None, bad_header.clone())))).unwrap_err();
    assert_eq!(err, HttpError::InvalidRequest("Missing method".to_string()));
    let err = HttpRequest::from_head(data, Ok(Some(head(Some(b"G T"), None, bad_header.clone()))))
        .unwrap_err();
    assert_eq!(err, HttpError::InvalidRequest("invalid HTTP method".to_string()));
    let err = HttpRequest::from_head(data, Ok(Some(head(Some(b"GET"), None, bad_header.clone()))))
        .unwrap_err();
    assert_eq!(err, HttpError::InvalidRequest("Missing path".to_string()));
    let err = HttpRequest::from_head(data, Ok(Some(head(Some(b"GET"), Some(b""), bad_header.clone()))))
        .unwrap_err();
    assert!(matches!(err, HttpError::InvalidUri(_)));
    let err = HttpRequest::from_head(data, Ok(Some(head(Some(b"GET"), Some(b"/"), bad_header))))
        .unwrap_err();
    assert_eq!(err, HttpError::InvalidHeader("invalid HTTP header name".to_string()));
    let err = HttpRequest::from_head(data, Ok(Some(head(Some(b"GET"), Some(b"/"), bad_value))))
        .unwrap_err();
    assert_eq!(err, HttpError::InvalidHeader("failed to parse header value".to_string()));

    let req = HttpRequest::from_head(data, Ok(Some(head(Some(b"GET"), Some(b"/p"), vec![])))).unwrap();
    assert_eq!(req.body().as_slice(), b"ored");
    assert_eq!(req.raw_bytes().as_slice(), b"ignored");
    assert_eq!(req.uri().path(), "/p");
}

#[test]
fn request_collect_gives_fields_and_body() {
    let lines = vec![
        RawHeader { name: b"Host".to_vec(), value: b"a".to_vec() },
        RawHeader { name: b"X".to_vec(), value: b"1".to_vec() },
        RawHeader { name: b"host".to_vec(), value: b"b".to_vec() },
    ];
    let (headers, body) = HttpRequest::collect(b"0123456789", &lines, 4).unwrap();
    assert_eq!(body, b"456789".to_vec());
    assert_eq!(headers.len(), 2);
    assert_eq!(headers.name_at(0), b"Host");
    assert_eq!(headers.value_at(0), b"b");
    assert_eq!(headers.get(b"x"), Some(b"1" as &[u8]));
    let (_, body) = HttpRequest::collect(b"0123456789", &vec![], 10).unwrap();
    assert!(body.is_empty());
}

#[test]
fn method_is_a_token() {
    assert_eq!(Method::from_bytes(b"GET").unwrap(), Method::get());
    assert_eq!(Method::from_bytes(b"POST").unwrap(), Method::post());
    assert_eq!(Method::from_bytes(b"PUT").unwrap(), Method::put());
    assert_eq!(Method::from_bytes(b"DELETE").unwrap(), Method::delete());
    assert_eq!(Method::from_bytes(b"HEAD").unwrap(), Method::head());
    assert_eq!(Method::from_bytes(b"OPTIONS").unwrap(), Method::options());
    assert_eq!(Method::from_bytes(b"CONNECT").unwrap(), Method::connect());
    assert_eq!(Method::from_bytes(b"PATCH").unwrap(), Method::patch());
    assert_eq!(Method::from_bytes(b"TRACE").unwrap(), Method::trace());
    assert_eq!(Method::from_bytes(b"M-SEARCH!#$%&'*+.^_`|~09az").unwrap().as_str(), "M-SEARCH!#$%&'*+.^_`|~09az");
    let invalid = HttpError::InvalidRequest("invalid HTTP method".to_string());
    assert_eq!(Method::from_bytes(b"").unwrap_err(), invalid);
    assert_eq!(Method::from_bytes(b"GE T").unwrap_err(), invalid);
    assert_eq!(Method::from_bytes(b"GET\"").unwrap_err(), invalid);
    assert_eq!(Method::from_bytes(b"GET(").unwrap_err(), invalid);
    assert_eq!(Method::from_bytes(b"GET/").unwrap_err(), invalid);
    assert_eq!(Method::from_bytes(b"GET:").unwrap_err(), invalid);
    assert_eq!(Method::from_bytes(b"GET@").unwrap_err(), invalid);
    assert_eq!(Method::from_bytes(b"GET[").unwrap_err(), invalid);
    assert_eq!(Method::from_bytes(b"GET{").unwrap_err(), invalid);
    assert_eq!(Method::from_bytes(b"GET}").unwrap_err(), invalid);
    assert_eq!(Method::from_bytes(b"GET\x7f").unwrap_err(), invalid);
    assert_eq!(Method::from_bytes(b"GET\x80").unwrap_err(), invalid);
    assert_eq!(Method::get().clone(), Method::get());
}

#[test]
fn uri_path_of_each_form() {
    assert_eq!(Uri::from_bytes(b"/").unwrap().path(), "/");
    assert_eq!(Uri::from_bytes(b"/").unwrap(), Uri::root());
    assert_eq!(Uri::from_bytes(b"/a/b?q=1").unwrap().path(), "/a/b");
    assert_eq!(Uri::from_bytes(b"*").unwrap().path(), "*");
    assert_eq!(Uri::from_bytes(b"example.com:443").unwrap().path(), "");
    assert_eq!(Uri::from_bytes(b"https://example.com").unwrap().path(), "/");
}

#[test]
fn header_map_keeps_first_spelling_and_order() {
    let mut map = HeaderMap::new();
    assert!(map.is_empty());
    map.insert(b"Content-Type", b"text/plain").unwrap();
    map.insert(b"X-Other", b"1").unwrap();
    map.insert(b"content-type", b"application/json").unwrap();
    assert_eq!(map.len(), 2);
    assert_eq!(map.name_at(0), b"Content-Type");
    assert_eq!(map.value_at(0), b"application/json");
    assert_eq!(map.name_at(1), b"X-Other");
    assert_eq!(map.get(b"CONTENT-TYPE"), Some(b"application/json" as &[u8]));
    assert_eq!(map.get_str("x-OTHER"), Some("1"));
    assert_eq!(map.position(b"x-other"), Some(1));
    assert_eq!(map.position(b"x-othe"), None);
    assert!(map.contains_key(b"X-OTHER"));
    assert!(!map.contains_key(b"X-Missing"));
    assert_eq!(map.get(b"X-Missing"), None);

    let mut wire = b">".to_vec();
    map.write_to(&mut wire);
    assert_eq!(wire, b">Content-Type: application/json\r\nX-Other: 1\r\n".to_vec());
    assert_eq!(map.clone(), map);
}

#[test]
fn header_map_refuses_invalid_fields() {
    let mut map = HeaderMap::new();
    let bad_name = HttpError::InvalidHeader("invalid HTTP header name".to_string());
    let bad_value = HttpError::InvalidHeader("failed to parse header value".to_string());
    assert_eq!(map.insert(b"", b"v").unwrap_err(), bad_name);
    assert_eq!(map.insert(b"a b", b"v").unwrap_err(), bad_name);
    assert_eq!(map.insert(b"a:b", b"v").unwrap_err(), bad_name);
    assert_eq!(map.insert(b"a\"b", b"v").unwrap_err(), bad_name);
    assert_eq!(map.insert(&vec![b'a'; 65536], b"v").unwrap_err(), bad_name);
    assert_eq!(map.insert(b"a b", b"v\n").unwrap_err(), bad_name);
    assert_eq!(map.insert(b"ab", b"v\n").unwrap_err(), bad_value);
    assert_eq!(map.insert(b"ab", b"v\x7f").unwrap_err(), bad_value);
    assert_eq!(map.insert(b"ab", b"v\x1f").unwrap_err(), bad_value);
    assert_eq!(map.insert(b"ab", b"\x00").unwrap_err(), bad_value);
    assert!(map.is_empty());

    map.insert(&vec![b'a'; 65535], b"v").unwrap();
    map.insert(b"tab", b"a\tb").unwrap();
    map.insert(b"high", b"caf\xe9 \xff").unwrap();
    map.insert(b"empty", b"").unwrap();
    assert_eq!(map.len(), 4);
    assert_eq!(map.get_str("tab"), Some("a\tb"));
    // A value with bytes beyond ASCII is kept but is not text.
    assert_eq!(map.get(b"high"), Some(b"caf\xe9 \xff" as &[u8]));
    assert_eq!(map.get_str("high"), None);
    assert_eq!(map.get_str("empty"), Some(""));
}
