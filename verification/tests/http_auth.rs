use proxy_codecs::http_impl::{BasicAuth, HttpError, HttpRequest};

#[test]
fn test_parse_basic_auth() {
    let raw = b"GET / HTTP/1.1\r\nProxy-Authorization: Basic dXNlcjpwYXNz\r\n\r\n";
    let request = HttpRequest::parse(raw).unwrap();

    let auth = request.parse_basic_auth().unwrap().unwrap();
    assert_eq!(auth.username, "user");
    assert_eq!(auth.password, "pass");
}

#[test]
fn test_no_auth() {
    let raw = b"GET / HTTP/1.1\r\n\r\n";
    let request = HttpRequest::parse(raw).unwrap();

    let auth = request.parse_basic_auth().unwrap();
    assert!(auth.is_none());
}

#[test]
fn basic_auth_scenario_gives_method_path_and_credentials() {
    let raw = b"GET / HTTP/1.1\r\nProxy-Authorization: Basic dXNlcjpwYXNz\r\n\r\n";
    let request = HttpRequest::parse(raw).unwrap();
    assert_eq!(request.method().as_str(), "GET");
    assert_eq!(request.uri().path(), "/");
    assert_eq!(
        request.parse_basic_auth().unwrap(),
        Some(BasicAuth { username: "user".to_string(), password: "pass".to_string() })
    );
}

fn auth_of(value: &[u8]) -> Result<Option<BasicAuth>, HttpError> {
    let mut raw = b"CONNECT example.com:443 HTTP/1.1\r\nproxy-authorization: ".to_vec();
    raw.extend_from_slice(value);
    raw.extend_from_slice(b"\r\n\r\n");
    HttpRequest::parse(&raw).unwrap().parse_basic_auth()
}

#[test]
fn basic_auth_password_may_hold_colons() {
    // "user:pa:ss:"
    let auth = auth_of(b"Basic dXNlcjpwYTpzczo=").unwrap().unwrap();
    assert_eq!(auth.username, "user");
    assert_eq!(auth.password, "pa:ss:");
    // ":secret"
    let auth = auth_of(b"Basic OnNlY3JldA==").unwrap().unwrap();
    assert_eq!(auth.username, "");
    assert_eq!(auth.password, "secret");
    // "user:"
    let auth = auth_of(b"Basic dXNlcjo=").unwrap().unwrap();
    assert_eq!(auth.username, "user");
    assert_eq!(auth.password, "");
}

#[test]
fn basic_auth_takes_utf8_credentials() {
    // "jörg:päss"
    let auth = auth_of(b"Basic asO2cmc6cMOkc3M=").unwrap().unwrap();
    assert_eq!(auth.username, "jörg");
    assert_eq!(auth.password, "päss");
}

#[test]
fn basic_auth_refuses_another_scheme() {
    let err = auth_of(b"Bearer abcdef").unwrap_err();
    assert_eq!(err, HttpError::AuthError("Invalid authorization scheme".to_string()));
    let err = auth_of(b"basic dXNlcjpwYXNz").unwrap_err();
    assert_eq!(err, HttpError::AuthError("Invalid authorization scheme".to_string()));
    let err = auth_of(b"Basic").unwrap_err();
    assert_eq!(err, HttpError::AuthError("Invalid authorization scheme".to_string()));
}

#[test]
fn basic_auth_refuses_bad_base64() {
    let err = auth_of(b"Basic !!!!").unwrap_err();
    match err {
        HttpError::AuthError(msg) => assert!(msg.starts_with("Invalid base64: "), "{}", msg),
        other => panic!("{:?}", other),
    }
    // Padding is required.
    let err = auth_of(b"Basic dXNlcjo").unwrap_err();
    assert!(matches!(err, HttpError::AuthError(_)));
}

#[test]
fn basic_auth_refuses_bytes_that_are_not_utf8() {
    // 0xff 0x3a 0x61
    let err = auth_of(b"Basic /zph").unwrap_err();
    assert_eq!(err, HttpError::AuthError("Invalid UTF-8".to_string()));
}

#[test]
fn basic_auth_refuses_credentials_without_colon() {
    // "userpass"
    let err = auth_of(b"Basic dXNlcnBhc3M=").unwrap_err();
    assert_eq!(err, HttpError::AuthError("Invalid credentials format".to_string()));
    // empty
    let err = BasicAuth::from_decoded(Ok(Vec::new())).unwrap_err();
    assert_eq!(err, HttpError::AuthError("Invalid credentials format".to_string()));
}

#[test]
fn basic_auth_refuses_a_value_that_is_not_text() {
    match auth_of(b"Basic \xff\xfe").unwrap_err() {
        HttpError::AuthError(msg) => assert!(msg.starts_with("Invalid base64: "), "{}", msg),
        other => panic!("{:?}", other),
    }
    let err = auth_of(b"\xff\xfe dXNlcjpwYXNz").unwrap_err();
    assert_eq!(err, HttpError::AuthError("Invalid authorization scheme".to_string()));
    let err = auth_of(b"Basic\tdXNlcjpwYXNz").unwrap_err();
    assert_eq!(err, HttpError::AuthError("Invalid authorization scheme".to_string()));
}

#[test]
fn basic_auth_from_decoded_bytes() {
    let auth = BasicAuth::from_decoded(Ok(b"a:b".to_vec())).unwrap();
    assert_eq!(auth, BasicAuth { username: "a".to_string(), password: "b".to_string() });
    let err = BasicAuth::from_decoded(Err("bad".to_string())).unwrap_err();
    assert_eq!(err, HttpError::AuthError("Invalid base64: bad".to_string()));
    let err = BasicAuth::from_decoded(Ok(vec![0xc3, 0x28, 0x3a])).unwrap_err();
    assert_eq!(err, HttpError::AuthError("Invalid UTF-8".to_string()));
    let err = BasicAuth::from_decoded(Ok(b"nocolon".to_vec())).unwrap_err();
    assert_eq!(err, HttpError::AuthError("Invalid credentials format".to_string()));
}
