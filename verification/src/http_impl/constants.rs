//! Ready-made responses for the statuses a proxy sends most often. They are
//! sent as they stand, without building a response: each is plain ASCII, and
//! `as_bytes` gives the bytes to write.
use vstd::prelude::*;

verus! {

/// 200 with no header and no body.
pub const SUCCESS: &'static str = "HTTP/1.1 200 OK\r\n\r\n";

/// 401 with a short body.
pub const UNAUTHORIZED: &'static str = "HTTP/1.1 401 Unauthorized\r\n\r\nUnauthorized\r\n";

/// 403 with no header and no body.
pub const FORBIDDEN: &'static str = "HTTP/1.1 403 Forbidden\r\n\r\n";

/// 407 that asks for Basic credentials in the realm `Proxy-Login`.
pub const AUTHENTICATION_REQUIRED: &'static str =
    "HTTP/1.1 407 Proxy Authentication Required\r\nProxy-Authenticate: Basic realm=\"Proxy-Login\"\r\n\r\n";

/// 400 with no header and no body.
pub const BAD_REQUEST: &'static str = "HTTP/1.1 400 Bad Request\r\n\r\n";

/// 404 with no header and no body.
pub const NOT_FOUND: &'static str = "HTTP/1.1 404 Not Found\r\n\r\n";

/// 500 with no header and no body.
pub const INTERNAL_SERVER_ERROR: &'static str = "HTTP/1.1 500 Internal Server Error\r\n\r\n";

/// 502 with no header and no body.
pub const BAD_GATEWAY: &'static str = "HTTP/1.1 502 Bad Gateway\r\n\r\n";

/// 503 with no header and no body.
pub const SERVICE_UNAVAILABLE: &'static str = "HTTP/1.1 503 Service Unavailable\r\n\r\n";

} // verus!
