//! The status code of a response.
use vstd::prelude::*;
use vstd::string::StringExecFns;

use crate::http_impl::error::{HttpError, HttpErrorView};

verus! {

/// A status code between 100 and 599.
#[derive(Clone, Copy, Debug, PartialEq, Eq, Hash, PartialOrd, Ord)]
pub struct StatusCode {
    code: u16,
}

/// The three decimal digits of a number below 1000, as ASCII.
pub open spec fn spec_digits(code: u16) -> Seq<u8> {
    seq![
        (0x30 + code as int / 100) as u8,
        (0x30 + (code as int / 10) % 10) as u8,
        (0x30 + code as int % 10) as u8,
    ]
}

impl View for StatusCode {
    type V = u16;

    closed spec fn view(&self) -> u16 {
        self.code
    }
}

impl StatusCode {
    #[verifier::type_invariant]
    spec fn in_range(self) -> bool {
        100 <= self.code <= 599
    }

    /// The status with the given code, if the code is between 100 and 599.
    pub fn from_u16(code: u16) -> (r: Result<StatusCode, HttpError>)
        ensures
            match r {
                Ok(s) => 100 <= code <= 599 && s@ == code,
                Err(e) => !(100 <= code <= 599) && e@ == HttpErrorView::InvalidResponse(
                    "invalid status code"@,
                ),
            },
    {
        if 100 <= code && code <= 599 {
            Ok(StatusCode { code })
        } else {
            Err(HttpError::InvalidResponse(String::from_str("invalid status code")))
        }
    }

    /// The code as a number.
    pub fn as_u16(&self) -> (code: u16)
        ensures
            code == self@,
            100 <= code <= 599,
    {
        proof {
            use_type_invariant(self);
        }
        self.code
    }

    /// Appends the three digits of the code to `buf`.
    pub fn write_digits(&self, buf: &mut Vec<u8>)
        ensures
            final(buf)@ == old(buf)@ + spec_digits(self@),
    {
        proof {
            use_type_invariant(self);
        }
        let c = self.code;
        buf.push(0x30 + (c / 100) as u8);
        buf.push(0x30 + ((c / 10) % 10) as u8);
        buf.push(0x30 + (c % 10) as u8);
        assert(buf@ =~= old(buf)@ + spec_digits(self@));
    }

    /// 100 Continue.
    pub fn continue_() -> (s: StatusCode)
        ensures
            s@ == 100,
    {
        StatusCode { code: 100 }
    }

    /// 200 OK.
    pub fn ok() -> (s: StatusCode)
        ensures
            s@ == 200,
    {
        StatusCode { code: 200 }
    }

    /// 201 Created.
    pub fn created() -> (s: StatusCode)
        ensures
            s@ == 201,
    {
        StatusCode { code: 201 }
    }

    /// 204 No Content.
    pub fn no_content() -> (s: StatusCode)
        ensures
            s@ == 204,
    {
        StatusCode { code: 204 }
    }

    /// 400 Bad Request.
    pub fn bad_request() -> (s: StatusCode)
        ensures
            s@ == 400,
    {
        StatusCode { code: 400 }
    }

    /// 401 Unauthorized.
    pub fn unauthorized() -> (s: StatusCode)
        ensures
            s@ == 401,
    {
        StatusCode { code: 401 }
    }

    /// 403 Forbidden.
    pub fn forbidden() -> (s: StatusCode)
        ensures
            s@ == 403,
    {
        StatusCode { code: 403 }
    }

    /// 404 Not Found.
    pub fn not_found() -> (s: StatusCode)
        ensures
            s@ == 404,
    {
        StatusCode { code: 404 }
    }

    /// 407 Proxy Authentication Required.
    pub fn proxy_authentication_required() -> (s: StatusCode)
        ensures
            s@ == 407,
    {
        StatusCode { code: 407 }
    }

    /// 500 Internal Server Error.
    pub fn internal_server_error() -> (s: StatusCode)
        ensures
            s@ == 500,
    {
        StatusCode { code: 500 }
    }

    /// 502 Bad Gateway.
    pub fn bad_gateway() -> (s: StatusCode)
        ensures
            s@ == 502,
    {
        StatusCode { code: 502 }
    }

    /// 503 Service Unavailable.
    pub fn service_unavailable() -> (s: StatusCode)
        ensures
            s@ == 503,
    {
        StatusCode { code: 503 }
    }
}

} // verus!
