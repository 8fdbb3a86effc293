//! `Proxy-Authorization: Basic` credentials.
use vstd::prelude::*;
use vstd::string::{StringExecFns, StringSliceAdditionalSpecFns};
use vstd::utf8::{decode_utf8, valid_utf8};

use crate::bytes::to_vec;
use crate::http_impl::backend::{base64_decode, base64_standard_decode};
use crate::http_impl::error::{HttpError, HttpErrorView};
use crate::http_impl::header::{self, Fields};
use crate::http_impl::request::HttpRequest;
use crate::text::{lemma_split_at_ascii, spec_bytes_result, str_from_utf8, string_from_utf8};

verus! {

/// A username and a password.
#[derive(Debug, Clone, PartialEq, Eq)]
pub struct BasicAuth {
    pub username: String,
    pub password: String,
}

/// Credentials as a mathematical value.
pub struct BasicAuthView {
    pub username: Seq<char>,
    pub password: Seq<char>,
}

impl View for BasicAuth {
    type V = BasicAuthView;

    open spec fn view(&self) -> BasicAuthView {
        BasicAuthView { username: self.username@, password: self.password@ }
    }
}

/// The bytes `Basic `, which begin the header value.
pub open spec fn spec_scheme() -> Seq<u8> {
    seq![0x42u8, 0x61, 0x73, 0x69, 0x63, 0x20]
}

/// Whether the first colon of `b` is at index `i`.
pub open spec fn spec_is_first_colon(b: Seq<u8>, i: int) -> bool {
    &&& 0 <= i < b.len()
    &&& b[i] == 0x3a
    &&& forall|j: int| 0 <= j < i ==> b[j] != 0x3a
}

/// The parts of `b` before and after its first colon, if it has a colon.
pub open spec fn spec_split(b: Seq<u8>) -> Option<(Seq<u8>, Seq<u8>)> {
    if exists|i: int| spec_is_first_colon(b, i) {
        let i = choose|i: int| spec_is_first_colon(b, i);
        Some((b.take(i), b.skip(i + 1)))
    } else {
        None
    }
}

/// The credentials that decoded bytes hold, or why there are none: the
/// bytes must be UTF-8 and hold a colon; the username is what stands before
/// the first colon, the password everything after it.
pub open spec fn spec_from_decoded(decoded: Result<Seq<u8>, Seq<char>>) -> Result<
    BasicAuthView,
    HttpErrorView,
> {
    match decoded {
        Err(msg) => Err(HttpErrorView::AuthError("Invalid base64: "@ + msg)),
        Ok(bytes) => if !valid_utf8(bytes) {
            Err(HttpErrorView::AuthError("Invalid UTF-8"@))
        } else {
            match spec_split(bytes) {
                None => Err(HttpErrorView::AuthError("Invalid credentials format"@)),
                Some((u, p)) => Ok(
                    BasicAuthView { username: decode_utf8(u), password: decode_utf8(p) },
                ),
            }
        },
    }
}

/// The credentials that the header fields carry: none where there is no
/// `Proxy-Authorization` field; an error where there is one and its value,
/// whatever bytes it holds, does not begin with `Basic ` or the rest cannot
/// be read.
pub open spec fn spec_parse_basic_auth(headers: Fields) -> Result<
    Option<BasicAuthView>,
    HttpErrorView,
> {
    match header::spec_get(headers, "Proxy-Authorization".spec_bytes()) {
        None => Ok(None),
        Some(v) => if !(v.len() >= 6 && v.subrange(0, 6) == spec_scheme()) {
            Err(HttpErrorView::AuthError("Invalid authorization scheme"@))
        } else {
            match spec_from_decoded(base64_standard_decode(v.skip(6))) {
                Ok(auth) => Ok(Some(auth)),
                Err(e) => Err(e),
            }
        },
    }
}

/// The index of the first colon of `b`, if it has one.
fn first_colon(b: &[u8]) -> (r: Option<usize>)
    ensures
        match r {
            Some(i) => spec_is_first_colon(b@, i as int) && spec_split(b@) == Some(
                (b@.take(i as int), b@.skip(i + 1)),
            ),
            None => spec_split(b@) is None,
        },
{
    let mut i: usize = 0;
    while i < b.len()
        invariant
            i <= b@.len(),
            forall|j: int| 0 <= j < i ==> b@[j] != 0x3a,
        decreases b@.len() - i,
    {
        if b[i] == 0x3a {
            proof {
                assert(spec_is_first_colon(b@, i as int));
                let c = choose|c: int| spec_is_first_colon(b@, c);
                assert(c == i);
            }
            return Some(i);
        }
        i += 1;
    }
    proof {
        assert forall|c: int| !spec_is_first_colon(b@, c) by {}
    }
    None
}

impl BasicAuth {
    /// Reads credentials from what Base64 decoding gave.
    pub fn from_decoded(decoded: Result<Vec<u8>, String>) -> (r: Result<BasicAuth, HttpError>)
        ensures
            match r {
                Ok(auth) => spec_from_decoded(spec_bytes_result(decoded)) == Ok::<
                    BasicAuthView,
                    HttpErrorView,
                >(auth@),
                Err(e) => spec_from_decoded(spec_bytes_result(decoded)) == Err::<
                    BasicAuthView,
                    HttpErrorView,
                >(e@),
            },
    {
        let bytes = match decoded {
            Ok(bytes) => bytes,
            Err(msg) => {
                let text = String::from_str("Invalid base64: ").concat(msg.as_str());
                return Err(HttpError::AuthError(text));
            },
        };
        if str_from_utf8(bytes.as_slice()).is_none() {
            return Err(HttpError::AuthError(String::from_str("Invalid UTF-8")));
        }
        match first_colon(bytes.as_slice()) {
            Some(i) => {
                proof {
                    lemma_split_at_ascii(bytes@, i as int);
                }
                let len = bytes.len();
                assert(i < len);
                let user = to_vec(vstd::slice::slice_subrange(bytes.as_slice(), 0, i));
                let pass = to_vec(vstd::slice::slice_subrange(bytes.as_slice(), i + 1, len));
                assert(user@ =~= bytes@.take(i as int));
                assert(pass@ =~= bytes@.skip(i + 1));
                let username = string_from_utf8(user).unwrap();
                let password = string_from_utf8(pass).unwrap();
                Ok(BasicAuth { username, password })
            },
            None => Err(HttpError::AuthError(String::from_str("Invalid credentials format"))),
        }
    }
}

impl HttpRequest {
    /// The credentials of the `Proxy-Authorization` header, if the request
    /// has that header. A header that is there and cannot be read as Basic
    /// credentials is an error.
    pub fn parse_basic_auth(&self) -> (r: Result<Option<BasicAuth>, HttpError>)
        ensures
            match r {
                Ok(Some(auth)) => spec_parse_basic_auth(self@.headers) == Ok::<
                    Option<BasicAuthView>,
                    HttpErrorView,
                >(Some(auth@)),
                Ok(None) => spec_parse_basic_auth(self@.headers) == Ok::<
                    Option<BasicAuthView>,
                    HttpErrorView,
                >(None),
                Err(e) => spec_parse_basic_auth(self@.headers) == Err::<
                    Option<BasicAuthView>,
                    HttpErrorView,
                >(e@),
            },
    {
        let value = match self.headers().get("Proxy-Authorization".as_bytes()) {
            Some(v) => v,
            None => { return Ok(None); },
        };
        let is_basic = value.len() >= 6 && value[0] == 0x42 && value[1] == 0x61 && value[2] == 0x73
            && value[3] == 0x69 && value[4] == 0x63 && value[5] == 0x20;
        proof {
            if value@.len() >= 6 {
                let head = value@.subrange(0, 6);
                if is_basic {
                    assert(head =~= spec_scheme());
                } else {
                    assert(head[0] == value@[0] && head[1] == value@[1] && head[2] == value@[2]
                        && head[3] == value@[3] && head[4] == value@[4] && head[5] == value@[5]);
                }
            }
        }
        if !is_basic {
            return Err(HttpError::AuthError(String::from_str("Invalid authorization scheme")));
        }
        let encoded = vstd::slice::slice_subrange(value, 6, value.len());
        assert(encoded@ =~= value@.skip(6));
        match BasicAuth::from_decoded(base64_decode(encoded)) {
            Ok(auth) => Ok(Some(auth)),
            Err(e) => Err(e),
        }
    }
}

} // verus!
