//! The calls into the crates that do the heavy lifting: `httparse` reads a
//! message head, `http` judges methods, URIs and header fields, `base64`
//! decodes credentials, `memchr` searches.
//!
//! Nothing in this file is proved. Each function makes one call and hands
//! its result over as plain values; its contract is what the rest of the
//! library believes about that call.
use base64::Engine;
use vstd::prelude::*;

use crate::http_impl::chars::{spec_is_field_value, spec_is_header_name, spec_is_token};
use crate::text::{spec_bytes_result, spec_text_option, spec_text_result};

verus! {

/// One header line as the head parser found it: name and value, untouched.
#[derive(Debug, Clone, PartialEq, Eq)]
pub struct RawHeader {
    pub name: Vec<u8>,
    pub value: Vec<u8>,
}

impl View for RawHeader {
    type V = (Seq<u8>, Seq<u8>);

    open spec fn view(&self) -> (Seq<u8>, Seq<u8>) {
        (self.name@, self.value@)
    }
}

/// The header lines of a head as pairs of name and value.
pub open spec fn spec_raw_headers(hs: Seq<RawHeader>) -> Seq<(Seq<u8>, Seq<u8>)> {
    Seq::new(hs.len(), |i: int| hs[i]@)
}

/// What the head parser found in a complete request head.
#[derive(Debug, Clone, PartialEq, Eq)]
pub struct RequestHead {
    /// The method of the request line.
    pub method: Option<Vec<u8>>,
    /// The target of the request line.
    pub path: Option<Vec<u8>>,
    /// The header lines in the order of the message.
    pub headers: Vec<RawHeader>,
    /// Where in the buffer the head ends and the body begins.
    pub body_offset: usize,
}

/// A request head as a mathematical value.
pub struct RequestHeadView {
    pub method: Option<Seq<u8>>,
    pub path: Option<Seq<u8>>,
    pub headers: Seq<(Seq<u8>, Seq<u8>)>,
    pub body_offset: nat,
}

impl View for RequestHead {
    type V = RequestHeadView;

    open spec fn view(&self) -> RequestHeadView {
        RequestHeadView {
            method: match self.method {
                Some(m) => Some(m@),
                None => None,
            },
            path: match self.path {
                Some(p) => Some(p@),
                None => None,
            },
            headers: spec_raw_headers(self.headers@),
            body_offset: self.body_offset as nat,
        }
    }
}

/// What the head parser found in a complete response head.
#[derive(Debug, Clone, PartialEq, Eq)]
pub struct ResponseHead {
    /// The status code of the status line.
    pub code: Option<u16>,
    /// The reason phrase of the status line.
    pub reason: Option<Vec<u8>>,
    /// The header lines in the order of the message.
    pub headers: Vec<RawHeader>,
    /// Where in the buffer the head ends and the body begins.
    pub body_offset: usize,
}

/// A response head as a mathematical value.
pub struct ResponseHeadView {
    pub code: Option<u16>,
    pub reason: Option<Seq<u8>>,
    pub headers: Seq<(Seq<u8>, Seq<u8>)>,
    pub body_offset: nat,
}

impl View for ResponseHead {
    type V = ResponseHeadView;

    open spec fn view(&self) -> ResponseHeadView {
        ResponseHeadView {
            code: self.code,
            reason: match self.reason {
                Some(r) => Some(r@),
                None => None,
            },
            headers: spec_raw_headers(self.headers@),
            body_offset: self.body_offset as nat,
        }
    }
}

/// The outcome of a head parse as a mathematical value: a complete head,
/// `None` for a head that is not complete yet, or the parser's complaint.
pub open spec fn spec_request_outcome(o: Result<Option<RequestHead>, String>) -> Result<
    Option<RequestHeadView>,
    Seq<char>,
> {
    match o {
        Ok(Some(h)) => Ok(Some(h@)),
        Ok(None) => Ok(None),
        Err(e) => Err(e@),
    }
}

/// The outcome of a head parse as a mathematical value: a complete head,
/// `None` for a head that is not complete yet, or the parser's complaint.
pub open spec fn spec_response_outcome(o: Result<Option<ResponseHead>, String>) -> Result<
    Option<ResponseHeadView>,
    Seq<char>,
> {
    match o {
        Ok(Some(h)) => Ok(Some(h@)),
        Ok(None) => Ok(None),
        Err(e) => Err(e@),
    }
}

/// What `httparse` makes of `data` as a request, with room for 64 headers.
pub uninterp spec fn httparse_request(data: Seq<u8>) -> Result<Option<RequestHeadView>, Seq<char>>;

/// What `httparse` makes of `data` as a response, with room for 64 headers.
pub uninterp spec fn httparse_response(data: Seq<u8>) -> Result<
    Option<ResponseHeadView>,
    Seq<char>,
>;

/// The path of the URI that `http` reads from `src`, or its complaint.
pub uninterp spec fn http_uri_path(src: Seq<u8>) -> Result<Seq<char>, Seq<char>>;

/// The reason phrase that `http` knows for a status code, if it knows one.
pub uninterp spec fn http_canonical_reason(code: u16) -> Option<Seq<char>>;

/// What `base64` decodes `input` to with the standard alphabet and padding,
/// or its complaint.
pub uninterp spec fn base64_standard_decode(input: Seq<u8>) -> Result<Seq<u8>, Seq<char>>;

/// `httparse::Request::parse` on a fresh request with 64 header slots.
///
/// The outcome is whatever `httparse` says of these bytes, named
/// [`httparse_request`]. Where it reports a complete head, the offset it
/// returns is the number of bytes it consumed, so it lies within the buffer,
/// and the headers it found fit the 64 slots.
#[verifier::external_body]
pub(crate) fn parse_request_head(data: &[u8]) -> (r: Result<Option<RequestHead>, String>)
    ensures
        spec_request_outcome(r) == httparse_request(data@),
        r matches Ok(Some(head)) ==> head.body_offset <= data@.len() && head.headers@.len() <= 64,
{
    let mut slots = [httparse::EMPTY_HEADER; 64];
    let mut req = httparse::Request::new(&mut slots);
    match req.parse(data) {
        Ok(httparse::Status::Complete(len)) => Ok(Some(RequestHead {
            method: req.method.map(|m| m.as_bytes().to_vec()),
            path: req.path.map(|p| p.as_bytes().to_vec()),
            headers: req.headers.iter().map(|h| RawHeader {
                name: h.name.as_bytes().to_vec(),
                value: h.value.to_vec(),
            }).collect(),
            body_offset: len,
        })),
        Ok(httparse::Status::Partial) => Ok(None),
        Err(e) => Err(e.to_string()),
    }
}

/// `httparse::Response::parse` on a fresh response with 64 header slots.
///
/// The outcome is whatever `httparse` says of these bytes, named
/// [`httparse_response`]. Where it reports a complete head, the offset it
/// returns is the number of bytes it consumed, so it lies within the buffer,
/// and the headers it found fit the 64 slots.
#[verifier::external_body]
pub(crate) fn parse_response_head(data: &[u8]) -> (r: Result<Option<ResponseHead>, String>)
    ensures
        spec_response_outcome(r) == httparse_response(data@),
        r matches Ok(Some(head)) ==> head.body_offset <= data@.len() && head.headers@.len() <= 64,
{
    let mut slots = [httparse::EMPTY_HEADER; 64];
    let mut resp = httparse::Response::new(&mut slots);
    match resp.parse(data) {
        Ok(httparse::Status::Complete(len)) => Ok(Some(ResponseHead {
            code: resp.code,
            reason: resp.reason.map(|r| r.as_bytes().to_vec()),
            headers: resp.headers.iter().map(|h| RawHeader {
                name: h.name.as_bytes().to_vec(),
                value: h.value.to_vec(),
            }).collect(),
            body_offset: len,
        })),
        Ok(httparse::Status::Partial) => Ok(None),
        Err(e) => Err(e.to_string()),
    }
}

/// `http::Method::from_bytes`, for its yes or no only.
///
/// `http` accepts a method exactly when it is a token, and complains of
/// anything else with one fixed message.
#[verifier::external_body]
pub(crate) fn check_method(src: &[u8]) -> (r: Result<(), String>)
    ensures
        r is Ok <==> spec_is_token(src@),
        r matches Err(msg) ==> msg@ == "invalid HTTP method"@,
{
    match http::Method::from_bytes(src) {
        Ok(_) => Ok(()),
        Err(e) => Err(e.to_string()),
    }
}

/// `http::header::HeaderName::from_bytes`, for its yes or no only.
///
/// `http` accepts a header name exactly when it is a token of at most 65535
/// bytes, and complains of anything else with one fixed message.
#[verifier::external_body]
pub(crate) fn check_header_name(src: &[u8]) -> (r: Result<(), String>)
    ensures
        r is Ok <==> spec_is_header_name(src@),
        r matches Err(msg) ==> msg@ == "invalid HTTP header name"@,
{
    match http::header::HeaderName::from_bytes(src) {
        Ok(_) => Ok(()),
        Err(e) => Err(e.to_string()),
    }
}

/// `http::header::HeaderValue::from_bytes`, for its yes or no only.
///
/// `http` accepts a header value exactly when each byte is a tab or at least
/// 32 and not 127, and complains of anything else with one fixed message.
#[verifier::external_body]
pub(crate) fn check_header_value(src: &[u8]) -> (r: Result<(), String>)
    ensures
        r is Ok <==> spec_is_field_value(src@),
        r matches Err(msg) ==> msg@ == "failed to parse header value"@,
{
    match http::header::HeaderValue::from_bytes(src) {
        Ok(_) => Ok(()),
        Err(e) => Err(e.to_string()),
    }
}

/// `http::Uri::try_from` on bytes, then `Uri::path`.
///
/// The outcome is whatever `http` says of these bytes, named
/// [`http_uri_path`].
#[verifier::external_body]
pub(crate) fn parse_uri_path(src: &[u8]) -> (r: Result<String, String>)
    ensures
        spec_text_result(r) == http_uri_path(src@),
{
    match http::Uri::try_from(src) {
        Ok(uri) => Ok(uri.path().to_string()),
        Err(e) => Err(e.to_string()),
    }
}

/// `http::StatusCode::canonical_reason` of the status with the given code.
///
/// The outcome is whatever `http` knows of this code, named
/// [`http_canonical_reason`]; a code that `http` does not take has none.
#[verifier::external_body]
pub(crate) fn canonical_reason(code: u16) -> (r: Option<String>)
    ensures
        spec_text_option(r) == http_canonical_reason(code),
{
    match http::StatusCode::from_u16(code) {
        Ok(status) => status.canonical_reason().map(|t| t.to_string()),
        Err(_) => None,
    }
}

/// `base64::Engine::decode` with `general_purpose::STANDARD`.
///
/// The outcome is whatever `base64` says of these bytes, named
/// [`base64_standard_decode`].
#[verifier::external_body]
pub(crate) fn base64_decode(input: &[u8]) -> (r: Result<Vec<u8>, String>)
    ensures
        spec_bytes_result(r) == base64_standard_decode(input@),
{
    match base64::engine::general_purpose::STANDARD.decode(input) {
        Ok(bytes) => Ok(bytes),
        Err(e) => Err(e.to_string()),
    }
}

/// Whether `needle` stands in `haystack` at index `i`.
pub open spec fn spec_occurs_at(haystack: Seq<u8>, needle: Seq<u8>, i: int) -> bool {
    0 <= i && i + needle.len() <= haystack.len() && haystack.subrange(i, i + needle.len())
        == needle
}

/// `memchr::memmem::find`.
///
/// `memchr` documents that it returns the index of the first occurrence of
/// the needle, and nothing if there is none.
#[verifier::external_body]
pub(crate) fn find_subslice(haystack: &[u8], needle: &[u8]) -> (r: Option<usize>)
    ensures
        match r {
            Some(i) => spec_occurs_at(haystack@, needle@, i as int) && forall|j: int|
                0 <= j < i ==> !spec_occurs_at(haystack@, needle@, j),
            None => forall|j: int| !spec_occurs_at(haystack@, needle@, j),
        },
{
    memchr::memmem::find(haystack, needle)
}

} // verus!
