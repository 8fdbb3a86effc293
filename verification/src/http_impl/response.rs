//! HTTP/1.1 responses: reading one from bytes, and building one to send.
//!
//! A response keeps, beside its parts, the exact bytes it came from or goes
//! out as. The body is whatever follows the blank line in those bytes: no
//! `Content-Length` or transfer coding is looked at.
use vstd::prelude::*;
use vstd::string::{StringExecFns, StringSliceAdditionalSpecFns};
use vstd::utf8::encode_utf8;

use crate::bytes::{extend, to_vec};
use crate::http_impl::backend::{
    canonical_reason, http_canonical_reason, httparse_response, parse_response_head,
    spec_response_outcome, ResponseHead, ResponseHeadView,
};
use crate::http_impl::error::{HttpError, HttpErrorView};
use crate::http_impl::header::{self, Fields, HeaderMap};
use crate::http_impl::request::spec_with_header;
use crate::http_impl::status::{spec_digits, StatusCode};

verus! {

/// A response: status, reason phrase, header fields, body, and the bytes of
/// the whole message.
#[derive(Debug, Clone)]
pub struct HttpResponse {
    status: StatusCode,
    reason: Vec<u8>,
    headers: HeaderMap,
    body: Vec<u8>,
    raw_bytes: Vec<u8>,
}

/// A response as a mathematical value.
pub struct HttpResponseView {
    pub status: u16,
    pub reason: Seq<u8>,
    pub headers: Fields,
    pub body: Seq<u8>,
    pub raw_bytes: Seq<u8>,
}

impl View for HttpResponse {
    type V = HttpResponseView;

    closed spec fn view(&self) -> HttpResponseView {
        HttpResponseView {
            status: self.status@,
            reason: self.reason@,
            headers: self.headers@,
            body: self.body@,
            raw_bytes: self.raw_bytes@,
        }
    }
}

/// The outcome of reading a response as a mathematical value.
pub open spec fn spec_result(r: Result<HttpResponse, HttpError>) -> Result<
    HttpResponseView,
    HttpErrorView,
> {
    match r {
        Ok(resp) => Ok(resp@),
        Err(e) => Err(e@),
    }
}

/// The response that `data` holds, given what the head parser made of
/// `data`; or why there is none.
///
/// The checks come in a fixed order: the parser's own finding, the status
/// code, then the header lines from first to last. The body is what follows
/// the head in `data`.
pub open spec fn spec_from_head(
    data: Seq<u8>,
    outcome: Result<Option<ResponseHeadView>, Seq<char>>,
) -> Result<HttpResponseView, HttpErrorView> {
    match outcome {
        Err(msg) => Err(HttpErrorView::InvalidResponse(msg)),
        Ok(None) => Err(HttpErrorView::InvalidResponse("Incomplete response"@)),
        Ok(Some(head)) => match head.code {
            None => Err(HttpErrorView::InvalidResponse("Missing status code"@)),
            Some(code) => if !(100 <= code <= 599) {
                Err(HttpErrorView::InvalidResponse("invalid status code"@))
            } else {
                match header::spec_collect(head.headers, 0, Seq::<(Seq<u8>, Seq<u8>)>::empty()) {
                    Err(e) => Err(e),
                    Ok(fields) => Ok(
                        HttpResponseView {
                            status: code,
                            reason: match head.reason {
                                Some(r) => r,
                                None => Seq::<u8>::empty(),
                            },
                            headers: fields,
                            body: data.skip(head.body_offset as int),
                            raw_bytes: data,
                        },
                    ),
                }
            },
        },
    }
}

/// The response that `data` holds, or why there is none.
pub open spec fn spec_parse(data: Seq<u8>) -> Result<HttpResponseView, HttpErrorView> {
    spec_from_head(data, httparse_response(data))
}

/// The status code of the response that a head parse stands for, or why
/// there is none. The header lines play no part.
pub open spec fn spec_status_from_head(outcome: Result<Option<ResponseHeadView>, Seq<char>>)
    -> Result<u16, HttpErrorView> {
    match outcome {
        Err(msg) => Err(HttpErrorView::InvalidResponse(msg)),
        Ok(None) => Err(HttpErrorView::InvalidResponse("Incomplete response"@)),
        Ok(Some(head)) => match head.code {
            None => Err(HttpErrorView::InvalidResponse("Missing status code"@)),
            Some(code) => if !(100 <= code <= 599) {
                Err(HttpErrorView::InvalidResponse("invalid status code"@))
            } else {
                Ok(code)
            },
        },
    }
}

impl HttpResponse {
    /// Reads a response from `data`: a complete head and whatever follows
    /// it.
    ///
    /// A head that is not complete is an error, not a request for more bytes.
    pub fn parse(data: &[u8]) -> (r: Result<HttpResponse, HttpError>)
        ensures
            spec_result(r) == spec_parse(data@),
            r matches Ok(resp) ==> resp@.raw_bytes == data@ && resp@.headers.len() <= 64
                && header::spec_wf(resp@.headers) && 100 <= resp@.status <= 599,
    {
        let outcome = parse_response_head(data);
        HttpResponse::from_head(data, outcome)
    }

    /// Reads a response from a buffer that the response then keeps as its
    /// bytes.
    pub fn parse_bytes(data: Vec<u8>) -> (r: Result<HttpResponse, HttpError>)
        ensures
            spec_result(r) == spec_parse(data@),
            r matches Ok(resp) ==> resp@.raw_bytes == data@ && resp@.headers.len() <= 64
                && header::spec_wf(resp@.headers) && 100 <= resp@.status <= 599,
    {
        let outcome = parse_response_head(data.as_slice());
        match HttpResponse::parts_from_head(data.as_slice(), outcome) {
            Ok((status, reason, headers, body)) => Ok(
                HttpResponse { status, reason, headers, body, raw_bytes: data },
            ),
            Err(e) => Err(e),
        }
    }

    /// The status of the response in `data`, without its header fields
    /// being collected or its body copied: for a look at what an upstream
    /// server answered.
    pub fn parse_status(data: &[u8]) -> (r: Result<StatusCode, HttpError>)
        ensures
            match r {
                Ok(s) => spec_status_from_head(httparse_response(data@)) == Ok::<
                    u16,
                    HttpErrorView,
                >(s@),
                Err(e) => spec_status_from_head(httparse_response(data@)) == Err::<
                    u16,
                    HttpErrorView,
                >(e@),
            },
    {
        HttpResponse::status_from_head(parse_response_head(data))
    }

    /// The status that a head parse stands for.
    pub fn status_from_head(outcome: Result<Option<ResponseHead>, String>) -> (r: Result<
        StatusCode,
        HttpError,
    >)
        ensures
            match r {
                Ok(s) => spec_status_from_head(spec_response_outcome(outcome)) == Ok::<
                    u16,
                    HttpErrorView,
                >(s@),
                Err(e) => spec_status_from_head(spec_response_outcome(outcome)) == Err::<
                    u16,
                    HttpErrorView,
                >(e@),
            },
    {
        let head = match outcome {
            Err(msg) => { return Err(HttpError::InvalidResponse(msg)); },
            Ok(None) => {
                return Err(HttpError::InvalidResponse(String::from_str("Incomplete response")));
            },
            Ok(Some(head)) => head,
        };
        match head.code {
            None => Err(HttpError::InvalidResponse(String::from_str("Missing status code"))),
            Some(code) => StatusCode::from_u16(code),
        }
    }

    /// Makes the response out of `data` and what the head parser made of
    /// `data`.
    pub fn from_head(data: &[u8], outcome: Result<Option<ResponseHead>, String>) -> (r: Result<
        HttpResponse,
        HttpError,
    >)
        requires
            outcome matches Ok(Some(head)) ==> head.body_offset <= data@.len(),
        ensures
            spec_result(r) == spec_from_head(data@, spec_response_outcome(outcome)),
            r matches Ok(resp) ==> {
                &&& resp@.raw_bytes == data@
                &&& header::spec_wf(resp@.headers)
                &&& 100 <= resp@.status <= 599
                &&& outcome matches Ok(Some(head)) && resp@.headers.len() <= head.headers@.len()
            },
    {
        match HttpResponse::parts_from_head(data, outcome) {
            Ok((status, reason, headers, body)) => Ok(
                HttpResponse { status, reason, headers, body, raw_bytes: to_vec(data) },
            ),
            Err(e) => Err(e),
        }
    }

    /// The parts of the response, without the copy of the whole message.
    fn parts_from_head(data: &[u8], outcome: Result<Option<ResponseHead>, String>) -> (r: Result<
        (StatusCode, Vec<u8>, HeaderMap, Vec<u8>),
        HttpError,
    >)
        requires
            outcome matches Ok(Some(head)) ==> head.body_offset <= data@.len(),
        ensures
            match r {
                Ok((status, reason, headers, body)) => {
                    &&& spec_from_head(data@, spec_response_outcome(outcome)) == Ok::<
                        HttpResponseView,
                        HttpErrorView,
                    >(
                        HttpResponseView {
                            status: status@,
                            reason: reason@,
                            headers: headers@,
                            body: body@,
                            raw_bytes: data@,
                        },
                    )
                    &&& header::spec_wf(headers@)
                    &&& 100 <= status@ <= 599
                    &&& outcome matches Ok(Some(head)) && headers@.len() <= head.headers@.len()
                },
                Err(e) => spec_from_head(data@, spec_response_outcome(outcome)) == Err::<
                    HttpResponseView,
                    HttpErrorView,
                >(e@),
            },
    {
        let head = match outcome {
            Err(msg) => { return Err(HttpError::InvalidResponse(msg)); },
            Ok(None) => {
                return Err(HttpError::InvalidResponse(String::from_str("Incomplete response")));
            },
            Ok(Some(head)) => head,
        };
        let code = match head.code {
            None => {
                return Err(HttpError::InvalidResponse(String::from_str("Missing status code")));
            },
            Some(code) => code,
        };
        let status = match StatusCode::from_u16(code) {
            Ok(s) => s,
            Err(e) => { return Err(e); },
        };
        let headers = match HeaderMap::from_raw(&head.headers) {
            Ok(h) => h,
            Err(e) => { return Err(e); },
        };
        let reason = match &head.reason {
            Some(r) => to_vec(r.as_slice()),
            None => Vec::new(),
        };
        let body = to_vec(vstd::slice::slice_subrange(data, head.body_offset, data.len()));
        proof {
            assert(body@ =~= data@.skip(head.body_offset as int));
        }
        Ok((status, reason, headers, body))
    }

    /// The status.
    pub fn status(&self) -> (s: StatusCode)
        ensures
            s@ == self@.status,
    {
        self.status
    }

    /// The reason phrase of the status line.
    pub fn reason(&self) -> (r: &Vec<u8>)
        ensures
            r@ == self@.reason,
    {
        &self.reason
    }

    /// The header fields.
    pub fn headers(&self) -> (h: &HeaderMap)
        ensures
            h@ == self@.headers,
    {
        &self.headers
    }

    /// The value of the header named `name`, if there is such a header and
    /// its value is made of tabs and printable ASCII characters only.
    pub fn header(&self, name: &str) -> (r: Option<&str>)
        ensures
            match r {
                Some(s) => header::spec_get(self@.headers, name.spec_bytes()) matches Some(v)
                    && crate::http_impl::chars::spec_is_visible_ascii(v) && s@
                    == vstd::utf8::decode_utf8(v),
                None => header::spec_get(self@.headers, name.spec_bytes()) matches Some(v)
                    ==> !crate::http_impl::chars::spec_is_visible_ascii(v),
            },
    {
        self.headers.get_str(name)
    }

    /// The body: the bytes after the head.
    pub fn body(&self) -> (b: &Vec<u8>)
        ensures
            b@ == self@.body,
    {
        &self.body
    }

    /// The bytes of the whole message, for forwarding.
    pub fn raw_bytes(&self) -> (b: &Vec<u8>)
        ensures
            b@ == self@.raw_bytes,
    {
        &self.raw_bytes
    }
}

/// Builder phase: parts may still be set.
pub struct Building;

/// Builder phase: the parts are fixed and the response can be made.
pub struct Complete;

/// Collects the parts of a response, then makes the response and its bytes.
pub struct HttpResponseBuilder<S> {
    status: Option<StatusCode>,
    headers: HeaderMap,
    body: Vec<u8>,
    state: S,
}

/// The parts that a builder has collected, as a mathematical value.
pub struct BuilderView {
    pub status: Option<u16>,
    pub headers: Fields,
    pub body: Seq<u8>,
}

impl<S> View for HttpResponseBuilder<S> {
    type V = BuilderView;

    closed spec fn view(&self) -> BuilderView {
        BuilderView {
            status: match self.status {
                Some(s) => Some(s@),
                None => None,
            },
            headers: self.headers@,
            body: self.body@,
        }
    }
}

/// The bytes `HTTP/1.1 `, which begin a status line.
pub open spec fn spec_version_prefix() -> Seq<u8> {
    seq![0x48u8, 0x54, 0x54, 0x50, 0x2f, 0x31, 0x2e, 0x31, 0x20]
}

/// The reason phrase that goes out with a status code: the standard one
/// where there is one, else none.
pub open spec fn spec_reason(code: u16) -> Seq<u8> {
    match http_canonical_reason(code) {
        Some(text) => encode_utf8(text),
        None => Seq::<u8>::empty(),
    }
}

/// The status line: `HTTP/1.1 SP CODE SP REASON CRLF`.
pub open spec fn spec_status_line(code: u16, reason: Seq<u8>) -> Seq<u8> {
    spec_version_prefix() + spec_digits(code) + seq![0x20u8] + reason + seq![0x0du8, 0x0au8]
}

/// The bytes of a response: status line, header lines, blank line, body.
pub open spec fn spec_raw(code: u16, reason: Seq<u8>, headers: Fields, body: Seq<u8>) -> Seq<u8> {
    spec_status_line(code, reason) + header::spec_wire(headers) + seq![0x0du8, 0x0au8] + body
}

/// The response that a builder makes with the given reason phrase: 200
/// where no status was set, and the bytes that go on the wire for it.
pub open spec fn spec_finish_with(b: BuilderView, reason: Seq<u8>) -> HttpResponseView {
    let code = match b.status {
        Some(c) => c,
        None => 200u16,
    };
    HttpResponseView {
        status: code,
        reason,
        headers: b.headers,
        body: b.body,
        raw_bytes: spec_raw(code, reason, b.headers, b.body),
    }
}

/// The response that a builder makes: as [`spec_finish_with`], with the
/// standard reason phrase of the status.
pub open spec fn spec_finish(b: BuilderView) -> HttpResponseView {
    spec_finish_with(
        b,
        spec_reason(
            match b.status {
                Some(c) => c,
                None => 200u16,
            },
        ),
    )
}

/// The response with the given status, one header field at most, and the
/// given body.
pub open spec fn spec_simple(code: u16, header: Option<(Seq<u8>, Seq<u8>)>, body: Seq<u8>)
    -> HttpResponseView {
    spec_finish(
        BuilderView {
            status: Some(code),
            headers: match header {
                Some((name, value)) => spec_with_header(
                    Seq::<(Seq<u8>, Seq<u8>)>::empty(),
                    name,
                    value,
                ),
                None => Seq::<(Seq<u8>, Seq<u8>)>::empty(),
            },
            body,
        },
    )
}

impl HttpResponseBuilder<Building> {
    /// A builder with nothing set.
    pub fn new() -> (b: HttpResponseBuilder<Building>)
        ensures
            b@ == (BuilderView {
                status: None,
                headers: Seq::<(Seq<u8>, Seq<u8>)>::empty(),
                body: Seq::<u8>::empty(),
            }),
    {
        HttpResponseBuilder {
            status: None,
            headers: HeaderMap::new(),
            body: Vec::new(),
            state: Building,
        }
    }

    /// Sets the status.
    pub fn status(self, status: StatusCode) -> (b: HttpResponseBuilder<Building>)
        ensures
            b@ == (BuilderView {
                status: Some(status@),
                headers: self@.headers,
                body: self@.body,
            }),
    {
        HttpResponseBuilder {
            status: Some(status),
            headers: self.headers,
            body: self.body,
            state: Building,
        }
    }

    /// Sets a header field. A field whose name or value is not valid is
    /// dropped.
    pub fn header(self, name: &str, value: &str) -> (b: HttpResponseBuilder<Building>)
        ensures
            b@ == (BuilderView {
                status: self@.status,
                headers: spec_with_header(self@.headers, name.spec_bytes(), value.spec_bytes()),
                body: self@.body,
            }),
    {
        let mut headers = self.headers;
        let _ = headers.insert(name.as_bytes(), value.as_bytes());
        HttpResponseBuilder { status: self.status, headers, body: self.body, state: Building }
    }

    /// Sets the body.
    pub fn body(self, body: Vec<u8>) -> (b: HttpResponseBuilder<Building>)
        ensures
            b@ == (BuilderView { status: self@.status, headers: self@.headers, body: body@ }),
    {
        HttpResponseBuilder { status: self.status, headers: self.headers, body, state: Building }
    }

    /// Fixes the parts.
    pub fn build(self) -> (b: HttpResponseBuilder<Complete>)
        ensures
            b@ == self@,
    {
        HttpResponseBuilder {
            status: self.status,
            headers: self.headers,
            body: self.body,
            state: Complete,
        }
    }
}

impl HttpResponseBuilder<Complete> {
    /// Makes the response. Its bytes are exactly what goes on the wire:
    /// status line, one line per header field in the order of the map, blank
    /// line, body.
    pub fn finish(self) -> (resp: HttpResponse)
        ensures
            resp@ == spec_finish(self@),
    {
        let code = match &self.status {
            Some(s) => s.as_u16(),
            None => 200,
        };
        let reason = match canonical_reason(code) {
            Some(text) => to_vec(text.as_str().as_bytes()),
            None => Vec::new(),
        };
        self.finish_with_reason(reason)
    }

    /// Makes the response with the given reason phrase in its status line.
    pub fn finish_with_reason(self, reason: Vec<u8>) -> (resp: HttpResponse)
        ensures
            resp@ == spec_finish_with(self@, reason@),
    {
        let status = match self.status {
            Some(s) => s,
            None => StatusCode::ok(),
        };
        let mut raw: Vec<u8> = Vec::new();
        let prefix: [u8; 9] = [0x48, 0x54, 0x54, 0x50, 0x2f, 0x31, 0x2e, 0x31, 0x20];
        extend(&mut raw, &prefix);
        status.write_digits(&mut raw);
        raw.push(0x20);
        extend(&mut raw, reason.as_slice());
        raw.push(0x0d);
        raw.push(0x0a);
        proof {
            assert(prefix@ =~= spec_version_prefix());
            assert(raw@ =~= spec_status_line(status@, reason@));
        }
        self.headers.write_to(&mut raw);
        raw.push(0x0d);
        raw.push(0x0a);
        extend(&mut raw, self.body.as_slice());
        proof {
            assert(raw@ =~= spec_raw(status@, reason@, self.headers@, self.body@));
        }
        HttpResponse { status, reason, headers: self.headers, body: self.body, raw_bytes: raw }
    }
}

/// Reading back what was built, as far as this library decides it.
///
/// Take the response that a builder makes from well-formed parts. Suppose
/// the head parser reports of its bytes what the builder wrote into them:
/// the status code, the reason phrase, the header fields, and the body
/// starting where the builder put it. Then reading those bytes gives the
/// same response.
///
/// What the head parser does report is its own to decide; nothing is proved
/// of it here.
pub proof fn lemma_parse_of_built(b: BuilderView, head: ResponseHeadView)
    requires
        header::spec_wf(b.headers),
        b.status matches Some(c) ==> 100 <= c <= 599,
        head.code == Some(spec_finish(b).status),
        head.reason == Some(spec_finish(b).reason),
        head.headers == b.headers,
        head.body_offset == spec_finish(b).raw_bytes.len() - b.body.len(),
    ensures
        spec_from_head(
            spec_finish(b).raw_bytes,
            Ok::<Option<ResponseHeadView>, Seq<char>>(Some(head)),
        ) == Ok::<HttpResponseView, HttpErrorView>(spec_finish(b)),
{
    let built = spec_finish(b);
    header::lemma_collect_wf(b.headers, 0);
    assert(b.headers.take(0) =~= Seq::<(Seq<u8>, Seq<u8>)>::empty());
    assert(built.raw_bytes.skip(head.body_offset as int) =~= b.body);
}

impl Default for HttpResponseBuilder<Building> {
    fn default() -> (b: HttpResponseBuilder<Building>)
        ensures
            b@ == (BuilderView {
                status: None,
                headers: Seq::<(Seq<u8>, Seq<u8>)>::empty(),
                body: Seq::<u8>::empty(),
            }),
    {
        HttpResponseBuilder::new()
    }
}

/// The value of a challenge header for the given realm:
/// `Basic realm="REALM"`.
pub open spec fn spec_challenge(realm: Seq<char>) -> Seq<char> {
    "Basic realm=\""@ + realm + "\""@
}

impl HttpResponse {
    /// 200 with no header and no body.
    pub fn ok() -> (r: HttpResponse)
        ensures
            r@ == spec_simple(200, None, Seq::<u8>::empty()),
    {
        HttpResponseBuilder::new().status(StatusCode::ok()).build().finish()
    }

    /// 200 with the given body and its content type.
    pub fn ok_with_body(body: Vec<u8>, content_type: &str) -> (r: HttpResponse)
        ensures
            r@ == spec_simple(
                200,
                Some(("Content-Type".spec_bytes(), content_type.spec_bytes())),
                body@,
            ),
    {
        HttpResponseBuilder::new().status(StatusCode::ok()).header(
            "Content-Type",
            content_type,
        ).body(body).build().finish()
    }

    /// 201 with no header and no body.
    pub fn created() -> (r: HttpResponse)
        ensures
            r@ == spec_simple(201, None, Seq::<u8>::empty()),
    {
        HttpResponseBuilder::new().status(StatusCode::created()).build().finish()
    }

    /// 204 with no header and no body.
    pub fn no_content() -> (r: HttpResponse)
        ensures
            r@ == spec_simple(204, None, Seq::<u8>::empty()),
    {
        HttpResponseBuilder::new().status(StatusCode::no_content()).build().finish()
    }

    /// 400 with `message` as its body.
    pub fn bad_request(message: &str) -> (r: HttpResponse)
        ensures
            r@ == spec_error_response(400, message@),
    {
        HttpResponse::error_response(StatusCode::bad_request(), message)
    }

    /// 401 that asks for Basic credentials in the given realm.
    pub fn unauthorized(realm: &str) -> (r: HttpResponse)
        ensures
            r@ == spec_simple(
                401,
                Some(("WWW-Authenticate".spec_bytes(), encode_utf8(spec_challenge(realm@)))),
                "401 Unauthorized".spec_bytes(),
            ),
    {
        let challenge = String::from_str("Basic realm=\"").concat(realm).concat("\"");
        HttpResponseBuilder::new().status(StatusCode::unauthorized()).header(
            "WWW-Authenticate",
            challenge.as_str(),
        ).body(to_vec("401 Unauthorized".as_bytes())).build().finish()
    }

    /// 403 with `message` as its body.
    pub fn forbidden(message: &str) -> (r: HttpResponse)
        ensures
            r@ == spec_error_response(403, message@),
    {
        HttpResponse::error_response(StatusCode::forbidden(), message)
    }

    /// 404 with `message` as its body.
    pub fn not_found(message: &str) -> (r: HttpResponse)
        ensures
            r@ == spec_error_response(404, message@),
    {
        HttpResponse::error_response(StatusCode::not_found(), message)
    }

    /// 407 that asks for Basic credentials in the given realm.
    pub fn proxy_auth_required(realm: &str) -> (r: HttpResponse)
        ensures
            r@ == spec_simple(
                407,
                Some(("Proxy-Authenticate".spec_bytes(), encode_utf8(spec_challenge(realm@)))),
                "407 Proxy Authentication Required".spec_bytes(),
            ),
    {
        let challenge = String::from_str("Basic realm=\"").concat(realm).concat("\"");
        HttpResponseBuilder::new().status(StatusCode::proxy_authentication_required()).header(
            "Proxy-Authenticate",
            challenge.as_str(),
        ).body(to_vec("407 Proxy Authentication Required".as_bytes())).build().finish()
    }

    /// 500 with `message` as its body.
    pub fn internal_server_error(message: &str) -> (r: HttpResponse)
        ensures
            r@ == spec_error_response(500, message@),
    {
        HttpResponse::error_response(StatusCode::internal_server_error(), message)
    }

    /// 502 with `message` as its body.
    pub fn bad_gateway(message: &str) -> (r: HttpResponse)
        ensures
            r@ == spec_error_response(502, message@),
    {
        HttpResponse::error_response(StatusCode::bad_gateway(), message)
    }

    /// 503 with `message` as its body.
    pub fn service_unavailable(message: &str) -> (r: HttpResponse)
        ensures
            r@ == spec_error_response(503, message@),
    {
        HttpResponse::error_response(StatusCode::service_unavailable(), message)
    }

    /// The response with the given status and `message`, as plain text, as
    /// its body.
    pub fn error_response(status: StatusCode, message: &str) -> (r: HttpResponse)
        ensures
            r@ == spec_error_response(status@, message@),
    {
        HttpResponseBuilder::new().status(status).header(
            "Content-Type",
            "text/plain; charset=utf-8",
        ).body(to_vec(message.as_bytes())).build().finish()
    }
}

/// The response with the given status and `message`, as plain text, as its
/// body.
pub open spec fn spec_error_response(code: u16, message: Seq<char>) -> HttpResponseView {
    spec_simple(
        code,
        Some(("Content-Type".spec_bytes(), "text/plain; charset=utf-8".spec_bytes())),
        encode_utf8(message),
    )
}

} // verus!
