//! HTTP/1.1 requests: reading one from bytes, and building one to send.
//!
//! A request keeps, beside its parts, the exact bytes it came from or goes
//! out as, so that a proxy can forward it untouched. The body is whatever
//! follows the blank line in those bytes: no `Content-Length` or transfer
//! coding is looked at.
use vstd::prelude::*;
use vstd::string::{StringExecFns, StringSliceAdditionalSpecFns};

use crate::bytes::{extend, to_vec};
use crate::http_impl::backend::{
    http_uri_path, httparse_request, parse_request_head, spec_request_outcome, RequestHead,
    RequestHeadView,
};
use crate::http_impl::chars::{spec_is_field_value, spec_is_header_name, spec_is_token};
use crate::http_impl::error::{HttpError, HttpErrorView};
use crate::http_impl::header::{self, Fields, HeaderMap};
use crate::http_impl::method::Method;
use crate::http_impl::uri::{spec_is_read, Uri, UriView};

verus! {

/// A request: method, target, header fields, body, and the bytes of the
/// whole message.
#[derive(Debug, Clone)]
pub struct HttpRequest {
    method: Method,
    uri: Uri,
    headers: HeaderMap,
    body: Vec<u8>,
    raw_bytes: Vec<u8>,
}

/// A request as a mathematical value.
pub struct HttpRequestView {
    pub method: Seq<u8>,
    pub uri: UriView,
    pub headers: Fields,
    pub body: Seq<u8>,
    pub raw_bytes: Seq<u8>,
}

impl View for HttpRequest {
    type V = HttpRequestView;

    closed spec fn view(&self) -> HttpRequestView {
        HttpRequestView {
            method: self.method@,
            uri: self.uri@,
            headers: self.headers@,
            body: self.body@,
            raw_bytes: self.raw_bytes@,
        }
    }
}

/// The outcome of reading a request as a mathematical value.
pub open spec fn spec_result(r: Result<HttpRequest, HttpError>) -> Result<
    HttpRequestView,
    HttpErrorView,
> {
    match r {
        Ok(req) => Ok(req@),
        Err(e) => Err(e@),
    }
}

/// The request that `data` holds, given what the head parser made of `data`;
/// or why there is none.
///
/// The checks come in a fixed order: the parser's own finding, the method,
/// the target, then the header lines from first to last. The body is what
/// follows the head in `data`.
pub open spec fn spec_from_head(
    data: Seq<u8>,
    outcome: Result<Option<RequestHeadView>, Seq<char>>,
) -> Result<HttpRequestView, HttpErrorView> {
    match outcome {
        Err(msg) => Err(HttpErrorView::InvalidRequest(msg)),
        Ok(None) => Err(HttpErrorView::InvalidRequest("Incomplete request"@)),
        Ok(Some(head)) => match head.method {
            None => Err(HttpErrorView::InvalidRequest("Missing method"@)),
            Some(method) => if !spec_is_token(method) {
                Err(HttpErrorView::InvalidRequest("invalid HTTP method"@))
            } else {
                match head.path {
                    None => Err(HttpErrorView::InvalidRequest("Missing path"@)),
                    Some(path) => match http_uri_path(path) {
                        Err(msg) => Err(HttpErrorView::InvalidUri(msg)),
                        Ok(p) => match header::spec_collect(
                            head.headers,
                            0,
                            Seq::<(Seq<u8>, Seq<u8>)>::empty(),
                        ) {
                            Err(e) => Err(e),
                            Ok(fields) => Ok(
                                HttpRequestView {
                                    method,
                                    uri: UriView { text: path, path: p },
                                    headers: fields,
                                    body: data.skip(head.body_offset as int),
                                    raw_bytes: data,
                                },
                            ),
                        },
                    },
                }
            },
        },
    }
}

/// The request that `data` holds, or why there is none.
pub open spec fn spec_parse(data: Seq<u8>) -> Result<HttpRequestView, HttpErrorView> {
    spec_from_head(data, httparse_request(data))
}

impl HttpRequest {
    /// Reads a request from `data`: a complete head and whatever follows it.
    ///
    /// A head that is not complete is an error, not a request for more bytes.
    pub fn parse(data: &[u8]) -> (r: Result<HttpRequest, HttpError>)
        ensures
            spec_result(r) == spec_parse(data@),
            r matches Ok(req) ==> req@.raw_bytes == data@ && req@.headers.len() <= 64
                && header::spec_wf(req@.headers) && spec_is_token(req@.method),
    {
        let outcome = parse_request_head(data);
        HttpRequest::from_head(data, outcome)
    }

    /// Reads a request from a buffer that the request then keeps as its
    /// bytes.
    pub fn parse_bytes(data: Vec<u8>) -> (r: Result<HttpRequest, HttpError>)
        ensures
            spec_result(r) == spec_parse(data@),
            r matches Ok(req) ==> req@.raw_bytes == data@ && req@.headers.len() <= 64
                && header::spec_wf(req@.headers) && spec_is_token(req@.method),
    {
        let outcome = parse_request_head(data.as_slice());
        match HttpRequest::parts_from_head(data.as_slice(), outcome) {
            Ok((method, uri, headers, body)) => Ok(
                HttpRequest { method, uri, headers, body, raw_bytes: data },
            ),
            Err(e) => Err(e),
        }
    }

    /// Makes the request out of `data` and what the head parser made of
    /// `data`.
    pub fn from_head(data: &[u8], outcome: Result<Option<RequestHead>, String>) -> (r: Result<
        HttpRequest,
        HttpError,
    >)
        requires
            outcome matches Ok(Some(head)) ==> head.body_offset <= data@.len(),
        ensures
            spec_result(r) == spec_from_head(data@, spec_request_outcome(outcome)),
            r matches Ok(req) ==> {
                &&& req@.raw_bytes == data@
                &&& header::spec_wf(req@.headers)
                &&& spec_is_token(req@.method)
                &&& outcome matches Ok(Some(head)) && req@.headers.len() <= head.headers@.len()
            },
    {
        match HttpRequest::parts_from_head(data, outcome) {
            Ok((method, uri, headers, body)) => Ok(
                HttpRequest { method, uri, headers, body, raw_bytes: to_vec(data) },
            ),
            Err(e) => Err(e),
        }
    }

    /// The parts of the request, without the copy of the whole message.
    fn parts_from_head(data: &[u8], outcome: Result<Option<RequestHead>, String>) -> (r: Result<
        (Method, Uri, HeaderMap, Vec<u8>),
        HttpError,
    >)
        requires
            outcome matches Ok(Some(head)) ==> head.body_offset <= data@.len(),
        ensures
            match r {
                Ok((method, uri, headers, body)) => {
                    &&& spec_from_head(data@, spec_request_outcome(outcome)) == Ok::<
                        HttpRequestView,
                        HttpErrorView,
                    >(
                        HttpRequestView {
                            method: method@,
                            uri: uri@,
                            headers: headers@,
                            body: body@,
                            raw_bytes: data@,
                        },
                    )
                    &&& header::spec_wf(headers@)
                    &&& spec_is_token(method@)
                    &&& outcome matches Ok(Some(head)) && headers@.len() <= head.headers@.len()
                },
                Err(e) => spec_from_head(data@, spec_request_outcome(outcome)) == Err::<
                    HttpRequestView,
                    HttpErrorView,
                >(e@),
            },
    {
        let head = match outcome {
            Err(msg) => { return Err(HttpError::InvalidRequest(msg)); },
            Ok(None) => {
                return Err(HttpError::InvalidRequest(String::from_str("Incomplete request")));
            },
            Ok(Some(head)) => head,
        };
        let method_bytes = match &head.method {
            None => {
                return Err(HttpError::InvalidRequest(String::from_str("Missing method")));
            },
            Some(m) => m,
        };
        let method = match Method::from_bytes(method_bytes.as_slice()) {
            Ok(m) => m,
            Err(e) => { return Err(e); },
        };
        let path_bytes = match &head.path {
            None => {
                return Err(HttpError::InvalidRequest(String::from_str("Missing path")));
            },
            Some(p) => p,
        };
        let uri = match Uri::from_bytes(path_bytes.as_slice()) {
            Ok(u) => u,
            Err(e) => { return Err(e); },
        };
        proof {
            assert(uri@ == (UriView { text: path_bytes@, path: uri@.path }));
        }
        match HttpRequest::collect(data, &head.headers, head.body_offset) {
            Ok((headers, body)) => Ok((method, uri, headers, body)),
            Err(e) => Err(e),
        }
    }

    /// Header fields and body of the request in `data`, from the header
    /// lines that were found in it and the place where its body begins.
    pub fn collect(
        data: &[u8],
        lines: &Vec<crate::http_impl::backend::RawHeader>,
        body_offset: usize,
    ) -> (r: Result<(HeaderMap, Vec<u8>), HttpError>)
        requires
            body_offset <= data@.len(),
        ensures
            match r {
                Ok((headers, body)) => {
                    &&& header::spec_collect(
                        crate::http_impl::backend::spec_raw_headers(lines@),
                        0,
                        Seq::<(Seq<u8>, Seq<u8>)>::empty(),
                    ) == Ok::<Fields, HttpErrorView>(headers@)
                    &&& body@ == data@.skip(body_offset as int)
                    &&& header::spec_wf(headers@)
                    &&& headers@.len() <= lines@.len()
                },
                Err(e) => header::spec_collect(
                    crate::http_impl::backend::spec_raw_headers(lines@),
                    0,
                    Seq::<(Seq<u8>, Seq<u8>)>::empty(),
                ) == Err::<Fields, HttpErrorView>(e@),
            },
    {
        let headers = match HeaderMap::from_raw(lines) {
            Ok(h) => h,
            Err(e) => { return Err(e); },
        };
        let body = to_vec(vstd::slice::slice_subrange(data, body_offset, data.len()));
        assert(body@ =~= data@.skip(body_offset as int));
        Ok((headers, body))
    }

    /// The method.
    pub fn method(&self) -> (m: &Method)
        ensures
            m@ == self@.method,
    {
        &self.method
    }

    /// The target.
    pub fn uri(&self) -> (u: &Uri)
        ensures
            u@ == self@.uri,
    {
        &self.uri
    }

    /// The header fields.
    pub fn headers(&self) -> (h: &HeaderMap)
        ensures
            h@ == self@.headers,
    {
        &self.headers
    }

    /// The value of the header named `name`, if there is such a header and
    /// its value is made of tabs and printable ASCII characters only.
    pub fn header(&self, name: &str) -> (r: Option<&str>)
        ensures
            match r {
                Some(s) => header::spec_get(self@.headers, name.spec_bytes()) matches Some(v)
                    && crate::http_impl::chars::spec_is_visible_ascii(v) && s@
                    == vstd::utf8::decode_utf8(v),
                None => header::spec_get(self@.headers, name.spec_bytes()) matches Some(v)
                    ==> !crate::http_impl::chars::spec_is_visible_ascii(v),
            },
    {
        self.headers.get_str(name)
    }

    /// The body: the bytes after the head.
    pub fn body(&self) -> (b: &Vec<u8>)
        ensures
            b@ == self@.body,
    {
        &self.body
    }

    /// The bytes of the whole message, for forwarding.
    pub fn raw_bytes(&self) -> (b: &Vec<u8>)
        ensures
            b@ == self@.raw_bytes,
    {
        &self.raw_bytes
    }
}

/// Builder phase: parts may still be set.
pub struct Building;

/// Builder phase: the parts are fixed and the request can be made.
pub struct Complete;

/// Collects the parts of a request, then makes the request and its bytes.
pub struct HttpRequestBuilder<State = Building> {
    method: Option<Method>,
    uri: Option<Uri>,
    headers: HeaderMap,
    body: Vec<u8>,
    state: State,
}

/// The parts that a builder has collected, as a mathematical value.
pub struct BuilderView {
    pub method: Option<Seq<u8>>,
    pub uri: Option<UriView>,
    pub headers: Fields,
    pub body: Seq<u8>,
}

impl<State> View for HttpRequestBuilder<State> {
    type V = BuilderView;

    closed spec fn view(&self) -> BuilderView {
        BuilderView {
            method: match self.method {
                Some(m) => Some(m@),
                None => None,
            },
            uri: match self.uri {
                Some(u) => Some(u@),
                None => None,
            },
            headers: self.headers@,
            body: self.body@,
        }
    }
}

/// The bytes `GET`.
pub open spec fn spec_get() -> Seq<u8> {
    seq![0x47u8, 0x45, 0x54]
}

/// The bytes ` HTTP/1.1` followed by CRLF, which end a request line.
pub open spec fn spec_version_suffix() -> Seq<u8> {
    seq![0x20u8, 0x48, 0x54, 0x54, 0x50, 0x2f, 0x31, 0x2e, 0x31, 0x0d, 0x0a]
}

/// The request line: `METHOD SP TARGET SP HTTP/1.1 CRLF`, with the target as
/// it was given.
pub open spec fn spec_request_line(method: Seq<u8>, target: Seq<u8>) -> Seq<u8> {
    method + seq![0x20u8] + target + spec_version_suffix()
}

/// The bytes of a request: request line, header lines, blank line, body.
pub open spec fn spec_raw(method: Seq<u8>, target: Seq<u8>, headers: Fields, body: Seq<u8>) -> Seq<
    u8,
> {
    spec_request_line(method, target) + header::spec_wire(headers) + seq![0x0du8, 0x0au8] + body
}

/// The request that a builder makes: `GET` where no method was set, `/`
/// where no target was set, and the bytes that go on the wire for it.
pub open spec fn spec_finish(b: BuilderView) -> HttpRequestView {
    let method = match b.method {
        Some(m) => m,
        None => spec_get(),
    };
    let uri = match b.uri {
        Some(u) => u,
        None => UriView { text: seq![0x2fu8], path: "/"@ },
    };
    HttpRequestView {
        method,
        uri,
        headers: b.headers,
        body: b.body,
        raw_bytes: spec_raw(method, uri.text, b.headers, b.body),
    }
}

/// The header fields after a builder was given `name: value`: the field is
/// inserted if name and value are valid, and dropped without a word if not.
pub open spec fn spec_with_header(fields: Fields, name: Seq<u8>, value: Seq<u8>) -> Fields {
    if spec_is_header_name(name) && spec_is_field_value(value) {
        header::spec_insert(fields, name, value)
    } else {
        fields
    }
}

impl HttpRequestBuilder<Building> {
    /// A builder with nothing set.
    pub fn new() -> (b: HttpRequestBuilder<Building>)
        ensures
            b@ == (BuilderView {
                method: None,
                uri: None,
                headers: Seq::<(Seq<u8>, Seq<u8>)>::empty(),
                body: Seq::<u8>::empty(),
            }),
    {
        HttpRequestBuilder {
            method: None,
            uri: None,
            headers: HeaderMap::new(),
            body: Vec::new(),
            state: Building,
        }
    }

    /// Sets the method.
    pub fn method(self, method: Method) -> (b: HttpRequestBuilder<Building>)
        ensures
            b@ == (BuilderView {
                method: Some(method@),
                uri: self@.uri,
                headers: self@.headers,
                body: self@.body,
            }),
    {
        HttpRequestBuilder {
            method: Some(method),
            uri: self.uri,
            headers: self.headers,
            body: self.body,
            state: Building,
        }
    }

    /// Sets the target.
    pub fn uri(self, uri: Uri) -> (b: HttpRequestBuilder<Building>)
        ensures
            b@ == (BuilderView {
                method: self@.method,
                uri: Some(uri@),
                headers: self@.headers,
                body: self@.body,
            }),
    {
        HttpRequestBuilder {
            method: self.method,
            uri: Some(uri),
            headers: self.headers,
            body: self.body,
            state: Building,
        }
    }

    /// Sets a header field. A field whose name or value is not valid is
    /// dropped.
    pub fn header(self, name: &str, value: &str) -> (b: HttpRequestBuilder<Building>)
        ensures
            b@ == (BuilderView {
                method: self@.method,
                uri: self@.uri,
                headers: spec_with_header(self@.headers, name.spec_bytes(), value.spec_bytes()),
                body: self@.body,
            }),
    {
        let mut headers = self.headers;
        let _ = headers.insert(name.as_bytes(), value.as_bytes());
        HttpRequestBuilder {
            method: self.method,
            uri: self.uri,
            headers,
            body: self.body,
            state: Building,
        }
    }

    /// Sets the body.
    pub fn body(self, body: Vec<u8>) -> (b: HttpRequestBuilder<Building>)
        ensures
            b@ == (BuilderView {
                method: self@.method,
                uri: self@.uri,
                headers: self@.headers,
                body: body@,
            }),
    {
        HttpRequestBuilder {
            method: self.method,
            uri: self.uri,
            headers: self.headers,
            body,
            state: Building,
        }
    }

    /// Fixes the parts.
    pub fn build(self) -> (b: HttpRequestBuilder<Complete>)
        ensures
            b@ == self@,
    {
        HttpRequestBuilder {
            method: self.method,
            uri: self.uri,
            headers: self.headers,
            body: self.body,
            state: Complete,
        }
    }
}

impl HttpRequestBuilder<Complete> {
    /// Makes the request. Its bytes are exactly what goes on the wire:
    /// request line with the target as it was given, one line per header
    /// field in the order of the map, blank line, body.
    pub fn finish(self) -> (req: HttpRequest)
        ensures
            req@ == spec_finish(self@),
    {
        let method = match self.method {
            Some(m) => m,
            None => Method::get(),
        };
        let uri = match self.uri {
            Some(u) => u,
            None => Uri::root(),
        };
        let mut raw: Vec<u8> = Vec::new();
        extend(&mut raw, method.as_bytes());
        raw.push(0x20);
        extend(&mut raw, uri.as_bytes());
        let suffix: [u8; 11] = [0x20, 0x48, 0x54, 0x54, 0x50, 0x2f, 0x31, 0x2e, 0x31, 0x0d, 0x0a];
        extend(&mut raw, &suffix);
        proof {
            assert(suffix@ =~= spec_version_suffix());
            assert(raw@ =~= spec_request_line(method@, uri@.text));
        }
        self.headers.write_to(&mut raw);
        raw.push(0x0d);
        raw.push(0x0a);
        extend(&mut raw, self.body.as_slice());
        proof {
            assert(raw@ =~= spec_raw(method@, uri@.text, self.headers@, self.body@));
        }
        HttpRequest { method, uri, headers: self.headers, body: self.body, raw_bytes: raw }
    }
}

/// Reading back what was built, as far as this library decides it.
///
/// Take the request that a builder makes from well-formed parts: a method
/// that is a token, a target that is what reading its text gives, header
/// fields that a map can hold. Suppose the head parser reports of its bytes
/// what the builder wrote into them: the method, the target, the header
/// fields, and the body starting where the builder put it. Then reading
/// those bytes gives the same request: method, target, header fields, body
/// and bytes.
///
/// What the head parser does report is its own to decide; nothing is proved
/// of it here.
pub proof fn lemma_parse_of_built(b: BuilderView, head: RequestHeadView)
    requires
        header::spec_wf(b.headers),
        b.method matches Some(m) ==> spec_is_token(m),
        spec_is_read(spec_finish(b).uri),
        head.method == Some(spec_finish(b).method),
        head.path == Some(spec_finish(b).uri.text),
        head.headers == b.headers,
        head.body_offset == spec_finish(b).raw_bytes.len() - b.body.len(),
    ensures
        spec_from_head(
            spec_finish(b).raw_bytes,
            Ok::<Option<RequestHeadView>, Seq<char>>(Some(head)),
        ) == Ok::<HttpRequestView, HttpErrorView>(spec_finish(b)),
{
    let built = spec_finish(b);
    header::lemma_collect_wf(b.headers, 0);
    assert(b.headers.take(0) =~= Seq::<(Seq<u8>, Seq<u8>)>::empty());
    assert(built.raw_bytes.skip(head.body_offset as int) =~= b.body);
    assert(spec_is_token(spec_get()));
}

impl Default for HttpRequestBuilder<Building> {
    fn default() -> (b: HttpRequestBuilder<Building>)
        ensures
            b@ == (BuilderView {
                method: None,
                uri: None,
                headers: Seq::<(Seq<u8>, Seq<u8>)>::empty(),
                body: Seq::<u8>::empty(),
            }),
    {
        HttpRequestBuilder::new()
    }
}

} // verus!
