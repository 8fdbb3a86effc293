//! The target of a request.
use vstd::prelude::*;
use vstd::string::StringExecFns;

use crate::bytes::to_vec;
use crate::http_impl::backend::{http_uri_path, parse_uri_path};
use crate::http_impl::error::{HttpError, HttpErrorView};

verus! {

/// A request target: the text it was given as, and its path component.
///
/// The text may be a path (`/index.html`), an absolute URI, an authority
/// (`example.com:443`) or `*`.
#[derive(Debug, Clone, PartialEq, Eq, Hash)]
pub struct Uri {
    text: Vec<u8>,
    path: String,
}

/// A request target as a mathematical value.
pub struct UriView {
    pub text: Seq<u8>,
    pub path: Seq<char>,
}

impl View for Uri {
    type V = UriView;

    closed spec fn view(&self) -> UriView {
        UriView { text: self.text@, path: self.path@ }
    }
}

/// Whether a target is what reading its text gives: the text reads as a
/// URI, with this path. Every target that [`Uri::from_bytes`] returns is.
pub open spec fn spec_is_read(uri: UriView) -> bool {
    http_uri_path(uri.text) == Ok::<Seq<char>, Seq<char>>(uri.path)
}

impl Uri {
    /// The target given as `src`, if `src` is a URI.
    pub fn from_bytes(src: &[u8]) -> (r: Result<Uri, HttpError>)
        ensures
            match r {
                Ok(u) => http_uri_path(src@) == Ok::<Seq<char>, Seq<char>>(u@.path) && u@.text
                    == src@ && spec_is_read(u@),
                Err(e) => http_uri_path(src@) is Err && e@ == HttpErrorView::InvalidUri(
                    http_uri_path(src@)->Err_0,
                ),
            },
    {
        match parse_uri_path(src) {
            Ok(path) => Ok(Uri { text: to_vec(src), path }),
            Err(msg) => Err(HttpError::InvalidUri(msg)),
        }
    }

    /// The target `/`.
    pub fn root() -> (u: Uri)
        ensures
            u@.text == seq![0x2fu8],
            u@.path == "/"@,
    {
        Uri { text: vec![0x2fu8], path: String::from_str("/") }
    }

    /// The path component: empty for an authority, `*` for `*`.
    pub fn path(&self) -> (p: &str)
        ensures
            p@ == self@.path,
    {
        self.path.as_str()
    }

    /// The target as it was given.
    pub fn as_bytes(&self) -> (b: &[u8])
        ensures
            b@ == self@.text,
    {
        self.text.as_slice()
    }
}

} // verus!
