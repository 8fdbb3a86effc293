//! The ways in which handling an HTTP message fails.
use vstd::prelude::*;

verus! {

pub type Result<T> = std::result::Result<T, HttpError>;

/// Why a message was refused. Each variant carries a message for a human
/// reader.
#[derive(Debug, Clone, PartialEq, Eq)]
pub enum HttpError {
    /// The bytes are not a complete, well-formed request head.
    InvalidRequest(String),
    /// The bytes are not a complete, well-formed response head.
    InvalidResponse(String),
    /// The request target is not a URI.
    InvalidUri(String),
    /// A header name or value holds a byte that it may not hold.
    InvalidHeader(String),
    /// The `Proxy-Authorization` header cannot be read as Basic credentials.
    AuthError(String),
}

/// An error as a mathematical value: the message is its sequence of
/// characters.
pub enum HttpErrorView {
    InvalidRequest(Seq<char>),
    InvalidResponse(Seq<char>),
    InvalidUri(Seq<char>),
    InvalidHeader(Seq<char>),
    AuthError(Seq<char>),
}

impl View for HttpError {
    type V = HttpErrorView;

    open spec fn view(&self) -> HttpErrorView {
        match self {
            HttpError::InvalidRequest(m) => HttpErrorView::InvalidRequest(m@),
            HttpError::InvalidResponse(m) => HttpErrorView::InvalidResponse(m@),
            HttpError::InvalidUri(m) => HttpErrorView::InvalidUri(m@),
            HttpError::InvalidHeader(m) => HttpErrorView::InvalidHeader(m@),
            HttpError::AuthError(m) => HttpErrorView::AuthError(m@),
        }
    }
}

impl HttpError {
    /// The message of the error.
    pub fn message(&self) -> (m: &String)
        ensures
            m@ == self.spec_message(),
    {
        match self {
            HttpError::InvalidRequest(m) => m,
            HttpError::InvalidResponse(m) => m,
            HttpError::InvalidUri(m) => m,
            HttpError::InvalidHeader(m) => m,
            HttpError::AuthError(m) => m,
        }
    }

    /// The message of the error.
    pub open spec fn spec_message(&self) -> Seq<char> {
        match self {
            HttpError::InvalidRequest(m) => m@,
            HttpError::InvalidResponse(m) => m@,
            HttpError::InvalidUri(m) => m@,
            HttpError::InvalidHeader(m) => m@,
            HttpError::AuthError(m) => m@,
        }
    }
}

} // verus!
