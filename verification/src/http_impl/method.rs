//! The method of a request.
use vstd::prelude::*;
use vstd::utf8::decode_utf8;

use crate::bytes::to_vec;
use crate::http_impl::backend::check_method;
use crate::http_impl::chars::spec_is_token;
use crate::http_impl::error::{HttpError, HttpErrorView};
use crate::text::{lemma_ascii_is_utf8, str_from_utf8};

verus! {

/// A request method: a token such as `GET`, kept as it is spelled.
#[derive(Debug, PartialEq, Eq, Hash)]
pub struct Method {
    text: Vec<u8>,
}

impl View for Method {
    type V = Seq<u8>;

    closed spec fn view(&self) -> Seq<u8> {
        self.text@
    }
}

impl Method {
    #[verifier::type_invariant]
    spec fn well_formed(self) -> bool {
        spec_is_token(self.text@)
    }

    /// The method spelled `src`, if `src` is a token.
    pub fn from_bytes(src: &[u8]) -> (r: Result<Method, HttpError>)
        ensures
            match r {
                Ok(m) => spec_is_token(src@) && m@ == src@,
                Err(e) => !spec_is_token(src@) && e@ == HttpErrorView::InvalidRequest(
                    "invalid HTTP method"@,
                ),
            },
    {
        match check_method(src) {
            Ok(_) => Ok(Method { text: to_vec(src) }),
            Err(msg) => Err(HttpError::InvalidRequest(msg)),
        }
    }

    /// `GET`.
    pub fn get() -> (m: Method)
        ensures
            m@ == seq![0x47u8, 0x45, 0x54],
    {
        Method { text: vec![0x47u8, 0x45, 0x54] }
    }

    /// `POST`.
    pub fn post() -> (m: Method)
        ensures
            m@ == seq![0x50u8, 0x4f, 0x53, 0x54],
    {
        Method { text: vec![0x50u8, 0x4f, 0x53, 0x54] }
    }

    /// `PUT`.
    pub fn put() -> (m: Method)
        ensures
            m@ == seq![0x50u8, 0x55, 0x54],
    {
        Method { text: vec![0x50u8, 0x55, 0x54] }
    }

    /// `DELETE`.
    pub fn delete() -> (m: Method)
        ensures
            m@ == seq![0x44u8, 0x45, 0x4c, 0x45, 0x54, 0x45],
    {
        Method { text: vec![0x44u8, 0x45, 0x4c, 0x45, 0x54, 0x45] }
    }

    /// `HEAD`.
    pub fn head() -> (m: Method)
        ensures
            m@ == seq![0x48u8, 0x45, 0x41, 0x44],
    {
        Method { text: vec![0x48u8, 0x45, 0x41, 0x44] }
    }

    /// `OPTIONS`.
    pub fn options() -> (m: Method)
        ensures
            m@ == seq![0x4fu8, 0x50, 0x54, 0x49, 0x4f, 0x4e, 0x53],
    {
        Method { text: vec![0x4fu8, 0x50, 0x54, 0x49, 0x4f, 0x4e, 0x53] }
    }

    /// `CONNECT`.
    pub fn connect() -> (m: Method)
        ensures
            m@ == seq![0x43u8, 0x4f, 0x4e, 0x4e, 0x45, 0x43, 0x54],
    {
        Method { text: vec![0x43u8, 0x4f, 0x4e, 0x4e, 0x45, 0x43, 0x54] }
    }

    /// `PATCH`.
    pub fn patch() -> (m: Method)
        ensures
            m@ == seq![0x50u8, 0x41, 0x54, 0x43, 0x48],
    {
        Method { text: vec![0x50u8, 0x41, 0x54, 0x43, 0x48] }
    }

    /// `TRACE`.
    pub fn trace() -> (m: Method)
        ensures
            m@ == seq![0x54u8, 0x52, 0x41, 0x43, 0x45],
    {
        Method { text: vec![0x54u8, 0x52, 0x41, 0x43, 0x45] }
    }

    /// The method as bytes.
    pub fn as_bytes(&self) -> (b: &[u8])
        ensures
            b@ == self@,
            spec_is_token(b@),
    {
        proof {
            use_type_invariant(self);
        }
        self.text.as_slice()
    }

    /// The method as text.
    pub fn as_str(&self) -> (s: &str)
        ensures
            s@ == decode_utf8(self@),
    {
        proof {
            use_type_invariant(self);
            lemma_token_is_ascii(self.text@);
            lemma_ascii_is_utf8(self.text@);
        }
        str_from_utf8(self.text.as_slice()).unwrap()
    }
}

impl Clone for Method {
    fn clone(&self) -> (m: Method)
        ensures
            m@ == self@,
    {
        proof {
            use_type_invariant(self);
        }
        Method { text: to_vec(self.text.as_slice()) }
    }
}

/// A token is made of bytes below 128.
pub proof fn lemma_token_is_ascii(s: Seq<u8>)
    requires
        spec_is_token(s),
    ensures
        crate::text::spec_is_ascii(s),
{
    assert forall|i: int| 0 <= i < s.len() implies s[i] < 128 by {
        assert(crate::http_impl::chars::spec_is_tchar(s[i]));
    }
}

} // verus!
