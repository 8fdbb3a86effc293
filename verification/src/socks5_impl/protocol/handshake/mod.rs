//! Method negotiation: the first exchange of a SOCKS5 session.
pub mod password_method;
pub mod request;
pub mod response;

pub use self::password_method::UserKey;
pub use self::request::Request;
pub use self::response::Response;

use vstd::prelude::*;

verus! {

/// An authentication method, as its one-byte tag.
///
/// Three tags have a meaning here; every other tag is carried as it came.
/// A method is in normal form if it is what [`AuthMethod::from`] gives for
/// its tag: `Other` then holds none of the three tags that have a variant of
/// their own. Methods that come off the wire or out of a
/// [`Request`] are in normal form, and two such methods are equal exactly if
/// their tags are.
#[derive(Clone, Copy, Debug, PartialEq, Eq, Hash, PartialOrd, Ord)]
pub enum AuthMethod {
    /// `0x00`: no authentication.
    NoAuth,
    /// `0x02`: username and password.
    UserPass,
    /// `0xFF`: none of the offered methods is acceptable.
    NoAcceptableMethods,
    /// Any other tag.
    Other(u8),
}

impl AuthMethod {
    /// The tag of the method.
    pub open spec fn spec_code(self) -> u8 {
        match self {
            AuthMethod::NoAuth => 0x00,
            AuthMethod::UserPass => 0x02,
            AuthMethod::NoAcceptableMethods => 0xff,
            AuthMethod::Other(b) => b,
        }
    }

    /// The method that a tag stands for.
    pub open spec fn spec_from(code: u8) -> AuthMethod {
        if code == 0x00 {
            AuthMethod::NoAuth
        } else if code == 0x02 {
            AuthMethod::UserPass
        } else if code == 0xff {
            AuthMethod::NoAcceptableMethods
        } else {
            AuthMethod::Other(code)
        }
    }

    /// The method that a tag stands for.
    pub fn from(code: u8) -> (m: AuthMethod)
        ensures
            m == Self::spec_from(code),
            m.spec_code() == code,
    {
        if code == 0x00 {
            AuthMethod::NoAuth
        } else if code == 0x02 {
            AuthMethod::UserPass
        } else if code == 0xff {
            AuthMethod::NoAcceptableMethods
        } else {
            AuthMethod::Other(code)
        }
    }

    /// The tag of the method.
    pub fn code(self) -> (b: u8)
        ensures
            b == self.spec_code(),
    {
        match self {
            AuthMethod::NoAuth => 0x00,
            AuthMethod::UserPass => 0x02,
            AuthMethod::NoAcceptableMethods => 0xff,
            AuthMethod::Other(b) => b,
        }
    }

    /// Whether the method is in normal form.
    pub open spec fn spec_is_normal(self) -> bool {
        Self::spec_from(self.spec_code()) == self
    }

    /// The method in normal form: the method that its tag stands for.
    pub open spec fn spec_normal(self) -> AuthMethod {
        Self::spec_from(self.spec_code())
    }

    /// The method in normal form: the method that its tag stands for.
    pub fn normal(self) -> (m: AuthMethod)
        ensures
            m == self.spec_normal(),
            m.spec_is_normal(),
            m.spec_code() == self.spec_code(),
    {
        AuthMethod::from(self.code())
    }

    /// A list of methods, each in normal form.
    pub open spec fn spec_normal_all(methods: Seq<AuthMethod>) -> Seq<AuthMethod> {
        Seq::new(methods.len(), |i: int| methods[i].spec_normal())
    }

    /// The tags of a list of methods, in order.
    pub open spec fn spec_codes(methods: Seq<AuthMethod>) -> Seq<u8> {
        Seq::new(methods.len(), |i: int| methods[i].spec_code())
    }

    /// The methods that a list of tags stands for, in order.
    pub open spec fn spec_from_codes(codes: Seq<u8>) -> Seq<AuthMethod> {
        Seq::new(codes.len(), |i: int| Self::spec_from(codes[i]))
    }
}

} // verus!
