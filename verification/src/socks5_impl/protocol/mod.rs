//! The SOCKS5 messages and how each is laid out on the wire.
pub mod address;
pub mod command;
pub mod cursor;
pub mod handshake;
pub mod reply;
pub mod request;
pub mod response;
pub mod udp;

pub use self::address::{Address, AddressType, AddressView};
pub use self::command::Command;
pub use self::cursor::Cursor;
pub use self::handshake::{AuthMethod, UserKey};
pub use self::reply::Reply;
pub use self::request::Request;
pub use self::response::Response;
pub use self::udp::UdpHeader;

use vstd::prelude::*;

use crate::socks5_impl::error::Error;

verus! {

/// SOCKS protocol version, either 4 or 5.
#[derive(Copy, Clone, PartialEq, Eq, PartialOrd, Ord, Hash, Debug)]
pub enum Version {
    V4,
    V5,
}

impl Version {
    /// The byte that stands for the version on the wire.
    pub open spec fn spec_code(self) -> u8 {
        match self {
            Version::V4 => 4,
            Version::V5 => 5,
        }
    }

    /// The version that a byte stands for.
    pub open spec fn spec_try_from(value: u8) -> Result<Version, Error> {
        if value == 4 {
            Ok(Version::V4)
        } else if value == 5 {
            Ok(Version::V5)
        } else {
            Err(Error::UnsupportedVersion(value))
        }
    }

    /// The version that a byte stands for.
    pub fn try_from(value: u8) -> (r: Result<Version, Error>)
        ensures
            r == Self::spec_try_from(value),
    {
        if value == 4 {
            Ok(Version::V4)
        } else if value == 5 {
            Ok(Version::V5)
        } else {
            Err(Error::UnsupportedVersion(value))
        }
    }

    /// The byte that stands for the version on the wire.
    pub fn code(self) -> (b: u8)
        ensures
            b == self.spec_code(),
            Self::spec_try_from(b) == Ok::<Version, Error>(self),
    {
        match self {
            Version::V4 => 4,
            Version::V5 => 5,
        }
    }
}

impl Default for Version {
    fn default() -> (v: Version)
        ensures
            v == Version::V5,
    {
        Version::V5
    }
}

/// The byte that every SOCKS5 message starts with.
pub const SOCKS_VERSION: u8 = 5;

/// A value that has a SOCKS5 wire form.
pub trait StreamOperation: Sized {
    /// Whether the value can be written: each field fits the width that the
    /// wire form gives it.
    spec fn wf(&self) -> bool;

    /// The bytes that stand for the value on the wire.
    spec fn wire(&self) -> Seq<u8>;

    /// Appends the wire form to `buf`.
    fn write_to_buf(&self, buf: &mut Vec<u8>)
        requires
            self.wf(),
        ensures
            final(buf)@ == old(buf)@ + self.wire(),
    ;

    /// Length of the wire form.
    fn len(&self) -> (n: usize)
        requires
            self.wf(),
        ensures
            n == self.wire().len(),
    ;

    /// Whether the wire form is empty.
    fn is_empty(&self) -> (b: bool)
        requires
            self.wf(),
        ensures
            b == (self.wire().len() == 0),
    {
        self.len() == 0
    }
}

} // verus!
