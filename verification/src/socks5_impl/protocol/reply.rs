//! The reply code of a SOCKS5 response.
use vstd::prelude::*;

use crate::socks5_impl::error::Error;

verus! {

/// How the server answers a request.
#[derive(Clone, Copy, Debug, PartialEq, Eq, Hash, PartialOrd, Ord)]
pub enum Reply {
    Succeeded,
    GeneralFailure,
    ConnectionNotAllowed,
    NetworkUnreachable,
    HostUnreachable,
    ConnectionRefused,
    TtlExpired,
    CommandNotSupported,
    AddressTypeNotSupported,
}

impl Reply {
    /// The byte that stands for the reply on the wire.
    pub open spec fn spec_code(self) -> u8 {
        match self {
            Reply::Succeeded => 0x00,
            Reply::GeneralFailure => 0x01,
            Reply::ConnectionNotAllowed => 0x02,
            Reply::NetworkUnreachable => 0x03,
            Reply::HostUnreachable => 0x04,
            Reply::ConnectionRefused => 0x05,
            Reply::TtlExpired => 0x06,
            Reply::CommandNotSupported => 0x07,
            Reply::AddressTypeNotSupported => 0x08,
        }
    }

    /// The reply that a byte stands for.
    pub open spec fn spec_try_from(code: u8) -> Result<Reply, Error> {
        if code == 0x00 {
            Ok(Reply::Succeeded)
        } else if code == 0x01 {
            Ok(Reply::GeneralFailure)
        } else if code == 0x02 {
            Ok(Reply::ConnectionNotAllowed)
        } else if code == 0x03 {
            Ok(Reply::NetworkUnreachable)
        } else if code == 0x04 {
            Ok(Reply::HostUnreachable)
        } else if code == 0x05 {
            Ok(Reply::ConnectionRefused)
        } else if code == 0x06 {
            Ok(Reply::TtlExpired)
        } else if code == 0x07 {
            Ok(Reply::CommandNotSupported)
        } else if code == 0x08 {
            Ok(Reply::AddressTypeNotSupported)
        } else {
            Err(Error::InvalidReply(code))
        }
    }

    /// The reply that a byte stands for.
    pub fn try_from(code: u8) -> (r: Result<Reply, Error>)
        ensures
            r == Self::spec_try_from(code),
    {
        if code == 0x00 {
            Ok(Reply::Succeeded)
        } else if code == 0x01 {
            Ok(Reply::GeneralFailure)
        } else if code == 0x02 {
            Ok(Reply::ConnectionNotAllowed)
        } else if code == 0x03 {
            Ok(Reply::NetworkUnreachable)
        } else if code == 0x04 {
            Ok(Reply::HostUnreachable)
        } else if code == 0x05 {
            Ok(Reply::ConnectionRefused)
        } else if code == 0x06 {
            Ok(Reply::TtlExpired)
        } else if code == 0x07 {
            Ok(Reply::CommandNotSupported)
        } else if code == 0x08 {
            Ok(Reply::AddressTypeNotSupported)
        } else {
            Err(Error::InvalidReply(code))
        }
    }

    /// The byte that stands for the reply on the wire.
    pub fn code(self) -> (b: u8)
        ensures
            b == self.spec_code(),
            Self::spec_try_from(b) == Ok::<Reply, Error>(self),
    {
        match self {
            Reply::Succeeded => 0x00,
            Reply::GeneralFailure => 0x01,
            Reply::ConnectionNotAllowed => 0x02,
            Reply::NetworkUnreachable => 0x03,
            Reply::HostUnreachable => 0x04,
            Reply::ConnectionRefused => 0x05,
            Reply::TtlExpired => 0x06,
            Reply::CommandNotSupported => 0x07,
            Reply::AddressTypeNotSupported => 0x08,
        }
    }
}

} // verus!
