//! The ways in which a SOCKS5 exchange fails.
use vstd::prelude::*;

verus! {

pub type Result<T> = std::result::Result<T, Error>;

/// Why a message was refused or a session ended.
#[derive(Debug, Clone, Copy, PartialEq, Eq)]
pub enum Error {
    /// The version byte is not the one the message must carry; holds the byte.
    UnsupportedVersion(u8),
    /// The command byte names no command; holds the byte.
    InvalidCommand(u8),
    /// The address type byte names no address type; holds the byte.
    InvalidAddressType(u8),
    /// A domain name is empty or is not valid UTF-8.
    InvalidDomainEncoding,
    /// A port is not the decimal text of a 16-bit number.
    InvalidPort,
    /// A reserved byte is not zero; holds the byte.
    InvalidReserved(u8),
    /// The reply byte names no reply code; holds the byte.
    InvalidReply(u8),
    /// The client offered no method that the server accepts.
    NoAcceptableMethods,
    /// The credentials were refused.
    AuthRejected,
    /// The bytes at hand end before the message does; `needed` more bytes
    /// have to arrive before anything further can be decided.
    Incomplete { needed: usize },
}

} // verus!
