//! The ways in which reading a PROXY Protocol v2 header fails.
use vstd::prelude::*;

verus! {

pub type Result<T> = std::result::Result<T, Error>;

/// Why a header was refused.
#[derive(Debug, Clone, PartialEq, Eq)]
pub enum Error {
    /// The first sixteen bytes are missing or do not start with the signature.
    InvalidSignature,
    /// The version nibble is not 2; holds the nibble.
    UnsupportedVersion(u8),
    /// The command nibble is neither LOCAL nor PROXY; holds the nibble.
    InvalidCommand(u8),
    /// A PROXY command names a family whose addresses are not decoded; holds
    /// the family byte.
    InvalidAddressFamily(u8),
    /// Fewer bytes are at hand than the header declares.
    FrameTooShort { got: usize, need: usize },
    /// The declared address block is shorter than the family needs.
    AddressLengthMismatch { family: &'static str, got: usize, expected: usize },
    /// Any other failure, as text.
    String(String),
}

impl Error {
    /// The error that carries `message` as text.
    pub fn from(message: String) -> (e: Error)
        ensures
            e == Error::String(message),
    {
        Error::String(message)
    }
}

} // verus!
