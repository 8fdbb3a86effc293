//! The command of a SOCKS5 request.
use vstd::prelude::*;

use crate::socks5_impl::error::Error;

verus! {

/// What the client asks the server to do.
#[derive(Clone, Copy, Debug, PartialEq, Eq, Hash, PartialOrd, Ord)]
pub enum Command {
    /// Open a TCP connection to the target.
    Connect,
    /// Accept one TCP connection on the client's behalf.
    Bind,
    /// Relay datagrams for the client.
    UdpAssociate,
}

impl Command {
    /// The byte that stands for the command on the wire.
    pub open spec fn spec_code(self) -> u8 {
        match self {
            Command::Connect => 0x01,
            Command::Bind => 0x02,
            Command::UdpAssociate => 0x03,
        }
    }

    /// The command that a byte stands for.
    pub open spec fn spec_try_from(code: u8) -> Result<Command, Error> {
        if code == 0x01 {
            Ok(Command::Connect)
        } else if code == 0x02 {
            Ok(Command::Bind)
        } else if code == 0x03 {
            Ok(Command::UdpAssociate)
        } else {
            Err(Error::InvalidCommand(code))
        }
    }

    /// The command that a byte stands for.
    pub fn try_from(code: u8) -> (r: Result<Command, Error>)
        ensures
            r == Self::spec_try_from(code),
    {
        if code == 0x01 {
            Ok(Command::Connect)
        } else if code == 0x02 {
            Ok(Command::Bind)
        } else if code == 0x03 {
            Ok(Command::UdpAssociate)
        } else {
            Err(Error::InvalidCommand(code))
        }
    }

    /// The byte that stands for the command on the wire.
    pub fn code(self) -> (b: u8)
        ensures
            b == self.spec_code(),
            Self::spec_try_from(b) == Ok::<Command, Error>(self),
    {
        match self {
            Command::Connect => 0x01,
            Command::Bind => 0x02,
            Command::UdpAssociate => 0x03,
        }
    }
}

} // verus!
