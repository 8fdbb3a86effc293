//! The server's choice of method.
//!
//! ```plain
//! +-----+--------+
//! | VER | METHOD |
//! +-----+--------+
//! |  1  |   1    |
//! +-----+--------+
//! ```
use vstd::prelude::*;

use crate::socks5_impl::error::Error;
use crate::socks5_impl::protocol::cursor::Cursor;
use crate::socks5_impl::protocol::handshake::AuthMethod;
use crate::socks5_impl::protocol::{StreamOperation, SOCKS_VERSION};

verus! {

/// The method that the server picked.
#[derive(Clone, Copy, Debug)]
pub struct Response {
    pub method: AuthMethod,
}

/// The choice at the start of `b` and the number of bytes it occupies, or why
/// there is none. The version byte is taken and judged first.
pub open spec fn spec_decode(b: Seq<u8>) -> Result<(Response, nat), Error> {
    if b.len() < 1 {
        Err(Error::Incomplete { needed: 1 })
    } else if b[0] != 5 {
        Err(Error::UnsupportedVersion(b[0]))
    } else if b.len() < 2 {
        Err(Error::Incomplete { needed: 1 })
    } else {
        Ok((Response { method: AuthMethod::spec_from(b[1]) }, 2))
    }
}

/// How many of the bytes `b` a reader has taken when reading a choice from
/// them has come to its end: one byte where the version is another, two
/// where there is a choice, all bytes where they end early.
pub open spec fn spec_taken(b: Seq<u8>) -> nat {
    if b.len() < 1 {
        b.len()
    } else if b[0] != 5 {
        1
    } else if b.len() < 2 {
        b.len()
    } else {
        2
    }
}

impl Response {
    /// The answer that picks `method`.
    pub fn new(method: AuthMethod) -> (r: Response)
        ensures
            r.method == method,
    {
        Response { method }
    }

    /// Decodes the choice at the start of `data` and says how many bytes it
    /// occupies.
    pub fn decode(data: &[u8]) -> (r: Result<(Response, usize), Error>)
        ensures
            match r {
                Ok((resp, n)) => spec_decode(data@) == Ok::<(Response, nat), Error>(
                    (resp, n as nat),
                ) && n <= data@.len(),
                Err(e) => spec_decode(data@) == Err::<(Response, nat), Error>(e),
            },
            data@.len() >= 1 && data@[0] != 5 ==> r == Err::<(Response, usize), Error>(
                Error::UnsupportedVersion(data@[0]),
            ),
    {
        if data.len() < 1 {
            return Err(Error::Incomplete { needed: 1 });
        }
        if data[0] != SOCKS_VERSION {
            return Err(Error::UnsupportedVersion(data[0]));
        }
        if data.len() < 2 {
            return Err(Error::Incomplete { needed: 1 });
        }
        Ok((Response { method: AuthMethod::from(data[1]) }, 2))
    }

    /// How many of the bytes `data` a reader has taken when reading a choice
    /// from them has come to its end; see [`spec_taken`].
    pub fn taken(data: &[u8]) -> (n: usize)
        ensures
            n == spec_taken(data@),
            n <= data@.len(),
    {
        let len = data.len();
        if len < 1 {
            len
        } else if data[0] != SOCKS_VERSION {
            1
        } else if len < 2 {
            len
        } else {
            2
        }
    }

    /// Reads one choice from `stream`. On success the stream stands right
    /// behind it. On failure it stands behind what had been read when the
    /// failure showed: behind the version byte where that is another
    /// version, at the end where the bytes ended early.
    pub fn retrieve_from_stream(stream: &mut Cursor) -> (r: Result<Response, Error>)
        ensures
            final(stream).source() == old(stream).source(),
            final(stream).consumed() == old(stream).consumed() + spec_taken(
                old(stream).remaining(),
            ),
            match r {
                Ok(resp) => {
                    &&& spec_decode(old(stream).remaining()) == Ok::<(Response, nat), Error>(
                        (resp, 2),
                    )
                    &&& final(stream).consumed() == old(stream).consumed() + 2
                },
                Err(e) => spec_decode(old(stream).remaining()) == Err::<(Response, nat), Error>(e),
            },
    {
        let rest = stream.rest();
        let r = Response::decode(rest);
        stream.advance(Response::taken(rest));
        match r {
            Ok((resp, _)) => Ok(resp),
            Err(e) => Err(e),
        }
    }
}

impl StreamOperation for Response {
    open spec fn wf(&self) -> bool {
        true
    }

    open spec fn wire(&self) -> Seq<u8> {
        seq![5u8, self.method.spec_code()]
    }

    fn write_to_buf(&self, buf: &mut Vec<u8>) {
        buf.push(SOCKS_VERSION);
        buf.push(self.method.code());
        assert(buf@ =~= old(buf)@ + self.wire());
    }

    fn len(&self) -> (n: usize) {
        2
    }
}

} // verus!
