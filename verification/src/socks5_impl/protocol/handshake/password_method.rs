//! Username and password sub-negotiation.
//!
//! ```plain
//! +-----+------+----------+------+----------+        +-----+--------+
//! | VER | ULEN |  UNAME   | PLEN |  PASSWD  |        | VER | STATUS |
//! +-----+------+----------+------+----------+        +-----+--------+
//! |  1  |  1   | 0 to 255 |  1   | 0 to 255 |        |  1  |   1    |
//! +-----+------+----------+------+----------+        +-----+--------+
//! ```
//!
//! The version byte of both messages is `0x01`, the version of the
//! sub-negotiation.
use vstd::prelude::*;

use crate::bytes::{extend, to_vec};
use crate::socks5_impl::error::Error;
use crate::socks5_impl::protocol::cursor::Cursor;
use crate::socks5_impl::protocol::StreamOperation;

verus! {

/// The version byte of the sub-negotiation.
pub const SUBNEGOTIATION_VERSION: u8 = 0x01;

/// A username and a password, as the bytes that came.
#[derive(Clone, Debug, PartialEq, Eq, Hash)]
pub struct UserKey {
    pub username: Vec<u8>,
    pub password: Vec<u8>,
}

/// The credentials that a client presents.
#[derive(Clone, Debug)]
pub struct Request {
    pub user_key: UserKey,
}

/// Credentials as a mathematical value.
pub struct RequestView {
    pub username: Seq<u8>,
    pub password: Seq<u8>,
}

impl View for Request {
    type V = RequestView;

    open spec fn view(&self) -> RequestView {
        RequestView { username: self.user_key.username@, password: self.user_key.password@ }
    }
}

impl RequestView {
    /// Whether the credentials have a wire form: each part must fit its
    /// one-byte length.
    pub open spec fn wf(self) -> bool {
        self.username.len() <= 255 && self.password.len() <= 255
    }

    /// The bytes that stand for the credentials on the wire.
    pub open spec fn wire(self) -> Seq<u8> {
        seq![1u8, self.username.len() as u8] + self.username + seq![self.password.len() as u8]
            + self.password
    }
}

/// The credentials at the start of `b` and the number of bytes they occupy,
/// or why there are none. The version byte is taken and judged first.
pub open spec fn spec_decode(b: Seq<u8>) -> Result<(RequestView, nat), Error> {
    if b.len() < 1 {
        Err(Error::Incomplete { needed: 1 })
    } else if b[0] != 1 {
        Err(Error::UnsupportedVersion(b[0]))
    } else if b.len() < 2 {
        Err(Error::Incomplete { needed: 1 })
    } else if b.len() < 3 + b[1] {
        Err(Error::Incomplete { needed: (3 + b[1] - b.len()) as usize })
    } else if b.len() < 3 + b[1] + b[2 + b[1]] {
        Err(Error::Incomplete { needed: (3 + b[1] + b[2 + b[1]] - b.len()) as usize })
    } else {
        Ok(
            (
                RequestView {
                    username: b.subrange(2, 2 + b[1]),
                    password: b.subrange(3 + b[1], 3 + b[1] + b[2 + b[1]]),
                },
                (3 + b[1] + b[2 + b[1]]) as nat,
            ),
        )
    }
}

/// How many of the bytes `b` a reader has taken when reading credentials
/// from them has come to its end: one byte where the version is another,
/// the credentials where there are some, all bytes where they end early.
pub open spec fn spec_taken(b: Seq<u8>) -> nat {
    if b.len() < 1 {
        b.len()
    } else if b[0] != 1 {
        1
    } else if b.len() < 2 {
        b.len()
    } else if b.len() < 3 + b[1] {
        b.len()
    } else if b.len() < 3 + b[1] + b[2 + b[1]] {
        b.len()
    } else {
        (3 + b[1] + b[2 + b[1]]) as nat
    }
}

/// Decoding the wire form of credentials gives them back and stops right
/// behind them, whatever follows.
pub proof fn lemma_decode_wire(r: RequestView, rest: Seq<u8>)
    requires
        r.wf(),
    ensures
        spec_decode(r.wire() + rest) == Ok::<(RequestView, nat), Error>((r, r.wire().len())),
{
    let b = r.wire() + rest;
    let u = r.username.len() as int;
    let p = r.password.len() as int;
    assert(b[0] == 1);
    assert(b[1] == u);
    assert(b[2 + u] == p);
    assert(b.subrange(2, 2 + u) =~= r.username);
    assert(b.subrange(3 + u, 3 + u + p) =~= r.password);
}

impl Request {
    /// The credentials `username`, `password`.
    pub fn new(username: Vec<u8>, password: Vec<u8>) -> (r: Request)
        ensures
            r@ == (RequestView { username: username@, password: password@ }),
    {
        Request { user_key: UserKey { username, password } }
    }

    /// Decodes the credentials at the start of `data` and says how many bytes
    /// they occupy.
    pub fn decode(data: &[u8]) -> (r: Result<(Request, usize), Error>)
        ensures
            match r {
                Ok((req, n)) => {
                    &&& spec_decode(data@) == Ok::<(RequestView, nat), Error>((req@, n as nat))
                    &&& n <= data@.len()
                    &&& req@.wf()
                },
                Err(e) => spec_decode(data@) == Err::<(RequestView, nat), Error>(e),
            },
    {
        if data.len() < 1 {
            return Err(Error::Incomplete { needed: 1 });
        }
        if data[0] != SUBNEGOTIATION_VERSION {
            return Err(Error::UnsupportedVersion(data[0]));
        }
        if data.len() < 2 {
            return Err(Error::Incomplete { needed: 1 });
        }
        let ulen = data[1] as usize;
        if data.len() < 3 + ulen {
            return Err(Error::Incomplete { needed: 3 + ulen - data.len() });
        }
        let plen = data[2 + ulen] as usize;
        if data.len() < 3 + ulen + plen {
            return Err(Error::Incomplete { needed: 3 + ulen + plen - data.len() });
        }
        let username = to_vec(vstd::slice::slice_subrange(data, 2, 2 + ulen));
        let password = to_vec(vstd::slice::slice_subrange(data, 3 + ulen, 3 + ulen + plen));
        Ok((Request { user_key: UserKey { username, password } }, 3 + ulen + plen))
    }

    /// How many of the bytes `data` a reader has taken when reading
    /// credentials from them has come to its end; see [`spec_taken`].
    pub fn taken(data: &[u8]) -> (n: usize)
        ensures
            n == spec_taken(data@),
            n <= data@.len(),
    {
        let len = data.len();
        if len < 1 {
            len
        } else if data[0] != SUBNEGOTIATION_VERSION {
            1
        } else if len < 2 {
            len
        } else if len < 3 + data[1] as usize {
            len
        } else if len < 3 + data[1] as usize + data[2 + data[1] as usize] as usize {
            len
        } else {
            3 + data[1] as usize + data[2 + data[1] as usize] as usize
        }
    }

    /// Reads the credentials from `stream`. On success the stream stands
    /// right behind them. On failure it stands behind what had been read
    /// when the failure showed: behind the version byte where that is
    /// another version, at the end where the bytes ended early.
    pub fn retrieve_from_stream(stream: &mut Cursor) -> (r: Result<Request, Error>)
        ensures
            final(stream).source() == old(stream).source(),
            final(stream).consumed() == old(stream).consumed() + spec_taken(
                old(stream).remaining(),
            ),
            match r {
                Ok(req) => {
                    &&& spec_decode(old(stream).remaining()) matches Ok((v, n))
                    &&& v == req@
                    &&& final(stream).consumed() == old(stream).consumed() + n
                },
                Err(e) => spec_decode(old(stream).remaining()) == Err::<(RequestView, nat), Error>(
                    e,
                ),
            },
    {
        let rest = stream.rest();
        let r = Request::decode(rest);
        stream.advance(Request::taken(rest));
        match r {
            Ok((req, _)) => Ok(req),
            Err(e) => Err(e),
        }
    }
}

impl StreamOperation for Request {
    open spec fn wf(&self) -> bool {
        self@.wf()
    }

    open spec fn wire(&self) -> Seq<u8> {
        self@.wire()
    }

    fn write_to_buf(&self, buf: &mut Vec<u8>) {
        buf.push(SUBNEGOTIATION_VERSION);
        buf.push(self.user_key.username.len() as u8);
        extend(buf, self.user_key.username.as_slice());
        buf.push(self.user_key.password.len() as u8);
        extend(buf, self.user_key.password.as_slice());
        assert(buf@ =~= old(buf)@ + self.wire());
    }

    fn len(&self) -> (n: usize) {
        3 + self.user_key.username.len() + self.user_key.password.len()
    }
}

/// The server's answer to the credentials.
#[derive(Clone, Copy, Debug, PartialEq, Eq)]
pub struct Response {
    /// Zero for accepted, anything else for refused.
    pub status: u8,
}

/// The status byte that stands for acceptance.
pub const STATUS_SUCCEEDED: u8 = 0x00;

/// The status byte that this library sends for refusal.
pub const STATUS_FAILED: u8 = 0xff;

impl Response {
    /// The answer for credentials that were accepted, or refused.
    pub fn new(accepted: bool) -> (r: Response)
        ensures
            r.status == (if accepted {
                STATUS_SUCCEEDED
            } else {
                STATUS_FAILED
            }),
            r.spec_accepted() == accepted,
    {
        Response {
            status: if accepted {
                STATUS_SUCCEEDED
            } else {
                STATUS_FAILED
            },
        }
    }

    /// Whether the credentials were accepted.
    pub open spec fn spec_accepted(self) -> bool {
        self.status == 0
    }

    /// Whether the credentials were accepted.
    pub fn accepted(&self) -> (b: bool)
        ensures
            b == self.spec_accepted(),
    {
        self.status == STATUS_SUCCEEDED
    }

    /// The answer at the start of `b` and the number of bytes it occupies,
    /// or why there is none.
    pub open spec fn spec_decode(b: Seq<u8>) -> Result<(Response, nat), Error> {
        if b.len() < 1 {
            Err(Error::Incomplete { needed: 1 })
        } else if b[0] != 1 {
            Err(Error::UnsupportedVersion(b[0]))
        } else if b.len() < 2 {
            Err(Error::Incomplete { needed: 1 })
        } else {
            Ok((Response { status: b[1] }, 2))
        }
    }

    /// Decodes the answer at the start of `data` and says how many bytes it
    /// occupies.
    pub fn decode(data: &[u8]) -> (r: Result<(Response, usize), Error>)
        ensures
            match r {
                Ok((resp, n)) => Self::spec_decode(data@) == Ok::<(Response, nat), Error>(
                    (resp, n as nat),
                ) && n <= data@.len(),
                Err(e) => Self::spec_decode(data@) == Err::<(Response, nat), Error>(e),
            },
    {
        if data.len() < 1 {
            return Err(Error::Incomplete { needed: 1 });
        }
        if data[0] != SUBNEGOTIATION_VERSION {
            return Err(Error::UnsupportedVersion(data[0]));
        }
        if data.len() < 2 {
            return Err(Error::Incomplete { needed: 1 });
        }
        Ok((Response { status: data[1] }, 2))
    }
}

impl StreamOperation for Response {
    open spec fn wf(&self) -> bool {
        true
    }

    open spec fn wire(&self) -> Seq<u8> {
        seq![1u8, self.status]
    }

    fn write_to_buf(&self, buf: &mut Vec<u8>) {
        buf.push(SUBNEGOTIATION_VERSION);
        buf.push(self.status);
        assert(buf@ =~= old(buf)@ + self.wire());
    }

    fn len(&self) -> (n: usize) {
        2
    }
}

} // verus!
