//! The server's reply.
//!
//! ```plain
//! +-----+-----+-------+------+----------+----------+
//! | VER | REP |  RSV  | ATYP | BND.ADDR | BND.PORT |
//! +-----+-----+-------+------+----------+----------+
//! |  1  |  1  | X'00' |  1   | Variable |    2     |
//! +-----+-----+-------+------+----------+----------+
//! ```
use vstd::prelude::*;

use crate::socks5_impl::error::Error;
use crate::socks5_impl::protocol::address::{self, Address, AddressView};
use crate::socks5_impl::protocol::cursor::Cursor;
use crate::socks5_impl::protocol::reply::Reply;
use crate::socks5_impl::protocol::{StreamOperation, SOCKS_VERSION};

verus! {

/// A reply code and the address the server is bound to.
#[derive(Clone, Debug)]
pub struct Response {
    pub reply: Reply,
    pub address: Address,
}

/// A reply as a mathematical value.
pub struct ResponseView {
    pub reply: Reply,
    pub address: AddressView,
}

impl View for Response {
    type V = ResponseView;

    open spec fn view(&self) -> ResponseView {
        ResponseView { reply: self.reply, address: self.address@ }
    }
}

impl ResponseView {
    /// Whether the reply has a wire form: its address must have one.
    pub open spec fn wf(self) -> bool {
        self.address.wf()
    }

    /// The bytes that stand for the reply on the wire.
    pub open spec fn wire(self) -> Seq<u8> {
        seq![5u8, self.reply.spec_code(), 0u8] + self.address.wire()
    }
}

/// The reply at the start of `b` and the number of bytes it occupies, or why
/// there is none.
pub open spec fn spec_decode(b: Seq<u8>) -> Result<(ResponseView, nat), Error> {
    if b.len() < 1 {
        Err(Error::Incomplete { needed: 1 })
    } else if b[0] != 5 {
        Err(Error::UnsupportedVersion(b[0]))
    } else if b.len() < 3 {
        Err(Error::Incomplete { needed: (3 - b.len()) as usize })
    } else {
        match Reply::spec_try_from(b[1]) {
            Err(e) => Err(e),
            Ok(reply) => if b[2] != 0 {
                Err(Error::InvalidReserved(b[2]))
            } else {
                match address::spec_decode(b.skip(3)) {
                    Err(e) => Err(e),
                    Ok((a, n)) => Ok((ResponseView { reply, address: a }, 3 + n)),
                }
            },
        }
    }
}

/// How many of the bytes `b` a reader has taken when reading a reply from
/// them has come to its end: one byte where the version is another; three
/// where the reply code or the reserved byte is refused; behind that, what
/// reading the address took; all bytes where they end early.
pub open spec fn spec_taken(b: Seq<u8>) -> nat {
    if b.len() < 1 {
        b.len()
    } else if b[0] != 5 {
        1
    } else if b.len() < 3 {
        b.len()
    } else if Reply::spec_try_from(b[1]) is Err || b[2] != 0 {
        3
    } else {
        3 + address::spec_taken(b.skip(3))
    }
}

/// Decoding the wire form of a reply gives the reply back and stops right
/// behind it, whatever follows.
pub proof fn lemma_decode_wire(r: ResponseView, rest: Seq<u8>)
    requires
        r.wf(),
    ensures
        spec_decode(r.wire() + rest) == Ok::<(ResponseView, nat), Error>((r, r.wire().len())),
{
    let b = r.wire() + rest;
    address::lemma_decode_wire(r.address, rest);
    assert(b.skip(3) =~= r.address.wire() + rest);
    assert(b[1] == r.reply.spec_code());
}

impl Response {
    /// The reply `reply`, bound to `address`.
    pub fn new(reply: Reply, address: Address) -> (r: Response)
        ensures
            r.reply == reply,
            r.address == address,
    {
        Response { reply, address }
    }

    /// Decodes the reply at the start of `data` and says how many bytes it
    /// occupies.
    pub fn decode(data: &[u8]) -> (r: Result<(Response, usize), Error>)
        ensures
            match r {
                Ok((resp, n)) => {
                    &&& spec_decode(data@) == Ok::<(ResponseView, nat), Error>((resp@, n as nat))
                    &&& n <= data@.len()
                    &&& resp@.wf()
                    &&& n == resp@.wire().len()
                },
                Err(e) => spec_decode(data@) == Err::<(ResponseView, nat), Error>(e),
            },
            data@.len() >= 1 && data@[0] != 5 ==> r == Err::<(Response, usize), Error>(
                Error::UnsupportedVersion(data@[0]),
            ),
    {
        if data.len() < 1 {
            return Err(Error::Incomplete { needed: 1 });
        }
        if data[0] != SOCKS_VERSION {
            return Err(Error::UnsupportedVersion(data[0]));
        }
        if data.len() < 3 {
            return Err(Error::Incomplete { needed: 3 - data.len() });
        }
        let reply = match Reply::try_from(data[1]) {
            Ok(c) => c,
            Err(e) => { return Err(e); },
        };
        if data[2] != 0 {
            return Err(Error::InvalidReserved(data[2]));
        }
        let tail = vstd::slice::slice_subrange(data, 3, data.len());
        assert(tail@ =~= data@.skip(3));
        match Address::decode(tail) {
            Ok((address, n)) => Ok((Response { reply, address }, 3 + n)),
            Err(e) => Err(e),
        }
    }

    /// How many of the bytes `data` a reader has taken when reading a
    /// reply from them has come to its end; see [`spec_taken`].
    pub fn taken(data: &[u8]) -> (n: usize)
        ensures
            n == spec_taken(data@),
            n <= data@.len(),
    {
        let len = data.len();
        if len < 1 {
            len
        } else if data[0] != SOCKS_VERSION {
            1
        } else if len < 3 {
            len
        } else if Reply::try_from(data[1]).is_err() || data[2] != 0 {
            3
        } else {
            let tail = vstd::slice::slice_subrange(data, 3, len);
            assert(tail@ =~= data@.skip(3));
            3 + Address::taken(tail)
        }
    }

    /// Reads one reply from `stream`. On success the stream stands right
    /// behind the reply. On failure it stands behind what had been read when
    /// the failure showed: behind the version byte where that is another
    /// version, behind the first three bytes where the reply code or the
    /// reserved byte is refused, in the address where that is refused, at
    /// the end where the bytes ended early.
    pub fn retrieve_from_stream(stream: &mut Cursor) -> (r: Result<Response, Error>)
        ensures
            final(stream).source() == old(stream).source(),
            final(stream).consumed() == old(stream).consumed() + spec_taken(
                old(stream).remaining(),
            ),
            match r {
                Ok(resp) => {
                    &&& spec_decode(old(stream).remaining()) == Ok::<(ResponseView, nat), Error>(
                        (resp@, resp@.wire().len()),
                    )
                    &&& resp@.wf()
                    &&& final(stream).consumed() == old(stream).consumed() + resp@.wire().len()
                },
                Err(e) => spec_decode(old(stream).remaining()) == Err::<(ResponseView, nat), Error>(e),
            },
    {
        let rest = stream.rest();
        let r = Response::decode(rest);
        stream.advance(Response::taken(rest));
        proof {
            address::lemma_taken(rest@.skip(3));
        }
        match r {
            Ok((resp, _)) => Ok(resp),
            Err(e) => Err(e),
        }
    }
}

impl StreamOperation for Response {
    open spec fn wf(&self) -> bool {
        self@.wf()
    }

    open spec fn wire(&self) -> Seq<u8> {
        self@.wire()
    }

    fn write_to_buf(&self, buf: &mut Vec<u8>) {
        buf.push(SOCKS_VERSION);
        buf.push(self.reply.code());
        buf.push(0x00);
        self.address.write_to_buf(buf);
        assert(buf@ =~= old(buf)@ + self.wire());
    }

    fn len(&self) -> (n: usize) {
        proof {
            address::lemma_wire_len(self.address@);
        }
        3 + self.address.len()
    }
}

} // verus!
