//! The client's request.
//!
//! ```plain
//! +-----+-----+-------+------+----------+----------+
//! | VER | CMD |  RSV  | ATYP | DST.ADDR | DST.PORT |
//! +-----+-----+-------+------+----------+----------+
//! |  1  |  1  | X'00' |  1   | Variable |    2     |
//! +-----+-----+-------+------+----------+----------+
//! ```
use vstd::prelude::*;

use crate::socks5_impl::error::Error;
use crate::socks5_impl::protocol::address::{self, Address, AddressView};
use crate::socks5_impl::protocol::command::Command;
use crate::socks5_impl::protocol::cursor::Cursor;
use crate::socks5_impl::protocol::{StreamOperation, SOCKS_VERSION};

verus! {

/// A command and the address it is about.
#[derive(Clone, Debug)]
pub struct Request {
    pub command: Command,
    pub address: Address,
}

/// A request as a mathematical value.
pub struct RequestView {
    pub command: Command,
    pub address: AddressView,
}

impl View for Request {
    type V = RequestView;

    open spec fn view(&self) -> RequestView {
        RequestView { command: self.command, address: self.address@ }
    }
}

impl RequestView {
    /// Whether the request has a wire form: its address must have one.
    pub open spec fn wf(self) -> bool {
        self.address.wf()
    }

    /// The bytes that stand for the request on the wire.
    pub open spec fn wire(self) -> Seq<u8> {
        seq![5u8, self.command.spec_code(), 0u8] + self.address.wire()
    }
}

/// The request at the start of `b` and the number of bytes it occupies, or
/// why there is none.
///
/// The version byte is taken and judged first; command and reserved
/// byte once the first three bytes are there; then the address.
pub open spec fn spec_decode(b: Seq<u8>) -> Result<(RequestView, nat), Error> {
    if b.len() < 1 {
        Err(Error::Incomplete { needed: 1 })
    } else if b[0] != 5 {
        Err(Error::UnsupportedVersion(b[0]))
    } else if b.len() < 3 {
        Err(Error::Incomplete { needed: (3 - b.len()) as usize })
    } else {
        match Command::spec_try_from(b[1]) {
            Err(e) => Err(e),
            Ok(command) => if b[2] != 0 {
                Err(Error::InvalidReserved(b[2]))
            } else {
                match address::spec_decode(b.skip(3)) {
                    Err(e) => Err(e),
                    Ok((a, n)) => Ok((RequestView { command, address: a }, 3 + n)),
                }
            },
        }
    }
}

/// How many of the bytes `b` a reader has taken when reading a request from
/// them has come to its end: one byte where the version is another; three
/// where the command or the reserved byte is refused; behind that, what
/// reading the address took; all bytes where they end early.
pub open spec fn spec_taken(b: Seq<u8>) -> nat {
    if b.len() < 1 {
        b.len()
    } else if b[0] != 5 {
        1
    } else if b.len() < 3 {
        b.len()
    } else if Command::spec_try_from(b[1]) is Err || b[2] != 0 {
        3
    } else {
        3 + address::spec_taken(b.skip(3))
    }
}

/// Whether reading from the bytes `b` ends for want of bytes.
pub open spec fn spec_ends_early(b: Seq<u8>) -> bool {
    spec_decode(b) matches Err(Error::Incomplete { .. })
}

/// A reader that is fed piece by piece takes the same bytes as one that has
/// them all at hand.
///
/// Let reading from `b` end otherwise than for want of bytes. Then of any
/// shorter beginning than what was taken the decoder says that it is
/// incomplete, and asks for at least one byte and for no more than up to what
/// was taken; and of exactly what was taken it says what it says of all of
/// `b`.
pub proof fn lemma_read_in_steps(b: Seq<u8>, k: int)
    requires
        !spec_ends_early(b),
        0 <= k < spec_taken(b),
    ensures
        spec_decode(b.take(k)) matches Err(Error::Incomplete { needed }) && 1 <= needed
            <= spec_taken(b) - k,
        spec_decode(b.take(spec_taken(b) as int)) == spec_decode(b),
        spec_taken(b) <= b.len(),
{
    let p = b.take(k);
    let w = b.take(spec_taken(b) as int);
    assert(w[0] == b[0]);
    if k >= 1 {
        assert(p[0] == b[0]);
    }
    if b[0] == 5 {
        assert(w[1] == b[1] && w[2] == b[2]);
        if k >= 3 {
            assert(p[1] == b[1] && p[2] == b[2]);
        }
        if Command::spec_try_from(b[1]) is Ok && b[2] == 0 {
            let tail = b.skip(3);
            address::lemma_taken(tail);
            assert(w.skip(3) =~= tail.take(address::spec_taken(tail) as int));
            address::lemma_read_in_steps(tail, 0);
            if k >= 3 {
                assert(p.skip(3) =~= tail.take(k - 3));
                address::lemma_read_in_steps(tail, k - 3);
            }
        }
    }
}

/// Decoding the wire form of a request gives the request back and stops right
/// behind it, whatever follows.
pub proof fn lemma_decode_wire(r: RequestView, rest: Seq<u8>)
    requires
        r.wf(),
    ensures
        spec_decode(r.wire() + rest) == Ok::<(RequestView, nat), Error>((r, r.wire().len())),
{
    let b = r.wire() + rest;
    address::lemma_decode_wire(r.address, rest);
    assert(b.skip(3) =~= r.address.wire() + rest);
    assert(b[1] == r.command.spec_code());
}

/// Reading a request piece by piece: of any proper beginning of its wire
/// form the decoder says that it is incomplete, and asks for at least one
/// byte and for no more than are still to come.
pub proof fn lemma_decode_beginning(r: RequestView, k: int)
    requires
        r.wf(),
        0 <= k < r.wire().len(),
    ensures
        spec_decode(r.wire().take(k)) matches Err(Error::Incomplete { needed }) && 1 <= needed
            <= r.wire().len() - k,
{
    let w = r.wire();
    let b = w.take(k);
    address::lemma_wire_len(r.address);
    if k >= 1 {
        assert(b[0] == 5);
    }
    if k >= 3 {
        assert(b[1] == r.command.spec_code());
        assert(b[2] == 0);
        assert(b.skip(3) =~= r.address.wire().take(k - 3));
        address::lemma_decode_beginning(r.address, k - 3);
    }
}

impl Request {
    /// The request that asks for `command` on `address`.
    pub fn new(command: Command, address: Address) -> (r: Request)
        ensures
            r.command == command,
            r.address == address,
    {
        Request { command, address }
    }

    /// Decodes the request at the start of `data` and says how many bytes it
    /// occupies.
    pub fn decode(data: &[u8]) -> (r: Result<(Request, usize), Error>)
        ensures
            match r {
                Ok((req, n)) => {
                    &&& spec_decode(data@) == Ok::<(RequestView, nat), Error>((req@, n as nat))
                    &&& n <= data@.len()
                    &&& req@.wf()
                    &&& n == req@.wire().len()
                },
                Err(e) => spec_decode(data@) == Err::<(RequestView, nat), Error>(e),
            },
            // A request of any other protocol version is refused for that.
            data@.len() >= 1 && data@[0] != 5 ==> r == Err::<(Request, usize), Error>(
                Error::UnsupportedVersion(data@[0]),
            ),
    {
        if data.len() < 1 {
            return Err(Error::Incomplete { needed: 1 });
        }
        if data[0] != SOCKS_VERSION {
            return Err(Error::UnsupportedVersion(data[0]));
        }
        if data.len() < 3 {
            return Err(Error::Incomplete { needed: 3 - data.len() });
        }
        let command = match Command::try_from(data[1]) {
            Ok(c) => c,
            Err(e) => { return Err(e); },
        };
        if data[2] != 0 {
            return Err(Error::InvalidReserved(data[2]));
        }
        let tail = vstd::slice::slice_subrange(data, 3, data.len());
        assert(tail@ =~= data@.skip(3));
        match Address::decode(tail) {
            Ok((address, n)) => Ok((Request { command, address }, 3 + n)),
            Err(e) => Err(e),
        }
    }

    /// How many of the bytes `data` a reader has taken when reading a
    /// request from them has come to its end; see [`spec_taken`].
    pub fn taken(data: &[u8]) -> (n: usize)
        ensures
            n == spec_taken(data@),
            n <= data@.len(),
    {
        let len = data.len();
        if len < 1 {
            len
        } else if data[0] != SOCKS_VERSION {
            1
        } else if len < 3 {
            len
        } else if Command::try_from(data[1]).is_err() || data[2] != 0 {
            3
        } else {
            let tail = vstd::slice::slice_subrange(data, 3, len);
            assert(tail@ =~= data@.skip(3));
            3 + Address::taken(tail)
        }
    }

    /// Reads one request from `stream`. On success the stream stands right
    /// behind the request. On failure it stands behind what had been read when
    /// the failure showed: behind the version byte where that is another
    /// version, behind the first three bytes where the command or the
    /// reserved byte is refused, in the address where that is refused, at
    /// the end where the bytes ended early.
    pub fn retrieve_from_stream(stream: &mut Cursor) -> (r: Result<Request, Error>)
        ensures
            final(stream).source() == old(stream).source(),
            final(stream).consumed() == old(stream).consumed() + spec_taken(
                old(stream).remaining(),
            ),
            match r {
                Ok(req) => {
                    &&& spec_decode(old(stream).remaining()) == Ok::<(RequestView, nat), Error>(
                        (req@, req@.wire().len()),
                    )
                    &&& req@.wf()
                    &&& final(stream).consumed() == old(stream).consumed() + req@.wire().len()
                },
                Err(e) => spec_decode(old(stream).remaining()) == Err::<(RequestView, nat), Error>(e),
            },
    {
        let rest = stream.rest();
        let r = Request::decode(rest);
        stream.advance(Request::taken(rest));
        proof {
            address::lemma_taken(rest@.skip(3));
        }
        match r {
            Ok((req, _)) => Ok(req),
            Err(e) => Err(e),
        }
    }
}

impl StreamOperation for Request {
    open spec fn wf(&self) -> bool {
        self@.wf()
    }

    open spec fn wire(&self) -> Seq<u8> {
        self@.wire()
    }

    fn write_to_buf(&self, buf: &mut Vec<u8>) {
        buf.push(SOCKS_VERSION);
        buf.push(self.command.code());
        buf.push(0x00);
        self.address.write_to_buf(buf);
        assert(buf@ =~= old(buf)@ + self.wire());
    }

    fn len(&self) -> (n: usize) {
        proof {
            address::lemma_wire_len(self.address@);
        }
        3 + self.address.len()
    }
}

} // verus!
