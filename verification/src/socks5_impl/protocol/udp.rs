//! The header that SOCKS5 puts in front of every relayed datagram.
//!
//! ```plain
//! +-----+------+------+----------+----------+----------+
//! | RSV | FRAG | ATYP | DST.ADDR | DST.PORT |   DATA   |
//! +-----+------+------+----------+----------+----------+
//! |  2  |  1   |  1   | Variable |    2     | Variable |
//! +-----+------+------+----------+----------+----------+
//! ```
use vstd::prelude::*;

use crate::bytes::extend;
use crate::socks5_impl::error::Error;
use crate::socks5_impl::protocol::address::{self, Address, AddressView};
use crate::socks5_impl::protocol::cursor::Cursor;
use crate::socks5_impl::protocol::StreamOperation;

verus! {

/// The fragment number of a datagram and the address it is for or from.
///
/// A fragment number other than zero is carried as it is: fragments are not
/// put together here.
#[derive(Clone, Debug)]
pub struct UdpHeader {
    pub frag: u8,
    pub address: Address,
}

/// A datagram header as a mathematical value.
pub struct UdpHeaderView {
    pub frag: u8,
    pub address: AddressView,
}

impl View for UdpHeader {
    type V = UdpHeaderView;

    open spec fn view(&self) -> UdpHeaderView {
        UdpHeaderView { frag: self.frag, address: self.address@ }
    }
}

impl UdpHeaderView {
    /// Whether the header has a wire form: its address must have one.
    pub open spec fn wf(self) -> bool {
        self.address.wf()
    }

    /// The bytes that stand for the header on the wire.
    pub open spec fn wire(self) -> Seq<u8> {
        seq![0u8, 0u8, self.frag] + self.address.wire()
    }
}

/// The header at the start of `b` and the number of bytes it occupies, or why
/// there is none. Both reserved bytes must be zero.
pub open spec fn spec_decode(b: Seq<u8>) -> Result<(UdpHeaderView, nat), Error> {
    if b.len() < 3 {
        Err(Error::Incomplete { needed: (3 - b.len()) as usize })
    } else if b[0] != 0 {
        Err(Error::InvalidReserved(b[0]))
    } else if b[1] != 0 {
        Err(Error::InvalidReserved(b[1]))
    } else {
        match address::spec_decode(b.skip(3)) {
            Err(e) => Err(e),
            Ok((a, n)) => Ok((UdpHeaderView { frag: b[2], address: a }, 3 + n)),
        }
    }
}

/// How many of the bytes `b` a reader has taken when reading a header from
/// them has come to its end: three where a reserved byte is refused; behind
/// that, what reading the address took; all bytes where they end early.
pub open spec fn spec_taken(b: Seq<u8>) -> nat {
    if b.len() < 3 {
        b.len()
    } else if b[0] != 0 || b[1] != 0 {
        3
    } else {
        3 + address::spec_taken(b.skip(3))
    }
}

/// The header and the payload of a datagram, or why the datagram is
/// malformed.
pub open spec fn spec_split_datagram(pkt: Seq<u8>) -> Result<(UdpHeaderView, Seq<u8>), Error> {
    match spec_decode(pkt) {
        Err(e) => Err(e),
        Ok((h, n)) => Ok((h, pkt.skip(n as int))),
    }
}

/// Decoding the wire form of a header gives the header back and stops right
/// behind it, whatever follows.
pub proof fn lemma_decode_wire(h: UdpHeaderView, rest: Seq<u8>)
    requires
        h.wf(),
    ensures
        spec_decode(h.wire() + rest) == Ok::<(UdpHeaderView, nat), Error>((h, h.wire().len())),
{
    let b = h.wire() + rest;
    address::lemma_decode_wire(h.address, rest);
    assert(b.skip(3) =~= h.address.wire() + rest);
    assert(b[2] == h.frag);
}

/// Taking apart the datagram made of a header and a payload gives back that
/// header and that payload.
pub proof fn lemma_datagram_roundtrip(h: UdpHeaderView, payload: Seq<u8>)
    requires
        h.wf(),
    ensures
        spec_split_datagram(h.wire() + payload) == Ok::<(UdpHeaderView, Seq<u8>), Error>(
            (h, payload),
        ),
{
    lemma_decode_wire(h, payload);
    assert((h.wire() + payload).skip(h.wire().len() as int) =~= payload);
}

impl UdpHeader {
    /// The header of fragment `frag` for `address`.
    pub fn new(frag: u8, address: Address) -> (h: UdpHeader)
        ensures
            h.frag == frag,
            h.address == address,
    {
        UdpHeader { frag, address }
    }

    /// The longest wire form a header can have.
    pub fn max_serialized_len() -> (n: usize)
        ensures
            n == 262,
    {
        3 + Address::max_serialized_len()
    }

    /// Decodes the header at the start of `data` and says how many bytes it
    /// occupies.
    pub fn decode(data: &[u8]) -> (r: Result<(UdpHeader, usize), Error>)
        ensures
            match r {
                Ok((h, n)) => {
                    &&& spec_decode(data@) == Ok::<(UdpHeaderView, nat), Error>((h@, n as nat))
                    &&& n <= data@.len()
                    &&& h@.wf()
                    &&& n == h@.wire().len()
                },
                Err(e) => spec_decode(data@) == Err::<(UdpHeaderView, nat), Error>(e),
            },
    {
        if data.len() < 3 {
            return Err(Error::Incomplete { needed: 3 - data.len() });
        }
        if data[0] != 0 {
            return Err(Error::InvalidReserved(data[0]));
        }
        if data[1] != 0 {
            return Err(Error::InvalidReserved(data[1]));
        }
        let frag = data[2];
        let tail = vstd::slice::slice_subrange(data, 3, data.len());
        assert(tail@ =~= data@.skip(3));
        match Address::decode(tail) {
            Ok((address, n)) => Ok((UdpHeader { frag, address }, 3 + n)),
            Err(e) => Err(e),
        }
    }

    /// How many of the bytes `data` a reader has taken when reading a
    /// header from them has come to its end; see [`spec_taken`].
    pub fn taken(data: &[u8]) -> (n: usize)
        ensures
            n == spec_taken(data@),
            n <= data@.len(),
    {
        let len = data.len();
        if len < 3 {
            len
        } else if data[0] != 0 || data[1] != 0 {
            3
        } else {
            let tail = vstd::slice::slice_subrange(data, 3, len);
            assert(tail@ =~= data@.skip(3));
            3 + Address::taken(tail)
        }
    }

    /// Reads one header from `stream`. On success the stream stands right
    /// behind the header. On failure it stands behind what had been read
    /// when the failure showed: behind the first three bytes where a
    /// reserved byte is refused, in the address where that is refused, at the
    /// end where the bytes ended early.
    pub fn retrieve_from_stream(stream: &mut Cursor) -> (r: Result<UdpHeader, Error>)
        ensures
            final(stream).source() == old(stream).source(),
            final(stream).consumed() == old(stream).consumed() + spec_taken(
                old(stream).remaining(),
            ),
            match r {
                Ok(h) => {
                    &&& spec_decode(old(stream).remaining()) == Ok::<(UdpHeaderView, nat), Error>(
                        (h@, h@.wire().len()),
                    )
                    &&& h@.wf()
                    &&& final(stream).consumed() == old(stream).consumed() + h@.wire().len()
                },
                Err(e) => spec_decode(old(stream).remaining()) == Err::<
                    (UdpHeaderView, nat),
                    Error,
                >(e),
            },
    {
        let rest = stream.rest();
        let r = UdpHeader::decode(rest);
        stream.advance(UdpHeader::taken(rest));
        proof {
            address::lemma_taken(rest@.skip(3));
        }
        match r {
            Ok((h, _)) => Ok(h),
            Err(e) => Err(e),
        }
    }

    /// The datagram to send: the header followed by `payload`.
    pub fn encode_datagram(&self, payload: &[u8]) -> (pkt: Vec<u8>)
        requires
            self@.wf(),
        ensures
            pkt@ == self@.wire() + payload@,
    {
        let mut buf = Vec::new();
        self.write_to_buf(&mut buf);
        extend(&mut buf, payload);
        assert(buf@ =~= self@.wire() + payload@);
        buf
    }

    /// Takes a received datagram apart into its header and its payload.
    pub fn split_datagram(pkt: &[u8]) -> (r: Result<(UdpHeader, &[u8]), Error>)
        ensures
            match r {
                Ok((h, payload)) => spec_split_datagram(pkt@) == Ok::<
                    (UdpHeaderView, Seq<u8>),
                    Error,
                >((h@, payload@)) && h@.wf(),
                Err(e) => spec_split_datagram(pkt@) == Err::<(UdpHeaderView, Seq<u8>), Error>(e),
            },
    {
        match UdpHeader::decode(pkt) {
            Ok((h, n)) => {
                let payload = vstd::slice::slice_subrange(pkt, n, pkt.len());
                assert(payload@ =~= pkt@.skip(n as int));
                Ok((h, payload))
            },
            Err(e) => Err(e),
        }
    }
}

impl StreamOperation for UdpHeader {
    open spec fn wf(&self) -> bool {
        self@.wf()
    }

    open spec fn wire(&self) -> Seq<u8> {
        self@.wire()
    }

    fn write_to_buf(&self, buf: &mut Vec<u8>) {
        buf.push(0x00);
        buf.push(0x00);
        buf.push(self.frag);
        self.address.write_to_buf(buf);
        assert(buf@ =~= old(buf)@ + self.wire());
    }

    fn len(&self) -> (n: usize) {
        proof {
            address::lemma_wire_len(self.address@);
        }
        3 + self.address.len()
    }
}

} // verus!
