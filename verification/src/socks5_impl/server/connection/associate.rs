//! A session whose client asked for UDP ASSOCIATE, and the framing of the
//! datagrams that are relayed for it.
use vstd::prelude::*;

use crate::socks5_impl::error::Error;
use crate::socks5_impl::protocol::response::ResponseView;
use crate::socks5_impl::protocol::udp::{spec_split_datagram, UdpHeaderView};
use crate::socks5_impl::protocol::{Address, Reply, Response, StreamOperation, UdpHeader};

verus! {

/// Phase marker: the request has been read and the reply is still owed.
#[derive(Debug, Default)]
pub struct NeedReply;

/// Phase marker: the reply has been written; datagrams are relayed for as
/// long as the client keeps the TCP stream open.
#[derive(Debug, Default)]
pub struct Ready;

/// A UDP ASSOCIATE session in phase `S`.
///
/// A value of this type can only come from the phase before it, and giving
/// the reply uses it up.
#[derive(Debug)]
pub struct UdpAssociate<S> {
    state: S,
}

impl UdpAssociate<NeedReply> {
    pub(in crate::socks5_impl::server::connection) fn new() -> UdpAssociate<NeedReply> {
        UdpAssociate { state: NeedReply }
    }

    /// Answers the client. Returns the session in its next phase and the
    /// bytes to write to the client.
    pub fn reply(self, reply: Reply, addr: Address) -> (r: (UdpAssociate<Ready>, Vec<u8>))
        requires
            addr@.wf(),
        ensures
            r.1@ == (ResponseView { reply, address: addr@ }).wire(),
    {
        let resp = Response::new(reply, addr);
        let mut buf = Vec::new();
        resp.write_to_buf(&mut buf);
        assert(buf@ =~= resp@.wire());
        (UdpAssociate { state: Ready }, buf)
    }
}

/// The datagram to send for `pkt`: the header of fragment `frag` from
/// `from_addr`, then `pkt`.
pub fn frame_datagram(pkt: &[u8], frag: u8, from_addr: Address) -> (datagram: Vec<u8>)
    requires
        from_addr@.wf(),
    ensures
        datagram@ == (UdpHeaderView { frag, address: from_addr@ }).wire() + pkt@,
{
    let header = UdpHeader::new(frag, from_addr);
    header.encode_datagram(pkt)
}

/// What a received datagram carries: payload, fragment number and target
/// address. `None` means that the datagram is malformed and is to be dropped;
/// the receiver goes on with the next one.
pub fn open_datagram(datagram: &[u8]) -> (r: Option<(&[u8], u8, Address)>)
    ensures
        match r {
            Some((pkt, frag, addr)) => spec_split_datagram(datagram@) == Ok::<
                (UdpHeaderView, Seq<u8>),
                Error,
            >((UdpHeaderView { frag, address: addr@ }, pkt@)) && addr@.wf(),
            None => spec_split_datagram(datagram@) is Err,
        },
{
    match UdpHeader::split_datagram(datagram) {
        Ok((header, pkt)) => Some((pkt, header.frag, header.address)),
        Err(_) => None,
    }
}

/// How many bytes of payload went out when `sent` bytes of a datagram with a
/// header of `header_len` bytes were sent.
pub fn payload_sent(sent: usize, header_len: usize) -> (n: usize)
    ensures
        n == (if sent >= header_len {
            sent - header_len
        } else {
            0
        }),
{
    if sent >= header_len {
        sent - header_len
    } else {
        0
    }
}

} // verus!
