//! A session whose client asked for BIND.
//!
//! BIND takes two replies: the first names the address the server listens on,
//! the second the peer that connected to it.
use vstd::prelude::*;

use crate::socks5_impl::protocol::response::ResponseView;
use crate::socks5_impl::protocol::{Address, Reply, Response, StreamOperation};

verus! {

/// Phase marker: the request has been read and the first reply is still owed.
#[derive(Debug, Default)]
pub struct NeedFirstReply;

/// Phase marker: the first reply has been written and the second is still
/// owed.
#[derive(Debug, Default)]
pub struct NeedSecondReply;

/// Phase marker: both replies have been written; the stream is the client's
/// connection to the peer from here on.
#[derive(Debug, Default)]
pub struct Ready;

/// A BIND session in phase `S`.
///
/// A value of this type can only come from the phase before it, and giving a
/// reply uses it up.
#[derive(Debug)]
pub struct Bind<S> {
    state: S,
}

/// The bytes of the reply `reply`, bound to `addr`.
fn reply_bytes(reply: Reply, addr: Address) -> (buf: Vec<u8>)
    requires
        addr@.wf(),
    ensures
        buf@ == (ResponseView { reply, address: addr@ }).wire(),
{
    let resp = Response::new(reply, addr);
    let mut buf = Vec::new();
    resp.write_to_buf(&mut buf);
    assert(buf@ =~= resp@.wire());
    buf
}

impl Bind<NeedFirstReply> {
    pub(in crate::socks5_impl::server::connection) fn new() -> Bind<NeedFirstReply> {
        Bind { state: NeedFirstReply }
    }

    /// Gives the first reply. Returns the session in its next phase and the
    /// bytes to write to the client.
    pub fn reply(self, reply: Reply, addr: Address) -> (r: (Bind<NeedSecondReply>, Vec<u8>))
        requires
            addr@.wf(),
        ensures
            r.1@ == (ResponseView { reply, address: addr@ }).wire(),
    {
        (Bind { state: NeedSecondReply }, reply_bytes(reply, addr))
    }
}

impl Bind<NeedSecondReply> {
    /// Gives the second reply. Returns the session in its last phase and the
    /// bytes to write to the client.
    pub fn reply(self, reply: Reply, addr: Address) -> (r: (Bind<Ready>, Vec<u8>))
        requires
            addr@.wf(),
        ensures
            r.1@ == (ResponseView { reply, address: addr@ }).wire(),
    {
        (Bind { state: Ready }, reply_bytes(reply, addr))
    }
}

} // verus!
