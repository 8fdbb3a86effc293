//! A session whose client asked for CONNECT.
use vstd::prelude::*;

use crate::socks5_impl::protocol::response::ResponseView;
use crate::socks5_impl::protocol::{Address, Reply, Response, StreamOperation};

verus! {

/// Phase marker: the request has been read and the reply is still owed.
#[derive(Debug, Default)]
pub struct NeedReply;

/// Phase marker: the reply has been written; the stream is the client's
/// connection to the target from here on.
#[derive(Debug, Default)]
pub struct Ready;

/// A CONNECT session in phase `S`.
///
/// A value of this type can only come from the phase before it, and giving
/// the reply uses it up.
#[derive(Debug)]
pub struct Connect<S> {
    state: S,
}

impl Connect<NeedReply> {
    pub(in crate::socks5_impl::server::connection) fn new() -> Connect<NeedReply> {
        Connect { state: NeedReply }
    }

    /// Answers the client. Returns the session in its next phase and the
    /// bytes to write to the client.
    pub fn reply(self, reply: Reply, addr: Address) -> (r: (Connect<Ready>, Vec<u8>))
        requires
            addr@.wf(),
        ensures
            r.1@ == (ResponseView { reply, address: addr@ }).wire(),
    {
        let resp = Response::new(reply, addr);
        let mut buf = Vec::new();
        resp.write_to_buf(&mut buf);
        assert(buf@ =~= resp@.wire());
        (Connect { state: Ready }, buf)
    }
}

} // verus!
