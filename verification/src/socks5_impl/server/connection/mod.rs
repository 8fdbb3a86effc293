//! The phases of a server-side session.
//!
//! A session moves `IncomingConnection` → (`SubNegotiation` →)
//! `Authenticated` → one of `Connect`, `Bind`, `UdpAssociate`. Each step takes
//! the handle of the phase before it by value and hands out the handle of the
//! next phase together with the bytes that are to be written to the client,
//! so that no reply can be given out of turn and no phase can be skipped.
//!
//! The functions here decide; they do not read or write. The caller reads a
//! message off the stream, hands its bytes in, and writes what comes back.
pub mod associate;
pub mod bind;
pub mod connect;

use vstd::prelude::*;

use self::associate::UdpAssociate;
use self::bind::Bind;
use self::connect::Connect;
use crate::socks5_impl::error::Error;
use crate::socks5_impl::protocol::address::AddressView;
use crate::socks5_impl::protocol::handshake::password_method;
use crate::socks5_impl::protocol::handshake::request::spec_offers;
use crate::socks5_impl::protocol::request::RequestView;
use crate::socks5_impl::protocol::{
    handshake, request, Address, AuthMethod, Command, Request, StreamOperation,
};

verus! {

/// A connection that has been accepted and has not said anything yet.
#[derive(Debug)]
pub struct IncomingConnection {
    method: AuthMethod,
    allow_no_auth: bool,
}

/// The method that the server picks for a client that offers `offered`: the
/// configured method if the client offers it; else no authentication, if the
/// policy allows that; else none.
pub open spec fn spec_select(offered: Seq<AuthMethod>, configured: AuthMethod, allow_no_auth: bool)
    -> Option<AuthMethod> {
    if spec_offers(offered, configured) {
        Some(configured)
    } else if allow_no_auth {
        Some(AuthMethod::NoAuth)
    } else {
        None
    }
}

/// What the server writes in answer to a greeting. Nothing is written to a
/// greeting that could not be read.
pub open spec fn spec_greeting_reply(greeting: Seq<u8>, configured: AuthMethod, allow_no_auth: bool)
    -> Seq<u8> {
    match handshake::request::spec_decode(greeting) {
        Err(_) => Seq::<u8>::empty(),
        Ok((offered, _)) => match spec_select(offered, configured, allow_no_auth) {
            Some(m) => seq![5u8, m.spec_code()],
            None => seq![5u8, 0xffu8],
        },
    }
}

/// The method that a greeting leads to, or why the session ends.
pub open spec fn spec_greeting_outcome(
    greeting: Seq<u8>,
    configured: AuthMethod,
    allow_no_auth: bool,
) -> Result<AuthMethod, Error> {
    match handshake::request::spec_decode(greeting) {
        Err(e) => Err(e),
        Ok((offered, _)) => match spec_select(offered, configured, allow_no_auth) {
            Some(m) => Ok(m),
            None => Err(Error::NoAcceptableMethods),
        },
    }
}

/// A message that starts with any other version byte than 5 is refused as of
/// an unsupported version, in the greeting as in the request, and no reply is
/// written to it.
pub proof fn lemma_other_version_is_refused(
    message: Seq<u8>,
    configured: AuthMethod,
    allow_no_auth: bool,
)
    requires
        message.len() >= 1,
        message[0] != 5,
    ensures
        spec_greeting_outcome(message, configured, allow_no_auth) == Err::<AuthMethod, Error>(
            Error::UnsupportedVersion(message[0]),
        ),
        spec_greeting_reply(message, configured, allow_no_auth) == Seq::<u8>::empty(),
        request::spec_decode(message) == Err::<(RequestView, nat), Error>(
            Error::UnsupportedVersion(message[0]),
        ),
{
}

/// Where a session stands after method negotiation.
#[derive(Debug)]
pub enum Negotiated {
    /// No authentication was picked: the client may send its request.
    Authenticated(Authenticated),
    /// A method was picked that has an exchange of its own.
    SubNegotiation(SubNegotiation),
}

impl Negotiated {
    /// The method that was picked.
    pub open spec fn spec_method(self) -> AuthMethod {
        match self {
            Negotiated::Authenticated(_) => AuthMethod::NoAuth,
            Negotiated::SubNegotiation(s) => s.spec_method(),
        }
    }
}

/// The answer to a greeting.
#[derive(Debug)]
pub struct Handshake {
    /// The bytes to write to the client; empty if nothing is to be written.
    pub reply: Vec<u8>,
    /// The next phase, or why the session ends.
    pub outcome: Result<Negotiated, Error>,
}

impl IncomingConnection {
    /// A new session of a server whose method is `method`. `allow_no_auth`
    /// is the policy for clients that do not offer that method: whether they
    /// are served without authentication.
    pub fn new(method: AuthMethod, allow_no_auth: bool) -> (c: IncomingConnection)
        ensures
            c.spec_method() == AuthMethod::spec_from(method.spec_code()),
            c.spec_allow_no_auth() == allow_no_auth,
    {
        IncomingConnection { method: AuthMethod::from(method.code()), allow_no_auth }
    }

    /// The server's configured method.
    pub closed spec fn spec_method(self) -> AuthMethod {
        self.method
    }

    /// Whether clients that do not offer the configured method are served
    /// without authentication.
    pub closed spec fn spec_allow_no_auth(self) -> bool {
        self.allow_no_auth
    }

    /// The method to use with a client that sent `req`, if there is one.
    pub fn evaluate_request(&self, req: &handshake::Request) -> (m: Option<AuthMethod>)
        ensures
            m == spec_select(req@, self.spec_method(), self.spec_allow_no_auth()),
    {
        if req.evaluate_method(self.method) {
            Some(self.method)
        } else if self.allow_no_auth {
            Some(AuthMethod::NoAuth)
        } else {
            None
        }
    }

    /// Answers the client's greeting.
    ///
    /// A greeting that cannot be read ends the session and nothing is
    /// written; in particular a greeting of another protocol version. A
    /// greeting that offers nothing acceptable is answered with `05 FF` and
    /// ends the session. Otherwise the answer names the method that was
    /// picked.
    pub fn authenticate(self, greeting: &[u8]) -> (h: Handshake)
        ensures
            h.reply@ == spec_greeting_reply(
                greeting@,
                self.spec_method(),
                self.spec_allow_no_auth(),
            ),
            match h.outcome {
                Ok(n) => spec_greeting_outcome(
                    greeting@,
                    self.spec_method(),
                    self.spec_allow_no_auth(),
                ) == Ok::<AuthMethod, Error>(n.spec_method()) && (n is Authenticated
                    <==> n.spec_method() == AuthMethod::NoAuth),
                Err(e) => spec_greeting_outcome(
                    greeting@,
                    self.spec_method(),
                    self.spec_allow_no_auth(),
                ) == Err::<AuthMethod, Error>(e),
            },
            // A greeting of any other protocol version: refused, no reply.
            greeting@.len() >= 1 && greeting@[0] != 5 ==> h.reply@.len() == 0 && h.outcome is Err
                && h.outcome->Err_0 == Error::UnsupportedVersion(greeting@[0]),
    {
        let request = match handshake::Request::decode(greeting) {
            Ok((request, _)) => request,
            Err(e) => {
                return Handshake { reply: Vec::new(), outcome: Err(e) };
            },
        };
        match self.evaluate_request(&request) {
            Some(method) => {
                let response = handshake::Response::new(method);
                let mut reply = Vec::new();
                response.write_to_buf(&mut reply);
                assert(reply@ =~= seq![5u8, method.spec_code()]);
                let next = match method {
                    AuthMethod::NoAuth => Negotiated::Authenticated(Authenticated { sealed: () }),
                    _ => Negotiated::SubNegotiation(SubNegotiation { method }),
                };
                Handshake { reply, outcome: Ok(next) }
            },
            None => {
                let response = handshake::Response::new(AuthMethod::NoAcceptableMethods);
                let mut reply = Vec::new();
                response.write_to_buf(&mut reply);
                assert(reply@ =~= seq![5u8, 0xffu8]);
                Handshake { reply, outcome: Err(Error::NoAcceptableMethods) }
            },
        }
    }
}

/// A session whose method has an exchange of its own, which is still to be
/// had.
#[derive(Debug)]
pub struct SubNegotiation {
    method: AuthMethod,
}

/// The end of a sub-negotiation.
#[derive(Debug)]
pub struct Concluded {
    /// The bytes to write to the client; empty if nothing is to be written.
    pub reply: Vec<u8>,
    /// The next phase, or why the session ends.
    pub outcome: Result<Authenticated, Error>,
}

/// What the server writes at the end of a sub-negotiation: for username and
/// password the status message, for any other method nothing.
pub open spec fn spec_status_reply(method: AuthMethod, accepted: bool) -> Seq<u8> {
    if method == AuthMethod::UserPass {
        seq![
            1u8,
            if accepted {
                0x00u8
            } else {
                0xffu8
            },
        ]
    } else {
        Seq::<u8>::empty()
    }
}

impl SubNegotiation {
    /// The method that was picked.
    pub closed spec fn spec_method(self) -> AuthMethod {
        self.method
    }

    /// The method that was picked.
    pub fn method(&self) -> (m: AuthMethod)
        ensures
            m == self.spec_method(),
    {
        self.method
    }

    /// Ends the sub-negotiation with the answer of whoever checked the
    /// client's credentials.
    pub fn conclude(self, accepted: bool) -> (v: Concluded)
        ensures
            v.reply@ == spec_status_reply(self.spec_method(), accepted),
            v.outcome is Ok <==> accepted,
            v.outcome matches Err(e) ==> e == Error::AuthRejected,
    {
        let mut reply = Vec::new();
        match self.method {
            AuthMethod::UserPass => {
                password_method::Response::new(accepted).write_to_buf(&mut reply);
                assert(reply@ =~= spec_status_reply(self.spec_method(), accepted));
            },
            _ => {},
        }
        let outcome = if accepted {
            Ok(Authenticated { sealed: () })
        } else {
            Err(Error::AuthRejected)
        };
        Concluded { reply, outcome }
    }
}

/// A session that has passed authentication and awaits the client's request.
#[derive(Debug)]
pub struct Authenticated {
    sealed: (),
}

/// After the request has been read, the session is one of three kinds. Each
/// carries the address that the client asked for.
#[derive(Debug)]
pub enum ClientConnection {
    UdpAssociate(UdpAssociate<associate::NeedReply>, Address),
    Bind(Bind<bind::NeedFirstReply>, Address),
    Connect(Connect<connect::NeedReply>, Address),
}

impl ClientConnection {
    /// The command that the client gave.
    pub open spec fn spec_command(self) -> Command {
        match self {
            ClientConnection::UdpAssociate(_, _) => Command::UdpAssociate,
            ClientConnection::Bind(_, _) => Command::Bind,
            ClientConnection::Connect(_, _) => Command::Connect,
        }
    }

    /// The address that the client asked for.
    pub open spec fn spec_address(self) -> AddressView {
        match self {
            ClientConnection::UdpAssociate(_, a) => a@,
            ClientConnection::Bind(_, a) => a@,
            ClientConnection::Connect(_, a) => a@,
        }
    }
}

impl Authenticated {
    /// Takes the client's request and opens the phase that it asks for.
    ///
    /// Nothing is written in this step. A request that cannot be read ends
    /// the session; in particular a request of another protocol version.
    pub fn wait_request(self, request: &[u8]) -> (r: Result<ClientConnection, Error>)
        ensures
            match r {
                Ok(c) => request::spec_decode(request@) matches Ok((req, _)) && req == (RequestView {
                    command: c.spec_command(),
                    address: c.spec_address(),
                }) && c.spec_address().wf(),
                Err(e) => request::spec_decode(request@) == Err::<(RequestView, nat), Error>(e),
            },
            request@.len() >= 1 && request@[0] != 5 ==> r is Err && r->Err_0
                == Error::UnsupportedVersion(request@[0]),
    {
        let req = match Request::decode(request) {
            Ok((req, _)) => req,
            Err(e) => { return Err(e); },
        };
        match req.command {
            Command::UdpAssociate => Ok(
                ClientConnection::UdpAssociate(UdpAssociate::<associate::NeedReply>::new(), req.address),
            ),
            Command::Bind => Ok(
                ClientConnection::Bind(Bind::<bind::NeedFirstReply>::new(), req.address),
            ),
            Command::Connect => Ok(
                ClientConnection::Connect(Connect::<connect::NeedReply>::new(), req.address),
            ),
        }
    }
}

} // verus!
