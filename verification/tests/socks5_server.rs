use proxy_codecs::net::Ipv4Addr;
use proxy_codecs::socks5_impl::protocol::handshake::Request as HandshakeRequest;
use proxy_codecs::socks5_impl::protocol::{Address, AuthMethod, Reply};
use proxy_codecs::socks5_impl::server::connection::associate::{
    frame_datagram, open_datagram, payload_sent,
};
use proxy_codecs::socks5_impl::server::connection::{
    Authenticated, ClientConnection, IncomingConnection, Negotiated,
};
use proxy_codecs::socks5_impl::Error;

fn authenticated() -> Authenticated {
    match IncomingConnection::new(AuthMethod::NoAuth, false).authenticate(&[5, 1, 0]).outcome {
        Ok(Negotiated::Authenticated(a)) => a,
        other => panic!("{:?}", other),
    }
}

#[test]
fn socks5_connect_handshake() {
    // Client: 05 01 00; server: 05 00.
    let incoming = IncomingConnection::new(AuthMethod::NoAuth, false);
    let handshake = incoming.authenticate(&[0x05, 0x01, 0x00]);
    assert_eq!(handshake.reply, vec![0x05, 0x00]);
    let authenticated = match handshake.outcome {
        Ok(Negotiated::Authenticated(a)) => a,
        other => panic!("{:?}", other),
    };

    // Client: 05 01 00 01 7F 00 00 01 00 50.
    let connection = authenticated
        .wait_request(&[0x05, 0x01, 0x00, 0x01, 0x7F, 0x00, 0x00, 0x01, 0x00, 0x50])
        .unwrap();
    let (connect, target) = match connection {
        ClientConnection::Connect(connect, target) => (connect, target),
        other => panic!("{:?}", other),
    };
    assert_eq!(target, Address::from_ipv4(Ipv4Addr::new(127, 0, 0, 1), 80));

    // Server: 05 00 00 01 00 00 00 00 00 00; the session is ready.
    let (_ready, reply) = connect.reply(Reply::Succeeded, Address::unspecified());
    assert_eq!(reply, vec![0x05, 0x00, 0x00, 0x01, 0x00, 0x00, 0x00, 0x00, 0x00, 0x00]);
}

#[test]
fn socks5_method_selection() {
    let offers = HandshakeRequest::new(vec![AuthMethod::NoAuth, AuthMethod::UserPass]);
    let only_gss = HandshakeRequest::new(vec![AuthMethod::Other(1)]);

    let strict = IncomingConnection::new(AuthMethod::UserPass, false);
    assert_eq!(strict.evaluate_request(&offers), Some(AuthMethod::UserPass));
    assert_eq!(strict.evaluate_request(&only_gss), None);

    let lenient = IncomingConnection::new(AuthMethod::UserPass, true);
    assert_eq!(lenient.evaluate_request(&offers), Some(AuthMethod::UserPass));
    assert_eq!(lenient.evaluate_request(&only_gss), Some(AuthMethod::NoAuth));
}

#[test]
fn socks5_greeting_with_nothing_acceptable() {
    let incoming = IncomingConnection::new(AuthMethod::UserPass, false);
    let handshake = incoming.authenticate(&[5, 2, 0, 1]);
    assert_eq!(handshake.reply, vec![5, 0xff]);
    assert_eq!(handshake.outcome.unwrap_err(), Error::NoAcceptableMethods);

    // With the fallback allowed the same client is served without authentication.
    let incoming = IncomingConnection::new(AuthMethod::UserPass, true);
    let handshake = incoming.authenticate(&[5, 2, 0, 1]);
    assert_eq!(handshake.reply, vec![5, 0]);
    assert!(matches!(handshake.outcome, Ok(Negotiated::Authenticated(_))));
}

#[test]
fn socks5_password_sub_negotiation() {
    let incoming = IncomingConnection::new(AuthMethod::UserPass, false);
    let handshake = incoming.authenticate(&[5, 2, 0, 2]);
    assert_eq!(handshake.reply, vec![5, 2]);
    let sub = match handshake.outcome {
        Ok(Negotiated::SubNegotiation(sub)) => sub,
        other => panic!("{:?}", other),
    };
    assert_eq!(sub.method(), AuthMethod::UserPass);
    let concluded = sub.conclude(true);
    assert_eq!(concluded.reply, vec![1, 0]);
    assert!(concluded.outcome.is_ok());

    let incoming = IncomingConnection::new(AuthMethod::UserPass, false);
    let sub = match incoming.authenticate(&[5, 1, 2]).outcome {
        Ok(Negotiated::SubNegotiation(sub)) => sub,
        other => panic!("{:?}", other),
    };
    let concluded = sub.conclude(false);
    assert_eq!(concluded.reply, vec![1, 0xff]);
    assert_eq!(concluded.outcome.unwrap_err(), Error::AuthRejected);

    // Another method has no status message of its own here.
    let incoming = IncomingConnection::new(AuthMethod::Other(0x80), false);
    let handshake = incoming.authenticate(&[5, 1, 0x80]);
    assert_eq!(handshake.reply, vec![5, 0x80]);
    let sub = match handshake.outcome {
        Ok(Negotiated::SubNegotiation(sub)) => sub,
        other => panic!("{:?}", other),
    };
    let concluded = sub.conclude(true);
    assert!(concluded.reply.is_empty());
    assert!(concluded.outcome.is_ok());
}

#[test]
fn socks5_other_version_is_refused_without_reply() {
    for version in [0u8, 1, 4, 6, 0xff] {
        let incoming = IncomingConnection::new(AuthMethod::NoAuth, true);
        let handshake = incoming.authenticate(&[version, 1, 0]);
        assert!(handshake.reply.is_empty());
        assert_eq!(handshake.outcome.unwrap_err(), Error::UnsupportedVersion(version));

        // Already with the first byte.
        let incoming = IncomingConnection::new(AuthMethod::NoAuth, true);
        let handshake = incoming.authenticate(&[version]);
        assert!(handshake.reply.is_empty());
        assert_eq!(handshake.outcome.unwrap_err(), Error::UnsupportedVersion(version));

        let err = authenticated()
            .wait_request(&[version, 1, 0, 1, 127, 0, 0, 1, 0, 80])
            .unwrap_err();
        assert_eq!(err, Error::UnsupportedVersion(version));
    }
}

#[test]
fn socks5_greeting_that_is_cut_short_gets_no_reply() {
    let incoming = IncomingConnection::new(AuthMethod::NoAuth, true);
    let handshake = incoming.authenticate(&[5, 2, 0]);
    assert!(handshake.reply.is_empty());
    assert_eq!(handshake.outcome.unwrap_err(), Error::Incomplete { needed: 1 });
}

#[test]
fn socks5_request_opens_the_phase_it_asks_for() {
    let connection = authenticated().wait_request(&[5, 2, 0, 1, 10, 0, 0, 1, 0x1f, 0x90]).unwrap();
    let (bind, target) = match connection {
        ClientConnection::Bind(bind, target) => (bind, target),
        other => panic!("{:?}", other),
    };
    assert_eq!(target, Address::from_ipv4(Ipv4Addr::new(10, 0, 0, 1), 8080));
    let listening = Address::from_ipv4(Ipv4Addr::new(192, 0, 2, 1), 4000);
    let (bind, first) = bind.reply(Reply::Succeeded, listening);
    assert_eq!(first, vec![5, 0, 0, 1, 192, 0, 2, 1, 0x0f, 0xa0]);
    let peer = Address::from_ipv4(Ipv4Addr::new(198, 51, 100, 7), 5000);
    let (_ready, second) = bind.reply(Reply::Succeeded, peer);
    assert_eq!(second, vec![5, 0, 0, 1, 198, 51, 100, 7, 0x13, 0x88]);

    let connection = authenticated()
        .wait_request(&[5, 3, 0, 3, 1, b'x', 0, 0])
        .unwrap();
    let (associate, target) = match connection {
        ClientConnection::UdpAssociate(associate, target) => (associate, target),
        other => panic!("{:?}", other),
    };
    assert_eq!(target, Address::from_domain("x".to_string(), 0).unwrap());
    let (_ready, reply) = associate.reply(
        Reply::CommandNotSupported,
        Address::from_domain("relay.example".to_string(), 1080).unwrap(),
    );
    let mut expected = vec![5, 7, 0, 3, 13];
    expected.extend_from_slice(b"relay.example");
    expected.extend_from_slice(&[0x04, 0x38]);
    assert_eq!(reply, expected);
}

#[test]
fn socks5_bad_request_opens_nothing() {
    assert_eq!(
        authenticated().wait_request(&[5, 4, 0, 1, 1, 2, 3, 4, 0, 80]).unwrap_err(),
        Error::InvalidCommand(4)
    );
    assert_eq!(
        authenticated().wait_request(&[5, 1, 1, 1, 1, 2, 3, 4, 0, 80]).unwrap_err(),
        Error::InvalidReserved(1)
    );
    assert_eq!(
        authenticated().wait_request(&[5, 1, 0, 2, 1, 2, 3, 4, 0, 80]).unwrap_err(),
        Error::InvalidAddressType(2)
    );
    assert_eq!(
        authenticated().wait_request(&[5, 1, 0, 3, 0, 0, 80]).unwrap_err(),
        Error::InvalidDomainEncoding
    );
    assert_eq!(
        authenticated().wait_request(&[5, 1, 0, 3, 2, 0xff, 0xff, 0, 80]).unwrap_err(),
        Error::InvalidDomainEncoding
    );
    assert_eq!(
        authenticated().wait_request(&[5, 1, 0, 1, 1, 2]).unwrap_err(),
        Error::Incomplete { needed: 4 }
    );
}

#[test]
fn socks5_udp_framing() {
    let from = Address::from_ipv4(Ipv4Addr::new(8, 8, 4, 4), 53);
    let datagram = frame_datagram(b"answer", 0, from.clone());
    assert_eq!(datagram, vec![0, 0, 0, 1, 8, 8, 4, 4, 0, 53, b'a', b'n', b's', b'w', b'e', b'r']);

    let (pkt, frag, addr) = open_datagram(&datagram).unwrap();
    assert_eq!(pkt, b"answer");
    assert_eq!(frag, 0);
    assert_eq!(addr, from);

    // A fragment is handed on as it is.
    let datagram = frame_datagram(b"part", 2, from.clone());
    let (pkt, frag, _) = open_datagram(&datagram).unwrap();
    assert_eq!((pkt, frag), (&b"part"[..], 2));

    // A malformed datagram is dropped.
    assert!(open_datagram(&[0, 1, 0, 1, 8, 8, 4, 4, 0, 53]).is_none());
    assert!(open_datagram(&[0, 0, 0, 1, 8, 8]).is_none());
    assert!(open_datagram(&[]).is_none());

    assert_eq!(payload_sent(16, 10), 6);
    assert_eq!(payload_sent(10, 10), 0);
    assert_eq!(payload_sent(4, 10), 0);
}
