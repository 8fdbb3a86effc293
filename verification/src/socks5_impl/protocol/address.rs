//! The address of a SOCKS5 request, reply or datagram.
//!
//! ```plain
//! +------+----------+----------+
//! | ATYP | DST.ADDR | DST.PORT |
//! +------+----------+----------+
//! |  1   | Variable |    2     |
//! +------+----------+----------+
//! ```
//!
//! An IPv4 address takes four bytes and an IPv6 address sixteen; a domain
//! name is one length byte followed by that many bytes of UTF-8. The port is
//! big-endian.
use vstd::prelude::*;
use vstd::string::StringSliceAdditionalSpecFns;
use vstd::utf8::{decode_utf8, encode_utf8, valid_utf8};

use crate::bytes::{extend, to_vec};
use crate::net::{
    lemma_u16_be_roundtrip, spec_u16_be, spec_u16_from_be, u16_from_be, u16_hi, u16_lo, IpAddr,
    Ipv4Addr, Ipv6Addr, SocketAddr,
};
use crate::socks5_impl::error::Error;
use crate::socks5_impl::protocol::cursor::Cursor;
use crate::socks5_impl::protocol::StreamOperation;
use crate::text::{lemma_split_at_ascii, parse_u16, spec_parse_u16, str_from_utf8, string_from_utf8};

verus! {

/// Which kind of address follows the address type byte.
#[derive(Clone, Copy, Debug, PartialEq, Eq, Hash, PartialOrd, Ord)]
pub enum AddressType {
    IPv4,
    Domain,
    IPv6,
}

impl AddressType {
    /// The byte that stands for the address type on the wire.
    pub open spec fn spec_code(self) -> u8 {
        match self {
            AddressType::IPv4 => 0x01,
            AddressType::Domain => 0x03,
            AddressType::IPv6 => 0x04,
        }
    }

    /// The address type that a byte stands for.
    pub open spec fn spec_try_from(code: u8) -> Result<AddressType, Error> {
        if code == 0x01 {
            Ok(AddressType::IPv4)
        } else if code == 0x03 {
            Ok(AddressType::Domain)
        } else if code == 0x04 {
            Ok(AddressType::IPv6)
        } else {
            Err(Error::InvalidAddressType(code))
        }
    }

    /// The address type that a byte stands for.
    pub fn try_from(code: u8) -> (r: Result<AddressType, Error>)
        ensures
            r == Self::spec_try_from(code),
    {
        if code == 0x01 {
            Ok(AddressType::IPv4)
        } else if code == 0x03 {
            Ok(AddressType::Domain)
        } else if code == 0x04 {
            Ok(AddressType::IPv6)
        } else {
            Err(Error::InvalidAddressType(code))
        }
    }

    /// The byte that stands for the address type on the wire.
    pub fn code(self) -> (b: u8)
        ensures
            b == self.spec_code(),
            Self::spec_try_from(b) == Ok::<AddressType, Error>(self),
    {
        match self {
            AddressType::IPv4 => 0x01,
            AddressType::Domain => 0x03,
            AddressType::IPv6 => 0x04,
        }
    }
}

impl Default for AddressType {
    fn default() -> (t: AddressType)
        ensures
            t == AddressType::IPv4,
    {
        AddressType::IPv4
    }
}

/// Longest domain name that the one-byte length prefix can announce.
pub const MAX_DOMAIN_LEN: usize = 255;

/// Where a request is headed or a reply is bound: an endpoint, or a domain
/// name with a port.
#[derive(Clone, Debug, PartialEq, Eq, Hash, PartialOrd, Ord)]
pub enum Address {
    /// An IPv4 or IPv6 endpoint.
    SocketAddress(SocketAddr),
    /// A domain name and a port.
    DomainAddress(String, u16),
}

/// An address as a mathematical value: the domain name is its sequence of
/// characters.
pub enum AddressView {
    SocketAddress(SocketAddr),
    DomainAddress(Seq<char>, u16),
}

impl View for Address {
    type V = AddressView;

    open spec fn view(&self) -> AddressView {
        match self {
            Address::SocketAddress(addr) => AddressView::SocketAddress(*addr),
            Address::DomainAddress(name, port) => AddressView::DomainAddress(name@, *port),
        }
    }
}

impl AddressView {
    /// Whether the address has a wire form: a domain name must take between 1
    /// and 255 bytes of UTF-8.
    pub open spec fn wf(self) -> bool {
        match self {
            AddressView::SocketAddress(_) => true,
            AddressView::DomainAddress(name, _) => 1 <= encode_utf8(name).len() <= 255,
        }
    }

    /// The bytes that stand for the address on the wire.
    pub open spec fn wire(self) -> Seq<u8> {
        match self {
            AddressView::SocketAddress(SocketAddr { ip: IpAddr::V4(ip), port }) => seq![0x01u8]
                + ip.spec_octets() + spec_u16_be(port),
            AddressView::SocketAddress(SocketAddr { ip: IpAddr::V6(ip), port }) => seq![0x04u8]
                + ip.spec_octets() + spec_u16_be(port),
            AddressView::DomainAddress(name, port) => seq![
                0x03u8,
                encode_utf8(name).len() as u8,
            ] + encode_utf8(name) + spec_u16_be(port),
        }
    }

    /// Which kind of address this is.
    pub open spec fn spec_type(self) -> AddressType {
        match self {
            AddressView::SocketAddress(SocketAddr { ip: IpAddr::V4(_), .. }) => AddressType::IPv4,
            AddressView::SocketAddress(SocketAddr { ip: IpAddr::V6(_), .. }) => AddressType::IPv6,
            AddressView::DomainAddress(_, _) => AddressType::Domain,
        }
    }

    /// The port of the address.
    pub open spec fn spec_port(self) -> u16 {
        match self {
            AddressView::SocketAddress(addr) => addr.port,
            AddressView::DomainAddress(_, port) => port,
        }
    }
}

/// The address at the start of `b` and the number of bytes it occupies, or
/// why there is none.
///
/// The address type is judged as soon as its byte is there; a domain name is
/// refused for being empty as soon as its length byte is there, and for not
/// being UTF-8 once the name and the port are there.
pub open spec fn spec_decode(b: Seq<u8>) -> Result<(AddressView, nat), Error> {
    if b.len() < 1 {
        Err(Error::Incomplete { needed: 1 })
    } else if b[0] == 0x01 {
        if b.len() < 7 {
            Err(Error::Incomplete { needed: (7 - b.len()) as usize })
        } else {
            Ok(
                (
                    AddressView::SocketAddress(
                        SocketAddr {
                            ip: IpAddr::V4(Ipv4Addr { a: b[1], b: b[2], c: b[3], d: b[4] }),
                            port: spec_u16_from_be(b[5], b[6]),
                        },
                    ),
                    7,
                ),
            )
        }
    } else if b[0] == 0x03 {
        if b.len() < 2 {
            Err(Error::Incomplete { needed: 1 })
        } else if b[1] == 0 {
            Err(Error::InvalidDomainEncoding)
        } else if b.len() < 4 + b[1] {
            Err(Error::Incomplete { needed: (4 + b[1] - b.len()) as usize })
        } else if !valid_utf8(b.subrange(2, 2 + b[1])) {
            Err(Error::InvalidDomainEncoding)
        } else {
            Ok(
                (
                    AddressView::DomainAddress(
                        decode_utf8(b.subrange(2, 2 + b[1])),
                        spec_u16_from_be(b[2 + b[1]], b[3 + b[1]]),
                    ),
                    (4 + b[1]) as nat,
                ),
            )
        }
    } else if b[0] == 0x04 {
        if b.len() < 19 {
            Err(Error::Incomplete { needed: (19 - b.len()) as usize })
        } else {
            Ok(
                (
                    AddressView::SocketAddress(
                        SocketAddr {
                            ip: IpAddr::V6(Ipv6Addr::spec_from_octets(b.subrange(1, 17))),
                            port: spec_u16_from_be(b[17], b[18]),
                        },
                    ),
                    19,
                ),
            )
        }
    } else {
        Err(Error::InvalidAddressType(b[0]))
    }
}

/// How many of the bytes `b` a reader has taken when reading an address
/// from them has come to its end, well or badly.
///
/// A reader takes the type byte and judges it; for a domain name it takes
/// the length byte and judges it; then it takes the rest of the address.
/// So an unknown type costs one byte, an empty name two, a name that is not
/// UTF-8 the whole address, and bytes that end early are all taken.
pub open spec fn spec_taken(b: Seq<u8>) -> nat {
    if b.len() < 1 {
        b.len()
    } else if b[0] == 0x01 {
        if b.len() < 7 {
            b.len()
        } else {
            7
        }
    } else if b[0] == 0x03 {
        if b.len() < 2 {
            b.len()
        } else if b[1] == 0 {
            2
        } else if b.len() < 4 + b[1] {
            b.len()
        } else {
            (4 + b[1]) as nat
        }
    } else if b[0] == 0x04 {
        if b.len() < 19 {
            b.len()
        } else {
            19
        }
    } else {
        1
    }
}

/// How much a reader has taken, by the way the reading ended: the address
/// itself on success, one byte for an unknown type, everything there was
/// where the bytes ended early.
pub proof fn lemma_taken(b: Seq<u8>)
    ensures
        spec_taken(b) <= b.len(),
        spec_decode(b) matches Ok((_, n)) ==> spec_taken(b) == n,
        spec_decode(b) matches Err(Error::InvalidAddressType(_)) ==> spec_taken(b) == 1,
        spec_decode(b) matches Err(Error::Incomplete { .. }) ==> spec_taken(b) == b.len(),
{
}

/// Whether reading from the bytes `b` ends for want of bytes.
pub open spec fn spec_ends_early(b: Seq<u8>) -> bool {
    spec_decode(b) matches Err(Error::Incomplete { .. })
}

/// A reader that is fed piece by piece takes the same bytes as one that has
/// them all at hand.
///
/// Let reading from `b` end otherwise than for want of bytes. Then of any
/// shorter beginning than what was taken the decoder says that it is
/// incomplete, and asks for at least one byte and for no more than up to what
/// was taken; and of exactly what was taken it says what it says of all of
/// `b`. So a reader that starts with nothing and brings each time what was
/// asked for ends with the same outcome, having read what was taken and not
/// a byte more.
pub proof fn lemma_read_in_steps(b: Seq<u8>, k: int)
    requires
        !spec_ends_early(b),
        0 <= k < spec_taken(b),
    ensures
        spec_decode(b.take(k)) matches Err(Error::Incomplete { needed }) && 1 <= needed
            <= spec_taken(b) - k,
        spec_decode(b.take(spec_taken(b) as int)) == spec_decode(b),
        spec_taken(b) <= b.len(),
{
    let p = b.take(k);
    let w = b.take(spec_taken(b) as int);
    assert(w[0] == b[0]);
    if k >= 1 {
        assert(p[0] == b[0]);
    }
    if b[0] == 0x03 {
        assert(w[1] == b[1]);
        if k >= 2 {
            assert(p[1] == b[1]);
        }
        if b[1] != 0 {
            assert(w.subrange(2, 2 + w[1]) =~= b.subrange(2, 2 + b[1]));
        }
    } else if b[0] == 0x04 {
        assert(w.subrange(1, 17) =~= b.subrange(1, 17));
    }
}

/// Decoding the wire form of an address gives the address back and stops
/// right behind it, whatever follows.
pub proof fn lemma_decode_wire(a: AddressView, rest: Seq<u8>)
    requires
        a.wf(),
    ensures
        spec_decode(a.wire() + rest) == Ok::<(AddressView, nat), Error>((a, a.wire().len())),
{
    broadcast use vstd::utf8::encode_utf8_valid_utf8, vstd::utf8::encode_utf8_decode_utf8;

    let b = a.wire() + rest;
    match a {
        AddressView::SocketAddress(SocketAddr { ip: IpAddr::V4(ip), port }) => {
            lemma_u16_be_roundtrip(port);
            assert(a.wire().len() == 7);
            assert(b[0] == 0x01 && b[1] == ip.a && b[2] == ip.b && b[3] == ip.c && b[4] == ip.d);
        },
        AddressView::SocketAddress(SocketAddr { ip: IpAddr::V6(ip), port }) => {
            lemma_u16_be_roundtrip(port);
            ip.lemma_octets_roundtrip();
            assert(a.wire().len() == 19);
            assert(b.subrange(1, 17) =~= ip.spec_octets());
        },
        AddressView::DomainAddress(name, port) => {
            lemma_u16_be_roundtrip(port);
            let enc = encode_utf8(name);
            assert(a.wire().len() == 4 + enc.len());
            assert(b[0] == 0x03);
            assert(b[1] == enc.len());
            assert(b.subrange(2, 2 + b[1]) =~= enc);
        },
    }
}

/// Reading an address piece by piece: of any proper beginning of its wire
/// form the decoder says that it is incomplete, and asks for at least one
/// byte and for no more than are still to come. A reader that brings each
/// time what was asked for therefore ends with the whole wire form, not a
/// byte more, and so with the address.
pub proof fn lemma_decode_beginning(a: AddressView, k: int)
    requires
        a.wf(),
        0 <= k < a.wire().len(),
    ensures
        spec_decode(a.wire().take(k)) matches Err(Error::Incomplete { needed }) && 1 <= needed
            <= a.wire().len() - k,
{
    let w = a.wire();
    let b = w.take(k);
    if k >= 1 {
        assert(b[0] == w[0]);
    }
    match a {
        AddressView::SocketAddress(SocketAddr { ip: IpAddr::V4(ip), port }) => {
            assert(w.len() == 7);
            assert(w[0] == 0x01);
        },
        AddressView::SocketAddress(SocketAddr { ip: IpAddr::V6(ip), port }) => {
            assert(w.len() == 19);
            assert(w[0] == 0x04);
        },
        AddressView::DomainAddress(name, port) => {
            let enc = encode_utf8(name);
            assert(w.len() == 4 + enc.len());
            assert(w[0] == 0x03);
            assert(w[1] == enc.len());
            if k >= 2 {
                assert(b[1] == w[1]);
            }
        },
    }
}

/// The wire form of an address is at least 5 and at most 259 bytes long.
pub proof fn lemma_wire_len(a: AddressView)
    requires
        a.wf(),
    ensures
        5 <= a.wire().len() <= 259,
{
}

/// Whether the last colon of `b` is at index `i`.
pub open spec fn spec_is_last_colon(b: Seq<u8>, i: int) -> bool {
    &&& 0 <= i < b.len()
    &&& b[i] == 0x3a
    &&& forall|j: int| i < j < b.len() ==> b[j] != 0x3a
}

/// The host and the port text that `b` is made of: what stands before and
/// after its last colon; without a colon, all of `b` and the port `0`.
pub open spec fn spec_host_and_port(b: Seq<u8>) -> (Seq<u8>, Seq<u8>) {
    if exists|i: int| spec_is_last_colon(b, i) {
        let i = choose|i: int| spec_is_last_colon(b, i);
        (b.take(i), b.skip(i + 1))
    } else {
        (b, seq![0x30u8])
    }
}

/// The domain address that the text `b` names, or why it names none. The
/// port is judged first, then the length of the host.
pub open spec fn spec_from_text(b: Seq<u8>) -> Result<AddressView, Error> {
    let (host, port) = spec_host_and_port(b);
    match spec_parse_u16(port) {
        None => Err(Error::InvalidPort),
        Some(p) => if 1 <= host.len() <= 255 {
            Ok(AddressView::DomainAddress(decode_utf8(host), p))
        } else {
            Err(Error::InvalidDomainEncoding)
        },
    }
}

/// The index of the last colon of `b`, if it has one.
fn last_colon(b: &[u8]) -> (r: Option<usize>)
    ensures
        match r {
            Some(i) => spec_is_last_colon(b@, i as int) && spec_host_and_port(b@) == (
                b@.take(i as int),
                b@.skip(i + 1),
            ),
            None => spec_host_and_port(b@) == (b@, seq![0x30u8]),
        },
{
    let mut i: usize = b.len();
    while i > 0
        invariant
            i <= b@.len(),
            forall|j: int| i <= j < b@.len() ==> b@[j] != 0x3a,
        decreases i,
    {
        i -= 1;
        if b[i] == 0x3a {
            proof {
                assert(spec_is_last_colon(b@, i as int));
                let c = choose|c: int| spec_is_last_colon(b@, c);
                assert(c == i);
            }
            return Some(i);
        }
    }
    proof {
        assert forall|c: int| !spec_is_last_colon(b@, c) by {}
    }
    None
}

impl Address {
    /// The domain address that `text` names: `HOST:PORT`, split at the last
    /// colon, or `HOST` alone for port 0.
    ///
    /// The host is taken as a name whatever it looks like: a caller that
    /// wants `127.0.0.1:80` to be an endpoint has to try that reading first.
    pub fn try_from_str(text: &str) -> (r: Result<Address, Error>)
        ensures
            match r {
                Ok(a) => spec_from_text(text.spec_bytes()) == Ok::<AddressView, Error>(a@)
                    && a@.wf(),
                Err(e) => spec_from_text(text.spec_bytes()) == Err::<AddressView, Error>(e),
            },
    {
        let bytes = text.as_bytes();
        proof {
            vstd::utf8::encode_utf8_valid_utf8(text@);
        }
        let (host, port) = match last_colon(bytes) {
            Some(i) => {
                proof {
                    lemma_split_at_ascii(bytes@, i as int);
                }
                let len = bytes.len();
                assert(i < len);
                let host = vstd::slice::slice_subrange(bytes, 0, i);
                let port_bytes = vstd::slice::slice_subrange(bytes, i + 1, len);
                assert(host@ =~= bytes@.take(i as int));
                assert(port_bytes@ =~= bytes@.skip(i + 1));
                let port_text = str_from_utf8(port_bytes).unwrap();
                proof {
                    vstd::utf8::decode_utf8_encode_utf8(port_bytes@);
                }
                (host, parse_u16(port_text))
            },
            None => {
                assert(spec_parse_u16(seq![0x30u8]) == Some(0u16)) by {
                    let zero = seq![0x30u8];
                    assert(zero.drop_last() =~= Seq::<u8>::empty());
                    reveal_with_fuel(crate::text::spec_digits_value, 2);
                }
                (bytes, Some(0u16))
            },
        };
        let port = match port {
            Some(p) => p,
            None => { return Err(Error::InvalidPort); },
        };
        if host.len() == 0 || host.len() > MAX_DOMAIN_LEN {
            return Err(Error::InvalidDomainEncoding);
        }
        proof {
            vstd::utf8::decode_utf8_encode_utf8(host@);
        }
        let name = string_from_utf8(to_vec(host)).unwrap();
        Ok(Address::DomainAddress(name, port))
    }

    /// The IPv4 endpoint `0.0.0.0:0`.
    pub fn unspecified() -> (a: Address)
        ensures
            a@ == AddressView::SocketAddress(
                SocketAddr { ip: IpAddr::V4(Ipv4Addr { a: 0, b: 0, c: 0, d: 0 }), port: 0 },
            ),
            a@.wf(),
    {
        Address::SocketAddress(SocketAddr::new(IpAddr::V4(Ipv4Addr::unspecified()), 0))
    }

    /// The address of an endpoint.
    pub fn from_socket_addr(addr: SocketAddr) -> (a: Address)
        ensures
            a@ == AddressView::SocketAddress(addr),
            a@.wf(),
    {
        Address::SocketAddress(addr)
    }

    /// The address of an IPv4 endpoint.
    pub fn from_ipv4(ip: Ipv4Addr, port: u16) -> (a: Address)
        ensures
            a@ == AddressView::SocketAddress(SocketAddr { ip: IpAddr::V4(ip), port }),
            a@.wf(),
    {
        Address::SocketAddress(SocketAddr::new(IpAddr::V4(ip), port))
    }

    /// The address of an IPv6 endpoint.
    pub fn from_ipv6(ip: Ipv6Addr, port: u16) -> (a: Address)
        ensures
            a@ == AddressView::SocketAddress(SocketAddr { ip: IpAddr::V6(ip), port }),
            a@.wf(),
    {
        Address::SocketAddress(SocketAddr::new(IpAddr::V6(ip), port))
    }

    /// The address of a domain name and a port, if the name takes between 1
    /// and 255 bytes.
    pub fn from_domain(name: String, port: u16) -> (r: Result<Address, Error>)
        ensures
            match r {
                Ok(a) => a@ == AddressView::DomainAddress(name@, port) && a@.wf(),
                Err(e) => e == Error::InvalidDomainEncoding && !AddressView::DomainAddress(
                    name@,
                    port,
                ).wf(),
            },
    {
        let n = name.as_str().as_bytes().len();
        if n == 0 || n > MAX_DOMAIN_LEN {
            Err(Error::InvalidDomainEncoding)
        } else {
            Ok(Address::DomainAddress(name, port))
        }
    }

    /// Whether the address can be written; see [`AddressView::wf`].
    pub fn is_valid(&self) -> (b: bool)
        ensures
            b == self@.wf(),
    {
        match self {
            Address::SocketAddress(_) => true,
            Address::DomainAddress(name, _) => {
                let n = name.as_str().as_bytes().len();
                1 <= n && n <= MAX_DOMAIN_LEN
            },
        }
    }

    /// Which kind of address this is.
    pub fn get_type(&self) -> (t: AddressType)
        ensures
            t == self@.spec_type(),
    {
        match self {
            Address::SocketAddress(addr) => {
                if addr.is_ipv4() {
                    AddressType::IPv4
                } else {
                    AddressType::IPv6
                }
            },
            Address::DomainAddress(_, _) => AddressType::Domain,
        }
    }

    /// The port of the address.
    pub fn port(&self) -> (p: u16)
        ensures
            p == self@.spec_port(),
    {
        match self {
            Address::SocketAddress(addr) => addr.port(),
            Address::DomainAddress(_, port) => *port,
        }
    }

    /// The domain name, if the address is one.
    pub fn domain(&self) -> (d: Option<String>)
        ensures
            match d {
                Some(name) => self@ matches AddressView::DomainAddress(n, _) && name@ == n,
                None => self@ is SocketAddress,
            },
    {
        match self {
            Address::SocketAddress(_) => None,
            Address::DomainAddress(name, _) => Some(name.clone()),
        }
    }

    /// Whether the address is an IPv4 endpoint.
    pub fn is_ipv4(&self) -> (b: bool)
        ensures
            b == (self@.spec_type() == AddressType::IPv4),
    {
        match self {
            Address::SocketAddress(addr) => addr.is_ipv4(),
            Address::DomainAddress(_, _) => false,
        }
    }

    /// Whether the address is an IPv6 endpoint.
    pub fn is_ipv6(&self) -> (b: bool)
        ensures
            b == (self@.spec_type() == AddressType::IPv6),
    {
        match self {
            Address::SocketAddress(addr) => addr.is_ipv6(),
            Address::DomainAddress(_, _) => false,
        }
    }

    /// Whether the address is a domain name.
    pub fn is_domain(&self) -> (b: bool)
        ensures
            b == (self@.spec_type() == AddressType::Domain),
    {
        match self {
            Address::SocketAddress(_) => false,
            Address::DomainAddress(_, _) => true,
        }
    }

    /// The longest wire form an address can have: type byte, length byte, 255
    /// bytes of name, port.
    pub fn max_serialized_len() -> (n: usize)
        ensures
            n == 259,
    {
        1 + 1 + MAX_DOMAIN_LEN + 2
    }

    /// Decodes the address at the start of `data` and says how many bytes it
    /// occupies.
    pub fn decode(data: &[u8]) -> (r: Result<(Address, usize), Error>)
        ensures
            match r {
                Ok((a, n)) => {
                    &&& spec_decode(data@) == Ok::<(AddressView, nat), Error>((a@, n as nat))
                    &&& n <= data@.len()
                    &&& a@.wf()
                    &&& n == a@.wire().len()
                },
                Err(e) => spec_decode(data@) == Err::<(AddressView, nat), Error>(e),
            },
            // A domain name of length zero is refused.
            data@.len() >= 2 && data@[0] == 0x03 && data@[1] == 0 ==> r == Err::<
                (Address, usize),
                Error,
            >(Error::InvalidDomainEncoding),
            // A domain name that is not UTF-8 is refused.
            data@.len() >= 2 && data@[0] == 0x03 && data@.len() >= 4 + data@[1] && !valid_utf8(
                data@.subrange(2, 2 + data@[1]),
            ) ==> r == Err::<(Address, usize), Error>(Error::InvalidDomainEncoding),
    {
        if data.len() < 1 {
            return Err(Error::Incomplete { needed: 1 });
        }
        let atyp = match AddressType::try_from(data[0]) {
            Ok(t) => t,
            Err(e) => { return Err(e); },
        };
        match atyp {
            AddressType::IPv4 => {
                if data.len() < 7 {
                    return Err(Error::Incomplete { needed: 7 - data.len() });
                }
                let ip = Ipv4Addr::new(data[1], data[2], data[3], data[4]);
                let port = u16_from_be(data[5], data[6]);
                Ok((Address::SocketAddress(SocketAddr::new(IpAddr::V4(ip), port)), 7))
            },
            AddressType::Domain => {
                if data.len() < 2 {
                    return Err(Error::Incomplete { needed: 1 });
                }
                let len = data[1] as usize;
                if len == 0 {
                    return Err(Error::InvalidDomainEncoding);
                }
                if data.len() < 4 + len {
                    return Err(Error::Incomplete { needed: 4 + len - data.len() });
                }
                let name_bytes = to_vec(vstd::slice::slice_subrange(data, 2, 2 + len));
                let port = u16_from_be(data[2 + len], data[3 + len]);
                match string_from_utf8(name_bytes) {
                    Some(name) => {
                        proof {
                            vstd::utf8::decode_utf8_encode_utf8(data@.subrange(2, 2 + len));
                        }
                        Ok((Address::DomainAddress(name, port), 4 + len))
                    },
                    None => Err(Error::InvalidDomainEncoding),
                }
            },
            AddressType::IPv6 => {
                if data.len() < 19 {
                    return Err(Error::Incomplete { needed: 19 - data.len() });
                }
                let ip = Ipv6Addr::from_slice(data, 1);
                let port = u16_from_be(data[17], data[18]);
                Ok((Address::SocketAddress(SocketAddr::new(IpAddr::V6(ip), port)), 19))
            },
        }
    }

    /// How many of the bytes `data` a reader has taken when reading an
    /// address from them has come to its end; see [`spec_taken`].
    pub fn taken(data: &[u8]) -> (n: usize)
        ensures
            n == spec_taken(data@),
            n <= data@.len(),
    {
        let len = data.len();
        if len < 1 {
            len
        } else if data[0] == 0x01 {
            if len < 7 {
                len
            } else {
                7
            }
        } else if data[0] == 0x03 {
            if len < 2 {
                len
            } else if data[1] == 0 {
                2
            } else if len < 4 + data[1] as usize {
                len
            } else {
                4 + data[1] as usize
            }
        } else if data[0] == 0x04 {
            if len < 19 {
                len
            } else {
                19
            }
        } else {
            1
        }
    }

    /// Reads one address from `stream`. On success the stream stands right
    /// behind the address. On failure it stands behind what had been read
    /// when the failure showed: behind the type byte where that names no
    /// type, behind the length byte of an empty name, behind the address
    /// where the name is not UTF-8, at the end where the bytes ended early.
    pub fn retrieve_from_stream(stream: &mut Cursor) -> (r: Result<Address, Error>)
        ensures
            final(stream).source() == old(stream).source(),
            final(stream).consumed() == old(stream).consumed() + spec_taken(
                old(stream).remaining(),
            ),
            match r {
                Ok(a) => {
                    &&& spec_decode(old(stream).remaining()) == Ok::<(AddressView, nat), Error>(
                        (a@, a@.wire().len()),
                    )
                    &&& a@.wf()
                    &&& final(stream).consumed() == old(stream).consumed() + a@.wire().len()
                },
                Err(e) => spec_decode(old(stream).remaining()) == Err::<(AddressView, nat), Error>(
                    e,
                ),
            },
            // An unknown address type costs the type byte and no more.
            r matches Err(Error::InvalidAddressType(_)) ==> final(stream).consumed() == old(
                stream,
            ).consumed() + 1,
    {
        let rest = stream.rest();
        let r = Address::decode(rest);
        stream.advance(Address::taken(rest));
        proof {
            lemma_taken(rest@);
        }
        match r {
            Ok((a, _)) => Ok(a),
            Err(e) => Err(e),
        }
    }

    /// The wire form of the address as a buffer of its own.
    pub fn to_bytes(&self) -> (v: Vec<u8>)
        requires
            self@.wf(),
        ensures
            v@ == self@.wire(),
    {
        let mut buf = Vec::new();
        self.write_to_buf(&mut buf);
        assert(buf@ =~= self@.wire());
        buf
    }

    /// Decodes the address that `data` starts with.
    pub fn try_from_bytes(data: &[u8]) -> (r: Result<Address, Error>)
        ensures
            match r {
                Ok(a) => spec_decode(data@) == Ok::<(AddressView, nat), Error>(
                    (a@, a@.wire().len()),
                ) && a@.wf(),
                Err(e) => spec_decode(data@) == Err::<(AddressView, nat), Error>(e),
            },
    {
        match Address::decode(data) {
            Ok((a, _)) => Ok(a),
            Err(e) => Err(e),
        }
    }
}

impl StreamOperation for Address {
    open spec fn wf(&self) -> bool {
        self@.wf()
    }

    open spec fn wire(&self) -> Seq<u8> {
        self@.wire()
    }

    fn write_to_buf(&self, buf: &mut Vec<u8>) {
        match self {
            Address::SocketAddress(addr) => {
                match addr.ip() {
                    IpAddr::V4(ip) => {
                        buf.push(AddressType::IPv4.code());
                        let octets = ip.octets();
                        extend(buf, &octets);
                    },
                    IpAddr::V6(ip) => {
                        buf.push(AddressType::IPv6.code());
                        let octets = ip.octets();
                        extend(buf, &octets);
                    },
                }
                buf.push(u16_hi(addr.port()));
                buf.push(u16_lo(addr.port()));
            },
            Address::DomainAddress(name, port) => {
                let bytes = name.as_str().as_bytes();
                buf.push(AddressType::Domain.code());
                buf.push(bytes.len() as u8);
                extend(buf, bytes);
                buf.push(u16_hi(*port));
                buf.push(u16_lo(*port));
            },
        }
        assert(buf@ =~= old(buf)@ + self@.wire());
    }

    fn len(&self) -> (n: usize) {
        match self {
            Address::SocketAddress(addr) => {
                if addr.is_ipv4() {
                    1 + 4 + 2
                } else {
                    1 + 16 + 2
                }
            },
            Address::DomainAddress(name, _) => 1 + 1 + name.as_str().as_bytes().len() + 2,
        }
    }
}

} // verus!
