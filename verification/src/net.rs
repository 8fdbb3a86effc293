//! Internet addresses as plain data.
//!
//! The codecs only ever read the octets and the port of an endpoint, so the
//! types here hold exactly that and nothing of the operating system's view of
//! a socket.
use vstd::prelude::*;

verus! {

/// The 16-bit value whose big-endian encoding is `hi`, `lo`.
pub open spec fn spec_u16_from_be(hi: u8, lo: u8) -> u16 {
    (hi as int * 256 + lo as int) as u16
}

/// The high byte of the big-endian encoding of `v`.
pub open spec fn spec_u16_hi(v: u16) -> u8 {
    (v as int / 256) as u8
}

/// The low byte of the big-endian encoding of `v`.
pub open spec fn spec_u16_lo(v: u16) -> u8 {
    (v as int % 256) as u8
}

/// The two bytes of `v`, most significant first.
pub open spec fn spec_u16_be(v: u16) -> Seq<u8> {
    seq![spec_u16_hi(v), spec_u16_lo(v)]
}

/// Reads a 16-bit value from its big-endian bytes.
pub fn u16_from_be(hi: u8, lo: u8) -> (v: u16)
    ensures
        v == spec_u16_from_be(hi, lo),
        spec_u16_hi(v) == hi,
        spec_u16_lo(v) == lo,
{
    (hi as u16) * 256 + (lo as u16)
}

/// The high byte of `v`.
pub fn u16_hi(v: u16) -> (b: u8)
    ensures
        b == spec_u16_hi(v),
{
    (v / 256) as u8
}

/// The low byte of `v`.
pub fn u16_lo(v: u16) -> (b: u8)
    ensures
        b == spec_u16_lo(v),
{
    (v % 256) as u8
}

/// Splitting a 16-bit value into its bytes and joining them again gives the
/// value back.
pub proof fn lemma_u16_be_roundtrip(v: u16)
    ensures
        spec_u16_from_be(spec_u16_hi(v), spec_u16_lo(v)) == v,
{
}

/// An IPv4 address: four octets in network order.
#[derive(Clone, Copy, Debug, PartialEq, Eq, Hash, PartialOrd, Ord)]
pub struct Ipv4Addr {
    pub a: u8,
    pub b: u8,
    pub c: u8,
    pub d: u8,
}

impl Ipv4Addr {
    /// The address `a.b.c.d`.
    pub fn new(a: u8, b: u8, c: u8, d: u8) -> (addr: Ipv4Addr)
        ensures
            addr == (Ipv4Addr { a, b, c, d }),
    {
        Ipv4Addr { a, b, c, d }
    }

    /// The address `0.0.0.0`.
    pub fn unspecified() -> (addr: Ipv4Addr)
        ensures
            addr == (Ipv4Addr { a: 0, b: 0, c: 0, d: 0 }),
    {
        Ipv4Addr { a: 0, b: 0, c: 0, d: 0 }
    }

    /// The four octets in network order.
    pub open spec fn spec_octets(self) -> Seq<u8> {
        seq![self.a, self.b, self.c, self.d]
    }

    /// The four octets in network order.
    pub fn octets(&self) -> (o: [u8; 4])
        ensures
            o@ == self.spec_octets(),
    {
        let o: [u8; 4] = [self.a, self.b, self.c, self.d];
        assert(o@ =~= self.spec_octets());
        o
    }
}

/// An IPv6 address: eight 16-bit segments, most significant first.
#[derive(Clone, Copy, Debug, PartialEq, Eq, Hash, PartialOrd, Ord)]
pub struct Ipv6Addr {
    pub s0: u16,
    pub s1: u16,
    pub s2: u16,
    pub s3: u16,
    pub s4: u16,
    pub s5: u16,
    pub s6: u16,
    pub s7: u16,
}

impl Ipv6Addr {
    /// The address with the given eight segments.
    pub fn new(s0: u16, s1: u16, s2: u16, s3: u16, s4: u16, s5: u16, s6: u16, s7: u16) -> (addr:
        Ipv6Addr)
        ensures
            addr == (Ipv6Addr { s0, s1, s2, s3, s4, s5, s6, s7 }),
    {
        Ipv6Addr { s0, s1, s2, s3, s4, s5, s6, s7 }
    }

    /// The address whose sixteen octets, in network order, are `o`.
    pub open spec fn spec_from_octets(o: Seq<u8>) -> Ipv6Addr
        recommends
            o.len() == 16,
    {
        Ipv6Addr {
            s0: spec_u16_from_be(o[0], o[1]),
            s1: spec_u16_from_be(o[2], o[3]),
            s2: spec_u16_from_be(o[4], o[5]),
            s3: spec_u16_from_be(o[6], o[7]),
            s4: spec_u16_from_be(o[8], o[9]),
            s5: spec_u16_from_be(o[10], o[11]),
            s6: spec_u16_from_be(o[12], o[13]),
            s7: spec_u16_from_be(o[14], o[15]),
        }
    }

    /// The sixteen octets in network order.
    pub open spec fn spec_octets(self) -> Seq<u8> {
        seq![
            spec_u16_hi(self.s0),
            spec_u16_lo(self.s0),
            spec_u16_hi(self.s1),
            spec_u16_lo(self.s1),
            spec_u16_hi(self.s2),
            spec_u16_lo(self.s2),
            spec_u16_hi(self.s3),
            spec_u16_lo(self.s3),
            spec_u16_hi(self.s4),
            spec_u16_lo(self.s4),
            spec_u16_hi(self.s5),
            spec_u16_lo(self.s5),
            spec_u16_hi(self.s6),
            spec_u16_lo(self.s6),
            spec_u16_hi(self.s7),
            spec_u16_lo(self.s7),
        ]
    }

    /// Reads the address from the sixteen bytes of `buf` that start at `at`.
    pub fn from_slice(buf: &[u8], at: usize) -> (addr: Ipv6Addr)
        requires
            at + 16 <= buf@.len(),
        ensures
            addr == Self::spec_from_octets(buf@.subrange(at as int, at + 16)),
    {
        Ipv6Addr {
            s0: u16_from_be(buf[at], buf[at + 1]),
            s1: u16_from_be(buf[at + 2], buf[at + 3]),
            s2: u16_from_be(buf[at + 4], buf[at + 5]),
            s3: u16_from_be(buf[at + 6], buf[at + 7]),
            s4: u16_from_be(buf[at + 8], buf[at + 9]),
            s5: u16_from_be(buf[at + 10], buf[at + 11]),
            s6: u16_from_be(buf[at + 12], buf[at + 13]),
            s7: u16_from_be(buf[at + 14], buf[at + 15]),
        }
    }

    /// The address whose sixteen octets, in network order, are `o`.
    pub fn from_octets(o: [u8; 16]) -> (addr: Ipv6Addr)
        ensures
            addr == Self::spec_from_octets(o@),
    {
        Ipv6Addr {
            s0: u16_from_be(o[0], o[1]),
            s1: u16_from_be(o[2], o[3]),
            s2: u16_from_be(o[4], o[5]),
            s3: u16_from_be(o[6], o[7]),
            s4: u16_from_be(o[8], o[9]),
            s5: u16_from_be(o[10], o[11]),
            s6: u16_from_be(o[12], o[13]),
            s7: u16_from_be(o[14], o[15]),
        }
    }

    /// The sixteen octets in network order.
    pub fn octets(&self) -> (o: [u8; 16])
        ensures
            o@ == self.spec_octets(),
    {
        let o: [u8; 16] = [
            u16_hi(self.s0),
            u16_lo(self.s0),
            u16_hi(self.s1),
            u16_lo(self.s1),
            u16_hi(self.s2),
            u16_lo(self.s2),
            u16_hi(self.s3),
            u16_lo(self.s3),
            u16_hi(self.s4),
            u16_lo(self.s4),
            u16_hi(self.s5),
            u16_lo(self.s5),
            u16_hi(self.s6),
            u16_lo(self.s6),
            u16_hi(self.s7),
            u16_lo(self.s7),
        ];
        assert(o@ =~= self.spec_octets());
        o
    }

    /// Writing an address as octets and reading the octets gives the address
    /// back.
    pub proof fn lemma_octets_roundtrip(self)
        ensures
            self.spec_octets().len() == 16,
            Self::spec_from_octets(self.spec_octets()) == self,
    {
        lemma_u16_be_roundtrip(self.s0);
        lemma_u16_be_roundtrip(self.s1);
        lemma_u16_be_roundtrip(self.s2);
        lemma_u16_be_roundtrip(self.s3);
        lemma_u16_be_roundtrip(self.s4);
        lemma_u16_be_roundtrip(self.s5);
        lemma_u16_be_roundtrip(self.s6);
        lemma_u16_be_roundtrip(self.s7);
    }
}

/// An IP address of either family.
#[derive(Clone, Copy, Debug, PartialEq, Eq, Hash, PartialOrd, Ord)]
pub enum IpAddr {
    V4(Ipv4Addr),
    V6(Ipv6Addr),
}

impl IpAddr {
    /// Whether this is an IPv4 address.
    pub fn is_ipv4(&self) -> (b: bool)
        ensures
            b == (*self is V4),
    {
        match self {
            IpAddr::V4(_) => true,
            IpAddr::V6(_) => false,
        }
    }

    /// Whether this is an IPv6 address.
    pub fn is_ipv6(&self) -> (b: bool)
        ensures
            b == (*self is V6),
    {
        match self {
            IpAddr::V4(_) => false,
            IpAddr::V6(_) => true,
        }
    }
}

/// An endpoint: an IP address and a port.
#[derive(Clone, Copy, Debug, PartialEq, Eq, Hash, PartialOrd, Ord)]
pub struct SocketAddr {
    pub ip: IpAddr,
    pub port: u16,
}

impl SocketAddr {
    /// The endpoint `ip:port`.
    pub fn new(ip: IpAddr, port: u16) -> (addr: SocketAddr)
        ensures
            addr == (SocketAddr { ip, port }),
    {
        SocketAddr { ip, port }
    }

    /// The IP address of the endpoint.
    pub fn ip(&self) -> (ip: IpAddr)
        ensures
            ip == self.ip,
    {
        self.ip
    }

    /// The port of the endpoint.
    pub fn port(&self) -> (port: u16)
        ensures
            port == self.port,
    {
        self.port
    }

    /// Whether the endpoint has an IPv4 address.
    pub fn is_ipv4(&self) -> (b: bool)
        ensures
            b == (self.ip is V4),
    {
        self.ip.is_ipv4()
    }

    /// Whether the endpoint has an IPv6 address.
    pub fn is_ipv6(&self) -> (b: bool)
        ensures
            b == (self.ip is V6),
    {
        self.ip.is_ipv6()
    }
}

} // verus!
