//! Reading a PROXY Protocol v2 header from the first bytes of a connection.
//!
//! The header is a fixed 16-byte preamble (signature, version and command,
//! family and transport, length of the address block) followed by the address
//! block itself. A reader first looks at the preamble without consuming it,
//! learns from it how long the whole header is, and then takes exactly that
//! many bytes off the stream.
use vstd::prelude::*;

use crate::net::{spec_u16_from_be, u16_from_be, IpAddr, Ipv4Addr, Ipv6Addr, SocketAddr};
use crate::proxy_protocol::result::Error;

verus! {

/// Length of the signature.
pub const SIGNATURE_LENGTH: usize = 12;

/// Length of the preamble: signature, version and command, family and
/// transport, address length.
pub const HEADER_SIZE: usize = 16;

/// Address family: unspecified.
pub const AF_UNSPEC: u8 = 0x00;

/// Address family: IPv4.
pub const AF_INET: u8 = 0x10;

/// Address family: IPv6.
pub const AF_INET6: u8 = 0x20;

/// Address family: UNIX socket.
pub const AF_UNIX: u8 = 0x30;

/// Transport: unspecified.
pub const PROTO_UNSPEC: u8 = 0x00;

/// Transport: stream.
pub const PROTO_STREAM: u8 = 0x01;

/// Transport: datagram.
pub const PROTO_DGRAM: u8 = 0x02;

/// Bytes that an IPv4 address block needs: two addresses and two ports.
pub const IPV4_ADDR_SIZE: usize = 12;

/// Bytes that an IPv6 address block needs: two addresses and two ports.
pub const IPV6_ADDR_SIZE: usize = 36;

/// The twelve bytes that every version 2 header starts with.
pub open spec fn spec_signature() -> Seq<u8> {
    seq![0x0Du8, 0x0A, 0x0D, 0x0A, 0x00, 0x0D, 0x0A, 0x51, 0x55, 0x49, 0x54, 0x0A]
}

/// What the sender asks of the receiver.
#[derive(Debug, Clone, Copy, PartialEq, Eq)]
pub enum Command {
    /// A health check of the proxy itself: no endpoints are carried.
    Local,
    /// A forwarded connection: the endpoints of the connection as the client
    /// made it follow.
    Proxy,
}

/// The endpoints of a connection as the client made it.
#[derive(Debug, Clone, Copy, PartialEq, Eq)]
pub struct ProxyAddresses {
    /// Where the connection came from: the real client.
    pub source: SocketAddr,
    /// Where the connection was going: the address the proxy received it on.
    pub destination: SocketAddr,
}

impl ProxyAddresses {
    /// The client's IP address.
    pub fn source_ip(&self) -> (ip: IpAddr)
        ensures
            ip == self.source.ip,
    {
        self.source.ip()
    }

    /// The client's port.
    pub fn source_port(&self) -> (port: u16)
        ensures
            port == self.source.port,
    {
        self.source.port()
    }

    /// The IP address the proxy received the connection on.
    pub fn destination_ip(&self) -> (ip: IpAddr)
        ensures
            ip == self.destination.ip,
    {
        self.destination.ip()
    }

    /// The port the proxy received the connection on.
    pub fn destination_port(&self) -> (port: u16)
        ensures
            port == self.destination.port,
    {
        self.destination.port()
    }
}

/// A decoded header.
#[derive(Debug, Clone, Copy, PartialEq, Eq)]
pub struct ProxyHeader {
    /// LOCAL or PROXY.
    pub command: Command,
    /// The family byte with the transport nibble masked out (`AF_INET`, ...).
    pub address_family: u8,
    /// The transport nibble (`PROTO_STREAM`, ...).
    pub protocol: u8,
    /// The endpoints; present exactly for a PROXY command.
    pub addresses: Option<ProxyAddresses>,
}

/// What the 16-byte preamble declares, before any address is read.
#[derive(Debug, Clone, Copy, PartialEq, Eq)]
pub struct Preamble {
    /// LOCAL or PROXY.
    pub command: Command,
    /// The family byte with the transport nibble masked out.
    pub address_family: u8,
    /// The transport nibble.
    pub protocol: u8,
    /// Length of the address block that follows the preamble.
    pub addr_len: u16,
}

/// The preamble that the first bytes of a connection declare, or why they are
/// refused. The checks come in a fixed order: enough bytes, signature,
/// version, command.
pub open spec fn spec_parse_preamble(peeked: Seq<u8>) -> Result<Preamble, Error> {
    if peeked.len() < 16 {
        Err(Error::InvalidSignature)
    } else if peeked.subrange(0, 12) != spec_signature() {
        Err(Error::InvalidSignature)
    } else if peeked[12] >> 4 != 2 {
        Err(Error::UnsupportedVersion(peeked[12] >> 4))
    } else if peeked[12] & 0x0f != 0 && peeked[12] & 0x0f != 1 {
        Err(Error::InvalidCommand(peeked[12] & 0x0f))
    } else {
        Ok(
            Preamble {
                command: if peeked[12] & 0x0f == 0 {
                    Command::Local
                } else {
                    Command::Proxy
                },
                address_family: peeked[13] & 0xf0,
                protocol: peeked[13] & 0x0f,
                addr_len: spec_u16_from_be(peeked[14], peeked[15]),
            },
        )
    }
}

/// The endpoints that an address block of the given family holds, or why it
/// is refused. Bytes after the two addresses and two ports are ignored.
pub open spec fn spec_parse_addresses(buf: Seq<u8>, family: u8) -> Result<ProxyAddresses, Error> {
    if family == AF_INET {
        if buf.len() < 12 {
            Err(Error::AddressLengthMismatch { family: "IPv4", got: buf.len() as usize, expected: 12 })
        } else {
            Ok(
                ProxyAddresses {
                    source: SocketAddr {
                        ip: IpAddr::V4(Ipv4Addr { a: buf[0], b: buf[1], c: buf[2], d: buf[3] }),
                        port: spec_u16_from_be(buf[8], buf[9]),
                    },
                    destination: SocketAddr {
                        ip: IpAddr::V4(Ipv4Addr { a: buf[4], b: buf[5], c: buf[6], d: buf[7] }),
                        port: spec_u16_from_be(buf[10], buf[11]),
                    },
                },
            )
        }
    } else if family == AF_INET6 {
        if buf.len() < 36 {
            Err(Error::AddressLengthMismatch { family: "IPv6", got: buf.len() as usize, expected: 36 })
        } else {
            Ok(
                ProxyAddresses {
                    source: SocketAddr {
                        ip: IpAddr::V6(Ipv6Addr::spec_from_octets(buf.subrange(0, 16))),
                        port: spec_u16_from_be(buf[32], buf[33]),
                    },
                    destination: SocketAddr {
                        ip: IpAddr::V6(Ipv6Addr::spec_from_octets(buf.subrange(16, 32))),
                        port: spec_u16_from_be(buf[34], buf[35]),
                    },
                },
            )
        }
    } else {
        Err(Error::InvalidAddressFamily(family))
    }
}

/// The header that a preamble and its address block make: no endpoints for
/// LOCAL, the decoded endpoints for PROXY.
pub open spec fn spec_finish(p: Preamble, block: Seq<u8>) -> Result<ProxyHeader, Error> {
    match p.command {
        Command::Local => Ok(
            ProxyHeader {
                command: p.command,
                address_family: p.address_family,
                protocol: p.protocol,
                addresses: None,
            },
        ),
        Command::Proxy => match spec_parse_addresses(block, p.address_family) {
            Ok(addresses) => Ok(
                ProxyHeader {
                    command: p.command,
                    address_family: p.address_family,
                    protocol: p.protocol,
                    addresses: Some(addresses),
                },
            ),
            Err(e) => Err(e),
        },
    }
}

/// The header at the start of `stream` together with the number of bytes it
/// occupies, or why the bytes are refused.
pub open spec fn spec_parse_proxy_protocol(stream: Seq<u8>) -> Result<(ProxyHeader, usize), Error> {
    match spec_parse_preamble(stream) {
        Err(e) => Err(e),
        Ok(p) => if stream.len() < 16 + p.addr_len {
            Err(Error::FrameTooShort { got: stream.len() as usize, need: (16 + p.addr_len) as usize })
        } else {
            match spec_finish(p, stream.subrange(16, 16 + p.addr_len)) {
                Err(e) => Err(e),
                Ok(h) => Ok((h, (16 + p.addr_len) as usize)),
            }
        },
    }
}

/// Whether the first twelve bytes of `buf` are the signature.
fn has_signature(buf: &[u8]) -> (b: bool)
    requires
        buf@.len() >= 12,
    ensures
        b == (buf@.subrange(0, 12) == spec_signature()),
{
    let b = buf[0] == 0x0D && buf[1] == 0x0A && buf[2] == 0x0D && buf[3] == 0x0A && buf[4] == 0x00
        && buf[5] == 0x0D && buf[6] == 0x0A && buf[7] == 0x51 && buf[8] == 0x55 && buf[9] == 0x49
        && buf[10] == 0x54 && buf[11] == 0x0A;
    proof {
        let head = buf@.subrange(0, 12);
        let sig = spec_signature();
        if b {
            assert(head =~= sig);
        } else {
            assert(head[0] == buf@[0] && head[1] == buf@[1] && head[2] == buf@[2] && head[3]
                == buf@[3] && head[4] == buf@[4] && head[5] == buf@[5] && head[6] == buf@[6]
                && head[7] == buf@[7] && head[8] == buf@[8] && head[9] == buf@[9] && head[10]
                == buf@[10] && head[11] == buf@[11]);
        }
    }
    b
}

/// Reads the preamble from the bytes that a non-consuming look at the stream
/// returned.
///
/// Fewer than sixteen bytes, or bytes that do not begin with the signature,
/// are not PROXY Protocol v2 traffic.
pub fn parse_preamble(peeked: &[u8]) -> (r: Result<Preamble, Error>)
    ensures
        r == spec_parse_preamble(peeked@),
{
    if peeked.len() < HEADER_SIZE {
        return Err(Error::InvalidSignature);
    }
    if !has_signature(peeked) {
        return Err(Error::InvalidSignature);
    }
    let version_command = peeked[SIGNATURE_LENGTH];
    let version = version_command >> 4;
    let command_byte = version_command & 0x0f;
    if version != 2 {
        return Err(Error::UnsupportedVersion(version));
    }
    let command = if command_byte == 0x00 {
        Command::Local
    } else if command_byte == 0x01 {
        Command::Proxy
    } else {
        return Err(Error::InvalidCommand(command_byte));
    };
    let family_protocol = peeked[SIGNATURE_LENGTH + 1];
    Ok(
        Preamble {
            command,
            address_family: family_protocol & 0xf0,
            protocol: family_protocol & 0x0f,
            addr_len: u16_from_be(peeked[SIGNATURE_LENGTH + 2], peeked[SIGNATURE_LENGTH + 3]),
        },
    )
}

/// Decodes the endpoints from an address block of the given family.
pub fn parse_addresses(buf: &[u8], family: u8) -> (r: Result<ProxyAddresses, Error>)
    ensures
        r == spec_parse_addresses(buf@, family),
{
    if family == AF_INET {
        if buf.len() < IPV4_ADDR_SIZE {
            return Err(
                Error::AddressLengthMismatch {
                    family: "IPv4",
                    got: buf.len(),
                    expected: IPV4_ADDR_SIZE,
                },
            );
        }
        let src_addr = Ipv4Addr::new(buf[0], buf[1], buf[2], buf[3]);
        let dst_addr = Ipv4Addr::new(buf[4], buf[5], buf[6], buf[7]);
        let src_port = u16_from_be(buf[8], buf[9]);
        let dst_port = u16_from_be(buf[10], buf[11]);
        Ok(
            ProxyAddresses {
                source: SocketAddr::new(IpAddr::V4(src_addr), src_port),
                destination: SocketAddr::new(IpAddr::V4(dst_addr), dst_port),
            },
        )
    } else if family == AF_INET6 {
        if buf.len() < IPV6_ADDR_SIZE {
            return Err(
                Error::AddressLengthMismatch {
                    family: "IPv6",
                    got: buf.len(),
                    expected: IPV6_ADDR_SIZE,
                },
            );
        }
        let src_addr = Ipv6Addr::from_slice(buf, 0);
        let dst_addr = Ipv6Addr::from_slice(buf, 16);
        let src_port = u16_from_be(buf[32], buf[33]);
        let dst_port = u16_from_be(buf[34], buf[35]);
        Ok(
            ProxyAddresses {
                source: SocketAddr::new(IpAddr::V6(src_addr), src_port),
                destination: SocketAddr::new(IpAddr::V6(dst_addr), dst_port),
            },
        )
    } else {
        Err(Error::InvalidAddressFamily(family))
    }
}

impl Preamble {
    /// Length of the whole header: the preamble and the address block. This
    /// many bytes are to be taken off the stream.
    pub open spec fn spec_frame_len(self) -> nat {
        (16 + self.addr_len) as nat
    }

    /// Length of the whole header: the preamble and the address block. This
    /// many bytes are to be taken off the stream.
    pub fn frame_len(&self) -> (n: usize)
        ensures
            n == self.spec_frame_len(),
    {
        HEADER_SIZE + self.addr_len as usize
    }

    /// Completes the header from the address block, the bytes of the frame
    /// after the preamble.
    pub fn finish(&self, block: &[u8]) -> (r: Result<ProxyHeader, Error>)
        ensures
            r == spec_finish(*self, block@),
    {
        match self.command {
            Command::Local => Ok(
                ProxyHeader {
                    command: self.command,
                    address_family: self.address_family,
                    protocol: self.protocol,
                    addresses: None,
                },
            ),
            Command::Proxy => {
                match parse_addresses(block, self.address_family) {
                    Ok(addresses) => Ok(
                        ProxyHeader {
                            command: self.command,
                            address_family: self.address_family,
                            protocol: self.protocol,
                            addresses: Some(addresses),
                        },
                    ),
                    Err(e) => Err(e),
                }
            },
        }
    }
}

/// Reads the header at the start of `stream`, the bytes of a freshly accepted
/// connection, and says how many bytes it occupies: the reader is to resume
/// right after them.
pub fn parse_proxy_protocol(stream: &[u8]) -> (r: Result<(ProxyHeader, usize), Error>)
    ensures
        r == spec_parse_proxy_protocol(stream@),
        // Anything that does not start with the signature is refused as such.
        stream@.len() < 16 || stream@.subrange(0, 12) != spec_signature() ==> r == Err::<
            (ProxyHeader, usize),
            Error,
        >(Error::InvalidSignature),
        // On success exactly the preamble and the declared address block are
        // taken, and the endpoints are there exactly for a PROXY command.
        r matches Ok((h, n)) ==> {
            &&& n == 16 + spec_u16_from_be(stream@[14], stream@[15])
            &&& n <= stream@.len()
            &&& (h.command is Local <==> h.addresses is None)
        },
{
    let preamble = match parse_preamble(stream) {
        Ok(p) => p,
        Err(e) => { return Err(e); },
    };
    let total_len = preamble.frame_len();
    if stream.len() < total_len {
        return Err(Error::FrameTooShort { got: stream.len(), need: total_len });
    }
    let block = vstd::slice::slice_subrange(stream, HEADER_SIZE, total_len);
    match preamble.finish(block) {
        Ok(header) => Ok((header, total_len)),
        Err(e) => Err(e),
    }
}

} // verus!
