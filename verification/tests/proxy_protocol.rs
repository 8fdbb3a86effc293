use proxy_codecs::net::{IpAddr, Ipv4Addr, Ipv6Addr, SocketAddr};
use proxy_codecs::proxy_protocol::result::Error;
use proxy_codecs::proxy_protocol::version2::{
    parse_addresses, parse_preamble, parse_proxy_protocol, Command, ProxyAddresses, AF_INET,
    AF_INET6, AF_UNIX, AF_UNSPEC, PROTO_DGRAM, PROTO_STREAM,
};

const SIGNATURE: &[u8] = b"\x0D\x0A\x0D\x0A\x00\x0D\x0A\x51\x55\x49\x54\x0A";

fn frame(ver_cmd: u8, fam_proto: u8, block: &[u8]) -> Vec<u8> {
    let mut data = Vec::new();
    data.extend_from_slice(SIGNATURE);
    data.push(ver_cmd);
    data.push(fam_proto);
    data.extend_from_slice(&(block.len() as u16).to_be_bytes());
    data.extend_from_slice(block);
    data
}

#[test]
fn test_parse_proxy_protocol_valid_ipv4() {
    let data = b"\x0D\x0A\x0D\x0A\x00\x0D\x0A\x51\x55\x49\x54\x0A\x21\x11\x00\x0C\xC0\xA8\x01\x64\x0A\x00\x00\x01\x30\x39\x00\x50";

    let (header, consumed) = parse_proxy_protocol(data).unwrap();

    assert_eq!(header.command, Command::Proxy);
    let addrs = header.addresses.expect("Should have addresses for PROXY command");
    assert_eq!(addrs.source.ip(), IpAddr::V4(Ipv4Addr::new(192, 168, 1, 100)));
    assert_eq!(addrs.source.port(), 12345);
    assert_eq!(addrs.destination.ip(), IpAddr::V4(Ipv4Addr::new(10, 0, 0, 1)));
    assert_eq!(addrs.destination.port(), 80);
    assert_eq!(header.address_family, AF_INET);
    assert_eq!(header.protocol, PROTO_STREAM);
    assert_eq!(consumed, 28);
}

#[test]
fn test_parse_proxy_protocol_invalid_signature() {
    let data = b"GET / HTTP/1.1\r\nHost: example.com\r\n\r\n";

    let result = parse_proxy_protocol(data);
    assert!(result.is_err());
    assert!(matches!(result.unwrap_err(), Error::InvalidSignature));
}

#[test]
fn test_parse_proxy_protocol_local_command() {
    let data = b"\x0D\x0A\x0D\x0A\x00\x0D\x0A\x51\x55\x49\x54\x0A\x20\x00\x00\x00";

    let (header, consumed) = parse_proxy_protocol(data).unwrap();

    assert_eq!(header.command, Command::Local);
    assert!(header.addresses.is_none());
    assert_eq!(consumed, 16);
}

#[test]
fn test_parse_proxy_protocol_ipv6() {
    let mut data = Vec::new();
    data.extend_from_slice(b"\x0D\x0A\x0D\x0A\x00\x0D\x0A\x51\x55\x49\x54\x0A");
    data.push(0x21);
    data.push(0x21);
    data.extend_from_slice(&36u16.to_be_bytes());
    data.extend_from_slice(&[0x20, 0x01, 0x0d, 0xb8, 0, 0, 0, 0, 0, 0, 0, 0, 0, 0, 0, 1]);
    data.extend_from_slice(&[0x20, 0x01, 0x0d, 0xb8, 0, 0, 0, 0, 0, 0, 0, 0, 0, 0, 0, 2]);
    data.extend_from_slice(&12345u16.to_be_bytes());
    data.extend_from_slice(&80u16.to_be_bytes());

    let (header, consumed) = parse_proxy_protocol(&data).unwrap();

    assert_eq!(header.command, Command::Proxy);
    let addrs = header.addresses.expect("Should have addresses");
    assert!(matches!(addrs.source.ip(), IpAddr::V6(_)));
    assert_eq!(addrs.source.port(), 12345);
    assert_eq!(addrs.destination.port(), 80);
    assert_eq!(
        addrs.source.ip(),
        IpAddr::V6(Ipv6Addr::new(0x2001, 0x0db8, 0, 0, 0, 0, 0, 1))
    );
    assert_eq!(
        addrs.destination.ip(),
        IpAddr::V6(Ipv6Addr::new(0x2001, 0x0db8, 0, 0, 0, 0, 0, 2))
    );
    assert_eq!(header.address_family, AF_INET6);
    assert_eq!(consumed, 52);
}

#[test]
fn test_parse_proxy_protocol_short_frame() {
    let data = b"\x0D\x0A\x0D\x0A\x00\x0D\x0A\x51\x55\x49\x54";

    let result = parse_proxy_protocol(data);
    assert!(result.is_err());
    assert_eq!(result.unwrap_err(), Error::InvalidSignature);
}

#[test]
fn test_proxy_addresses_helpers() {
    let src = SocketAddr::new(IpAddr::V4(Ipv4Addr::new(192, 168, 1, 100)), 8080);
    let dst = SocketAddr::new(IpAddr::V4(Ipv4Addr::new(10, 0, 0, 1)), 80);

    let addrs = ProxyAddresses { source: src, destination: dst };

    assert_eq!(addrs.source_ip(), IpAddr::V4(Ipv4Addr::new(192, 168, 1, 100)));
    assert_eq!(addrs.source_port(), 8080);
    assert_eq!(addrs.destination_ip(), IpAddr::V4(Ipv4Addr::new(10, 0, 0, 1)));
    assert_eq!(addrs.destination_port(), 80);
}

#[test]
fn proxy_header_with_wrong_version_is_refused() {
    let data = frame(0x11, 0x11, &[0; 12]);
    assert_eq!(parse_proxy_protocol(&data).unwrap_err(), Error::UnsupportedVersion(1));
    let data = frame(0x31, 0x11, &[0; 12]);
    assert_eq!(parse_preamble(&data).unwrap_err(), Error::UnsupportedVersion(3));
}

#[test]
fn proxy_header_with_unknown_command_is_refused() {
    let data = frame(0x22, 0x11, &[0; 12]);
    assert_eq!(parse_proxy_protocol(&data).unwrap_err(), Error::InvalidCommand(2));
    let data = frame(0x2f, 0x11, &[0; 12]);
    assert_eq!(parse_proxy_protocol(&data).unwrap_err(), Error::InvalidCommand(15));
}

#[test]
fn proxy_header_checks_come_in_order() {
    // A bad signature wins over a bad version.
    let mut data = frame(0x11, 0x11, &[0; 12]);
    data[3] = 0x0B;
    assert_eq!(parse_proxy_protocol(&data).unwrap_err(), Error::InvalidSignature);
    // A bad version wins over a bad command.
    let data = frame(0x1f, 0x11, &[0; 12]);
    assert_eq!(parse_proxy_protocol(&data).unwrap_err(), Error::UnsupportedVersion(1));
}

#[test]
fn proxy_header_with_unix_or_unspecified_family_is_refused() {
    let data = frame(0x21, 0x31, &[0; 216]);
    assert_eq!(parse_proxy_protocol(&data).unwrap_err(), Error::InvalidAddressFamily(AF_UNIX));
    let data = frame(0x21, 0x00, &[]);
    assert_eq!(parse_proxy_protocol(&data).unwrap_err(), Error::InvalidAddressFamily(AF_UNSPEC));
    let data = frame(0x21, 0x42, &[0; 12]);
    assert_eq!(parse_proxy_protocol(&data).unwrap_err(), Error::InvalidAddressFamily(0x40));
}

#[test]
fn proxy_header_with_short_address_block_is_refused() {
    let data = frame(0x21, 0x11, &[0; 11]);
    assert_eq!(
        parse_proxy_protocol(&data).unwrap_err(),
        Error::AddressLengthMismatch { family: "IPv4", got: 11, expected: 12 }
    );
    let data = frame(0x21, 0x21, &[0; 35]);
    assert_eq!(
        parse_proxy_protocol(&data).unwrap_err(),
        Error::AddressLengthMismatch { family: "IPv6", got: 35, expected: 36 }
    );
    let data = frame(0x21, 0x11, &[]);
    assert_eq!(
        parse_proxy_protocol(&data).unwrap_err(),
        Error::AddressLengthMismatch { family: "IPv4", got: 0, expected: 12 }
    );
}

#[test]
fn proxy_header_shorter_than_declared_is_refused() {
    let mut data = frame(0x21, 0x11, &[1, 2, 3, 4, 5, 6, 7, 8, 0, 9, 0, 10]);
    data.truncate(27);
    assert_eq!(
        parse_proxy_protocol(&data).unwrap_err(),
        Error::FrameTooShort { got: 27, need: 28 }
    );
}

#[test]
fn proxy_header_consumes_trailing_tlv_bytes_and_no_more() {
    let mut block = vec![192, 168, 1, 100, 10, 0, 0, 1, 0x30, 0x39, 0x00, 0x50];
    block.extend_from_slice(&[0x04, 0x00, 0x02, 0xAA, 0xBB]);
    let mut data = frame(0x21, 0x12, &block);
    data.extend_from_slice(b"GET / HTTP/1.1\r\n\r\n");

    let (header, consumed) = parse_proxy_protocol(&data).unwrap();
    assert_eq!(consumed, 16 + 17);
    assert_eq!(&data[consumed..], b"GET / HTTP/1.1\r\n\r\n");
    assert_eq!(header.protocol, PROTO_DGRAM);
    let addrs = header.addresses.unwrap();
    assert_eq!(addrs.source, SocketAddr::new(IpAddr::V4(Ipv4Addr::new(192, 168, 1, 100)), 12345));
    assert_eq!(addrs.destination, SocketAddr::new(IpAddr::V4(Ipv4Addr::new(10, 0, 0, 1)), 80));
}

#[test]
fn proxy_local_command_discards_its_address_block() {
    let data = frame(0x20, 0x11, &[9; 12]);
    let (header, consumed) = parse_proxy_protocol(&data).unwrap();
    assert_eq!(header.command, Command::Local);
    assert!(header.addresses.is_none());
    assert_eq!(consumed, 28);
}

#[test]
fn proxy_preamble_gives_the_frame_length() {
    let data = frame(0x21, 0x11, &[0; 12]);
    let preamble = parse_preamble(&data[..16]).unwrap();
    assert_eq!(preamble.addr_len, 12);
    assert_eq!(preamble.frame_len(), 28);
    assert_eq!(preamble.command, Command::Proxy);
    let header = preamble.finish(&data[16..28]).unwrap();
    assert_eq!(header, parse_proxy_protocol(&data).unwrap().0);
}

#[test]
fn proxy_address_block_is_decoded_big_endian() {
    let block = [1, 2, 3, 4, 5, 6, 7, 8, 0x01, 0x02, 0xff, 0xfe];
    let addrs = parse_addresses(&block, AF_INET).unwrap();
    assert_eq!(addrs.source_port(), 0x0102);
    assert_eq!(addrs.destination_port(), 0xfffe);
    assert_eq!(addrs.source_ip(), IpAddr::V4(Ipv4Addr::new(1, 2, 3, 4)));
    assert_eq!(addrs.destination_ip(), IpAddr::V4(Ipv4Addr::new(5, 6, 7, 8)));
}

#[test]
fn proxy_error_from_text() {
    assert_eq!(Error::from("boom".to_string()), Error::String("boom".to_string()));
}
