use dns_firewall::dns::DnsHdr;
use dns_firewall::frame::RawFrame;
use dns_firewall::headers::{EthHdr, Ipv4Hdr, UdpHdr};
use dns_firewall::pipeline::five_tuple;

/// A 54-byte frame that is exactly Ethernet+IPv4+UDP+DNS header.
fn frame_bytes() -> Vec<u8> {
    vec![
        0x11, 0x12, 0x13, 0x14, 0x15, 0x16, // dst MAC
        0x21, 0x22, 0x23, 0x24, 0x25, 0x26, // src MAC
        0x08, 0x00, // ethertype IPv4
        0x45, 0x00, 0x00, 0x28, // IPv4
        0xab, 0xcd, 0x40, 0x00, //
        0x40, 17, 0xbe, 0xef, // protocol UDP
        192, 168, 0, 7, // src 192.168.0.7
        8, 8, 8, 8, // dst 8.8.8.8
        0xd4, 0x31, // UDP src port 54321
        0x00, 0x35, // dst port 53
        0x00, 0x14, 0x00, 0x00, // length, checksum
        0x12, 0x34, // DNS id
        0x81, 0x80, // flags: QR, RD, RA
        0x00, 0x01, // qdcount 1
        0x00, 0x01, // ancount 1
        0x00, 0x00, // nscount 0
        0x00, 0x00, // arcount 0
    ]
}

#[test]
fn eth_header_decodes() {
    let frame = RawFrame::new(frame_bytes());
    let eth = EthHdr::parse(&frame).unwrap();
    assert_eq!(eth.dst_addr, [0x11, 0x12, 0x13, 0x14, 0x15, 0x16]);
    assert_eq!(eth.src_addr, [0x21, 0x22, 0x23, 0x24, 0x25, 0x26]);
    assert_eq!(eth.ether_type, 0x0800);
}

#[test]
fn eth_header_needs_fourteen_bytes() {
    let frame = RawFrame::new(frame_bytes()[..13].to_vec());
    assert!(EthHdr::parse(&frame).is_err());
    let frame = RawFrame::new(frame_bytes()[..14].to_vec());
    assert!(EthHdr::parse(&frame).is_ok());
}

#[test]
fn ipv4_header_decodes() {
    let frame = RawFrame::new(frame_bytes());
    let ip = Ipv4Hdr::parse(&frame).unwrap();
    assert_eq!(ip.proto, 17);
    assert_eq!(ip.src_addr, 0xc0a80007);
    assert_eq!(ip.dst_addr, 0x08080808);
}

#[test]
fn ipv4_header_needs_thirty_four_bytes() {
    let frame = RawFrame::new(frame_bytes()[..33].to_vec());
    assert!(Ipv4Hdr::parse(&frame).is_err());
    let frame = RawFrame::new(frame_bytes()[..34].to_vec());
    assert!(Ipv4Hdr::parse(&frame).is_ok());
}

#[test]
fn udp_header_decodes() {
    let frame = RawFrame::new(frame_bytes());
    let udp = UdpHdr::parse(&frame).unwrap();
    assert_eq!(udp.source, 54321);
    assert_eq!(udp.dest, 53);
}

#[test]
fn udp_header_needs_forty_two_bytes() {
    let frame = RawFrame::new(frame_bytes()[..41].to_vec());
    assert!(UdpHdr::parse(&frame).is_err());
    let frame = RawFrame::new(frame_bytes()[..42].to_vec());
    assert!(UdpHdr::parse(&frame).is_ok());
}

#[test]
fn dns_header_needs_fifty_four_bytes() {
    let frame = RawFrame::new(frame_bytes()[..53].to_vec());
    assert!(DnsHdr::parse(&frame).is_err());
    let frame = RawFrame::new(frame_bytes());
    assert!(DnsHdr::parse(&frame).is_ok());
}

#[test]
fn dns_flags_decode() {
    // id 0x1234, flag bytes 0x81 0x80: QR=1, Opcode=0, AA=0, TC=0,
    // RD=1, RA=1, Z=0, AD=0, CD=0, RCODE=0; qdcount 1, ancount 1.
    let frame = RawFrame::new(frame_bytes());
    let dns = DnsHdr::parse(&frame).unwrap();
    assert_eq!(dns.id(), 0x1234);
    assert_eq!(dns.qr(), 1);
    assert_eq!(dns.opcode(), 0);
    assert_eq!(dns.aa(), 0);
    assert_eq!(dns.tc(), 0);
    assert_eq!(dns.rd(), 1);
    assert_eq!(dns.ra(), 1);
    assert_eq!(dns.ad(), 0);
    assert_eq!(dns.cd(), 0);
    assert_eq!(dns.rcode(), 0);
    assert_eq!(dns.qdcount(), 1);
    assert_eq!(dns.ancount(), 1);
    assert_eq!(dns.nscount(), 0);
    assert_eq!(dns.arcount(), 0);
}

#[test]
fn dns_flag_bits_are_independent() {
    let mut bytes = frame_bytes();
    bytes[44] = 0x7c; // QR=0, Opcode=15, AA=1, TC=0, RD=0
    bytes[45] = 0x3f; // RA=0, AD=1, CD=1, RCODE=15
    let frame = RawFrame::new(bytes);
    let dns = DnsHdr::parse(&frame).unwrap();
    assert_eq!(dns.qr(), 0);
    assert_eq!(dns.opcode(), 15);
    assert_eq!(dns.aa(), 1);
    assert_eq!(dns.tc(), 0);
    assert_eq!(dns.rd(), 0);
    assert_eq!(dns.ra(), 0);
    assert_eq!(dns.ad(), 1);
    assert_eq!(dns.cd(), 1);
    assert_eq!(dns.rcode(), 15);
}

#[test]
fn decode_is_idempotent() {
    let frame = RawFrame::new(frame_bytes());
    assert_eq!(EthHdr::parse(&frame).unwrap(), EthHdr::parse(&frame).unwrap());
    assert_eq!(Ipv4Hdr::parse(&frame).unwrap(), Ipv4Hdr::parse(&frame).unwrap());
    assert_eq!(UdpHdr::parse(&frame).unwrap(), UdpHdr::parse(&frame).unwrap());
    assert_eq!(DnsHdr::parse(&frame).unwrap(), DnsHdr::parse(&frame).unwrap());
    assert_eq!(five_tuple(&frame).unwrap(), five_tuple(&frame).unwrap());
}

#[test]
fn five_tuple_decodes() {
    let frame = RawFrame::new(frame_bytes());
    let t = five_tuple(&frame).unwrap();
    assert_eq!(t.eth_dst, [0x11, 0x12, 0x13, 0x14, 0x15, 0x16]);
    assert_eq!(t.eth_src, [0x21, 0x22, 0x23, 0x24, 0x25, 0x26]);
    assert_eq!(t.ip_src, 0xc0a80007);
    assert_eq!(t.ip_dst, 0x08080808);
    assert_eq!(t.udp_src, 54321);
    assert_eq!(t.udp_dst, 53);
}

#[test]
fn accessor_checks_bounds() {
    let frame = RawFrame::new(vec![1, 2, 3, 4]);
    assert_eq!(frame.len(), 4);
    assert!(frame.check_range(0, 4).is_ok());
    assert!(frame.check_range(2, 2).is_ok());
    assert!(frame.check_range(4, 0).is_ok());
    assert!(frame.check_range(0, 5).is_err());
    assert!(frame.check_range(3, 2).is_err());
    assert!(frame.check_range(usize::MAX, 2).is_err());
    assert_eq!(frame.read_u8(0), 1);
    assert_eq!(frame.read_u16_be(0), 0x0102);
    assert_eq!(frame.read_u32_be(0), 0x01020304);
}

#[test]
fn accessor_writes_in_place() {
    let mut frame = RawFrame::new(vec![1, 2, 3, 4]);
    frame.write_u8(2, 9);
    assert_eq!(frame.read_u8(2), 9);
    frame.swap_bytes(0, 3);
    assert_eq!(frame.into_bytes(), vec![4, 2, 9, 1]);
}
