//! Fixed-offset header codecs for Ethernet, IPv4 and UDP.
//!
//! Each codec composes the bounds-checked accessor of
//! [`crate::frame::RawFrame`] at a fixed byte offset (Ethernet at 0,
//! IPv4 at 14, UDP at 34) and converts every multi-byte field from
//! big-endian wire order to host order at read time. IPv4 headers are
//! assumed options-less (fixed 20-byte layout); variable-length IPv4
//! headers are a documented limitation. A decode fails with
//! [`OutOfBounds`] when the frame is shorter than the header requires;
//! it never partially decodes.

use vstd::prelude::*;
use crate::frame::{be16_at, be32_at, OutOfBounds, RawFrame};

verus! {

/// Byte offset of the Ethernet header within a frame.
pub const ETH_OFFSET: usize = 0;

/// Length of an Ethernet header: two MAC addresses and the ethertype.
pub const ETH_HDR_LEN: usize = 14;

/// Byte offset of the IPv4 header within a frame.
pub const IPV4_OFFSET: usize = 14;

/// Length of an options-less IPv4 header.
pub const IPV4_HDR_LEN: usize = 20;

/// Byte offset of the UDP header within a frame.
pub const UDP_OFFSET: usize = 34;

/// Length of a UDP header.
pub const UDP_HDR_LEN: usize = 8;

/// Ethertype value identifying an encapsulated IPv4 packet.
pub const ETHERTYPE_IPV4: u16 = 0x0800;

/// IPv4 protocol number of UDP.
pub const IP_PROTO_UDP: u8 = 17;

/// Decoded view of an Ethernet header: destination MAC, source MAC,
/// and the ethertype in host order.
#[derive(Clone, Copy, PartialEq, Eq, Debug)]
pub struct EthHdr {
    pub dst_addr: [u8; 6],
    pub src_addr: [u8; 6],
    pub ether_type: u16,
}

/// Decoded view of an options-less IPv4 header: source and destination
/// addresses in host order, and the protocol number.
#[derive(Clone, Copy, PartialEq, Eq, Structural, Debug)]
pub struct Ipv4Hdr {
    pub src_addr: u32,
    pub dst_addr: u32,
    pub proto: u8,
}

/// Decoded view of a UDP header: source and destination ports in host
/// order.
#[derive(Clone, Copy, PartialEq, Eq, Structural, Debug)]
pub struct UdpHdr {
    pub source: u16,
    pub dest: u16,
}

/// `h` holds exactly the Ethernet header fields encoded in frame bytes `s`.
pub open spec fn eth_matches(h: EthHdr, s: Seq<u8>) -> bool {
    &&& h.dst_addr@ == s.subrange(0, 6)
    &&& h.src_addr@ == s.subrange(6, 12)
    &&& h.ether_type == be16_at(s, 12)
}

/// `h` holds exactly the IPv4 header fields encoded in frame bytes `s`.
pub open spec fn ipv4_matches(h: Ipv4Hdr, s: Seq<u8>) -> bool {
    &&& h.src_addr == be32_at(s, 26)
    &&& h.dst_addr == be32_at(s, 30)
    &&& h.proto == s[23]
}

/// `h` holds exactly the UDP header fields encoded in frame bytes `s`.
pub open spec fn udp_matches(h: UdpHdr, s: Seq<u8>) -> bool {
    &&& h.source == be16_at(s, 34)
    &&& h.dest == be16_at(s, 36)
}

impl EthHdr {
    /// Decodes the Ethernet header at the start of the frame.
    /// Succeeds exactly when the frame holds the full 14-byte header.
    pub fn parse(frame: &RawFrame) -> (r: Result<EthHdr, OutOfBounds>)
        ensures
            r is Ok <==> frame@.len() >= ETH_HDR_LEN,
            r matches Ok(h) ==> eth_matches(h, frame@),
    {
        match frame.check_range(ETH_OFFSET, ETH_HDR_LEN) {
            Ok(()) => {},
            Err(e) => {
                return Err(e);
            },
        }
        Ok(
            EthHdr {
                dst_addr: frame.read_mac(0),
                src_addr: frame.read_mac(6),
                ether_type: frame.read_u16_be(12),
            },
        )
    }
}

impl Ipv4Hdr {
    /// Decodes the IPv4 header at its fixed offset behind the Ethernet
    /// header. Succeeds exactly when the frame holds the full 20-byte
    /// options-less header.
    pub fn parse(frame: &RawFrame) -> (r: Result<Ipv4Hdr, OutOfBounds>)
        ensures
            r is Ok <==> frame@.len() >= IPV4_OFFSET + IPV4_HDR_LEN,
            r matches Ok(h) ==> ipv4_matches(h, frame@),
    {
        match frame.check_range(IPV4_OFFSET, IPV4_HDR_LEN) {
            Ok(()) => {},
            Err(e) => {
                return Err(e);
            },
        }
        Ok(
            Ipv4Hdr {
                src_addr: frame.read_u32_be(26),
                dst_addr: frame.read_u32_be(30),
                proto: frame.read_u8(23),
            },
        )
    }
}

impl UdpHdr {
    /// Decodes the UDP header at its fixed offset behind the IPv4
    /// header. Succeeds exactly when the frame holds the full 8-byte
    /// header.
    pub fn parse(frame: &RawFrame) -> (r: Result<UdpHdr, OutOfBounds>)
        ensures
            r is Ok <==> frame@.len() >= UDP_OFFSET + UDP_HDR_LEN,
            r matches Ok(h) ==> udp_matches(h, frame@),
    {
        match frame.check_range(UDP_OFFSET, UDP_HDR_LEN) {
            Ok(()) => {},
            Err(e) => {
                return Err(e);
            },
        }
        Ok(UdpHdr { source: frame.read_u16_be(34), dest: frame.read_u16_be(36) })
    }
}

/// Any two Ethernet header views decoded from the same frame bytes hold
/// identical field values.
pub proof fn lemma_eth_decode_deterministic(s: Seq<u8>, a: EthHdr, b: EthHdr)
    requires
        eth_matches(a, s),
        eth_matches(b, s),
    ensures
        a == b,
{
    broadcast use vstd::array::group_array_axioms;

    assert(a.dst_addr =~= b.dst_addr);
    assert(a.src_addr =~= b.src_addr);
}

/// Any two IPv4 header views decoded from the same frame bytes hold
/// identical field values.
pub proof fn lemma_ipv4_decode_deterministic(s: Seq<u8>, a: Ipv4Hdr, b: Ipv4Hdr)
    requires
        ipv4_matches(a, s),
        ipv4_matches(b, s),
    ensures
        a == b,
{
}

/// Any two UDP header views decoded from the same frame bytes hold
/// identical field values.
pub proof fn lemma_udp_decode_deterministic(s: Seq<u8>, a: UdpHdr, b: UdpHdr)
    requires
        udp_matches(a, s),
        udp_matches(b, s),
    ensures
        a == b,
{
}

} // verus!
