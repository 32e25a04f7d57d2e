//! The per-frame decision engine and the packet mutator.
//!
//! One invocation classifies one frame with a strict, short-circuiting
//! chain of guards — ethertype, IP protocol, UDP destination port —
//! and selects a terminal action. A frame that fails a guard is passed
//! through unchanged; a frame too short for a required header is
//! aborted; a DNS-bound frame is reflected in place and handed back
//! for transmission, together with a diagnostic report. The block-list
//! lookups feed the report only: the shipped policy does not condition
//! the action on them (whether the block list is vestigial or future
//! policy is an open question), and checksum fields are left as they
//! arrived after the swap.

use vstd::prelude::*;
use crate::blocklist::{Blocklist, PortBlocklist};
use crate::dns::{dns_matches, DnsHdr, DNS_HDR_LEN, DNS_OFFSET};
use crate::frame::{be16_at, be32_at, OutOfBounds, RawFrame};
use crate::headers::{
    EthHdr, Ipv4Hdr, UdpHdr, ETHERTYPE_IPV4, ETH_HDR_LEN, IP_PROTO_UDP, UDP_HDR_LEN, UDP_OFFSET,
};

verus! {

/// UDP destination port identifying DNS traffic.
pub const DNS_PORT: u16 = 53;

/// Terminal action selected for one frame.
#[derive(Clone, Copy, PartialEq, Eq, Structural, Debug)]
pub enum Action {
    /// Hand the frame on unmodified.
    Pass,
    /// Discard the frame silently. Defined in the action taxonomy but
    /// not reachable through the documented policy.
    Drop,
    /// Retransmit the (mutated) frame out the interface it arrived on.
    Tx,
    /// The frame was too short for a required header; the caller must
    /// discard it.
    Abort,
}

/// The Ethernet/IPv4/UDP 5-tuple of a frame, decoded to host order,
/// as one diagnostic record.
#[derive(Clone, Copy, PartialEq, Eq, Debug)]
pub struct FiveTuple {
    pub eth_src: [u8; 6],
    pub eth_dst: [u8; 6],
    pub ip_src: u32,
    pub ip_dst: u32,
    pub udp_src: u16,
    pub udp_dst: u16,
}

/// `t` holds exactly the 5-tuple encoded in frame bytes `s`.
pub open spec fn tuple_matches(t: FiveTuple, s: Seq<u8>) -> bool {
    &&& t.eth_dst@ == s.subrange(0, 6)
    &&& t.eth_src@ == s.subrange(6, 12)
    &&& t.ip_src == be32_at(s, 26)
    &&& t.ip_dst == be32_at(s, 30)
    &&& t.udp_src == be16_at(s, 34)
    &&& t.udp_dst == be16_at(s, 36)
}

/// Diagnostic record for one DNS-bound frame: the decoded DNS header,
/// the 5-tuple before and after reflection, and the block-list lookup
/// results. The lookups are advisory; they do not steer the action.
pub struct DnsReport {
    pub dns: DnsHdr,
    pub pre: FiveTuple,
    pub post: FiveTuple,
    pub src_addr_blocked: bool,
    pub dst_addr_blocked: bool,
    pub dst_port_blocked: bool,
}

/// The action the decision chain selects for frame bytes `s`: the
/// guards in order, each aborting on a frame too short for its header.
pub open spec fn spec_action(s: Seq<u8>) -> Action {
    if s.len() < ETH_HDR_LEN {
        Action::Abort
    } else if be16_at(s, 12) != ETHERTYPE_IPV4 {
        Action::Pass
    } else if s.len() < UDP_OFFSET {
        Action::Abort
    } else if s[23] != IP_PROTO_UDP {
        Action::Pass
    } else if s.len() < UDP_OFFSET + UDP_HDR_LEN {
        Action::Abort
    } else if be16_at(s, 36) != DNS_PORT {
        Action::Pass
    } else if s.len() < DNS_OFFSET + DNS_HDR_LEN {
        Action::Abort
    } else {
        Action::Tx
    }
}

/// Byte `i` of the reflected frame: the two 6-byte MAC fields, the two
/// 4-byte address fields and the two 2-byte port fields exchange their
/// bytes in wire order; every other byte keeps its value.
pub open spec fn reflect_index(s: Seq<u8>, i: int) -> u8
    recommends
        0 <= i < s.len(),
        s.len() >= 38,
{
    if 0 <= i < 6 {
        s[i + 6]
    } else if 6 <= i < 12 {
        s[i - 6]
    } else if 26 <= i < 30 {
        s[i + 4]
    } else if 30 <= i < 34 {
        s[i - 4]
    } else if 34 <= i < 36 {
        s[i + 2]
    } else if 36 <= i < 38 {
        s[i - 2]
    } else {
        s[i]
    }
}

/// The reflected frame: same length, source/destination MAC addresses,
/// IPv4 addresses and UDP ports swapped in place, all other bytes
/// (checksums and DNS payload included) unchanged.
pub open spec fn reflect_spec(s: Seq<u8>) -> Seq<u8> {
    Seq::new(s.len(), |i: int| reflect_index(s, i))
}

/// Reflects the frame in place: swaps source and destination MAC
/// addresses, IPv4 addresses and UDP ports, byte for byte in wire
/// order. Requires the Ethernet, IPv4 and UDP headers to be within
/// the frame's validated extent.
pub fn reflect(frame: &mut RawFrame)
    requires
        old(frame)@.len() >= UDP_OFFSET + UDP_HDR_LEN,
    ensures
        final(frame)@ == reflect_spec(old(frame)@),
{
    frame.swap_bytes(0, 6);
    frame.swap_bytes(1, 7);
    frame.swap_bytes(2, 8);
    frame.swap_bytes(3, 9);
    frame.swap_bytes(4, 10);
    frame.swap_bytes(5, 11);
    frame.swap_bytes(26, 30);
    frame.swap_bytes(27, 31);
    frame.swap_bytes(28, 32);
    frame.swap_bytes(29, 33);
    frame.swap_bytes(34, 36);
    frame.swap_bytes(35, 37);
    proof {
        assert(frame@ =~= reflect_spec(old(frame)@));
    }
}

/// Decodes the 5-tuple diagnostic record of a frame. Succeeds exactly
/// when the frame holds the Ethernet, IPv4 and UDP headers.
pub fn five_tuple(frame: &RawFrame) -> (r: Result<FiveTuple, OutOfBounds>)
    ensures
        r is Ok <==> frame@.len() >= UDP_OFFSET + UDP_HDR_LEN,
        r matches Ok(t) ==> tuple_matches(t, frame@),
{
    match frame.check_range(0, UDP_OFFSET + UDP_HDR_LEN) {
        Ok(()) => {},
        Err(e) => {
            return Err(e);
        },
    }
    Ok(
        FiveTuple {
            eth_dst: frame.read_mac(0),
            eth_src: frame.read_mac(6),
            ip_src: frame.read_u32_be(26),
            ip_dst: frame.read_u32_be(30),
            udp_src: frame.read_u16_be(34),
            udp_dst: frame.read_u16_be(36),
        },
    )
}

/// Whether the address block-list holds this IPv4 address.
pub fn block_ip(blocklist: &Blocklist, address: u32) -> (r: bool)
    ensures
        r == blocklist@.contains(address),
{
    blocklist.is_blocked_address(address)
}

/// Whether the port block-list holds this UDP port.
pub fn block_port(blocklist_port: &PortBlocklist, port: u16) -> (r: bool)
    ensures
        r == blocklist_port@.contains(port),
{
    blocklist_port.is_blocked_port(port)
}

/// The diagnostic report `rep` is the one owed for the frame bytes `s`
/// (a frame the chain reflects), with lookups against the two given
/// block-list views.
pub open spec fn report_matches(
    rep: DnsReport,
    s: Seq<u8>,
    addrs: Set<u32>,
    ports: Set<u16>,
) -> bool {
    &&& dns_matches(rep.dns, s)
    &&& tuple_matches(rep.pre, s)
    &&& tuple_matches(rep.post, reflect_spec(s))
    &&& rep.src_addr_blocked == addrs.contains(be32_at(s, 26))
    &&& rep.dst_addr_blocked == addrs.contains(be32_at(s, 30))
    &&& rep.dst_port_blocked == ports.contains(be16_at(s, 36))
}

/// The decision engine for one frame. Evaluates the guard chain in
/// order and short-circuits on the first non-matching condition:
/// a non-IPv4, non-UDP or non-DNS-port frame is passed unchanged; a
/// frame too short for a required header yields an error (the caller
/// aborts it) and is left unchanged; a DNS-bound frame is reflected in
/// place and handed back for transmission with its diagnostic report.
pub fn try_xdp_firewall(
    frame: &mut RawFrame,
    blocklist: &Blocklist,
    blocklist_port: &PortBlocklist,
) -> (r: Result<(Action, Option<DnsReport>), OutOfBounds>)
    ensures
        r is Err <==> spec_action(old(frame)@) == Action::Abort,
        r matches Ok((a, rep)) ==> {
            &&& a == spec_action(old(frame)@)
            &&& (a == Action::Tx <==> rep is Some)
            &&& (rep matches Some(rp) ==> report_matches(
                rp,
                old(frame)@,
                blocklist@,
                blocklist_port@,
            ))
        },
        spec_action(old(frame)@) == Action::Tx ==> final(frame)@ == reflect_spec(old(frame)@),
        spec_action(old(frame)@) != Action::Tx ==> final(frame)@ == old(frame)@,
{
    let eth = match EthHdr::parse(frame) {
        Ok(h) => h,
        Err(e) => {
            return Err(e);
        },
    };
    if eth.ether_type != ETHERTYPE_IPV4 {
        return Ok((Action::Pass, None));
    }
    let ipv4 = match Ipv4Hdr::parse(frame) {
        Ok(h) => h,
        Err(e) => {
            return Err(e);
        },
    };
    if ipv4.proto != IP_PROTO_UDP {
        return Ok((Action::Pass, None));
    }
    let udp = match UdpHdr::parse(frame) {
        Ok(h) => h,
        Err(e) => {
            return Err(e);
        },
    };
    if udp.dest != DNS_PORT {
        return Ok((Action::Pass, None));
    }
    let dns = match DnsHdr::parse(frame) {
        Ok(h) => h,
        Err(e) => {
            return Err(e);
        },
    };
    let pre = match five_tuple(frame) {
        Ok(t) => t,
        Err(e) => {
            return Err(e);
        },
    };
    let src_addr_blocked = block_ip(blocklist, pre.ip_src);
    let dst_addr_blocked = block_ip(blocklist, pre.ip_dst);
    let dst_port_blocked = block_port(blocklist_port, pre.udp_dst);
    reflect(frame);
    let post = match five_tuple(frame) {
        Ok(t) => t,
        Err(e) => {
            return Err(e);
        },
    };
    Ok(
        (
            Action::Tx,
            Some(
                DnsReport {
                    dns,
                    pre,
                    post,
                    src_addr_blocked,
                    dst_addr_blocked,
                    dst_port_blocked,
                },
            ),
        ),
    )
}

/// The full pipeline for one frame: the decision engine, with a
/// bounds-check failure folded into the terminal [`Action::Abort`].
pub fn xdp_firewall(
    frame: &mut RawFrame,
    blocklist: &Blocklist,
    blocklist_port: &PortBlocklist,
) -> (r: (Action, Option<DnsReport>))
    ensures
        r.0 == spec_action(old(frame)@),
        r.0 == Action::Tx <==> (r.1 is Some),
        r.1 matches Some(rp) ==> report_matches(rp, old(frame)@, blocklist@, blocklist_port@),
        spec_action(old(frame)@) == Action::Tx ==> final(frame)@ == reflect_spec(old(frame)@),
        spec_action(old(frame)@) != Action::Tx ==> final(frame)@ == old(frame)@,
{
    match try_xdp_firewall(frame, blocklist, blocklist_port) {
        Ok(r) => r,
        Err(_) => (Action::Abort, None),
    }
}

/// Every frame shorter than the 14-byte Ethernet header is aborted.
pub proof fn lemma_short_frame_aborts(s: Seq<u8>)
    requires
        s.len() < ETH_HDR_LEN,
    ensures
        spec_action(s) == Action::Abort,
{
}

/// Every frame whose ethertype is not IPv4 is passed; the pipeline
/// leaves a passed frame's bytes unchanged.
pub proof fn lemma_non_ipv4_passes(s: Seq<u8>)
    requires
        s.len() >= ETH_HDR_LEN,
        be16_at(s, 12) != ETHERTYPE_IPV4,
    ensures
        spec_action(s) == Action::Pass,
{
}

/// Every IPv4 frame whose protocol is not UDP is passed; the pipeline
/// leaves a passed frame's bytes unchanged.
pub proof fn lemma_non_udp_passes(s: Seq<u8>)
    requires
        s.len() >= UDP_OFFSET,
        be16_at(s, 12) == ETHERTYPE_IPV4,
        s[23] != IP_PROTO_UDP,
    ensures
        spec_action(s) == Action::Pass,
{
}

/// Every UDP frame whose destination port is not the DNS port is
/// passed; the pipeline leaves a passed frame's bytes unchanged.
pub proof fn lemma_non_dns_port_passes(s: Seq<u8>)
    requires
        s.len() >= UDP_OFFSET + UDP_HDR_LEN,
        be16_at(s, 12) == ETHERTYPE_IPV4,
        s[23] == IP_PROTO_UDP,
        be16_at(s, 36) != DNS_PORT,
    ensures
        spec_action(s) == Action::Pass,
{
}

/// Every well-formed Ethernet+IPv4+UDP frame bound for the DNS port
/// and long enough for the DNS header is selected for transmission,
/// and its reflection swaps exactly the six source/destination fields:
/// the MAC addresses, the IPv4 addresses and the UDP ports exchange
/// their bytes, and every byte outside those fields — checksums and
/// DNS payload included — is unchanged.
pub proof fn lemma_dns_frame_reflected(s: Seq<u8>)
    requires
        s.len() >= DNS_OFFSET + DNS_HDR_LEN,
        be16_at(s, 12) == ETHERTYPE_IPV4,
        s[23] == IP_PROTO_UDP,
        be16_at(s, 36) == DNS_PORT,
    ensures
        spec_action(s) == Action::Tx,
        reflect_spec(s).len() == s.len(),
        reflect_spec(s).subrange(0, 6) == s.subrange(6, 12),
        reflect_spec(s).subrange(6, 12) == s.subrange(0, 6),
        be32_at(reflect_spec(s), 26) == be32_at(s, 30),
        be32_at(reflect_spec(s), 30) == be32_at(s, 26),
        be16_at(reflect_spec(s), 34) == be16_at(s, 36),
        be16_at(reflect_spec(s), 36) == be16_at(s, 34),
        forall|i: int|
            12 <= i < 26 || 38 <= i < s.len() ==> #[trigger] reflect_spec(s)[i] == s[i],
{
    assert(reflect_spec(s).subrange(0, 6) =~= s.subrange(6, 12));
    assert(reflect_spec(s).subrange(6, 12) =~= s.subrange(0, 6));
}

/// Reflection is its own inverse: reflecting a frame twice restores
/// every byte of the original.
pub proof fn lemma_reflect_involutive(s: Seq<u8>)
    requires
        s.len() >= UDP_OFFSET + UDP_HDR_LEN,
    ensures
        reflect_spec(reflect_spec(s)) == s,
{
    assert(reflect_spec(reflect_spec(s)) =~= s);
}

/// Any two 5-tuple records decoded from the same frame bytes hold
/// identical field values.
pub proof fn lemma_tuple_decode_deterministic(s: Seq<u8>, a: FiveTuple, b: FiveTuple)
    requires
        tuple_matches(a, s),
        tuple_matches(b, s),
    ensures
        a == b,
{
    broadcast use vstd::array::group_array_axioms;

    assert(a.eth_src =~= b.eth_src);
    assert(a.eth_dst =~= b.eth_dst);
}

} // verus!
