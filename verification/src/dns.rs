//! The fixed 12-byte DNS header and its flag bitfield.
//!
//! The header holds a 16-bit transaction id, a 16-bit flag bitfield
//! packed across two bytes in network bit order, and four 16-bit
//! counts, all big-endian on the wire. Flag accessors are pure bit
//! extraction with RFC 1035 bit numbering (bit 15 is the most
//! significant bit of the first flag byte): QR is bit 15, Opcode bits
//! 14-11, AA bit 10, TC bit 9, RD bit 8, RA bit 7, AD bit 5, CD bit 4,
//! RCODE bits 3-0. Reserved bits are not validated.

use vstd::prelude::*;
use crate::frame::{be16_at, OutOfBounds, RawFrame};
use crate::headers::{ETH_HDR_LEN, IPV4_HDR_LEN, UDP_HDR_LEN};

verus! {

/// Byte offset of the DNS header within a frame: behind the Ethernet,
/// IPv4 and UDP headers.
pub const DNS_OFFSET: usize = ETH_HDR_LEN + IPV4_HDR_LEN + UDP_HDR_LEN;

/// Length of the fixed DNS header.
pub const DNS_HDR_LEN: usize = 12;

/// Decoded view of the fixed DNS header. The transaction id and the
/// four counts are converted to host order at decode time; the flag
/// bitfield keeps its two wire bytes, read through the bit accessors.
#[derive(Clone, Copy, PartialEq, Eq, Debug)]
pub struct DnsHdr {
    /// Transaction id, host order.
    pub id: u16,
    /// The two flag bytes in wire order.
    pub flags: [u8; 2],
    /// Number of questions, host order.
    pub qdcount: u16,
    /// Number of answer records, host order.
    pub ancount: u16,
    /// Number of authority records, host order.
    pub nscount: u16,
    /// Number of additional records, host order.
    pub arcount: u16,
}

/// `h` holds exactly the DNS header fields encoded in frame bytes `s`.
pub open spec fn dns_matches(h: DnsHdr, s: Seq<u8>) -> bool {
    &&& h.id == be16_at(s, 42)
    &&& h.flags@ == s.subrange(44, 46)
    &&& h.qdcount == be16_at(s, 46)
    &&& h.ancount == be16_at(s, 48)
    &&& h.nscount == be16_at(s, 50)
    &&& h.arcount == be16_at(s, 52)
}

impl DnsHdr {
    /// Decodes the DNS header at its fixed offset behind the UDP
    /// header. Succeeds exactly when the frame holds the full 12-byte
    /// header.
    pub fn parse(frame: &RawFrame) -> (r: Result<DnsHdr, OutOfBounds>)
        ensures
            r is Ok <==> frame@.len() >= DNS_OFFSET + DNS_HDR_LEN,
            r matches Ok(h) ==> dns_matches(h, frame@),
    {
        match frame.check_range(DNS_OFFSET, DNS_HDR_LEN) {
            Ok(()) => {},
            Err(e) => {
                return Err(e);
            },
        }
        let flags: [u8; 2] = [frame.read_u8(44), frame.read_u8(45)];
        proof {
            assert(flags@ =~= frame@.subrange(44, 46));
        }
        Ok(
            DnsHdr {
                id: frame.read_u16_be(42),
                flags,
                qdcount: frame.read_u16_be(46),
                ancount: frame.read_u16_be(48),
                nscount: frame.read_u16_be(50),
                arcount: frame.read_u16_be(52),
            },
        )
    }

    /// Transaction id.
    pub fn id(&self) -> (r: u16)
        ensures
            r == self.id,
    {
        self.id
    }

    /// Query/response flag: bit 15 of the bitfield.
    pub fn qr(&self) -> (r: u16)
        ensures
            r == (self.flags@[0] >> 7) & 1,
    {
        ((self.flags[0] >> 7) & 1) as u16
    }

    /// Operation code: bits 14-11 of the bitfield.
    pub fn opcode(&self) -> (r: u16)
        ensures
            r == (self.flags@[0] >> 3) & 0xf,
    {
        ((self.flags[0] >> 3) & 0xf) as u16
    }

    /// Authoritative-answer flag: bit 10 of the bitfield.
    pub fn aa(&self) -> (r: u16)
        ensures
            r == (self.flags@[0] >> 2) & 1,
    {
        ((self.flags[0] >> 2) & 1) as u16
    }

    /// Truncation flag: bit 9 of the bitfield.
    pub fn tc(&self) -> (r: u16)
        ensures
            r == (self.flags@[0] >> 1) & 1,
    {
        ((self.flags[0] >> 1) & 1) as u16
    }

    /// Recursion-desired flag: bit 8 of the bitfield.
    pub fn rd(&self) -> (r: u16)
        ensures
            r == self.flags@[0] & 1,
    {
        (self.flags[0] & 1) as u16
    }

    /// Recursion-available flag: bit 7 of the bitfield.
    pub fn ra(&self) -> (r: u16)
        ensures
            r == (self.flags@[1] >> 7) & 1,
    {
        ((self.flags[1] >> 7) & 1) as u16
    }

    /// Authentic-data flag: bit 5 of the bitfield.
    pub fn ad(&self) -> (r: u16)
        ensures
            r == (self.flags@[1] >> 5) & 1,
    {
        ((self.flags[1] >> 5) & 1) as u16
    }

    /// Checking-disabled flag: bit 4 of the bitfield.
    pub fn cd(&self) -> (r: u16)
        ensures
            r == (self.flags@[1] >> 4) & 1,
    {
        ((self.flags[1] >> 4) & 1) as u16
    }

    /// Response code: bits 3-0 of the bitfield.
    pub fn rcode(&self) -> (r: u16)
        ensures
            r == self.flags@[1] & 0xf,
    {
        (self.flags[1] & 0xf) as u16
    }

    /// Number of questions.
    pub fn qdcount(&self) -> (r: u16)
        ensures
            r == self.qdcount,
    {
        self.qdcount
    }

    /// Number of answer records.
    pub fn ancount(&self) -> (r: u16)
        ensures
            r == self.ancount,
    {
        self.ancount
    }

    /// Number of authority records.
    pub fn nscount(&self) -> (r: u16)
        ensures
            r == self.nscount,
    {
        self.nscount
    }

    /// Number of additional records.
    pub fn arcount(&self) -> (r: u16)
        ensures
            r == self.arcount,
    {
        self.arcount
    }
}

/// Any two DNS header views decoded from the same frame bytes hold
/// identical field values.
pub proof fn lemma_dns_decode_deterministic(s: Seq<u8>, a: DnsHdr, b: DnsHdr)
    requires
        dns_matches(a, s),
        dns_matches(b, s),
    ensures
        a == b,
{
    broadcast use vstd::array::group_array_axioms;

    assert(a.flags =~= b.flags);
}

} // verus!
