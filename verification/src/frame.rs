//! The raw frame buffer and its bounds-checked accessor.
//!
//! A [`RawFrame`] owns the bytes of one link-layer frame. Every read or
//! write of frame bytes anywhere in this crate goes through the checked
//! accessors defined here: a range is validated against the frame's
//! extent by [`RawFrame::check_range`] before any typed value is read,
//! and the reading and writing primitives demand a proved in-bounds
//! index. No other code path touches frame bytes.

use vstd::prelude::*;

verus! {

/// A header decode or mutation would read or write past the frame's
/// validated extent. The affected frame is discarded; processing of
/// other frames is unaffected.
#[derive(Clone, Copy, PartialEq, Eq, Debug)]
pub struct OutOfBounds;

/// The big-endian 16-bit value stored at bytes `i` and `i + 1` of `s`.
pub open spec fn be16_at(s: Seq<u8>, i: int) -> u16
    recommends
        0 <= i,
        i + 2 <= s.len(),
{
    (s[i] as int * 256 + s[i + 1] as int) as u16
}

/// The big-endian 32-bit value stored at bytes `i` .. `i + 4` of `s`.
pub open spec fn be32_at(s: Seq<u8>, i: int) -> u32
    recommends
        0 <= i,
        i + 4 <= s.len(),
{
    (s[i] as int * 0x1000000 + s[i + 1] as int * 0x10000 + s[i + 2] as int * 0x100 + s[i
        + 3] as int) as u32
}

/// One link-layer frame, owned by the caller for the duration of one
/// invocation of the pipeline. The view is the sequence of frame bytes.
pub struct RawFrame {
    bytes: Vec<u8>,
}

impl View for RawFrame {
    type V = Seq<u8>;

    closed spec fn view(&self) -> Seq<u8> {
        self.bytes@
    }
}

impl RawFrame {
    /// Wraps a byte buffer as a frame.
    pub fn new(bytes: Vec<u8>) -> (r: RawFrame)
        ensures
            r@ == bytes@,
    {
        RawFrame { bytes }
    }

    /// Hands the frame's bytes back to the caller.
    pub fn into_bytes(self) -> (r: Vec<u8>)
        ensures
            r@ == self@,
    {
        self.bytes
    }

    /// The frame's length in bytes.
    pub fn len(&self) -> (r: usize)
        ensures
            r == self@.len(),
    {
        self.bytes.len()
    }

    /// The single safety boundary: validates that the byte range
    /// `offset .. offset + size` lies within the frame's extent.
    /// Succeeds exactly when the range is in bounds.
    pub fn check_range(&self, offset: usize, size: usize) -> (r: Result<(), OutOfBounds>)
        ensures
            r is Ok <==> offset + size <= self@.len(),
    {
        if size <= self.bytes.len() && offset <= self.bytes.len() - size {
            Ok(())
        } else {
            Err(OutOfBounds)
        }
    }

    /// Reads the byte at a validated index.
    pub fn read_u8(&self, i: usize) -> (r: u8)
        requires
            i < self@.len(),
        ensures
            r == self@[i as int],
    {
        self.bytes[i]
    }

    /// Reads the big-endian 16-bit value at a validated offset.
    pub fn read_u16_be(&self, offset: usize) -> (r: u16)
        requires
            offset + 2 <= self@.len(),
        ensures
            r == be16_at(self@, offset as int),
    {
        let n = self.bytes.len();
        let hi = self.bytes[offset];
        let lo = self.bytes[offset + 1];
        (hi as u16) * 256 + (lo as u16)
    }

    /// Reads the big-endian 32-bit value at a validated offset.
    pub fn read_u32_be(&self, offset: usize) -> (r: u32)
        requires
            offset + 4 <= self@.len(),
        ensures
            r == be32_at(self@, offset as int),
    {
        let n = self.bytes.len();
        let b0 = self.bytes[offset];
        let b1 = self.bytes[offset + 1];
        let b2 = self.bytes[offset + 2];
        let b3 = self.bytes[offset + 3];
        (b0 as u32) * 0x1000000 + (b1 as u32) * 0x10000 + (b2 as u32) * 0x100 + (b3 as u32)
    }

    /// Reads six bytes at a validated offset, as a MAC address.
    pub fn read_mac(&self, offset: usize) -> (r: [u8; 6])
        requires
            offset + 6 <= self@.len(),
        ensures
            r@ == self@.subrange(offset as int, offset + 6),
    {
        let n = self.bytes.len();
        let r: [u8; 6] = [
            self.bytes[offset],
            self.bytes[offset + 1],
            self.bytes[offset + 2],
            self.bytes[offset + 3],
            self.bytes[offset + 4],
            self.bytes[offset + 5],
        ];
        proof {
            assert(r@ =~= self@.subrange(offset as int, offset + 6));
        }
        r
    }

    /// Writes the byte at a validated index.
    pub fn write_u8(&mut self, i: usize, v: u8)
        requires
            i < old(self)@.len(),
        ensures
            final(self)@ == old(self)@.update(i as int, v),
    {
        self.bytes[i] = v;
    }

    /// Swaps the bytes at two validated indices.
    pub fn swap_bytes(&mut self, i: usize, j: usize)
        requires
            i < old(self)@.len(),
            j < old(self)@.len(),
        ensures
            final(self)@ == old(self)@.update(i as int, old(self)@[j as int]).update(
                j as int,
                old(self)@[i as int],
            ),
    {
        let a = self.bytes[i];
        let b = self.bytes[j];
        self.bytes[i] = b;
        self.bytes[j] = a;
    }
}

} // verus!
