//! The packed record written to the shared uniform buffer before each pass.

use vstd::prelude::*;

verus! {

/// The little-endian bytes of a 32-bit word, least significant byte first.
pub open spec fn u32_le_bytes(x: u32) -> Seq<u8> {
    seq![
        (x & 0xff) as u8,
        ((x >> 8) & 0xff) as u8,
        ((x >> 16) & 0xff) as u8,
        ((x >> 24) & 0xff) as u8,
    ]
}

/// The fixed 8-byte layout of one uniform record: the pass index as four
/// little-endian bytes, then the four bytes the host supplies for the
/// resolution scalar.
pub open spec fn uniform_bytes(pass_index: u32, resolution_bits: u32) -> Seq<u8> {
    u32_le_bytes(pass_index) + u32_le_bytes(resolution_bits)
}

/// What the shader reads each pass: which of the two passes is running,
/// and the resolution scalar, kept here as the integer
/// `max(surface width, surface height)` it is computed from. The host
/// converts it to the shader's scalar format when serializing.
#[derive(Clone, Copy, PartialEq, Eq, Structural, Debug)]
pub struct UniformRecord {
    /// Which pass the next draw belongs to: 0 or 1.
    pub pass_index: u32,
    /// `max(surface width, surface height)` at the time of the write.
    pub resolution: u32,
}

impl UniformRecord {
    /// Serializes the record into its fixed 8-byte buffer layout.
    /// `resolution_bits` is the host's 32-bit encoding of the resolution
    /// scalar; the pass index is encoded here.
    pub fn data(&self, resolution_bits: u32) -> (r: Vec<u8>)
        ensures
            r@ == uniform_bytes(self.pass_index, resolution_bits),
    {
        let mut r: Vec<u8> = Vec::new();
        push_u32_le(&mut r, self.pass_index);
        push_u32_le(&mut r, resolution_bits);
        proof {
            assert(r@ =~= uniform_bytes(self.pass_index, resolution_bits));
        }
        r
    }
}

/// Appends the four little-endian bytes of `x` to `out`.
pub fn push_u32_le(out: &mut Vec<u8>, x: u32)
    ensures
        final(out)@ == old(out)@ + u32_le_bytes(x),
{
    assert(x & 0xff < 256 && (x >> 8) & 0xff < 256 && (x >> 16) & 0xff < 256
        && (x >> 24) & 0xff < 256) by (bit_vector);
    out.push((x & 0xff) as u8);
    out.push(((x >> 8) & 0xff) as u8);
    out.push(((x >> 16) & 0xff) as u8);
    out.push(((x >> 24) & 0xff) as u8);
    proof {
        assert(out@ =~= old(out)@ + u32_le_bytes(x));
    }
}

} // verus!
