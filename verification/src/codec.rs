//! Little-endian primitives: reading 16- and 32-bit words out of a byte
//! buffer and appending 32-bit words to one.

use vstd::prelude::*;

verus! {

/// The 16-bit word stored little-endian at offset `i` of `b`.
pub open spec fn le16(b: Seq<u8>, i: int) -> u16 {
    (b[i] + b[i + 1] * 0x100) as u16
}

/// The 32-bit word stored little-endian at offset `i` of `b`.
pub open spec fn le32(b: Seq<u8>, i: int) -> u32 {
    (b[i] + b[i + 1] * 0x100 + b[i + 2] * 0x10000 + b[i + 3] * 0x1000000) as u32
}

/// The four bytes of `v`, least significant first.
pub open spec fn u32_le_bytes(v: u32) -> Seq<u8> {
    seq![
        (v % 0x100) as u8,
        ((v / 0x100) % 0x100) as u8,
        ((v / 0x10000) % 0x100) as u8,
        ((v / 0x1000000) % 0x100) as u8,
    ]
}

/// Writing a word and reading it back is the identity.
pub proof fn lemma_le32_of_u32_le_bytes(b: Seq<u8>, i: int, v: u32)
    requires
        0 <= i,
        i + 4 <= b.len(),
        b.subrange(i, i + 4) == u32_le_bytes(v),
    ensures
        le32(b, i) == v,
{
    assert(b[i] == u32_le_bytes(v)[0]) by {
        assert(b.subrange(i, i + 4)[0] == b[i]);
    }
    assert(b[i + 1] == u32_le_bytes(v)[1]) by {
        assert(b.subrange(i, i + 4)[1] == b[i + 1]);
    }
    assert(b[i + 2] == u32_le_bytes(v)[2]) by {
        assert(b.subrange(i, i + 4)[2] == b[i + 2]);
    }
    assert(b[i + 3] == u32_le_bytes(v)[3]) by {
        assert(b.subrange(i, i + 4)[3] == b[i + 3]);
    }
    assert(v % 0x100 + ((v / 0x100) % 0x100) * 0x100 + ((v / 0x10000) % 0x100) * 0x10000 + ((v
        / 0x1000000) % 0x100) * 0x1000000 == v) by (bit_vector);
}

/// Reads the 16-bit little-endian word at `off`.
pub fn read_u16_le(b: &[u8], off: usize) -> (r: u16)
    requires
        off + 2 <= b@.len(),
    ensures
        r == le16(b@, off as int),
{
    b[off] as u16 + b[off + 1] as u16 * 0x100
}

/// Reads the 32-bit little-endian word at `off`.
pub fn read_u32_le(b: &[u8], off: usize) -> (r: u32)
    requires
        off + 4 <= b@.len(),
    ensures
        r == le32(b@, off as int),
{
    b[off] as u32 + b[off + 1] as u32 * 0x100 + b[off + 2] as u32 * 0x10000 + b[off + 3] as u32
        * 0x1000000
}

/// Appends the four bytes of `v` to `out`, least significant first.
pub fn push_u32_le(out: &mut Vec<u8>, v: u32)
    ensures
        final(out)@ == old(out)@ + u32_le_bytes(v),
{
    out.push((v % 0x100) as u8);
    out.push((v / 0x100 % 0x100) as u8);
    out.push((v / 0x10000 % 0x100) as u8);
    out.push((v / 0x1000000 % 0x100) as u8);
    proof {
        assert(out@ =~= old(out)@ + u32_le_bytes(v));
    }
}

} // verus!
