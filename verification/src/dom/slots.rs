//! Little-endian fields of the node blob: how each is read, and what a write leaves.
use vstd::prelude::*;

verus! {

/// Width code of 2-byte node links.
pub const WIDTH_U16: u8 = 0;
/// Width code of 3-byte node links.
pub const WIDTH_U24: u8 = 1;

/// Bytes per node link at width `w`.
pub open spec fn slot(w: u8) -> int {
    if w == WIDTH_U24 { 3 } else { 2 }
}

/// Bytes per node record at width `w`: a tag byte, five links and two 2-byte list
/// indices (classes and attributes). A text node's 4-byte start and end, written over
/// its child links, end at the same byte at the 2-byte width.
pub open spec fn node_size(w: u8) -> int {
    if w == WIDTH_U24 { 20 } else { 15 }
}

/// The link value that stands for "no node" at width `w`.
pub open spec fn sentinel(w: u8) -> int {
    if w == WIDTH_U24 { 0xFF_FFFF } else { 0xFFFF }
}

/// The unsigned little-endian value of the `n` bytes of `b` from `pos`.
pub open spec fn rd(b: Seq<u8>, pos: int, n: int) -> int {
    if n == 2 {
        b[pos] + 256 * b[pos + 1]
    } else if n == 3 {
        b[pos] + 256 * b[pos + 1] + 65536 * b[pos + 2]
    } else {
        b[pos] + 256 * b[pos + 1] + 65536 * b[pos + 2] + 16777216 * b[pos + 3]
    }
}

/// `b` with the low `n` bytes of `v` written little-endian from `pos`.
pub open spec fn wr(b: Seq<u8>, pos: int, n: int, v: int) -> Seq<u8> {
    let b2 = b.update(pos, (v % 256) as u8).update(pos + 1, ((v / 256) % 256) as u8);
    if n == 2 {
        b2
    } else if n == 3 {
        b2.update(pos + 2, ((v / 65536) % 256) as u8)
    } else {
        b2.update(pos + 2, ((v / 65536) % 256) as u8).update(pos + 3, ((v / 16777216) % 256) as u8)
    }
}

/// `2^(8n)`.
pub open spec fn span(n: int) -> int {
    if n == 2 { 0x1_0000 } else if n == 3 { 0x100_0000 } else { 0x1_0000_0000 }
}

/// A read gives back the low bytes of what was written.
pub proof fn lemma_rd_wr(b: Seq<u8>, pos: int, n: int, v: u32)
    requires
        0 <= pos,
        pos + n <= b.len(),
        n == 2 || n == 3 || n == 4,
    ensures
        rd(wr(b, pos, n, v as int), pos, n) == (v as int) % span(n),
        wr(b, pos, n, v as int).len() == b.len(),
        forall|k: int| 0 <= k < b.len() && (k < pos || k >= pos + n) ==> #[trigger] wr(b, pos, n, v as int)[k] == b[k],
{
    let b2 = wr(b, pos, n, v as int);
    if n == 2 {
        assert(b2[pos] == v % 256);
        assert(b2[pos + 1] == (v / 256) % 256);
        assert((v % 256) + 256 * ((v / 256) % 256) == v % 0x1_0000) by (bit_vector);
    } else if n == 3 {
        assert(b2[pos] == v % 256);
        assert(b2[pos + 1] == (v / 256) % 256);
        assert(b2[pos + 2] == (v / 65536) % 256);
        assert((v % 256) + 256 * ((v / 256) % 256) + 65536 * ((v / 65536) % 256) == v % 0x100_0000) by (bit_vector);
    } else {
        assert(b2[pos] == v % 256);
        assert(b2[pos + 1] == (v / 256) % 256);
        assert(b2[pos + 2] == (v / 65536) % 256);
        assert(b2[pos + 3] == (v / 16777216) % 256);
        assert((v % 256) + 256 * ((v / 256) % 256) + 65536 * ((v / 65536) % 256) + 16777216 * ((v / 16777216) % 256) == v) by (bit_vector);
    }
}

/// Reads `n` bytes (2, 3 or 4) little-endian.
pub fn read_le(bytes: &[u8], pos: usize, n: usize) -> (r: u32)
    requires
        n == 2 || n == 3 || n == 4,
        pos + n <= bytes@.len(),
    ensures
        r == rd(bytes@, pos as int, n as int),
{
    let b0 = bytes[pos] as u32;
    let b1 = bytes[pos + 1] as u32;
    if n == 2 {
        b0 + 256 * b1
    } else if n == 3 {
        let b2 = bytes[pos + 2] as u32;
        b0 + 256 * b1 + 65536 * b2
    } else {
        let b2 = bytes[pos + 2] as u32;
        let b3 = bytes[pos + 3] as u32;
        b0 + 256 * b1 + 65536 * b2 + 16777216 * b3
    }
}

/// Writes the low `n` bytes (2, 3 or 4) of `v` little-endian.
pub fn write_le(bytes: &mut Vec<u8>, pos: usize, n: usize, v: u32)
    requires
        n == 2 || n == 3 || n == 4,
        pos + n <= old(bytes)@.len(),
    ensures
        final(bytes)@ == wr(old(bytes)@, pos as int, n as int, v as int),
{
    let _len = bytes.len();
    bytes.set(pos, (v % 256) as u8);
    bytes.set(pos + 1, ((v / 256) % 256) as u8);
    if n >= 3 {
        bytes.set(pos + 2, ((v / 65536) % 256) as u8);
    }
    if n == 4 {
        bytes.set(pos + 3, ((v / 16777216) % 256) as u8);
    }
}

} // verus!
