//! Little-endian byte layouts shared by the bitmap and resource writers.

use vstd::prelude::*;

verus! {

/// The two little-endian bytes of `v` (taken modulo 2^16).
pub open spec fn le16(v: int) -> Seq<u8> {
    seq![(v % 256) as u8, ((v / 256) % 256) as u8]
}

/// The four little-endian bytes of `v` (taken modulo 2^32).
pub open spec fn le32(v: int) -> Seq<u8> {
    seq![
        (v % 256) as u8,
        ((v / 0x100) % 256) as u8,
        ((v / 0x1_0000) % 256) as u8,
        ((v / 0x100_0000) % 256) as u8,
    ]
}

/// Only the value modulo 2^32 shows in its four bytes.
pub proof fn lemma_le32_wraps(v: u64)
    ensures
        le32((v % 0x1_0000_0000) as int) == le32(v as int),
{
    assert((v % 0x1_0000_0000) % 256 == v % 256) by (bit_vector);
    assert(((v % 0x1_0000_0000) / 0x100) % 256 == (v / 0x100) % 256) by (bit_vector);
    assert(((v % 0x1_0000_0000) / 0x1_0000) % 256 == (v / 0x1_0000) % 256) by (bit_vector);
    assert(((v % 0x1_0000_0000) / 0x100_0000) % 256 == (v / 0x100_0000) % 256) by (bit_vector);
}

/// `n` zero bytes.
pub open spec fn zeros(n: nat) -> Seq<u8> {
    Seq::new(n, |i: int| 0u8)
}

/// Appends the little-endian bytes of `v`.
pub fn push_u16(out: &mut Vec<u8>, v: u16)
    ensures
        final(out)@ == old(out)@ + le16(v as int),
{
    out.push((v % 256) as u8);
    out.push((v / 256) as u8);
    assert(final(out)@ =~= old(out)@ + le16(v as int));
}

/// Appends the little-endian bytes of `v`.
pub fn push_u32(out: &mut Vec<u8>, v: u32)
    ensures
        final(out)@ == old(out)@ + le32(v as int),
{
    out.push((v % 256) as u8);
    out.push(((v / 0x100) % 256) as u8);
    out.push(((v / 0x1_0000) % 256) as u8);
    out.push((v / 0x100_0000) as u8);
    assert(final(out)@ =~= old(out)@ + le32(v as int));
}

/// Appends `n` zero bytes.
pub fn push_zeros(out: &mut Vec<u8>, n: usize)
    ensures
        final(out)@ == old(out)@ + zeros(n as nat),
{
    let ghost start = out@;
    let mut i: usize = 0;
    while i < n
        invariant
            i <= n,
            out@ == start + zeros(i as nat),
        decreases n - i,
    {
        out.push(0);
        i += 1;
        assert(out@ =~= start + zeros(i as nat));
    }
}

/// A 40-byte BITMAPINFOHEADER for a 32-bit uncompressed image: `width` and `height` are the raw
/// field values (a negative height marks a top-down image), `image_size` the pixel byte count.
pub open spec fn info_header(width: int, height: int, image_size: int) -> Seq<u8> {
    le32(40) + le32(width) + le32(height) + le16(1) + le16(32) + zeros(4) + le32(image_size)
        + zeros(16)
}

/// Appends a 32-bit BITMAPINFOHEADER with the given raw field values.
pub fn push_info_header(out: &mut Vec<u8>, width: u32, height: u32, image_size: u32)
    ensures
        final(out)@ == old(out)@ + info_header(width as int, height as int, image_size as int),
{
    let ghost start = out@;
    push_u32(out, 40);
    push_u32(out, width);
    push_u32(out, height);
    push_u16(out, 1);
    push_u16(out, 32);
    push_zeros(out, 4);
    push_u32(out, image_size);
    push_zeros(out, 16);
    assert(out@ =~= start + info_header(width as int, height as int, image_size as int));
}

} // verus!
