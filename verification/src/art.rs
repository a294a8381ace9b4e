//! The orb icon as Windows stores it: 32-bit DIB images and a compiled resource file.
//! Rendering the orb itself is floating-point work done outside this crate; these functions
//! take its pixels.

use crate::bytes::{info_header, le16, le32, push_info_header, push_u16, push_u32, push_zeros, zeros};
use vstd::prelude::*;

verus! {

/// Icon sizes embedded in the resource, smallest first.
pub const ICON_SIZES: [usize; 8] = [16, 20, 24, 32, 40, 48, 64, 256];

pub open spec fn icon_sizes() -> Seq<usize> {
    seq![16usize, 20, 24, 32, 40, 48, 64, 256]
}

/// Bytes in one row of the 1-bit AND mask: whole 32-bit words.
pub open spec fn mask_row_len(size: int) -> int {
    (size + 31) / 32 * 4
}

/// Rows `hi - 1` down to `lo` of an image whose rows are `row_len` bytes long.
pub open spec fn rows_bottom_up(pixels: Seq<u8>, row_len: int, lo: int, hi: int) -> Seq<u8>
    decreases hi - lo,
{
    if lo >= hi {
        Seq::empty()
    } else {
        rows_bottom_up(pixels, row_len, lo + 1, hi) + pixels.subrange(lo * row_len, (lo + 1) * row_len)
    }
}

/// Whether pixel (`x`, `y`) of the straight-alpha BGRA image is fully transparent.
pub open spec fn transparent(pixels: Seq<u8>, size: int, x: int, y: int) -> bool {
    pixels[(y * size + x) * 4 + 3] == 0
}

/// Byte `b` of mask row `y` after its first `k` bits: bit `k` (from the most significant one)
/// is set for each pixel `x = 8b + k` inside the row that is fully transparent.
pub open spec fn mask_byte(pixels: Seq<u8>, size: int, y: int, b: int, k: nat) -> u8
    decreases k,
{
    if k == 0 {
        0u8
    } else {
        let x = b * 8 + (k - 1);
        let prev = mask_byte(pixels, size, y, b, (k - 1) as nat);
        if x < size && transparent(pixels, size, x, y) {
            prev | (0x80u8 >> ((k - 1) as u8))
        } else {
            prev
        }
    }
}

/// Mask row `y`: one bit per pixel, set where the pixel is transparent, padded with zero bits.
pub open spec fn mask_row(pixels: Seq<u8>, size: int, y: int) -> Seq<u8> {
    Seq::new(mask_row_len(size) as nat, |b: int| mask_byte(pixels, size, y, b, 8))
}

/// Mask rows `hi - 1` down to `lo`.
pub open spec fn mask_bottom_up(pixels: Seq<u8>, size: int, lo: int, hi: int) -> Seq<u8>
    decreases hi - lo,
{
    if lo >= hi {
        Seq::empty()
    } else {
        mask_bottom_up(pixels, size, lo + 1, hi) + mask_row(pixels, size, lo)
    }
}

/// The icon image as ICO and RT_ICON store it: a BITMAPINFOHEADER of double height, the BGRA
/// rows bottom-up, then the AND mask rows bottom-up.
pub open spec fn icon_dib_spec(pixels: Seq<u8>, size: int) -> Seq<u8> {
    info_header(size, 2 * size, 0) + rows_bottom_up(pixels, size * 4, 0, size) + mask_bottom_up(
        pixels,
        size,
        0,
        size,
    )
}

proof fn lemma_pixel_index(size: int, x: int, y: int)
    requires
        0 <= x < size,
        0 <= y < size,
    ensures
        0 <= (y * size + x) * 4 + 3 < size * size * 4,
        y * size * 4 + x * 4 + 3 == (y * size + x) * 4 + 3,
        0 <= y * size <= y * size * 4,
{
    assert(0 <= y * size <= y * size * 4) by (nonlinear_arith)
        requires
            0 <= y,
            0 <= size,
    ;
    assert(0 <= (y * size + x) * 4 + 3 < size * size * 4) by (nonlinear_arith)
        requires
            0 <= x < size,
            0 <= y < size,
    ;
    assert(y * size * 4 + x * 4 + 3 == (y * size + x) * 4 + 3) by (nonlinear_arith);
}

/// Appends the mask byte `b` of row `y`.
fn mask_byte_exec(pixels: &[u8], size: usize, y: usize, b: usize) -> (r: u8)
    requires
        pixels@.len() == size * size * 4,
        y < size,
        b * 8 + 8 <= usize::MAX,
    ensures
        r == mask_byte(pixels@, size as int, y as int, b as int, 8),
{
    let n = pixels.len();
    let mut byte: u8 = 0;
    let mut k: usize = 0;
    while k < 8
        invariant
            pixels@.len() == size * size * 4,
            n == pixels@.len(),
            y < size,
            b * 8 + 8 <= usize::MAX,
            k <= 8,
            byte == mask_byte(pixels@, size as int, y as int, b as int, k as nat),
        decreases 8 - k,
    {
        let x = b * 8 + k;
        if x < size {
            proof {
                lemma_pixel_index(size as int, x as int, y as int);
            }
            if pixels[y * size * 4 + x * 4 + 3] == 0 {
                byte = byte | (0x80u8 >> (k as u8));
            }
        }
        k += 1;
    }
    byte
}

/// Appends mask row `y`.
fn push_mask_row(out: &mut Vec<u8>, pixels: &[u8], size: usize, y: usize)
    requires
        pixels@.len() == size * size * 4,
        y < size,
        size < 0x8000_0000,
    ensures
        final(out)@ == old(out)@ + mask_row(pixels@, size as int, y as int),
{
    let ghost start = out@;
    let row_len = (size + 31) / 32 * 4;
    let ghost row = mask_row(pixels@, size as int, y as int);
    let mut b: usize = 0;
    while b < row_len
        invariant
            pixels@.len() == size * size * 4,
            y < size,
            size < 0x8000_0000,
            row_len == mask_row_len(size as int),
            row == mask_row(pixels@, size as int, y as int),
            b <= row_len,
            out@ == start + row.take(b as int),
        decreases row_len - b,
    {
        let byte = mask_byte_exec(pixels, size, y, b);
        out.push(byte);
        assert(row.take(b + 1) =~= row.take(b as int).push(byte));
        b += 1;
    }
    assert(row.take(row_len as int) =~= row);
}

/// Appends the BGRA rows bottom-up.
fn push_rows_bottom_up(out: &mut Vec<u8>, pixels: &[u8], size: usize)
    requires
        pixels@.len() == size * size * 4,
    ensures
        final(out)@ == old(out)@ + rows_bottom_up(pixels@, size * 4, 0, size as int),
{
    let ghost start = out@;
    let n = pixels.len();
    assert(size * 4 <= size * size * 4 || size == 0) by (nonlinear_arith);
    let row_len = size * 4;
    let mut y = size;
    while y > 0
        invariant
            pixels@.len() == size * size * 4,
            n == pixels@.len(),
            row_len == size * 4,
            y <= size,
            out@ == start + rows_bottom_up(pixels@, row_len as int, y as int, size as int),
        decreases y,
    {
        y -= 1;
        assert(0 <= y * row_len && y * row_len + row_len == (y + 1) * row_len && (y + 1) * row_len
            <= size * size * 4) by (nonlinear_arith)
            requires
                y + 1 <= size,
                row_len == size * 4,
        ;
        crate::selection::push_run(out, pixels, y * row_len, row_len);
    }
}

/// Appends the AND mask rows bottom-up.
fn push_mask_bottom_up(out: &mut Vec<u8>, pixels: &[u8], size: usize)
    requires
        pixels@.len() == size * size * 4,
        size < 0x8000_0000,
    ensures
        final(out)@ == old(out)@ + mask_bottom_up(pixels@, size as int, 0, size as int),
{
    let ghost start = out@;
    let mut y = size;
    while y > 0
        invariant
            pixels@.len() == size * size * 4,
            size < 0x8000_0000,
            y <= size,
            out@ == start + mask_bottom_up(pixels@, size as int, y as int, size as int),
        decreases y,
    {
        y -= 1;
        push_mask_row(out, pixels, size, y);
    }
}

/// A 32-bit icon image (BITMAPINFOHEADER, bottom-up BGRA rows and the AND mask) as stored in
/// ICO files and RT_ICON resources, from a `size` x `size` straight-alpha BGRA image.
pub fn icon_dib(pixels: &[u8], size: usize) -> (r: Vec<u8>)
    requires
        pixels@.len() == size * size * 4,
        size < 0x8000_0000,
    ensures
        r@ == icon_dib_spec(pixels@, size as int),
{
    let mut out: Vec<u8> = Vec::new();
    push_info_header(&mut out, size as u32, 2 * size as u32, 0);
    push_rows_bottom_up(&mut out, pixels, size);
    push_mask_bottom_up(&mut out, pixels, size);
    out
}

/// Zero bytes that bring a length of `n` up to a multiple of four.
pub open spec fn pad_len(n: int) -> int {
    (4 - n % 4) % 4
}

/// One resource entry of a compiled .res file: a 32-byte RESOURCEHEADER (data size, header size,
/// numeric type and name, data version, memory flags, US English language, version and
/// characteristics), the data, and zero padding to a four-byte boundary.
pub open spec fn entry_spec(kind: int, id: int, flags: int, data: Seq<u8>) -> Seq<u8> {
    le32(data.len() as int) + le32(32) + le16(0xFFFF) + le16(kind) + le16(0xFFFF) + le16(id)
        + le32(0) + le16(flags) + le16(0x0409) + zeros(8) + data + zeros(pad_len(data.len() as int) as nat)
}

/// The RT_ICON entries for the first `n` images; image `i` gets id `i + 1`.
pub open spec fn icon_entries(images: Seq<Vec<u8>>, n: nat) -> Seq<u8>
    decreases n,
{
    if n == 0 {
        Seq::empty()
    } else {
        icon_entries(images, (n - 1) as nat) + entry_spec(3, n as int, 0x1010, images[n - 1]@)
    }
}

/// A GRPICONDIRENTRY: width and height (256 wraps to 0), no palette, one plane, 32 bits per
/// pixel, the image's byte count and its resource id.
pub open spec fn group_entry(size: int, len: int, id: int) -> Seq<u8> {
    seq![(size % 256) as u8, (size % 256) as u8, 0u8, 0u8] + le16(1) + le16(32) + le32(len) + le16(id)
}

/// Directory entries for the first `n` images.
pub open spec fn group_entries(images: Seq<Vec<u8>>, n: nat) -> Seq<u8>
    decreases n,
{
    if n == 0 {
        Seq::empty()
    } else {
        group_entries(images, (n - 1) as nat) + group_entry(
            icon_sizes()[n - 1] as int,
            images[n - 1]@.len() as int,
            n as int,
        )
    }
}

/// The icon group directory: reserved, type 1 (icon), the count, then one entry per image.
pub open spec fn group_spec(images: Seq<Vec<u8>>) -> Seq<u8> {
    le16(0) + le16(1) + le16(8) + group_entries(images, 8)
}

/// The whole .res file: the empty leading entry, one RT_ICON per size, and RT_GROUP_ICON 1.
pub open spec fn icon_res_spec(images: Seq<Vec<u8>>) -> Seq<u8> {
    entry_spec(0, 0, 0, Seq::empty()) + icon_entries(images, 8) + entry_spec(
        14,
        1,
        0x1030,
        group_spec(images),
    )
}

/// The 32-byte RESOURCEHEADER that opens an entry.
pub open spec fn resource_header(len: int, kind: int, id: int, flags: int) -> Seq<u8> {
    le32(len) + le32(32) + le16(0xFFFF) + le16(kind) + le16(0xFFFF) + le16(id) + le32(0) + le16(
        flags,
    ) + le16(0x0409) + zeros(8)
}

fn push_resource_header(out: &mut Vec<u8>, len: usize, kind: u16, id: u16, flags: u16)
    ensures
        final(out)@ == old(out)@ + resource_header(len as int, kind as int, id as int, flags as int),
{
    let ghost start = out@;
    proof {
        crate::bytes::lemma_le32_wraps(len as u64);
        assert(len as u32 == len as u64 % 0x1_0000_0000) by (bit_vector);
    }
    push_u32(out, #[verifier::truncate] (len as u32));
    push_u32(out, 32);
    push_u16(out, 0xFFFF);
    push_u16(out, kind);
    push_u16(out, 0xFFFF);
    push_u16(out, id);
    push_u32(out, 0);
    push_u16(out, flags);
    push_u16(out, 0x0409);
    push_zeros(out, 8);
    assert(out@ =~= start + resource_header(len as int, kind as int, id as int, flags as int));
}

/// Appends one resource entry; the output stays four-byte aligned.
#[verifier::rlimit(30)]
fn push_entry(out: &mut Vec<u8>, kind: u16, id: u16, flags: u16, data: &[u8])
    requires
        old(out)@.len() % 4 == 0,
    ensures
        final(out)@ == old(out)@ + entry_spec(kind as int, id as int, flags as int, data@),
        final(out)@.len() % 4 == 0,
{
    let ghost start = out@;
    let len = data.len();
    push_resource_header(out, len, kind, id, flags);
    crate::selection::push_run(out, data, 0, len);
    let ghost mid = out@;
    assert(data@.subrange(0, len as int) =~= data@);
    assert(resource_header(len as int, kind as int, id as int, flags as int).len() == 32);
    let pad = (4 - len % 4) % 4;
    push_zeros(out, pad);
    assert(out@.len() == start.len() + 32 + len + pad);
    assert(entry_spec(kind as int, id as int, flags as int, data@) =~= resource_header(
        len as int,
        kind as int,
        id as int,
        flags as int,
    ) + data@ + zeros(pad as nat));
    assert(out@ =~= start + entry_spec(kind as int, id as int, flags as int, data@));
}

/// The embedded icon size at position `i` of `ICON_SIZES`.
fn icon_size(i: usize) -> (r: usize)
    requires
        i < 8,
    ensures
        r == icon_sizes()[i as int],
{
    ICON_SIZES[i]
}

/// A compiled resource (.res) file holding icon group 1 with one RT_ICON per entry of
/// `ICON_SIZES`; `images[i]` is the icon image (see `icon_dib`) of size `ICON_SIZES[i]`.
pub fn icon_res(images: &Vec<Vec<u8>>) -> (r: Vec<u8>)
    requires
        images@.len() == 8,
    ensures
        r@ == icon_res_spec(images@),
        r@.len() % 4 == 0,
{
    let mut out: Vec<u8> = Vec::new();
    let empty: Vec<u8> = Vec::new();
    push_entry(&mut out, 0, 0, 0, empty.as_slice());
    let ghost first = out@;
    let mut group: Vec<u8> = Vec::new();
    push_u16(&mut group, 0);
    push_u16(&mut group, 1);
    push_u16(&mut group, 8);
    let ghost group_head = group@;
    let mut i: usize = 0;
    while i < 8
        invariant
            images@.len() == 8,
            i <= 8,
            out@ == first + icon_entries(images@, i as nat),
            out@.len() % 4 == 0,
            group@ == group_head + group_entries(images@, i as nat),
        decreases 8 - i,
    {
        let image = &images[i];
        push_entry(&mut out, 3, (i + 1) as u16, 0x1010, image.as_slice());
        let size = icon_size(i);
        group.push(#[verifier::truncate] (size as u8));
        group.push(#[verifier::truncate] (size as u8));
        group.push(0);
        group.push(0);
        push_u16(&mut group, 1);
        push_u16(&mut group, 32);
        let len = image.len();
        proof {
            crate::bytes::lemma_le32_wraps(len as u64);
            assert(len as u32 == len as u64 % 0x1_0000_0000) by (bit_vector);
            assert(size as u8 == size % 256) by (bit_vector);
        }
        push_u32(&mut group, #[verifier::truncate] (len as u32));
        push_u16(&mut group, (i + 1) as u16);
        i += 1;
        assert(group@ =~= group_head + group_entries(images@, i as nat));
        assert(out@ =~= first + icon_entries(images@, i as nat));
    }
    assert(group@ =~= group_spec(images@));
    push_entry(&mut out, 14, 1, 0x1030, group.as_slice());
    assert(empty@ =~= Seq::<u8>::empty());
    assert(out@ =~= icon_res_spec(images@));
    out
}

/// How many times finer each axis of the orb is rendered for an icon of `size` pixels.
pub open spec fn factor_spec(size: int) -> int {
    let f: int = 128int / size;
    if f < 1 {
        1
    } else if f > 4 {
        4
    } else {
        f
    }
}

/// Sum of `n` bytes of `s` taken every fourth byte from `start`.
pub open spec fn run_sum(s: Seq<u8>, start: int, n: nat) -> int
    decreases n,
{
    if n == 0 {
        0
    } else {
        run_sum(s, start, (n - 1) as nat) + s[start + 4 * (n - 1)]
    }
}

/// Sum of channel `c` over the first `rows` rows of the `f` x `f` block that covers icon pixel
/// (`x`, `y`) in a `side`-pixel BGRA image.
pub open spec fn block_sum(s: Seq<u8>, side: int, f: int, x: int, y: int, c: int, rows: nat) -> int
    decreases rows,
{
    if rows == 0 {
        0
    } else {
        block_sum(s, side, f, x, y, c, (rows - 1) as nat) + run_sum(
            s,
            ((y * f + (rows - 1)) * side + x * f) * 4 + c,
            f as nat,
        )
    }
}

/// Channel `c` of icon pixel (`x`, `y`): the block's mean alpha, and its mean premultiplied color
/// turned back to straight alpha (0 where the block is fully transparent, at most 255).
pub open spec fn icon_channel(big: Seq<u8>, size: int, x: int, y: int, c: int) -> int {
    let f = factor_spec(size);
    let n = f * f;
    let side = size * f;
    let alpha = block_sum(big, side, f, x, y, 3, f as nat) / n;
    if c == 3 {
        alpha
    } else if alpha == 0 {
        0
    } else {
        let v = block_sum(big, side, f, x, y, c, f as nat) / n * 255 / alpha;
        if v > 255 {
            255
        } else {
            v
        }
    }
}

/// Supersampling factor for an icon of `size` pixels: 128 / size, between 1 and 4.
pub fn icon_factor(size: usize) -> (r: usize)
    requires
        size > 0,
    ensures
        r == factor_spec(size as int),
        1 <= r <= 4,
{
    let f: usize = 128 / size;
    if f < 1 {
        1
    } else if f > 4 {
        4
    } else {
        f
    }
}

proof fn lemma_block_index(size: int, f: int, x: int, y: int, sy: int, sx: int)
    requires
        1 <= f <= 4,
        0 <= x < size,
        0 <= y < size,
        0 <= sy < f,
        0 <= sx < f,
    ensures
        ({
            let side = size * f;
            let i = ((y * f + sy) * side + x * f + sx) * 4;
            &&& 0 <= i
            &&& i + 4 <= side * side * 4
            &&& i == ((y * f + sy) * side + x * f) * 4 + 4 * sx
            &&& 0 <= y * f <= y * f + sy < side <= side * side * 4
            &&& 0 <= x * f <= x * f + sx < side
            &&& 0 <= (y * f + sy) * side <= (y * f + sy) * side + x * f + sx <= i
        }),
{
    let side = size * f;
    assert(y * f + sy < side && x * f + sx < side) by (nonlinear_arith)
        requires
            side == size * f,
            0 <= x < size,
            0 <= y < size,
            0 <= sy < f,
            0 <= sx < f,
    ;
    assert(0 <= y * f + sy && 0 <= x * f + sx) by (nonlinear_arith)
        requires
            0 <= x,
            0 <= y,
            0 <= sy,
            0 <= sx,
            1 <= f,
    ;
    let r = y * f + sy;
    let col = x * f + sx;
    assert(0 <= (r * side + col) * 4 && (r * side + col) * 4 + 4 <= side * side * 4 && side
        <= side * side * 4 && 0 <= r * side) by (nonlinear_arith)
        requires
            0 <= r < side,
            0 <= col < side,
    ;
    assert(0 <= y * f && 0 <= x * f) by (nonlinear_arith)
        requires
            0 <= x,
            0 <= y,
            1 <= f,
    ;
}

/// The four channel sums of the block behind icon pixel (`x`, `y`).
#[verifier::rlimit(40)]
fn block_sums(big: &[u8], size: usize, f: usize, x: usize, y: usize) -> (r: (u32, u32, u32, u32))
    requires
        1 <= f <= 4,
        x < size,
        y < size,
        big@.len() == (size * f) * (size * f) * 4,
    ensures
        r.0 == block_sum(big@, size * f, f as int, x as int, y as int, 0, f as nat),
        r.1 == block_sum(big@, size * f, f as int, x as int, y as int, 1, f as nat),
        r.2 == block_sum(big@, size * f, f as int, x as int, y as int, 2, f as nat),
        r.3 == block_sum(big@, size * f, f as int, x as int, y as int, 3, f as nat),
        r.3 <= f * f * 255,
        r.0 <= f * f * 255,
        r.1 <= f * f * 255,
        r.2 <= f * f * 255,
{
    let ghost side = size * f;
    let n = big.len();
    let (mut s0, mut s1, mut s2, mut s3) = (0u32, 0u32, 0u32, 0u32);
    let mut sy: usize = 0;
    while sy < f
        invariant
            1 <= f <= 4,
            x < size,
            y < size,
            side == size * f,
            n == big@.len(),
            big@.len() == side * side * 4,
            sy <= f,
            s0 == block_sum(big@, side, f as int, x as int, y as int, 0, sy as nat),
            s1 == block_sum(big@, side, f as int, x as int, y as int, 1, sy as nat),
            s2 == block_sum(big@, side, f as int, x as int, y as int, 2, sy as nat),
            s3 == block_sum(big@, side, f as int, x as int, y as int, 3, sy as nat),
            s0 <= sy * f * 255,
            s1 <= sy * f * 255,
            s2 <= sy * f * 255,
            s3 <= sy * f * 255,
        decreases f - sy,
    {
        let ghost base = ((y * f + sy) * side + x * f) * 4;
        let (mut r0, mut r1, mut r2, mut r3) = (0u32, 0u32, 0u32, 0u32);
        let mut sx: usize = 0;
        while sx < f
            invariant
                1 <= f <= 4,
                x < size,
                y < size,
                sy < f,
                side == size * f,
                n == big@.len(),
                big@.len() == side * side * 4,
                base == ((y * f + sy) * side + x * f) * 4,
                sx <= f,
                r0 == run_sum(big@, base + 0, sx as nat),
                r1 == run_sum(big@, base + 1, sx as nat),
                r2 == run_sum(big@, base + 2, sx as nat),
                r3 == run_sum(big@, base + 3, sx as nat),
                r0 <= sx * 255,
                r1 <= sx * 255,
                r2 <= sx * 255,
                r3 <= sx * 255,
            decreases f - sx,
        {
            proof {
                lemma_block_index(size as int, f as int, x as int, y as int, sy as int, sx as int);
            }
            let i = ((y * f + sy) * (size * f) + x * f + sx) * 4;
            r0 = r0 + big[i] as u32;
            r1 = r1 + big[i + 1] as u32;
            r2 = r2 + big[i + 2] as u32;
            r3 = r3 + big[i + 3] as u32;
            sx += 1;
        }
        assert(sy * f * 255 + f * 255 == (sy + 1) * f * 255 && (sy + 1) * f * 255 <= 16 * 255)
            by (nonlinear_arith)
            requires
                sy < f,
                f <= 4,
        ;
        s0 = s0 + r0;
        s1 = s1 + r1;
        s2 = s2 + r2;
        s3 = s3 + r3;
        sy += 1;
    }
    (s0, s1, s2, s3)
}

/// One channel of an icon pixel from its block sums.
fn channel_value(sum: u32, alpha: u32, n: u32) -> (r: u8)
    requires
        1 <= n,
        sum <= 16 * 255,
        alpha <= 255,
    ensures
        r == (if alpha == 0 {
            0
        } else {
            let v = sum as int / n as int * 255 / alpha as int;
            if v > 255 {
                255
            } else {
                v
            }
        }),
{
    let v = match (sum / n * 255).checked_div(alpha) {
        Some(q) => q,
        None => 0,
    };
    if v > 255 {
        255
    } else {
        v as u8
    }
}

/// The four channels of icon pixel (`x`, `y`).
pub open spec fn icon_pixel_ok(out: Seq<u8>, big: Seq<u8>, size: int, q: int) -> bool {
    forall|c: int|
        0 <= c < 4 ==> #[trigger] out[q * 4 + c] as int == icon_channel(big, size, q % size, q / size, c)
}

/// A straight-alpha BGRA icon of `size` x `size` pixels from `big`, the premultiplied orb
/// rendered at `size * icon_factor(size)` pixels a side: each pixel averages its block.
#[verifier::rlimit(40)]
pub fn icon_pixels(big: &[u8], size: usize) -> (r: Vec<u8>)
    requires
        size > 0,
        big@.len() == (size * factor_spec(size as int)) * (size * factor_spec(size as int)) * 4,
    ensures
        r@.len() == size * size * 4,
        forall|q: int| 0 <= q < size * size ==> icon_pixel_ok(r@, big@, size as int, q),
{
    let f = icon_factor(size);
    assert(1 <= f * f <= 16) by (nonlinear_arith)
        requires
            1 <= f <= 4,
    ;
    let n = (f * f) as u32;
    let mut out: Vec<u8> = Vec::new();
    let mut y: usize = 0;
    let ghost mut p: int = 0;
    while y < size
        invariant
            size > 0,
            f == factor_spec(size as int),
            1 <= f <= 4,
            n == f * f,
            1 <= n <= 16,
            big@.len() == (size * f) * (size * f) * 4,
            y <= size,
            p == y * size,
            out@.len() == p * 4,
            forall|q: int| 0 <= q < p ==> icon_pixel_ok(out@, big@, size as int, q),
        decreases size - y,
    {
        let mut x: usize = 0;
        while x < size
            invariant
                size > 0,
                f == factor_spec(size as int),
                1 <= f <= 4,
                n == f * f,
                big@.len() == (size * f) * (size * f) * 4,
                1 <= n <= 16,
                y < size,
                x <= size,
                p == y * size + x,
                out@.len() == p * 4,
                forall|q: int| 0 <= q < p ==> icon_pixel_ok(out@, big@, size as int, q),
            decreases size - x,
        {
            let (s0, s1, s2, s3) = block_sums(big, size, f, x, y);
            assert(s3 / n <= 255 && s0 <= 16 * 255 && s1 <= 16 * 255 && s2 <= 16 * 255)
                by (nonlinear_arith)
                requires
                    1 <= n <= 16,
                    s3 <= n * 255,
                    s0 <= n * 255,
                    s1 <= n * 255,
                    s2 <= n * 255,
            ;
            let alpha = s3 / n;
            let ghost before = out@;
            let v0 = channel_value(s0, alpha, n);
            let v1 = channel_value(s1, alpha, n);
            let v2 = channel_value(s2, alpha, n);
            out.push(v0);
            out.push(v1);
            out.push(v2);
            out.push(alpha as u8);
            proof {
                assert(out@ == before + seq![v0, v1, v2, alpha as u8]);
                assert(out@[p * 4] == v0);
                assert(out@[p * 4 + 1] == v1);
                assert(out@[p * 4 + 2] == v2);
                assert(out@[p * 4 + 3] == alpha);
                assert(out@[p * 4 + 3] as int == icon_channel(big@, size as int, x as int, y as int, 3));
                assert(out@[p * 4] as int == icon_channel(big@, size as int, x as int, y as int, 0));
                assert(out@[p * 4 + 1] as int == icon_channel(big@, size as int, x as int, y as int, 1));
                assert(out@[p * 4 + 2] as int == icon_channel(big@, size as int, x as int, y as int, 2));
                vstd::arithmetic::div_mod::lemma_fundamental_div_mod_converse(
                    p,
                    size as int,
                    y as int,
                    x as int,
                );
                assert(p % size as int == x && p / size as int == y);
                assert forall|c: int| 0 <= c < 4 implies #[trigger] out@[p * 4 + c] as int
                    == icon_channel(big@, size as int, p % size as int, p / size as int, c) by {
                    if c == 0 {
                    } else if c == 1 {
                    } else if c == 2 {
                    } else {
                    }
                }
                assert(icon_pixel_ok(out@, big@, size as int, p));
                assert forall|q: int| 0 <= q < p + 1 implies icon_pixel_ok(
                    out@,
                    big@,
                    size as int,
                    q,
                ) by {
                    if q < p {
                        assert(icon_pixel_ok(before, big@, size as int, q));
                        assert forall|c: int| 0 <= c < 4 implies #[trigger] out@[q * 4 + c] as int
                            == icon_channel(big@, size as int, q % size as int, q / size as int, c) by {
                            assert(out@[q * 4 + c] == before[q * 4 + c]);
                        }
                    }
                }
                p = p + 1;
            }
            x += 1;
        }
        proof {
            assert(y * size + size == (y + 1) * size) by (nonlinear_arith);
        }
        y += 1;
    }
    out
}

/// Bit `j` (from the most significant one) of `v`.
pub open spec fn bit_at(v: u8, j: u8) -> bool {
    (v >> (7 - j) as u8) & 1 == 1
}

proof fn lemma_or_bit(v: u8, m: u8, j: u8)
    requires
        m < 8,
        j < 8,
    ensures
        bit_at(v | (0x80u8 >> m), j) == (j == m || bit_at(v, j)),
        !bit_at(0u8, j),
{
    assert(((v | (0x80u8 >> m)) >> (7 - j) as u8) & 1 == 1 <==> (j == m || (v >> (7 - j) as u8) & 1
        == 1)) by (bit_vector)
        requires
            m < 8,
            j < 8,
    ;
    assert((0u8 >> (7 - j) as u8) & 1 != 1) by (bit_vector)
        requires
            j < 8,
    ;
}

proof fn lemma_mask_byte_bits(pixels: Seq<u8>, size: int, y: int, b: int, k: nat, j: u8)
    requires
        k <= 8,
        j < 8,
    ensures
        bit_at(mask_byte(pixels, size, y, b, k), j) == (j < k && b * 8 + j < size && transparent(
            pixels,
            size,
            b * 8 + j,
            y,
        )),
    decreases k,
{
    if k == 0 {
        lemma_or_bit(0u8, 0, j);
    } else {
        lemma_mask_byte_bits(pixels, size, y, b, (k - 1) as nat, j);
        lemma_or_bit(mask_byte(pixels, size, y, b, (k - 1) as nat), (k - 1) as u8, j);
    }
}

/// The AND mask marks exactly the transparent pixels: in row `y`, bit `x % 8` (from the most
/// significant one) of byte `x / 8` is set iff pixel (`x`, `y`) is fully transparent.
pub proof fn law_mask_marks_transparent(pixels: Seq<u8>, size: int, y: int, x: int)
    requires
        0 <= x < size,
        0 <= y < size,
    ensures
        x / 8 < mask_row_len(size),
        bit_at(mask_row(pixels, size, y)[x / 8], (x % 8) as u8) == transparent(pixels, size, x, y),
{
    lemma_mask_byte_bits(pixels, size, y, x / 8, 8, (x % 8) as u8);
}

/// A block with no coverage at all becomes a fully transparent icon pixel with no color.
pub proof fn law_clear_block_stays_clear(big: Seq<u8>, size: int, x: int, y: int, c: int)
    requires
        size > 0,
        block_sum(big, size * factor_spec(size), factor_spec(size), x, y, 3, factor_spec(size) as nat)
            < factor_spec(size) * factor_spec(size),
        0 <= c < 4,
    ensures
        icon_channel(big, size, x, y, c) == 0,
{
    let f = factor_spec(size);
    assert(f * f >= 1) by (nonlinear_arith)
        requires
            f >= 1,
    ;
    let s3 = block_sum(big, size * f, f, x, y, 3, f as nat);
    assert(s3 >= 0) by {
        lemma_block_sum_nonneg(big, size * f, f, x, y, 3, f as nat);
    }
    assert(s3 / (f * f) == 0) by (nonlinear_arith)
        requires
            0 <= s3 < f * f,
    ;
}

proof fn lemma_block_sum_nonneg(s: Seq<u8>, side: int, f: int, x: int, y: int, c: int, rows: nat)
    requires
        f >= 0,
    ensures
        block_sum(s, side, f, x, y, c, rows) >= 0,
    decreases rows,
{
    if rows > 0 {
        lemma_block_sum_nonneg(s, side, f, x, y, c, (rows - 1) as nat);
        lemma_run_sum_nonneg(s, ((y * f + (rows - 1)) * side + x * f) * 4 + c, f as nat);
    }
}

proof fn lemma_run_sum_nonneg(s: Seq<u8>, start: int, n: nat)
    ensures
        run_sum(s, start, n) >= 0,
    decreases n,
{
    if n > 0 {
        lemma_run_sum_nonneg(s, start, (n - 1) as nat);
    }
}

} // verus!
