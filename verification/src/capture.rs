//! The dimmed copy of the captured screen shown behind the selection.

use vstd::prelude::*;

verus! {

/// One byte of the dimmed copy: `keep` percent of the captured byte, wrapped to a byte.
pub open spec fn dimmed(v: u8, keep: u16) -> u8 {
    ((v as int * keep as int / 100) % 256) as u8
}

/// The captured pixels with every byte scaled to `keep` percent (the brightness kept while
/// selecting: 100 leaves the screen as it is).
pub fn dim_pixels(original: &[u8], keep: u16) -> (r: Vec<u8>)
    requires
        keep <= 257,
    ensures
        r@.len() == original@.len(),
        forall|i: int| 0 <= i < original@.len() ==> #[trigger] r@[i] == dimmed(original@[i], keep),
{
    let n = original.len();
    let mut out: Vec<u8> = Vec::with_capacity(n);
    let mut i: usize = 0;
    while i < n
        invariant
            n == original@.len(),
            keep <= 257,
            i <= n,
            out@.len() == i,
            forall|k: int| 0 <= k < i ==> #[trigger] out@[k] == dimmed(original@[k], keep),
        decreases n - i,
    {
        let v = original[i];
        assert(v as u16 * keep <= 0xffff) by (nonlinear_arith)
            requires
                v <= 255,
                keep <= 257,
        ;
        let scaled = v as u16 * keep / 100;
        assert(scaled as u8 == scaled % 256) by (bit_vector);
        out.push(#[verifier::truncate] (scaled as u8));
        i += 1;
    }
    out
}

/// With dimming off (100 percent kept) the copy equals the capture; dimming never brightens.
pub proof fn law_dim_off_keeps_capture(v: u8, keep: u16)
    requires
        keep <= 100,
    ensures
        dimmed(v, 100) == v,
        dimmed(v, keep) <= v,
{
    assert(v as int * keep as int / 100 <= v) by (nonlinear_arith)
        requires
            keep <= 100,
            0 <= v,
    ;
    assert(0 <= v as int * keep as int / 100) by (nonlinear_arith)
        requires
            0 <= keep,
            0 <= v,
    ;
}

/// Whether a `width` x `height` screen can be captured: both sides positive and at most 150
/// million pixels, which keeps the three 32-bit copies the overlay holds within reach.
pub fn capture_fits(width: i32, height: i32) -> (r: bool)
    ensures
        r == (width > 0 && height > 0 && width * height <= 150_000_000),
{
    if width <= 0 || height <= 0 {
        return false;
    }
    let (w, h) = (width as i64, height as i64);
    assert(0 < w * h <= 0x4000_0000_0000_0000) by (nonlinear_arith)
        requires
            0 < w <= 0x8000_0000,
            0 < h <= 0x8000_0000,
    ;
    w * h <= 150_000_000
}

} // verus!
