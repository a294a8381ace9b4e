//! Selection rectangles drawn on the captured screen, and the crop handed to the search.

use crate::bytes::{info_header, push_info_header};
use vstd::prelude::*;

verus! {

/// A screen point in capture coordinates.
#[derive(Clone, Copy, Debug, Default, PartialEq, Eq, Structural)]
pub struct Point {
    pub x: i32,
    pub y: i32,
}

/// An axis-aligned selection: top-left corner and size.
#[derive(Clone, Copy, Debug, PartialEq, Eq, Structural)]
pub struct Area {
    pub x: i32,
    pub y: i32,
    pub w: i32,
    pub h: i32,
}

/// `a / b` rounded toward zero, as Rust's integer division computes it (`b > 0`).
pub open spec fn quot(a: int, b: int) -> int {
    if a >= 0 {
        a / b
    } else {
        -((-a) / b)
    }
}

/// Whether `v` is an `i32` value.
pub open spec fn fits_i32(v: int) -> bool {
    i32::MIN <= v <= i32::MAX
}

/// `v` clamped into `[lo, hi]`, as `i32::clamp` computes it (`lo <= hi`).
pub open spec fn clamp_spec(v: int, lo: int, hi: int) -> int {
    if v < lo {
        lo
    } else if v > hi {
        hi
    } else {
        v
    }
}

pub open spec fn min_spec(a: int, b: int) -> int {
    if a <= b { a } else { b }
}

pub open spec fn max_spec(a: int, b: int) -> int {
    if a >= b { a } else { b }
}

/// The rectangle spanned by two corners, clamped to a `width` x `height` frame.
pub open spec fn between_spec(a: Point, b: Point, width: int, height: int) -> Area {
    let x = clamp_spec(min_spec(a.x as int, b.x as int), 0, width);
    let y = clamp_spec(min_spec(a.y as int, b.y as int), 0, height);
    Area {
        x: x as i32,
        y: y as i32,
        w: (clamp_spec(max_spec(a.x as int, b.x as int), 0, width) - x) as i32,
        h: (clamp_spec(max_spec(a.y as int, b.y as int), 0, height) - y) as i32,
    }
}

fn clamp_i64(v: i64, lo: i64, hi: i64) -> (r: i64)
    requires
        lo <= hi,
    ensures
        r == clamp_spec(v as int, lo as int, hi as int),
{
    if v < lo {
        lo
    } else if v > hi {
        hi
    } else {
        v
    }
}

impl Area {
    /// The area lies inside a `width` x `height` frame with a non-negative size.
    pub open spec fn inside(self, width: int, height: int) -> bool {
        &&& 0 <= self.x
        &&& 0 <= self.y
        &&& 0 <= self.w
        &&& 0 <= self.h
        &&& self.x + self.w <= width
        &&& self.y + self.h <= height
    }

    pub open spec fn is_valid(self) -> bool {
        self.w >= 8 && self.h >= 8
    }

    pub open spec fn holds(self, p: Point) -> bool {
        &&& self.x <= p.x < self.x + self.w
        &&& self.y <= p.y < self.y + self.h
    }

    /// The rectangle between two corners, clamped to the frame.
    pub fn between(a: Point, b: Point, width: i32, height: i32) -> (r: Self)
        requires
            width >= 0,
            height >= 0,
        ensures
            r == between_spec(a, b, width as int, height as int),
            r.inside(width as int, height as int),
    {
        let (lx, hx) = if a.x <= b.x { (a.x, b.x) } else { (b.x, a.x) };
        let (ly, hy) = if a.y <= b.y { (a.y, b.y) } else { (b.y, a.y) };
        let x = clamp_i64(lx as i64, 0, width as i64);
        let y = clamp_i64(ly as i64, 0, height as i64);
        let right = clamp_i64(hx as i64, 0, width as i64);
        let bottom = clamp_i64(hy as i64, 0, height as i64);
        Area { x: x as i32, y: y as i32, w: (right - x) as i32, h: (bottom - y) as i32 }
    }

    /// Large enough to search: at least 8 pixels each way.
    pub fn valid(self) -> (r: bool)
        ensures
            r == self.is_valid(),
    {
        self.w >= 8 && self.h >= 8
    }

    /// Whether `p` lies in the area (right and bottom edges excluded).
    pub fn contains(self, p: Point) -> (r: bool)
        ensures
            r == self.holds(p),
    {
        p.x as i64 >= self.x as i64 && (p.x as i64) < self.x as i64 + self.w as i64
            && p.y as i64 >= self.y as i64 && (p.y as i64) < self.y as i64 + self.h as i64
    }
}

impl Area {
    /// The area moved by (`dx`, `dy`) and kept in the frame, or with `resize` grown by that much,
    /// kept in the frame and at least 8 pixels each way.
    pub open spec fn adjust_spec(self, dx: int, dy: int, resize: bool, width: int, height: int) -> Area {
        if resize {
            Area {
                w: clamp_spec(self.w + dx, 8, width - self.x) as i32,
                h: clamp_spec(self.h + dy, 8, height - self.y) as i32,
                ..self
            }
        } else {
            Area {
                x: clamp_spec(self.x + dx, 0, width - self.w) as i32,
                y: clamp_spec(self.y + dy, 0, height - self.h) as i32,
                ..self
            }
        }
    }

    /// Moves the area by (`dx`, `dy`), or with `resize` grows it by that much, staying inside a
    /// `width` x `height` frame and at least 8 pixels large when resized.
    pub fn adjust(&mut self, dx: i32, dy: i32, resize: bool, width: i32, height: i32)
        requires
            resize ==> width as int - old(self).x >= 8 && height as int - old(self).y >= 8,
            !resize ==> width as int - old(self).w >= 0 && height as int - old(self).h >= 0,
        ensures
            *final(self) == old(self).adjust_spec(dx as int, dy as int, resize, width as int, height as int),
    {
        if resize {
            self.w = clamp_i64(self.w as i64 + dx as i64, 8, width as i64 - self.x as i64) as i32;
            self.h = clamp_i64(self.h as i64 + dy as i64, 8, height as i64 - self.y as i64) as i32;
        } else {
            self.x = clamp_i64(self.x as i64 + dx as i64, 0, width as i64 - self.w as i64) as i32;
            self.y = clamp_i64(self.y as i64 + dy as i64, 0, height as i64 - self.h as i64) as i32;
        }
    }
}

/// Smallest x among the points (the first point's for a single one).
pub open spec fn low_x(s: Seq<Point>) -> int
    decreases s.len(),
{
    if s.len() <= 1 {
        s[0].x as int
    } else {
        min_spec(low_x(s.drop_last()), s.last().x as int)
    }
}

pub open spec fn low_y(s: Seq<Point>) -> int
    decreases s.len(),
{
    if s.len() <= 1 {
        s[0].y as int
    } else {
        min_spec(low_y(s.drop_last()), s.last().y as int)
    }
}

pub open spec fn high_x(s: Seq<Point>) -> int
    decreases s.len(),
{
    if s.len() <= 1 {
        s[0].x as int
    } else {
        max_spec(high_x(s.drop_last()), s.last().x as int)
    }
}

pub open spec fn high_y(s: Seq<Point>) -> int
    decreases s.len(),
{
    if s.len() <= 1 {
        s[0].y as int
    } else {
        max_spec(high_y(s.drop_last()), s.last().y as int)
    }
}

/// The bounding box of a stroke, clamped to the frame.
pub open spec fn bounds_spec(s: Seq<Point>, width: int, height: int) -> Area {
    between_spec(
        Point { x: low_x(s) as i32, y: low_y(s) as i32 },
        Point { x: high_x(s) as i32, y: high_y(s) as i32 },
        width,
        height,
    )
}

proof fn lemma_extremes_step(s: Seq<Point>, i: int)
    requires
        1 <= i < s.len(),
    ensures
        low_x(s.take(i + 1)) == min_spec(low_x(s.take(i)), s[i].x as int),
        low_y(s.take(i + 1)) == min_spec(low_y(s.take(i)), s[i].y as int),
        high_x(s.take(i + 1)) == max_spec(high_x(s.take(i)), s[i].x as int),
        high_y(s.take(i + 1)) == max_spec(high_y(s.take(i)), s[i].y as int),
{
    assert(s.take(i + 1).drop_last() =~= s.take(i));
}

/// Every point lies between the extremes, and the extremes are attained.
pub proof fn lemma_extremes_bound(s: Seq<Point>, i: int)
    requires
        0 <= i < s.len(),
    ensures
        low_x(s) <= s[i].x <= high_x(s),
        low_y(s) <= s[i].y <= high_y(s),
    decreases s.len(),
{
    if s.len() > 1 && i < s.len() - 1 {
        lemma_extremes_bound(s.drop_last(), i);
    }
}

/// Each extreme of a non-empty stroke is the coordinate of one of its points.
pub proof fn lemma_extremes_attained(s: Seq<Point>)
    requires
        s.len() > 0,
    ensures
        exists|i: int| 0 <= i < s.len() && #[trigger] s[i].x == low_x(s),
        exists|i: int| 0 <= i < s.len() && #[trigger] s[i].y == low_y(s),
        exists|i: int| 0 <= i < s.len() && #[trigger] s[i].x == high_x(s),
        exists|i: int| 0 <= i < s.len() && #[trigger] s[i].y == high_y(s),
    decreases s.len(),
{
    if s.len() == 1 {
        assert(s[0].x == low_x(s) && s[0].y == low_y(s));
        assert(s[0].x == high_x(s) && s[0].y == high_y(s));
    } else {
        let d = s.drop_last();
        let last = s.len() - 1;
        lemma_extremes_attained(d);
        assert(s[last] == s.last());
        if low_x(s) == s.last().x {
            assert(s[last].x == low_x(s));
        } else {
            let i = choose|i: int| 0 <= i < d.len() && #[trigger] d[i].x == low_x(d);
            assert(s[i] == d[i]);
        }
        if low_y(s) == s.last().y {
            assert(s[last].y == low_y(s));
        } else {
            let i = choose|i: int| 0 <= i < d.len() && #[trigger] d[i].y == low_y(d);
            assert(s[i] == d[i]);
        }
        if high_x(s) == s.last().x {
            assert(s[last].x == high_x(s));
        } else {
            let i = choose|i: int| 0 <= i < d.len() && #[trigger] d[i].x == high_x(d);
            assert(s[i] == d[i]);
        }
        if high_y(s) == s.last().y {
            assert(s[last].y == high_y(s));
        } else {
            let i = choose|i: int| 0 <= i < d.len() && #[trigger] d[i].y == high_y(d);
            assert(s[i] == d[i]);
        }
    }
}

/// The extremes of a non-empty stroke are `i32` values.
pub proof fn lemma_extremes_range(s: Seq<Point>)
    requires
        s.len() > 0,
    ensures
        fits_i32(low_x(s)),
        fits_i32(low_y(s)),
        fits_i32(high_x(s)),
        fits_i32(high_y(s)),
    decreases s.len(),
{
    if s.len() > 1 {
        lemma_extremes_range(s.drop_last());
    }
}

/// The area that covers every point of a stroke, or `None` for an empty stroke.
pub fn bounds(points: &[Point], width: i32, height: i32) -> (r: Option<Area>)
    requires
        width >= 0,
        height >= 0,
    ensures
        r is None <==> points@.len() == 0,
        r matches Some(a) ==> a == bounds_spec(points@, width as int, height as int),
{
    if points.len() == 0 {
        return None;
    }
    let first = points[0];
    let mut a = first;
    let mut b = first;
    let mut i: usize = 1;
    assert(points@.take(1).len() == 1);
    while i < points.len()
        invariant
            1 <= i <= points@.len(),
            a.x == low_x(points@.take(i as int)),
            a.y == low_y(points@.take(i as int)),
            b.x == high_x(points@.take(i as int)),
            b.y == high_y(points@.take(i as int)),
        decreases points@.len() - i,
    {
        let p = points[i];
        proof {
            lemma_extremes_step(points@, i as int);
        }
        if p.x < a.x {
            a.x = p.x;
        }
        if p.y < a.y {
            a.y = p.y;
        }
        if p.x > b.x {
            b.x = p.x;
        }
        if p.y > b.y {
            b.y = p.y;
        }
        i += 1;
    }
    assert(points@.take(points@.len() as int) =~= points@);
    Some(Area::between(a, b, width, height))
}

/// The bytes of `area` cut from a top-down `width`-pixel BGRA image, row by row.
pub open spec fn crop_rows(pixels: Seq<u8>, width: int, area: Area) -> Seq<u8> {
    Seq::new(
        (area.w * area.h * 4) as nat,
        |i: int|
            pixels[((area.y + i / (area.w * 4)) * width + area.x) * 4 + i % (area.w * 4)],
    )
}

/// Whether `crop_dib` accepts the request: a valid area inside a `width` x `height` frame,
/// over a buffer of exactly that many BGRA pixels.
pub open spec fn crop_accepts(len: int, width: int, height: int, area: Area) -> bool {
    &&& area.is_valid()
    &&& area.x >= 0
    &&& area.y >= 0
    &&& area.x + area.w <= width
    &&& area.y + area.h <= height
    &&& len == width * height * 4
}

/// The crop as a 32-bit top-down DIB: BITMAPINFOHEADER, whose height field holds `-h` in two's
/// complement, and the rows.
pub open spec fn crop_dib_spec(pixels: Seq<u8>, width: int, area: Area) -> Seq<u8> {
    info_header(area.w as int, 0x1_0000_0000 - area.h, area.w * area.h * 4) + crop_rows(
        pixels,
        width,
        area,
    )
}

/// Where row `row` of the crop starts in the source image, and that the row lies in the buffer.
proof fn lemma_crop_row(pixels: Seq<u8>, width: int, height: int, area: Area, row: int)
    requires
        crop_accepts(pixels.len() as int, width, height, area),
        0 <= row < area.h,
    ensures
        ({
            let from = (area.y + row) * (width * 4) + area.x * 4;
            let w4 = area.w * 4;
            &&& 0 <= (area.y + row) * (width * 4) <= from
            &&& from + w4 <= pixels.len()
            &&& 0 <= row * w4
            &&& row * w4 + w4 == (row + 1) * w4
            &&& (row + 1) * w4 <= area.w * area.h * 4
            &&& crop_rows(pixels, width, area).subrange(row * w4, row * w4 + w4)
                =~= pixels.subrange(from, from + w4)
        }),
{
    let w4 = area.w * 4;
    let y = area.y + row;
    let from = y * (width * 4) + area.x * 4;
    assert(0 <= y * (width * 4)) by (nonlinear_arith)
        requires
            0 <= y,
            0 <= width,
    ;
    assert((y + 1) * (width * 4) <= height * (width * 4)) by (nonlinear_arith)
        requires
            0 <= y < height,
            0 <= width,
    ;
    assert(y * (width * 4) + width * 4 == (y + 1) * (width * 4)) by (nonlinear_arith);
    assert(height * (width * 4) == width * height * 4) by (nonlinear_arith);
    assert(from + w4 <= width * height * 4);
    assert(0 <= row * w4 && row * w4 + w4 == (row + 1) * w4) by (nonlinear_arith)
        requires
            0 <= row,
            0 <= w4,
    ;
    assert((row + 1) * w4 <= area.w * area.h * 4) by (nonlinear_arith)
        requires
            row + 1 <= area.h,
            w4 == area.w * 4,
            0 <= w4,
    ;
    let rows = crop_rows(pixels, width, area);
    assert forall|c: int| 0 <= c < w4 implies #[trigger] rows.subrange(row * w4, row * w4 + w4)[c]
        == pixels.subrange(from, from + w4)[c] by {
        assert(row * w4 + c < area.w * area.h * 4);
        vstd::arithmetic::div_mod::lemma_fundamental_div_mod_converse(row * w4 + c, w4, row, c);
        assert(((area.y + row) * width + area.x) * 4 + c == from + c) by (nonlinear_arith)
            requires
                from == (area.y + row) * (width * 4) + area.x * 4,
        ;
        assert(rows[row * w4 + c] == pixels[from + c]);
    }
    assert(rows.subrange(row * w4, row * w4 + w4) =~= pixels.subrange(from, from + w4));
}

/// Appends `pixels[from..from + len]`.
pub(crate) fn push_run(out: &mut Vec<u8>, pixels: &[u8], from: usize, len: usize)
    requires
        from + len <= pixels@.len(),
    ensures
        final(out)@ == old(out)@ + pixels@.subrange(from as int, from + len),
{
    let ghost start = out@;
    let n = pixels.len();
    let mut c: usize = 0;
    while c < len
        invariant
            from + len <= pixels@.len(),
            n == pixels@.len(),
            c <= len,
            out@ == start + pixels@.subrange(from as int, from + c),
        decreases len - c,
    {
        out.push(pixels[from + c]);
        c += 1;
        assert(out@ =~= start + pixels@.subrange(from as int, from + c));
    }
}

/// Appends the crop rows, top to bottom.
#[verifier::rlimit(30)]
fn push_crop_rows(out: &mut Vec<u8>, pixels: &[u8], width: i32, height: i32, area: Area)
    requires
        crop_accepts(pixels@.len() as int, width as int, height as int, area),
    ensures
        final(out)@ == old(out)@ + crop_rows(pixels@, width as int, area),
{
    let ghost start = out@;
    let ghost rows = crop_rows(pixels@, width as int, area);
    let len = pixels.len();
    assert(area.w * 4 <= area.w * 4 * area.h <= width * height * 4) by (nonlinear_arith)
        requires
            8 <= area.w <= width,
            8 <= area.h <= height,
    ;
    assert(width * 4 <= width * height * 4) by (nonlinear_arith)
        requires
            0 <= width,
            8 <= height,
    ;
    let w4 = area.w as usize * 4;
    let stride = width as usize * 4;
    let mut row: usize = 0;
    assert(rows.take(0) =~= Seq::<u8>::empty());
    while row < area.h as usize
        invariant
            crop_accepts(pixels@.len() as int, width as int, height as int, area),
            rows == crop_rows(pixels@, width as int, area),
            w4 == area.w * 4,
            stride == width * 4,
            len == pixels@.len(),
            0 <= row <= area.h,
            0 <= row * w4 <= area.w * area.h * 4,
            out@ == start + rows.take(row * w4),
        decreases area.h - row,
    {
        proof {
            lemma_crop_row(pixels@, width as int, height as int, area, row as int);
        }
        let from = (area.y as usize + row) * stride + area.x as usize * 4;
        push_run(out, pixels, from, w4);
        proof {
            assert(rows.take(row * w4 + w4) =~= rows.take(row * w4) + rows.subrange(
                row * w4,
                row * w4 + w4,
            ));
        }
        row += 1;
    }
    assert(row * w4 == area.w * area.h * 4) by (nonlinear_arith)
        requires
            row == area.h,
            w4 == area.w * 4,
    ;
    assert(rows.take(area.w * area.h * 4) =~= rows);
}

/// A top-down 32-bit DIB of `area` cut from a `width` x `height` BGRA image, or `None` when the
/// area is too small, leaves the frame, or the buffer does not hold exactly that image.
pub fn crop_dib(pixels: &[u8], width: i32, height: i32, area: Area) -> (r: Option<Vec<u8>>)
    ensures
        r is Some <==> crop_accepts(pixels@.len() as int, width as int, height as int, area),
        r matches Some(out) ==> out@ == crop_dib_spec(pixels@, width as int, area),
{
    if !area.valid() || area.x < 0 || area.y < 0 || area.x as i64 + area.w as i64 > width as i64
        || area.y as i64 + area.h as i64 > height as i64 {
        return None;
    }
    assert(0 <= width as int * height as int <= 0x3fff_ffff_0000_0001) by (nonlinear_arith)
        requires
            0 <= width <= 0x7fff_ffff,
            0 <= height <= 0x7fff_ffff,
    ;
    if pixels.len() as u64 != width as u64 * height as u64 * 4 {
        return None;
    }
    assert(area.w * area.h * 4 <= width * height * 4 && area.w * area.h * 4 == area.w * area.h * 4)
        by (nonlinear_arith)
        requires
            8 <= area.w <= width,
            8 <= area.h <= height,
    ;
    let size = area.w as u64 * area.h as u64 * 4;
    let height_field = (0x1_0000_0000i64 - area.h as i64) as u32;
    let size_field = #[verifier::truncate] (size as u32);
    proof {
        crate::bytes::lemma_le32_wraps(size);
        assert(size as u32 == size % 0x1_0000_0000) by (bit_vector);
    }
    let mut out: Vec<u8> = Vec::new();
    push_info_header(&mut out, area.w as u32, height_field, size_field);
    let ghost header = out@;
    assert(header == info_header(area.w as int, 0x1_0000_0000 - area.h, area.w * area.h * 4));
    push_crop_rows(&mut out, pixels, width, height, area);
    Some(out)
}

/// What a press on the overlay starts.
#[derive(Clone, Copy, Debug, PartialEq, Eq, Structural)]
pub enum Drag {
    /// Drawing a new selection from this point.
    Draw(Point),
    /// Moving the area, grabbed at this point.
    Move(Point, Area),
    /// Resizing the area by one corner (right edge?, bottom edge?), grabbed at this point.
    Resize(Point, Area, bool, bool),
}

pub open spec fn abs_spec(v: int) -> int {
    if v < 0 { -v } else { v }
}

/// Whether `p` is within `radius` of the area's corner on the given sides (both axes).
pub open spec fn near_corner(a: Area, p: Point, radius: int, right: bool, bottom: bool) -> bool {
    let x = if right { a.x + a.w } else { a.x as int };
    let y = if bottom { a.y + a.h } else { a.y as int };
    abs_spec(p.x - x) <= radius && abs_spec(p.y - y) <= radius
}

/// A press at `p`: near a corner of the current area it resizes by that corner (bottom-right
/// first, then top-right, bottom-left, top-left), inside the area it moves it, elsewhere it
/// starts a new selection.
pub open spec fn press_spec(area: Option<Area>, p: Point, radius: int) -> Drag {
    match area {
        None => Drag::Draw(p),
        Some(a) => if near_corner(a, p, radius, true, true) {
            Drag::Resize(p, a, true, true)
        } else if near_corner(a, p, radius, true, false) {
            Drag::Resize(p, a, true, false)
        } else if near_corner(a, p, radius, false, true) {
            Drag::Resize(p, a, false, true)
        } else if near_corner(a, p, radius, false, false) {
            Drag::Resize(p, a, false, false)
        } else if a.holds(p) {
            Drag::Move(p, a)
        } else {
            Drag::Draw(p)
        },
    }
}

fn near_corner_exec(a: Area, p: Point, radius: i32, right: bool, bottom: bool) -> (r: bool)
    ensures
        r == near_corner(a, p, radius as int, right, bottom),
{
    let x: i64 = if right { a.x as i64 + a.w as i64 } else { a.x as i64 };
    let y: i64 = if bottom { a.y as i64 + a.h as i64 } else { a.y as i64 };
    let dx = p.x as i64 - x;
    let dy = p.y as i64 - y;
    let ax = if dx < 0 { -dx } else { dx };
    let ay = if dy < 0 { -dy } else { dy };
    ax <= radius as i64 && ay <= radius as i64
}

/// How close a press must be to a corner to grab it: 28 pixels for touch, 12 otherwise, scaled
/// by `dpi`.
pub fn grab_radius(touch: bool, dpi: i32) -> (r: i32)
    requires
        fits_i32((if touch { 28int } else { 12int }) * dpi),
    ensures
        r == quot((if touch { 28int } else { 12int }) * dpi, 96),
{
    let base: i32 = if touch { 28 } else { 12 };
    base * dpi / 96
}

/// What a press at `p` starts, given the current area.
pub fn press(area: Option<Area>, p: Point, radius: i32) -> (d: Drag)
    ensures
        d == press_spec(area, p, radius as int),
{
    let mut drag = Drag::Draw(p);
    if let Some(a) = area {
        if near_corner_exec(a, p, radius, false, false) {
            drag = Drag::Resize(p, a, false, false);
        }
        if near_corner_exec(a, p, radius, false, true) {
            drag = Drag::Resize(p, a, false, true);
        }
        if near_corner_exec(a, p, radius, true, false) {
            drag = Drag::Resize(p, a, true, false);
        }
        if near_corner_exec(a, p, radius, true, true) {
            drag = Drag::Resize(p, a, true, true);
        }
        if matches!(drag, Drag::Draw(_)) && a.contains(p) {
            drag = Drag::Move(p, a);
        }
    }
    drag
}

/// `p` pulled into a `width` x `height` frame (edges included).
pub open spec fn clamp_point_spec(p: Point, width: int, height: int) -> Point {
    Point { x: clamp_spec(p.x as int, 0, width) as i32, y: clamp_spec(p.y as int, 0, height) as i32 }
}

/// `p` pulled into the frame.
pub fn clamp_point(p: Point, width: i32, height: i32) -> (r: Point)
    requires
        width >= 0,
        height >= 0,
    ensures
        r == clamp_point_spec(p, width as int, height as int),
{
    Point {
        x: clamp_i64(p.x as i64, 0, width as i64) as i32,
        y: clamp_i64(p.y as i64, 0, height as i64) as i32,
    }
}

/// The fixed corner and the dragged corner of a resize grabbed at `start` and now at `q`.
pub open spec fn resize_corners(start: Point, a: Area, right: bool, bottom: bool, q: Point) -> (
    int,
    int,
    int,
    int,
) {
    (
        if right { a.x as int } else { a.x + a.w },
        if bottom { a.y as int } else { a.y + a.h },
        if right { a.x + a.w + q.x - start.x } else { a.x + q.x - start.x },
        if bottom { a.y + a.h + q.y - start.y } else { a.y + q.y - start.y },
    )
}

/// The values a drag computes fit in `i32`, and a moved area fits in the frame.
pub open spec fn drag_fits(drag: Drag, q: Point, width: int, height: int) -> bool {
    match drag {
        Drag::Draw(_) => true,
        Drag::Move(start, a) => {
            &&& width - a.w >= 0
            &&& height - a.h >= 0
            &&& fits_i32(q.x - start.x)
            &&& fits_i32(q.y - start.y)
        },
        Drag::Resize(start, a, right, bottom) => {
            let c = resize_corners(start, a, right, bottom, q);
            fits_i32(c.0) && fits_i32(c.1) && fits_i32(c.2) && fits_i32(c.3)
        },
    }
}

/// The area while dragging to `p` (pulled into the frame as `q`): a new rectangle from the
/// press point, the grabbed area moved by the pointer's travel, or the area stretched between
/// its fixed corner and the dragged one.
pub open spec fn drag_area_spec(drag: Drag, q: Point, width: int, height: int) -> Area {
    match drag {
        Drag::Draw(start) => between_spec(start, q, width, height),
        Drag::Move(start, a) => a.adjust_spec(q.x - start.x, q.y - start.y, false, width, height),
        Drag::Resize(start, a, right, bottom) => {
            let c = resize_corners(start, a, right, bottom, q);
            between_spec(
                Point { x: c.0 as i32, y: c.1 as i32 },
                Point { x: c.2 as i32, y: c.3 as i32 },
                width,
                height,
            )
        },
    }
}

/// The selection while a rectangle, move or resize drag is at `p`.
pub fn drag_area(drag: Drag, p: Point, width: i32, height: i32) -> (r: Area)
    requires
        width >= 0,
        height >= 0,
        drag_fits(drag, clamp_point_spec(p, width as int, height as int), width as int, height as int),
    ensures
        r == drag_area_spec(drag, clamp_point_spec(p, width as int, height as int), width as int, height as int),
        (match drag {
            Drag::Move(_, a) => a.w >= 0 && a.h >= 0,
            _ => true,
        }) ==> r.inside(width as int, height as int),
{
    let q = clamp_point(p, width, height);
    match drag {
        Drag::Draw(start) => Area::between(start, q, width, height),
        Drag::Move(start, a) => {
            let mut moved = a;
            moved.adjust(q.x - start.x, q.y - start.y, false, width, height);
            moved
        },
        Drag::Resize(start, a, right, bottom) => {
            let anchor = Point {
                x: if right { a.x } else { (a.x as i64 + a.w as i64) as i32 },
                y: if bottom { a.y } else { (a.y as i64 + a.h as i64) as i32 },
            };
            let moving = Point {
                x: if right {
                    (a.x as i64 + a.w as i64 + q.x as i64 - start.x as i64) as i32
                } else {
                    (a.x as i64 + q.x as i64 - start.x as i64) as i32
                },
                y: if bottom {
                    (a.y as i64 + a.h as i64 + q.y as i64 - start.y as i64) as i32
                } else {
                    (a.y as i64 + q.y as i64 - start.y as i64) as i32
                },
            };
            Area::between(anchor, moving, width, height)
        },
    }
}

/// Adds the smoothed pointer position to a lasso stroke unless it is within two pixels
/// (horizontal plus vertical travel) of the last point, and returns the stroke's area.
pub fn extend_lasso(path: &mut Vec<Point>, corrected: Point, width: i32, height: i32) -> (r: Option<Area>)
    requires
        width >= 0,
        height >= 0,
    ensures
        final(path)@ == (if old(path)@.len() == 0 || abs_spec(old(path)@.last().x - corrected.x)
            + abs_spec(old(path)@.last().y - corrected.y) >= 2 {
            old(path)@.push(corrected)
        } else {
            old(path)@
        }),
        r == Some(bounds_spec(final(path)@, width as int, height as int)),
{
    let n = path.len();
    let far = if n == 0 {
        true
    } else {
        let last = path[n - 1];
        let dx = last.x as i64 - corrected.x as i64;
        let dy = last.y as i64 - corrected.y as i64;
        (if dx < 0 { -dx } else { dx }) + (if dy < 0 { -dy } else { dy }) >= 2
    };
    if far {
        path.push(corrected);
    }
    bounds(path.as_slice(), width, height)
}

/// Windows virtual-key codes of the arrow keys.
pub const VK_LEFT: u16 = 0x25;
pub const VK_UP: u16 = 0x26;
pub const VK_RIGHT: u16 = 0x27;
pub const VK_DOWN: u16 = 0x28;

/// The step an arrow key makes in keyboard selection: 10 pixels with Ctrl, 1 without.
pub open spec fn arrow_spec(key: u16, ctrl: bool) -> (int, int) {
    let step: int = if ctrl { 10 } else { 1 };
    (
        if key == VK_LEFT { -step } else if key == VK_RIGHT { step } else { 0 },
        if key == VK_UP { -step } else if key == VK_DOWN { step } else { 0 },
    )
}

/// Moves the selection with an arrow key, or resizes it with Shift, inside the frame.
pub fn arrow_adjust(area: &mut Area, key: u16, ctrl: bool, shift: bool, width: i32, height: i32)
    requires
        shift ==> width as int - old(area).x >= 8 && height as int - old(area).y >= 8,
        !shift ==> width as int - old(area).w >= 0 && height as int - old(area).h >= 0,
    ensures
        *final(area) == old(area).adjust_spec(
            arrow_spec(key, ctrl).0,
            arrow_spec(key, ctrl).1,
            shift,
            width as int,
            height as int,
        ),
{
    let step: i32 = if ctrl { 10 } else { 1 };
    let dx = if key == VK_LEFT { -step } else if key == VK_RIGHT { step } else { 0 };
    let dy = if key == VK_UP { -step } else if key == VK_DOWN { step } else { 0 };
    area.adjust(dx, dy, shift, width, height);
}

/// A reversed drag selects the same area: the corners' order does not matter.
pub proof fn law_between_symmetric(a: Point, b: Point, width: int, height: int)
    ensures
        between_spec(a, b, width, height) == between_spec(b, a, width, height),
{
}

/// The rectangle between any two points lies inside a frame of non-negative size.
pub proof fn law_between_inside(a: Point, b: Point, width: i32, height: i32)
    requires
        width >= 0,
        height >= 0,
    ensures
        between_spec(a, b, width as int, height as int).inside(width as int, height as int),
{
}

/// A lasso's area covers every point of the stroke that lies in the frame (its right and
/// bottom edges included), and lies in the frame itself.
pub proof fn law_bounds_covers(points: Seq<Point>, width: i32, height: i32, i: int)
    requires
        width >= 0,
        height >= 0,
        0 <= i < points.len(),
        0 <= points[i].x <= width,
        0 <= points[i].y <= height,
    ensures
        ({
            let a = bounds_spec(points, width as int, height as int);
            &&& a.inside(width as int, height as int)
            &&& a.x <= points[i].x <= a.x + a.w
            &&& a.y <= points[i].y <= a.y + a.h
        }),
{
    lemma_extremes_bound(points, i);
    lemma_extremes_range(points);
}

/// Moving or resizing keeps an area that lies in the frame inside it: a move keeps the size,
/// a resize keeps the top-left corner and leaves at least 8 pixels each way.
pub proof fn law_adjust_stays_inside(
    area: Area,
    dx: int,
    dy: int,
    resize: bool,
    width: i32,
    height: i32,
)
    requires
        area.inside(width as int, height as int),
        resize ==> width - area.x >= 8 && height - area.y >= 8,
    ensures
        area.adjust_spec(dx, dy, resize, width as int, height as int).inside(width as int, height as int),
        resize ==> ({
            let r = area.adjust_spec(dx, dy, resize, width as int, height as int);
            r.x == area.x && r.y == area.y && r.is_valid()
        }),
        !resize ==> ({
            let r = area.adjust_spec(dx, dy, resize, width as int, height as int);
            r.w == area.w && r.h == area.h
        }),
{
}

/// Row `row` of a crop holds the source pixels of row `area.y + row` from column `area.x` on,
/// right after the 40-byte header.
pub proof fn law_crop_rows_match_source(
    pixels: Seq<u8>,
    width: int,
    height: int,
    area: Area,
    row: int,
    c: int,
)
    requires
        crop_accepts(pixels.len() as int, width, height, area),
        0 <= row < area.h,
        0 <= c < area.w * 4,
    ensures
        crop_dib_spec(pixels, width, area).len() == 40 + area.w * area.h * 4,
        crop_dib_spec(pixels, width, area)[40 + row * (area.w * 4) + c] == pixels[(area.y + row)
            * (width * 4) + area.x * 4 + c],
{
    lemma_crop_row(pixels, width, height, area, row);
    let rows = crop_rows(pixels, width, area);
    let w4 = area.w * 4;
    let from = (area.y + row) * (width * 4) + area.x * 4;
    assert(rows.subrange(row * w4, row * w4 + w4)[c] == pixels.subrange(from, from + w4)[c]);
    assert(info_header(area.w as int, 0x1_0000_0000 - area.h, area.w * area.h * 4).len() == 40);
}

/// A lasso's box is tight: for a stroke inside the frame, each of its four edges passes through
/// a point of the stroke, so no smaller box covers the stroke.
pub proof fn law_bounds_attained(points: Seq<Point>, width: i32, height: i32)
    requires
        width >= 0,
        height >= 0,
        points.len() > 0,
        forall|i: int|
            #![trigger points[i]]
            0 <= i < points.len() ==> 0 <= points[i].x <= width && 0 <= points[i].y <= height,
    ensures
        ({
            let a = bounds_spec(points, width as int, height as int);
            &&& exists|i: int| 0 <= i < points.len() && #[trigger] points[i].x == a.x
            &&& exists|i: int| 0 <= i < points.len() && #[trigger] points[i].x == a.x + a.w
            &&& exists|i: int| 0 <= i < points.len() && #[trigger] points[i].y == a.y
            &&& exists|i: int| 0 <= i < points.len() && #[trigger] points[i].y == a.y + a.h
        }),
{
    lemma_extremes_attained(points);
    lemma_extremes_range(points);
    let a = bounds_spec(points, width as int, height as int);
    let i0 = choose|i: int| 0 <= i < points.len() && #[trigger] points[i].x == low_x(points);
    let i1 = choose|i: int| 0 <= i < points.len() && #[trigger] points[i].x == high_x(points);
    let i2 = choose|i: int| 0 <= i < points.len() && #[trigger] points[i].y == low_y(points);
    let i3 = choose|i: int| 0 <= i < points.len() && #[trigger] points[i].y == high_y(points);
    lemma_extremes_bound(points, i0);
    assert(0 <= points[i0].x <= width && 0 <= points[i1].x <= width);
    assert(0 <= points[i2].y <= height && 0 <= points[i3].y <= height);
    assert(points[i0].x == a.x);
    assert(points[i1].x == a.x + a.w);
    assert(points[i2].y == a.y);
    assert(points[i3].y == a.y + a.h);
}

/// The extremes of two strokes with the same points are the same.
proof fn lemma_extremes_same_points(s: Seq<Point>, t: Seq<Point>)
    requires
        s.len() > 0,
        forall|p: Point| #[trigger] s.contains(p) <==> t.contains(p),
    ensures
        t.len() > 0,
        low_x(s) == low_x(t),
        low_y(s) == low_y(t),
        high_x(s) == high_x(t),
        high_y(s) == high_y(t),
{
    assert(s.contains(s[0]));
    lemma_extremes_attained(s);
    lemma_extremes_attained(t);
    // Each extreme of one stroke is a point of the other, so it bounds the other's extreme.
    let a = choose|i: int| 0 <= i < s.len() && #[trigger] s[i].x == low_x(s);
    let b = choose|i: int| 0 <= i < t.len() && #[trigger] t[i].x == low_x(t);
    lemma_point_in_both(s, t, a, b);
    let a = choose|i: int| 0 <= i < s.len() && #[trigger] s[i].y == low_y(s);
    let b = choose|i: int| 0 <= i < t.len() && #[trigger] t[i].y == low_y(t);
    lemma_point_in_both(s, t, a, b);
    let a = choose|i: int| 0 <= i < s.len() && #[trigger] s[i].x == high_x(s);
    let b = choose|i: int| 0 <= i < t.len() && #[trigger] t[i].x == high_x(t);
    lemma_point_in_both(s, t, a, b);
    let a = choose|i: int| 0 <= i < s.len() && #[trigger] s[i].y == high_y(s);
    let b = choose|i: int| 0 <= i < t.len() && #[trigger] t[i].y == high_y(t);
    lemma_point_in_both(s, t, a, b);
}

/// Point `a` of `s` and point `b` of `t` lie between the other stroke's extremes.
proof fn lemma_point_in_both(s: Seq<Point>, t: Seq<Point>, a: int, b: int)
    requires
        0 <= a < s.len(),
        0 <= b < t.len(),
        forall|p: Point| #[trigger] s.contains(p) <==> t.contains(p),
    ensures
        low_x(t) <= s[a].x <= high_x(t),
        low_y(t) <= s[a].y <= high_y(t),
        low_x(s) <= t[b].x <= high_x(s),
        low_y(s) <= t[b].y <= high_y(s),
{
    assert(s.contains(s[a]));
    assert(t.contains(t[b]));
    assert(s.contains(t[b]));
    let ja = choose|j: int| 0 <= j < t.len() && t[j] == s[a];
    let jb = choose|j: int| 0 <= j < s.len() && s[j] == t[b];
    lemma_extremes_bound(t, ja);
    lemma_extremes_bound(s, jb);
}

/// A lasso's area depends only on which points were drawn: reordering the stroke or repeating
/// points gives the same area.
pub proof fn law_bounds_ignores_order(s: Seq<Point>, t: Seq<Point>, width: int, height: int)
    requires
        s.len() > 0,
        s.to_set() == t.to_set(),
    ensures
        t.len() > 0,
        bounds_spec(s, width, height) == bounds_spec(t, width, height),
{
    assert forall|p: Point| #[trigger] s.contains(p) <==> t.contains(p) by {
        assert(s.to_set().contains(p) == s.contains(p));
        assert(t.to_set().contains(p) == t.contains(p));
    }
    lemma_extremes_same_points(s, t);
}

/// Cropping a crop is one crop: the `b` part of the crop of `a` is the crop of `b` moved by `a`'s
/// corner, and both are accepted.
pub proof fn law_crop_of_crop(pixels: Seq<u8>, width: i32, height: i32, a: Area, b: Area)
    requires
        crop_accepts(pixels.len() as int, width as int, height as int, a),
        b.is_valid(),
        b.x >= 0,
        b.y >= 0,
        b.x + b.w <= a.w,
        b.y + b.h <= a.h,
    ensures
        ({
            let inner = crop_dib_spec(pixels, width as int, a).skip(40);
            let c = Area { x: (a.x + b.x) as i32, y: (a.y + b.y) as i32, w: b.w, h: b.h };
            &&& inner == crop_rows(pixels, width as int, a)
            &&& crop_accepts(inner.len() as int, a.w as int, a.h as int, b)
            &&& crop_accepts(pixels.len() as int, width as int, height as int, c)
            &&& crop_dib_spec(inner, a.w as int, b) == crop_dib_spec(pixels, width as int, c)
        }),
{
    let header = info_header(a.w as int, 0x1_0000_0000 - a.h, a.w * a.h * 4);
    assert(header.len() == 40);
    let inner = crop_dib_spec(pixels, width as int, a).skip(40);
    let outer = crop_rows(pixels, width as int, a);
    assert(inner =~= outer);
    let c = Area { x: (a.x + b.x) as i32, y: (a.y + b.y) as i32, w: b.w, h: b.h };
    assert(c.x == a.x + b.x && c.y == a.y + b.y);
    let aw4 = a.w * 4;
    let bw4 = b.w * 4;
    assert(0 < aw4 && 0 < bw4);
    let n = b.w * b.h * 4;
    assert forall|i: int| 0 <= i < n implies #[trigger] crop_rows(inner, a.w as int, b)[i]
        == crop_rows(pixels, width as int, c)[i] by {
        let r = i / bw4;
        let k = i % bw4;
        assert(0 <= r && 0 <= k < bw4);
        assert(r < b.h) by (nonlinear_arith)
            requires
                0 <= i < b.w * b.h * 4,
                bw4 == b.w * 4,
                bw4 > 0,
                r == i / bw4,
        ;
        let j = ((b.y + r) * a.w + b.x) * 4 + k;
        assert(j == (b.y + r) * aw4 + (b.x * 4 + k)) by (nonlinear_arith)
            requires
                j == ((b.y + r) * a.w + b.x) * 4 + k,
                aw4 == a.w * 4,
        ;
        assert(0 <= b.x * 4 + k < aw4);
        vstd::arithmetic::div_mod::lemma_fundamental_div_mod_converse(j, aw4, b.y + r, b.x * 4 + k);
        assert(0 <= j < a.w * a.h * 4) by (nonlinear_arith)
            requires
                j == (b.y + r) * aw4 + (b.x * 4 + k),
                0 <= b.y + r < a.h,
                0 <= b.x * 4 + k < aw4,
                aw4 == a.w * 4,
        ;
        assert(((a.y + (b.y + r)) * width + a.x) * 4 + (b.x * 4 + k) == ((c.y + r) * width + c.x) * 4
            + k) by (nonlinear_arith)
            requires
                c.x == a.x + b.x,
                c.y == a.y + b.y,
        ;
        assert(crop_rows(inner, a.w as int, b)[i] == inner[j]);
        assert(inner[j] == outer[j]);
    }
    assert(crop_rows(inner, a.w as int, b) =~= crop_rows(pixels, width as int, c));
}

/// Whether `p` is within `radius` of the corner of `a` on the given sides, on both axes, written
/// out from the corner's coordinates.
pub open spec fn within_corner(a: Area, p: Point, radius: int, right: bool, bottom: bool) -> bool {
    let cx: int = if right { a.x + a.w } else { a.x as int };
    let cy: int = if bottom { a.y + a.h } else { a.y as int };
    cx - radius <= p.x <= cx + radius && cy - radius <= p.y <= cy + radius
}

/// A press in reach of exactly one corner handle grabs that corner: the drag resizes by the
/// corner on the same sides (right or left, bottom or top) as the handle pressed.
pub proof fn law_press_grabs_that_corner(a: Area, p: Point, radius: int, right: bool, bottom: bool)
    requires
        within_corner(a, p, radius, right, bottom),
        forall|r: bool, b: bool|
            (r != right || b != bottom) ==> !#[trigger] within_corner(a, p, radius, r, b),
    ensures
        press_spec(Some(a), p, radius) == Drag::Resize(p, a, right, bottom),
{
    assert(!within_corner(a, p, radius, !right, bottom));
    assert(!within_corner(a, p, radius, right, !bottom));
    assert(!within_corner(a, p, radius, !right, !bottom));
    assert(!within_corner(a, p, radius, true, true) || (right && bottom));
    assert(!within_corner(a, p, radius, true, false) || (right && !bottom));
    assert(!within_corner(a, p, radius, false, true) || (!right && bottom));
    assert(!within_corner(a, p, radius, false, false) || (!right && !bottom));
}

/// A press away from every corner handle moves the area when it lands inside it and starts a
/// new selection elsewhere; with no area every press starts a new selection.
pub proof fn law_press_away_from_corners(area: Option<Area>, p: Point, radius: int)
    requires
        area matches Some(a) ==> forall|r: bool, b: bool| !#[trigger] within_corner(a, p, radius, r, b),
    ensures
        press_spec(area, p, radius) == (match area {
            Some(a) => if a.x <= p.x < a.x + a.w && a.y <= p.y < a.y + a.h {
                Drag::Move(p, a)
            } else {
                Drag::Draw(p)
            },
            None => Drag::Draw(p),
        }),
{
    if let Some(a) = area {
        assert(!within_corner(a, p, radius, true, true));
        assert(!within_corner(a, p, radius, true, false));
        assert(!within_corner(a, p, radius, false, true));
        assert(!within_corner(a, p, radius, false, false));
    }
}

/// Resizing by a corner keeps the opposite corner fixed: each side of the area that was not
/// grabbed stays where it was, as long as the dragged corner has not been pulled across it.
/// The dragged corner follows the pointer's travel from the press, the pointer being pulled
/// into the frame first.
pub proof fn law_resize_keeps_opposite_corner(
    start: Point,
    a: Area,
    right: bool,
    bottom: bool,
    p: Point,
    width: i32,
    height: i32,
)
    requires
        width >= 0,
        height >= 0,
        a.inside(width as int, height as int),
        drag_fits(
            Drag::Resize(start, a, right, bottom),
            clamp_point_spec(p, width as int, height as int),
            width as int,
            height as int,
        ),
    ensures
        ({
            let q = clamp_point_spec(p, width as int, height as int);
            let r = drag_area_spec(
                Drag::Resize(start, a, right, bottom),
                q,
                width as int,
                height as int,
            );
            let dragged_x = (if right { a.x + a.w } else { a.x as int }) + q.x - start.x;
            let dragged_y = (if bottom { a.y + a.h } else { a.y as int }) + q.y - start.y;
            &&& (right && dragged_x >= a.x) ==> r.x == a.x
            &&& (!right && dragged_x <= a.x + a.w) ==> r.x + r.w == a.x + a.w
            &&& (bottom && dragged_y >= a.y) ==> r.y == a.y
            &&& (!bottom && dragged_y <= a.y + a.h) ==> r.y + r.h == a.y + a.h
            &&& r.inside(width as int, height as int)
        }),
{
}

/// The arrow keys' steps: one pixel, or ten with Ctrl, along the key's own axis; left and
/// right step in opposite directions, and so do up and down.
pub proof fn law_arrow_steps(key: u16, ctrl: bool)
    ensures
        arrow_spec(key, true).0 == 10 * arrow_spec(key, false).0,
        arrow_spec(key, true).1 == 10 * arrow_spec(key, false).1,
        arrow_spec(VK_LEFT, ctrl).0 == -arrow_spec(VK_RIGHT, ctrl).0,
        arrow_spec(VK_UP, ctrl).1 == -arrow_spec(VK_DOWN, ctrl).1,
        arrow_spec(VK_RIGHT, ctrl) == (if ctrl { 10int } else { 1int }, 0int),
        arrow_spec(VK_DOWN, ctrl) == (0int, if ctrl { 10int } else { 1int }),
        arrow_spec(VK_LEFT, ctrl).1 == 0 && arrow_spec(VK_UP, ctrl).0 == 0,
{
}

/// An arrow press moves an area with room around it by exactly the key's step: Ctrl+Left moves
/// it ten pixels left, Left one, and the size never changes.
pub proof fn law_arrow_moves_by_step(area: Area, key: u16, ctrl: bool, width: i32, height: i32)
    requires
        area.inside(width as int, height as int),
        area.x >= 10,
        area.y >= 10,
        area.x + area.w + 10 <= width,
        area.y + area.h + 10 <= height,
    ensures
        ({
            let step: int = if ctrl { 10 } else { 1 };
            let r = area.adjust_spec(
                arrow_spec(key, ctrl).0,
                arrow_spec(key, ctrl).1,
                false,
                width as int,
                height as int,
            );
            &&& r.w == area.w && r.h == area.h
            &&& key == VK_LEFT ==> r.x == area.x - step && r.y == area.y
            &&& key == VK_RIGHT ==> r.x == area.x + step && r.y == area.y
            &&& key == VK_UP ==> r.y == area.y - step && r.x == area.x
            &&& key == VK_DOWN ==> r.y == area.y + step && r.x == area.x
        }),
{
}

} // verus!
