//! Screen rectangles of the selection overlay and the search panel: repaint regions, the touch
//! magnifier, the overlay header, the keyboard starting area and the panel's orb and caption.

use crate::selection::{clamp_spec, fits_i32, max_spec, min_spec, quot, Area, Point};
use vstd::prelude::*;

verus! {

/// A rectangle by its edges, right and bottom excluded (Windows' RECT).
#[derive(Clone, Copy, Debug, Default, PartialEq, Eq, Structural)]
pub struct Rect {
    pub left: i32,
    pub top: i32,
    pub right: i32,
    pub bottom: i32,
}

/// Edges as mathematical integers, before they are stored as `i32`.
pub struct Edges {
    pub left: int,
    pub top: int,
    pub right: int,
    pub bottom: int,
}

impl Edges {
    pub open spec fn fits(self) -> bool {
        fits_i32(self.left) && fits_i32(self.top) && fits_i32(self.right) && fits_i32(self.bottom)
    }

    /// The `Rect` holding these edges (when they fit).
    pub open spec fn rect(self) -> Rect {
        Rect {
            left: self.left as i32,
            top: self.top as i32,
            right: self.right as i32,
            bottom: self.bottom as i32,
        }
    }
}

impl Rect {
    pub open spec fn edges(self) -> Edges {
        Edges {
            left: self.left as int,
            top: self.top as int,
            right: self.right as int,
            bottom: self.bottom as int,
        }
    }

    /// Whether `p` lies in the rectangle (right and bottom edges excluded).
    pub open spec fn holds(self, p: Point) -> bool {
        self.left <= p.x < self.right && self.top <= p.y < self.bottom
    }
}

fn rect_of(left: i64, top: i64, right: i64, bottom: i64) -> (r: Rect)
    requires
        fits_i32(left as int),
        fits_i32(top as int),
        fits_i32(right as int),
        fits_i32(bottom as int),
    ensures
        r.left == left,
        r.top == top,
        r.right == right,
        r.bottom == bottom,
{
    Rect { left: left as i32, top: top as i32, right: right as i32, bottom: bottom as i32 }
}

/// Whether `p` lies in `r`, right and bottom edges excluded.
pub fn inside(p: Point, r: Rect) -> (b: bool)
    ensures
        b == r.holds(p),
{
    p.x >= r.left && p.x < r.right && p.y >= r.top && p.y < r.bottom
}

/// The smallest rectangle holding both.
pub open spec fn union_spec(a: Rect, b: Rect) -> Rect {
    Rect {
        left: min_spec(a.left as int, b.left as int) as i32,
        top: min_spec(a.top as int, b.top as int) as i32,
        right: max_spec(a.right as int, b.right as int) as i32,
        bottom: max_spec(a.bottom as int, b.bottom as int) as i32,
    }
}

/// The smallest rectangle holding both `a` and `b`.
pub fn union_rect(a: Rect, b: Rect) -> (r: Rect)
    ensures
        r == union_spec(a, b),
{
    Rect {
        left: if a.left <= b.left { a.left } else { b.left },
        top: if a.top <= b.top { a.top } else { b.top },
        right: if a.right >= b.right { a.right } else { b.right },
        bottom: if a.bottom >= b.bottom { a.bottom } else { b.bottom },
    }
}

/// Side of the touch magnifier, in pixels.
pub const MAGNIFIER: i32 = 144;

/// Where the touch magnifier is painted for a finger at `cursor` on a `width`-pixel-wide capture:
/// centred above the finger (48 pixels of gap), kept inside the left, right and top edges.
pub open spec fn magnifier_spec(cursor: Point, width: int) -> Edges {
    let x = clamp_spec(cursor.x - 72, 0, max_spec(width - 144, 0));
    let y = max_spec(cursor.y - 144 - 48, 0);
    Edges { left: x, top: y, right: x + 144, bottom: y + 144 }
}

/// The touch magnifier's rectangle for a finger at `cursor`.
pub fn magnifier_rect(cursor: Point, width: i32) -> (r: Rect)
    requires
        magnifier_spec(cursor, width as int).fits(),
    ensures
        r == magnifier_spec(cursor, width as int).rect(),
{
    let hi: i64 = if width as i64 - 144 > 0 { width as i64 - 144 } else { 0 };
    let cx = cursor.x as i64 - 72;
    let x: i64 = if cx < 0 { 0 } else if cx > hi { hi } else { cx };
    let cy = cursor.y as i64 - 144 - 48;
    let y: i64 = if cy > 0 { cy } else { 0 };
    rect_of(x, y, x + 144, y + 144)
}

/// The region to repaint around the selection (or, with none, around the cursor): 64 pixels of
/// margin for the ink's glow, and with `touch` also the magnifier with a 2-pixel border.
pub open spec fn dirty_spec(area: Option<Area>, cursor: Point, touch: bool, width: int) -> Edges {
    let base = match area {
        Some(a) => Edges { left: a.x - 64, top: a.y - 64, right: a.x + a.w + 64, bottom: a.y + a.h + 64 },
        None => Edges {
            left: cursor.x - 64,
            top: cursor.y - 64,
            right: cursor.x + 64,
            bottom: cursor.y + 64,
        },
    };
    if touch {
        let lens = magnifier_spec(cursor, width);
        Edges {
            left: min_spec(base.left, lens.left - 2),
            top: min_spec(base.top, lens.top - 2),
            right: max_spec(base.right, lens.right + 2),
            bottom: max_spec(base.bottom, lens.bottom + 2),
        }
    } else {
        base
    }
}

/// Whether every rectangle `selection_dirty` builds fits in `i32`.
pub open spec fn dirty_fits(area: Option<Area>, cursor: Point, touch: bool, width: int) -> bool {
    &&& match area {
        Some(a) => Edges {
            left: a.x - 64,
            top: a.y - 64,
            right: a.x + a.w + 64,
            bottom: a.y + a.h + 64,
        }.fits(),
        None => Edges {
            left: cursor.x - 64,
            top: cursor.y - 64,
            right: cursor.x + 64,
            bottom: cursor.y + 64,
        }.fits(),
    }
    &&& touch ==> {
        let lens = magnifier_spec(cursor, width);
        &&& lens.fits()
        &&& Edges {
            left: lens.left - 2,
            top: lens.top - 2,
            right: lens.right + 2,
            bottom: lens.bottom + 2,
        }.fits()
    }
}

/// The overlay region that changes when the selection or the cursor moves.
pub fn selection_dirty(area: Option<Area>, cursor: Point, touch: bool, width: i32) -> (r: Rect)
    requires
        dirty_fits(area, cursor, touch, width as int),
    ensures
        r == dirty_spec(area, cursor, touch, width as int).rect(),
{
    let mut rect = match area {
        Some(a) => rect_of(
            a.x as i64 - 64,
            a.y as i64 - 64,
            a.x as i64 + a.w as i64 + 64,
            a.y as i64 + a.h as i64 + 64,
        ),
        None => rect_of(
            cursor.x as i64 - 64,
            cursor.y as i64 - 64,
            cursor.x as i64 + 64,
            cursor.y as i64 + 64,
        ),
    };
    if touch {
        let lens = magnifier_rect(cursor, width);
        rect = union_rect(
            rect,
            rect_of(
                lens.left as i64 - 2,
                lens.top as i64 - 2,
                lens.right as i64 + 2,
                lens.bottom as i64 + 2,
            ),
        );
    }
    rect
}

/// `n` device-independent pixels at `dpi`.
pub open spec fn scaled(n: int, dpi: int) -> int {
    quot(n * dpi, 96)
}

fn scale(n: i64, dpi: i64) -> (r: i64)
    requires
        0 <= n <= 1000,
        -0x1_0000_0000 <= dpi <= 0x1_0000_0000,
    ensures
        r == scaled(n as int, dpi as int),
{
    assert(-0x1000_0000_0000 <= n * dpi <= 0x1000_0000_0000) by (nonlinear_arith)
        requires
            0 <= n <= 1000,
            -0x1_0000_0000 <= dpi <= 0x1_0000_0000,
    ;
    n * dpi / 96
}

/// The overlay's header banner and its close button, in capture coordinates: 390 pixels wide
/// (at most the work area less 24), centred, 24 below the top of the work area `monitor`; the
/// close button sits 12 inside its right end.
pub open spec fn header_spec(monitor: Rect, origin: Point, dpi: int) -> (Edges, Edges) {
    let available = monitor.right - monitor.left;
    let width = min_spec(scaled(390, dpi), available - scaled(24, dpi));
    let left = monitor.left - origin.x + quot(available - width, 2);
    let top = monitor.top - origin.y + scaled(24, dpi);
    let header = Edges { left, top, right: left + width, bottom: top + scaled(72, dpi) };
    let close = Edges {
        left: header.right - scaled(54, dpi),
        top: header.top + scaled(12, dpi),
        right: header.right - scaled(12, dpi),
        bottom: header.bottom - scaled(12, dpi),
    };
    (header, close)
}

/// The overlay header and its close button for the work area `monitor` of a capture whose
/// top-left screen point is `origin`.
pub fn overlay_header(monitor: Rect, origin: Point, dpi: i32) -> (r: (Rect, Rect))
    requires
        header_spec(monitor, origin, dpi as int).0.fits(),
        header_spec(monitor, origin, dpi as int).1.fits(),
    ensures
        r.0 == header_spec(monitor, origin, dpi as int).0.rect(),
        r.1 == header_spec(monitor, origin, dpi as int).1.rect(),
{
    let dpi = dpi as i64;
    let available = monitor.right as i64 - monitor.left as i64;
    let wide = scale(390, dpi);
    let narrow = available - scale(24, dpi);
    let width = if wide <= narrow { wide } else { narrow };
    let left = monitor.left as i64 - origin.x as i64 + (available - width) / 2;
    let top = monitor.top as i64 - origin.y as i64 + scale(24, dpi);
    let right = left + width;
    let bottom = top + scale(72, dpi);
    let header = rect_of(left, top, right, bottom);
    let close = rect_of(
        right - scale(54, dpi),
        top + scale(12, dpi),
        right - scale(12, dpi),
        bottom - scale(12, dpi),
    );
    (header, close)
}

/// The area keyboard selection starts from: 320 x 220 (at most the work area), centred
/// horizontally and a third of the way down the work area `monitor`, in capture coordinates.
pub open spec fn keyboard_area_spec(monitor: Rect, origin: Point) -> (int, int, int, int) {
    let w = min_spec(monitor.right - monitor.left, 320);
    let h = min_spec(monitor.bottom - monitor.top, 220);
    (
        monitor.left - origin.x + quot(monitor.right - monitor.left - w, 2),
        monitor.top - origin.y + quot(monitor.bottom - monitor.top - h, 3),
        w,
        h,
    )
}

/// The starting area for keyboard selection.
pub fn keyboard_area(monitor: Rect, origin: Point) -> (a: Area)
    requires
        fits_i32(keyboard_area_spec(monitor, origin).0),
        fits_i32(keyboard_area_spec(monitor, origin).1),
        fits_i32(keyboard_area_spec(monitor, origin).2),
        fits_i32(keyboard_area_spec(monitor, origin).3),
    ensures
        a.x == keyboard_area_spec(monitor, origin).0,
        a.y == keyboard_area_spec(monitor, origin).1,
        a.w == keyboard_area_spec(monitor, origin).2,
        a.h == keyboard_area_spec(monitor, origin).3,
{
    let mw = monitor.right as i64 - monitor.left as i64;
    let mh = monitor.bottom as i64 - monitor.top as i64;
    let w = if mw <= 320 { mw } else { 320 };
    let h = if mh <= 220 { mh } else { 220 };
    Area {
        x: (monitor.left as i64 - origin.x as i64 + (mw - w) / 2) as i32,
        y: (monitor.top as i64 - origin.y as i64 + (mh - h) / 3) as i32,
        w: w as i32,
        h: h as i32,
    }
}

/// Height of the search panel's own title bar.
pub const BAR: i64 = 36;

/// Hit box of each caption orb (minimize, maximize, close).
pub const BUTTON: i64 = 28;

/// The search panel's orb in a `width` x `height` client area: beside the status text while a
/// page is shown, else 220 across (less when the panel is small, never under 32) and centred
/// in the space above the text and buttons.
pub open spec fn orb_spec(width: int, height: int, dpi: int, showing_web: bool) -> Edges {
    let bar = scaled(BAR as int, dpi);
    if showing_web {
        Edges {
            left: scaled(12, dpi),
            top: bar + scaled(8, dpi),
            right: scaled(80, dpi),
            bottom: bar + scaled(76, dpi),
        }
    } else {
        let size = max_spec(
            min_spec(
                min_spec(scaled(220, dpi), width - scaled(32, dpi)),
                max_spec(height - bar - scaled(180, dpi), scaled(96, dpi)),
            ),
            32,
        );
        let top = bar + max_spec(quot(height - bar - size - scaled(148, dpi), 2), scaled(20, dpi));
        Edges {
            left: quot(width - size, 2),
            top,
            right: quot(width + size, 2),
            bottom: top + size,
        }
    }
}

/// Where the search panel draws its orb.
pub fn orb_rect(width: i32, height: i32, dpi: i32, showing_web: bool) -> (r: Rect)
    requires
        -0x1_0000_0000 <= dpi <= 0x1_0000_0000,
        orb_spec(width as int, height as int, dpi as int, showing_web).fits(),
    ensures
        r == orb_spec(width as int, height as int, dpi as int, showing_web).rect(),
{
    let dpi = dpi as i64;
    let (width, height) = (width as i64, height as i64);
    let bar = scale(BAR, dpi);
    if showing_web {
        return rect_of(scale(12, dpi), bar + scale(8, dpi), scale(80, dpi), bar + scale(76, dpi));
    }
    let a = scale(220, dpi);
    let b = width - scale(32, dpi);
    let c = height - bar - scale(180, dpi);
    let d = scale(96, dpi);
    let lower = if c >= d { c } else { d };
    let first = if a <= b { a } else { b };
    let second = if first <= lower { first } else { lower };
    let size = if second >= 32 { second } else { 32 };
    let room = (height - bar - size - scale(148, dpi)) / 2;
    let gap = scale(20, dpi);
    let top = bar + if room >= gap { room } else { gap };
    rect_of((width - size) / 2, top, (width + size) / 2, top + size)
}

/// Caption orb `i` (0 minimize, 1 maximize, 2 close) of a `width`-wide panel: right-aligned, with
/// the same margin above and to the right, so the close orb sits on the corner's diagonal.
pub open spec fn caption_spec(width: int, dpi: int, i: int) -> Edges {
    let size = scaled(BUTTON as int, dpi);
    let top = quot(scaled(BAR as int, dpi) - size, 2);
    let right = width - top - (2 - i) * size;
    Edges { left: right - size, top, right, bottom: top + size }
}

/// The hit box of caption orb `i`.
pub fn caption_button(width: i32, dpi: i32, i: usize) -> (r: Rect)
    requires
        i < 3,
        -0x1_0000_0000 <= dpi <= 0x1_0000_0000,
        caption_spec(width as int, dpi as int, i as int).fits(),
    ensures
        r == caption_spec(width as int, dpi as int, i as int).rect(),
{
    let dpi = dpi as i64;
    let size = scale(BUTTON, dpi);
    let top = (scale(BAR, dpi) - size) / 2;
    let right = width as i64 - top - (2 - i as i64) * size;
    rect_of(right - size, top, right, top + size)
}

/// The first caption orb whose hit box holds (`x`, `y`).
pub fn caption_hit(width: i32, dpi: i32, x: i32, y: i32) -> (r: Option<usize>)
    requires
        -0x1_0000_0000 <= dpi <= 0x1_0000_0000,
        forall|i: int| 0 <= i < 3 ==> #[trigger] caption_spec(width as int, dpi as int, i).fits(),
    ensures
        match r {
            Some(i) => i < 3 && caption_spec(width as int, dpi as int, i as int).rect().holds(
                Point { x, y },
            ) && forall|j: int|
                0 <= j < i ==> !#[trigger] caption_spec(width as int, dpi as int, j).rect().holds(
                    Point { x, y },
                ),
            None => forall|j: int|
                0 <= j < 3 ==> !#[trigger] caption_spec(width as int, dpi as int, j).rect().holds(
                    Point { x, y },
                ),
        },
{
    let p = Point { x, y };
    let mut i: usize = 0;
    while i < 3
        invariant
            -0x1_0000_0000 <= dpi <= 0x1_0000_0000,
            forall|k: int| 0 <= k < 3 ==> #[trigger] caption_spec(width as int, dpi as int, k).fits(),
            i <= 3,
            p == (Point { x, y }),
            forall|j: int|
                0 <= j < i ==> !#[trigger] caption_spec(width as int, dpi as int, j).rect().holds(p),
        decreases 3 - i,
    {
        assert(caption_spec(width as int, dpi as int, i as int).fits());
        if inside(p, caption_button(width, dpi, i)) {
            return Some(i);
        }
        i += 1;
    }
    None
}


/// The search panel's window on the work area `monitor`: the full height, 440 pixels wide (at
/// most the work area's width), against the right edge.
pub open spec fn panel_window_spec(monitor: Rect, dpi: int) -> Edges {
    let width = min_spec(monitor.right - monitor.left, scaled(440, dpi));
    Edges {
        left: monitor.right - width,
        top: monitor.top as int,
        right: monitor.right as int,
        bottom: monitor.bottom as int,
    }
}

/// Where the search panel opens on the work area `monitor` of a `dpi` display.
pub fn panel_window(monitor: Rect, dpi: i32) -> (r: Rect)
    requires
        -0x1_0000_0000 <= dpi <= 0x1_0000_0000,
        panel_window_spec(monitor, dpi as int).fits(),
    ensures
        r == panel_window_spec(monitor, dpi as int).rect(),
{
    let available = monitor.right as i64 - monitor.left as i64;
    let wide = scale(440, dpi as i64);
    let width = if available <= wide { available } else { wide };
    rect_of(monitor.right as i64 - width, monitor.top as i64, monitor.right as i64, monitor.bottom as i64)
}

/// The smallest size the panel can be dragged to: 380 x 320 at `dpi`.
pub fn panel_min_size(dpi: i32) -> (r: (i32, i32))
    requires
        0 <= dpi <= 0x100_0000,
    ensures
        r.0 == scaled(380, dpi as int),
        r.1 == scaled(320, dpi as int),
{
    (scale(380, dpi as i64) as i32, scale(320, dpi as i64) as i32)
}

/// Where the panel's controls go, as edges.
pub struct LayoutEdges {
    pub status: Edges,
    pub subtitle: Edges,
    pub retry: Edges,
    pub redraw: Edges,
    pub close: Edges,
    pub web_top: int,
    pub web_height: int,
}

/// The `i`-th of the three buttons in a row while a page is shown: each at most 110 wide, 8
/// apart, the row centred.
pub open spec fn row_button(width: int, dpi: int, top: int, i: int) -> Edges {
    let bw = min_spec(quot(width - scaled(48, dpi), 3), scaled(110, dpi));
    let start = quot(width - bw * 3 - scaled(16, dpi), 2);
    let x = start + i * (bw + scaled(8, dpi));
    Edges { left: x, top, right: x + bw, bottom: top + scaled(44, dpi) }
}

/// The panel's layout in a `width` x `height` client area. While searching, the status line,
/// subtitle and Cancel button stand under the orb; once a page shows, the text moves beside the
/// small orb, Retry, Redraw and Close sit in a row under it, and the page fills the rest (all of
/// the area under the title bar when results are shown).
pub open spec fn layout_spec(width: int, height: int, dpi: int, web: bool, results: bool) -> LayoutEdges {
    let bar = scaled(BAR as int, dpi);
    let orb = orb_spec(width, height, dpi, web);
    let left = if web { scaled(88, dpi) } else { scaled(20, dpi) };
    let w = if web { width - scaled(104, dpi) } else { width - scaled(40, dpi) };
    let title_y = if web { bar + scaled(12, dpi) } else { orb.bottom };
    let body_y = if web { bar + scaled(46, dpi) } else { orb.bottom + scaled(38, dpi) };
    let buttons_y = if web { bar + scaled(100, dpi) } else { orb.bottom + scaled(88, dpi) };
    let single = Edges {
        left: quot(width - scaled(112, dpi), 2),
        top: buttons_y,
        right: quot(width - scaled(112, dpi), 2) + scaled(112, dpi),
        bottom: buttons_y + scaled(44, dpi),
    };
    let web_top = if web && !results { bar + scaled(164, dpi) } else { bar };
    LayoutEdges {
        status: Edges { left, top: title_y, right: left + w, bottom: title_y + scaled(30, dpi) },
        subtitle: Edges { left, top: body_y, right: left + w, bottom: body_y + scaled(34, dpi) },
        retry: row_button(width, dpi, buttons_y, 0),
        redraw: row_button(width, dpi, buttons_y, 1),
        close: if web { row_button(width, dpi, buttons_y, 2) } else { single },
        web_top,
        web_height: max_spec(height - web_top, 1),
    }
}

/// Whether every coordinate of the layout fits in `i32`.
pub open spec fn layout_fits(width: int, height: int, dpi: int, web: bool, results: bool) -> bool {
    let l = layout_spec(width, height, dpi, web, results);
    &&& orb_spec(width, height, dpi, web).fits()
    &&& l.status.fits()
    &&& l.subtitle.fits()
    &&& web ==> l.retry.fits() && l.redraw.fits()
    &&& l.close.fits()
    &&& fits_i32(l.web_top)
    &&& fits_i32(l.web_height)
}

/// Where the panel's controls go.
#[derive(Clone, Copy, Debug, PartialEq, Eq, Structural)]
pub struct PanelLayout {
    pub status: Rect,
    pub subtitle: Rect,
    /// Retry and Redraw, placed only while a page shows.
    pub retry: Option<Rect>,
    pub redraw: Option<Rect>,
    pub close: Rect,
    /// Top and height of the web page.
    pub web_top: i32,
    pub web_height: i32,
}

fn row_button_rect(width: i64, dpi: i64, top: i64, i: i64) -> (r: Rect)
    requires
        -0x1_0000_0000 <= dpi <= 0x1_0000_0000,
        fits_i32(width as int),
        fits_i32(top as int),
        0 <= i < 3,
        row_button(width as int, dpi as int, top as int, i as int).fits(),
    ensures
        r == row_button(width as int, dpi as int, top as int, i as int).rect(),
{
    let a = (width - scale(48, dpi)) / 3;
    let b = scale(110, dpi);
    let bw = if a <= b { a } else { b };
    let start = (width - bw * 3 - scale(16, dpi)) / 2;
    let gap = bw + scale(8, dpi);
    assert(-0x200_0000_0000 <= gap <= 0x200_0000_0000);
    assert(-0x600_0000_0000 <= i * gap <= 0x600_0000_0000) by (nonlinear_arith)
        requires
            0 <= i < 3,
            -0x200_0000_0000 <= gap <= 0x200_0000_0000,
    ;
    let x = start + i * gap;
    rect_of(x, top, x + bw, top + scale(44, dpi))
}

/// The layout of a `width` x `height` client area, or `None` while it has no area (minimized).
pub fn panel_layout(width: i32, height: i32, dpi: i32, web: bool, results: bool) -> (r: Option<PanelLayout>)
    requires
        -0x1_0000_0000 <= dpi <= 0x1_0000_0000,
        width > 0 && height > 0 ==> layout_fits(width as int, height as int, dpi as int, web, results),
    ensures
        match r {
            None => width <= 0 || height <= 0,
            Some(l) => {
                let e = layout_spec(width as int, height as int, dpi as int, web, results);
                &&& width > 0 && height > 0
                &&& l.status == e.status.rect()
                &&& l.subtitle == e.subtitle.rect()
                &&& l.retry == (if web { Some(e.retry.rect()) } else { None })
                &&& l.redraw == (if web { Some(e.redraw.rect()) } else { None })
                &&& l.close == e.close.rect()
                &&& l.web_top == e.web_top
                &&& l.web_height == e.web_height
            },
        },
{
    if width <= 0 || height <= 0 {
        return None;
    }
    let orb = orb_rect(width, height, dpi, web);
    let d = dpi as i64;
    let w64 = width as i64;
    let bar = scale(BAR, d);
    let (left, w, title_y, body_y, buttons_y) = if web {
        (scale(88, d), w64 - scale(104, d), bar + scale(12, d), bar + scale(46, d), bar + scale(100, d))
    } else {
        let b = orb.bottom as i64;
        (scale(20, d), w64 - scale(40, d), b, b + scale(38, d), b + scale(88, d))
    };
    let status = rect_of(left, title_y, left + w, title_y + scale(30, d));
    let subtitle = rect_of(left, body_y, left + w, body_y + scale(34, d));
    let (retry, redraw, close) = if web {
        (
            Some(row_button_rect(w64, d, buttons_y, 0)),
            Some(row_button_rect(w64, d, buttons_y, 1)),
            row_button_rect(w64, d, buttons_y, 2),
        )
    } else {
        let x = (w64 - scale(112, d)) / 2;
        (None, None, rect_of(x, buttons_y, x + scale(112, d), buttons_y + scale(44, d)))
    };
    let web_top = if web && !results { bar + scale(164, d) } else { bar };
    let rest = height as i64 - web_top;
    let web_height = if rest >= 1 { rest } else { 1 };
    Some(PanelLayout {
        status,
        subtitle,
        retry,
        redraw,
        close,
        web_top: web_top as i32,
        web_height: web_height as i32,
    })
}

/// What a click on a caption orb asks of the window.
#[derive(Clone, Copy, Debug, PartialEq, Eq, Structural)]
pub enum CaptionCommand {
    Minimize,
    Maximize,
    Restore,
    Close,
}

/// The command of caption orb `i`: minimize, maximize (restore when `zoomed`), close.
pub fn caption_command(i: usize, zoomed: bool) -> (c: CaptionCommand)
    ensures
        c == (if i == 0 {
            CaptionCommand::Minimize
        } else if i == 1 {
            if zoomed {
                CaptionCommand::Restore
            } else {
                CaptionCommand::Maximize
            }
        } else {
            CaptionCommand::Close
        }),
{
    if i == 0 {
        CaptionCommand::Minimize
    } else if i == 1 {
        if zoomed {
            CaptionCommand::Restore
        } else {
            CaptionCommand::Maximize
        }
    } else {
        CaptionCommand::Close
    }
}

/// How the panel answers a hit test on its client area.
#[derive(Clone, Copy, Debug, PartialEq, Eq, Structural)]
pub enum PanelHit {
    /// The top resize border.
    Top,
    /// The title bar, which drags the window.
    Caption,
    Client,
}

/// The hit test of client row `y`: the top `frame` rows resize (unless maximized), the rest of
/// the `bar`-high title bar drags the window except on a caption orb, the rest is client.
pub fn panel_hit(zoomed: bool, y: i32, frame: i32, bar: i32, on_orb: bool) -> (h: PanelHit)
    ensures
        h == (if !zoomed && y < frame {
            PanelHit::Top
        } else if y < bar && !on_orb {
            PanelHit::Caption
        } else {
            PanelHit::Client
        }),
{
    if !zoomed && y < frame {
        PanelHit::Top
    } else if y < bar && !on_orb {
        PanelHit::Caption
    } else {
        PanelHit::Client
    }
}

/// The drawn size of a caption orb whose hit box is `size` across: three quarters, seven eighths
/// under the pointer, two thirds while pressed; it is centred, `offset` in from each side.
pub open spec fn bead_spec(size: int, hovered: bool, pressed: bool) -> (int, int) {
    let side = if pressed {
        quot(size * 2, 3)
    } else if hovered {
        quot(size * 7, 8)
    } else {
        quot(size * 3, 4)
    };
    (side, quot(size - side, 2))
}

/// The side and inset of a caption orb.
pub fn bead_side(size: i32, hovered: bool, pressed: bool) -> (r: (i32, i32))
    ensures
        r.0 == bead_spec(size as int, hovered, pressed).0,
        r.1 == bead_spec(size as int, hovered, pressed).1,
{
    let s = size as i64;
    let side = if pressed {
        s * 2 / 3
    } else if hovered {
        s * 7 / 8
    } else {
        s * 3 / 4
    };
    (side as i32, ((s - side) / 2) as i32)
}

/// The floating orb button's window: 84 pixels square at `dpi`, 24 in from the right edge and
/// 160 down from the top of the work area `work`.
pub open spec fn bubble_spec(work: Rect, dpi: int) -> Edges {
    let size = scaled(84, dpi);
    let left = work.right - size - 24;
    let top = work.top + 160;
    Edges { left, top, right: left + size, bottom: top + size }
}

/// Where the orb button first appears.
pub fn bubble_window(work: Rect, dpi: i32) -> (r: Rect)
    requires
        -0x1_0000_0000 <= dpi <= 0x1_0000_0000,
        bubble_spec(work, dpi as int).fits(),
    ensures
        r == bubble_spec(work, dpi as int).rect(),
{
    let size = scale(84, dpi as i64);
    let left = work.right as i64 - size - 24;
    let top = work.top as i64 + 160;
    rect_of(left, top, left + size, top + size)
}

/// Half the side of a corner handle: 7 pixels at `dpi`, never under 6.
pub open spec fn handle_half(dpi: int) -> int {
    max_spec(quot(dpi * 7, 96), 6)
}

/// The handle on corner `i` of `a`: left-top, left-bottom, right-top, right-bottom.
pub open spec fn handle_spec(a: Area, dpi: int, i: int) -> Edges {
    let x = if i < 2 { a.x as int } else { a.x + a.w };
    let y = if i % 2 == 0 { a.y as int } else { a.y + a.h };
    let h = handle_half(dpi);
    Edges { left: x - h, top: y - h, right: x + h, bottom: y + h }
}

/// The four square handles drawn on the corners of a rectangle selection.
pub fn corner_handles(a: Area, dpi: i32) -> (r: Vec<Rect>)
    requires
        0 <= dpi <= 0x100_0000,
        forall|i: int| 0 <= i < 4 ==> #[trigger] handle_spec(a, dpi as int, i).fits(),
    ensures
        r@.len() == 4,
        forall|i: int| 0 <= i < 4 ==> r@[i] == #[trigger] handle_spec(a, dpi as int, i).rect(),
{
    let q = dpi as i64 * 7 / 96;
    let h = if q >= 6 { q } else { 6 };
    let mut out: Vec<Rect> = Vec::new();
    let mut i: usize = 0;
    while i < 4
        invariant
            0 <= dpi <= 0x100_0000,
            forall|k: int| 0 <= k < 4 ==> #[trigger] handle_spec(a, dpi as int, k).fits(),
            h == handle_half(dpi as int),
            i <= 4,
            out@.len() == i,
            forall|k: int| 0 <= k < i ==> out@[k] == #[trigger] handle_spec(a, dpi as int, k).rect(),
        decreases 4 - i,
    {
        assert(handle_spec(a, dpi as int, i as int).fits());
        let x: i64 = if i < 2 { a.x as i64 } else { a.x as i64 + a.w as i64 };
        let y: i64 = if i % 2 == 0 { a.y as i64 } else { a.y as i64 + a.h as i64 };
        out.push(rect_of(x - h, y - h, x + h, y + h));
        i += 1;
    }
    out
}

/// The 48-pixel square of the capture the magnifier enlarges: centred on the finger, kept
/// inside the `width` x `height` capture.
pub open spec fn lens_source_spec(cursor: Point, width: int, height: int) -> (int, int) {
    (
        clamp_spec(cursor.x - 24, 0, max_spec(width - 48, 0)),
        clamp_spec(cursor.y - 24, 0, max_spec(height - 48, 0)),
    )
}

/// The top-left corner of the square the magnifier shows.
pub fn lens_source(cursor: Point, width: i32, height: i32) -> (r: Point)
    ensures
        r.x == lens_source_spec(cursor, width as int, height as int).0,
        r.y == lens_source_spec(cursor, width as int, height as int).1,
{
    let hx: i64 = if width as i64 - 48 > 0 { width as i64 - 48 } else { 0 };
    let hy: i64 = if height as i64 - 48 > 0 { height as i64 - 48 } else { 0 };
    let cx = cursor.x as i64 - 24;
    let cy = cursor.y as i64 - 24;
    let x = if cx < 0 { 0 } else if cx > hx { hx } else { cx };
    let y = if cy < 0 { 0 } else if cy > hy { hy } else { cy };
    Point { x: x as i32, y: y as i32 }
}

/// The header's text lines and close cross: the title and the instruction stand left of the
/// close button; the cross is centred on the button, each arm 6 pixels long at `dpi`.
pub open spec fn header_text_spec(header: Rect, close: Rect, dpi: int) -> (Edges, Edges, (int, int, int)) {
    let right = close.left - scaled(6, dpi);
    (
        Edges {
            left: header.left + scaled(20, dpi),
            top: header.top + scaled(10, dpi),
            right,
            bottom: header.top + scaled(31, dpi),
        },
        Edges {
            left: header.left + scaled(20, dpi),
            top: header.top + scaled(33, dpi),
            right,
            bottom: header.bottom - scaled(9, dpi),
        },
        (quot(close.left + close.right, 2), quot(close.top + close.bottom, 2), scaled(6, dpi)),
    )
}

/// Where the header writes its title and instruction and draws its close cross.
pub fn header_text(header: Rect, close: Rect, dpi: i32) -> (r: (Rect, Rect, (i32, i32, i32)))
    requires
        -0x1_0000_0000 <= dpi <= 0x1_0000_0000,
        header_text_spec(header, close, dpi as int).0.fits(),
        header_text_spec(header, close, dpi as int).1.fits(),
        fits_i32(header_text_spec(header, close, dpi as int).2.2),
    ensures
        r.0 == header_text_spec(header, close, dpi as int).0.rect(),
        r.1 == header_text_spec(header, close, dpi as int).1.rect(),
        r.2.0 == header_text_spec(header, close, dpi as int).2.0,
        r.2.1 == header_text_spec(header, close, dpi as int).2.1,
        r.2.2 == header_text_spec(header, close, dpi as int).2.2,
{
    let d = dpi as i64;
    let right = close.left as i64 - scale(6, d);
    let left = header.left as i64 + scale(20, d);
    let title = rect_of(left, header.top as i64 + scale(10, d), right, header.top as i64 + scale(31, d));
    let body = rect_of(left, header.top as i64 + scale(33, d), right, header.bottom as i64 - scale(9, d));
    let cx = (close.left as i64 + close.right as i64) / 2;
    let cy = (close.top as i64 + close.bottom as i64) / 2;
    (title, body, (cx as i32, cy as i32, scale(6, d) as i32))
}

/// The keyboard selection starts inside the work area: moved back to screen coordinates by the
/// capture's origin, the box lies within `monitor`, is 320 x 220 (or the whole work area when
/// that is smaller), and sits centred across it with the space above it half the space below,
/// give or take the rounding.
pub proof fn law_keyboard_area_on_work_area(monitor: Rect, origin: Point)
    requires
        monitor.left <= monitor.right,
        monitor.top <= monitor.bottom,
    ensures
        ({
            let k = keyboard_area_spec(monitor, origin);
            let (x, y, w, h) = (k.0 + origin.x, k.1 + origin.y, k.2, k.3);
            &&& monitor.left <= x && x + w <= monitor.right
            &&& monitor.top <= y && y + h <= monitor.bottom
            &&& w == min_spec(monitor.right - monitor.left, 320)
            &&& h == min_spec(monitor.bottom - monitor.top, 220)
            &&& 0 <= (monitor.right - (x + w)) - (x - monitor.left) <= 1
            &&& 0 <= (monitor.bottom - (y + h)) - 2 * (y - monitor.top) <= 2
        }),
{
    let mw = monitor.right - monitor.left;
    let mh = monitor.bottom - monitor.top;
    let w = min_spec(mw, 320);
    let h = min_spec(mh, 220);
    assert(0 <= mw - w && 0 <= mh - h);
    assert(quot(mw - w, 2) == (mw - w) / 2);
    assert(quot(mh - h, 3) == (mh - h) / 3);
}

} // verus!
