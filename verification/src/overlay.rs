//! Decisions of the selection overlay and the floating orb button: what a key or a menu
//! command does, when the completion animation hands over to the search, how a window
//! message's coordinates read, and how the round button is hit and dragged.

use crate::geometry::Rect;
use crate::selection::{abs_spec, Point};
use vstd::prelude::*;

verus! {

/// Tray and orb menu command ids.
pub const CAPTURE: usize = 101;
pub const RECTANGLE: usize = 102;
pub const LASSO: usize = 103;
pub const RESET: usize = 104;
pub const SEARCH: usize = 105;
pub const TOGGLE_BUBBLE: usize = 109;
pub const TOGGLE_MOTION: usize = 110;
pub const TOGGLE_STARTUP: usize = 111;
/// "Quit"; the installer sends it to a running copy before replacing it.
pub const EXIT: usize = 112;
pub const KEYBOARD_AREA: usize = 113;
/// First ids of the shortcut, orb transparency, dimming and language choices.
pub const HOTKEY_BASE: usize = 300;
pub const GLASS_BASE: usize = 400;
pub const DIM_BASE: usize = 500;
pub const LANGUAGE_BASE: usize = 600;

/// What a menu command asks for.
#[derive(Clone, Copy, Debug, PartialEq, Eq, Structural)]
pub enum Command {
    Capture,
    Rectangle,
    Lasso,
    Reset,
    Search,
    KeyboardArea,
    ToggleBubble,
    ToggleMotion,
    ToggleStartup,
    /// Switch the UI language; `true` for English.
    Language(bool),
    /// Use shortcut number `n` (0..3).
    Hotkey(usize),
    /// Use orb transparency level `n` (0..3).
    Glass(usize),
    /// Use dimming level `n` (0..3).
    Dim(usize),
    Exit,
    /// Not a command of the app.
    Unknown,
}

pub open spec fn command_spec(id: usize) -> Command {
    if id == CAPTURE {
        Command::Capture
    } else if id == RECTANGLE {
        Command::Rectangle
    } else if id == LASSO {
        Command::Lasso
    } else if id == RESET {
        Command::Reset
    } else if id == KEYBOARD_AREA {
        Command::KeyboardArea
    } else if id == SEARCH {
        Command::Search
    } else if id == TOGGLE_BUBBLE {
        Command::ToggleBubble
    } else if id == TOGGLE_MOTION {
        Command::ToggleMotion
    } else if id == TOGGLE_STARTUP {
        Command::ToggleStartup
    } else if LANGUAGE_BASE <= id <= LANGUAGE_BASE + 1 {
        Command::Language(id == LANGUAGE_BASE + 1)
    } else if HOTKEY_BASE <= id <= HOTKEY_BASE + 2 {
        Command::Hotkey((id - HOTKEY_BASE) as usize)
    } else if GLASS_BASE <= id <= GLASS_BASE + 2 {
        Command::Glass((id - GLASS_BASE) as usize)
    } else if DIM_BASE <= id <= DIM_BASE + 2 {
        Command::Dim((id - DIM_BASE) as usize)
    } else if id == EXIT {
        Command::Exit
    } else {
        Command::Unknown
    }
}

/// The command behind a menu id.
pub fn menu_command(id: usize) -> (c: Command)
    ensures
        c == command_spec(id),
{
    if id == CAPTURE {
        Command::Capture
    } else if id == RECTANGLE {
        Command::Rectangle
    } else if id == LASSO {
        Command::Lasso
    } else if id == RESET {
        Command::Reset
    } else if id == KEYBOARD_AREA {
        Command::KeyboardArea
    } else if id == SEARCH {
        Command::Search
    } else if id == TOGGLE_BUBBLE {
        Command::ToggleBubble
    } else if id == TOGGLE_MOTION {
        Command::ToggleMotion
    } else if id == TOGGLE_STARTUP {
        Command::ToggleStartup
    } else if LANGUAGE_BASE <= id && id <= LANGUAGE_BASE + 1 {
        Command::Language(id == LANGUAGE_BASE + 1)
    } else if HOTKEY_BASE <= id && id <= HOTKEY_BASE + 2 {
        Command::Hotkey(id - HOTKEY_BASE)
    } else if GLASS_BASE <= id && id <= GLASS_BASE + 2 {
        Command::Glass(id - GLASS_BASE)
    } else if DIM_BASE <= id && id <= DIM_BASE + 2 {
        Command::Dim(id - DIM_BASE)
    } else if id == EXIT {
        Command::Exit
    } else {
        Command::Unknown
    }
}

/// Every entry of the tray menu's choice lists selects its own option: shortcut, orb
/// transparency and dimming level `i` (of three) and language `i` (Korean, then English) come
/// back as that option, and the fixed entries as their own commands.
pub proof fn law_menu_choices_map_back(i: usize)
    ensures
        i < 3 ==> command_spec((HOTKEY_BASE + i) as usize) == Command::Hotkey(i),
        i < 3 ==> command_spec((GLASS_BASE + i) as usize) == Command::Glass(i),
        i < 3 ==> command_spec((DIM_BASE + i) as usize) == Command::Dim(i),
        i < 2 ==> command_spec((LANGUAGE_BASE + i) as usize) == Command::Language(i == 1),
        command_spec(CAPTURE) == Command::Capture,
        command_spec(RECTANGLE) == Command::Rectangle,
        command_spec(LASSO) == Command::Lasso,
        command_spec(RESET) == Command::Reset,
        command_spec(SEARCH) == Command::Search,
        command_spec(KEYBOARD_AREA) == Command::KeyboardArea,
        command_spec(TOGGLE_BUBBLE) == Command::ToggleBubble,
        command_spec(TOGGLE_MOTION) == Command::ToggleMotion,
        command_spec(TOGGLE_STARTUP) == Command::ToggleStartup,
        command_spec(EXIT) == Command::Exit,
{
}

/// Windows virtual-key codes the overlay reacts to.
pub const VK_RETURN: u16 = 0x0D;
pub const VK_ESCAPE: u16 = 0x1B;
pub const KEY_R: u16 = 0x52;
pub const KEY_L: u16 = 0x4C;
pub const KEY_K: u16 = 0x4B;
pub const KEY_N: u16 = 0x4E;

/// What a key press on the selection overlay does.
#[derive(Clone, Copy, Debug, PartialEq, Eq, Structural)]
pub enum KeyAction {
    /// Not the overlay's key: let Windows handle it.
    Ignore,
    /// Drop the current selection and start over.
    Reset,
    /// Leave the overlay.
    Close,
    Search,
    /// Move or resize the selection (starting a keyboard selection when there is none).
    Arrow,
    Rectangle,
    Lasso,
    KeyboardArea,
}

pub open spec fn key_action_spec(key_down: bool, key: u16, selecting: bool, focused: bool) -> KeyAction {
    if !key_down {
        KeyAction::Ignore
    } else if key == VK_ESCAPE {
        if selecting {
            KeyAction::Reset
        } else {
            KeyAction::Close
        }
    } else if !focused {
        KeyAction::Ignore
    } else if key == VK_RETURN {
        KeyAction::Search
    } else if crate::selection::VK_LEFT <= key <= crate::selection::VK_DOWN {
        KeyAction::Arrow
    } else if key == KEY_R {
        KeyAction::Rectangle
    } else if key == KEY_L {
        KeyAction::Lasso
    } else if key == KEY_K {
        KeyAction::KeyboardArea
    } else if key == KEY_N {
        KeyAction::Reset
    } else {
        KeyAction::Ignore
    }
}

/// A key on the overlay: Esc clears a selection (`selecting`: there is an area or a drag) or
/// closes; with the overlay focused, Enter searches, the arrows move or resize, and R, L, K and N
/// pick rectangle, lasso, keyboard selection or start over.
pub fn overlay_key_action(key_down: bool, key: u16, selecting: bool, focused: bool) -> (a: KeyAction)
    ensures
        a == key_action_spec(key_down, key, selecting, focused),
{
    if !key_down {
        KeyAction::Ignore
    } else if key == VK_ESCAPE {
        if selecting {
            KeyAction::Reset
        } else {
            KeyAction::Close
        }
    } else if !focused {
        KeyAction::Ignore
    } else if key == VK_RETURN {
        KeyAction::Search
    } else if crate::selection::VK_LEFT <= key && key <= crate::selection::VK_DOWN {
        KeyAction::Arrow
    } else if key == KEY_R {
        KeyAction::Rectangle
    } else if key == KEY_L {
        KeyAction::Lasso
    } else if key == KEY_K {
        KeyAction::KeyboardArea
    } else if key == KEY_N {
        KeyAction::Reset
    } else {
        KeyAction::Ignore
    }
}

/// What the overlay's animation timer does on a tick.
#[derive(Clone, Copy, Debug, PartialEq, Eq, Structural)]
pub enum Tick {
    /// Keep animating.
    Continue,
    /// The opening fade is over: stop the timer.
    Stop,
    /// The completion ripple is over: stop and search.
    RunSearch,
}

/// After a finished selection the ripple plays 180 ms before the search starts; with no
/// finished selection the opening animation stops after 140 ms.
pub fn overlay_tick(completed_ms: Option<u64>, started_ms: u64) -> (t: Tick)
    ensures
        t == (match completed_ms {
            Some(ms) => if ms >= 180 {
                Tick::RunSearch
            } else {
                Tick::Continue
            },
            None => if started_ms >= 140 {
                Tick::Stop
            } else {
                Tick::Continue
            },
        }),
{
    match completed_ms {
        Some(ms) => if ms >= 180 {
            Tick::RunSearch
        } else {
            Tick::Continue
        },
        None => if started_ms >= 140 {
            Tick::Stop
        } else {
            Tick::Continue
        },
    }
}

/// A 16-bit field read as a signed number.
pub open spec fn signed16(v: int) -> int {
    if v >= 0x8000 {
        v - 0x1_0000
    } else {
        v
    }
}

/// The client point packed in a mouse message's LPARAM: signed x in bits 0..16, signed y in
/// bits 16..32.
pub open spec fn lparam_point(lp: int) -> Point {
    Point { x: signed16(lp % 0x1_0000) as i32, y: signed16((lp / 0x1_0000) % 0x1_0000) as i32 }
}

/// The point in a mouse message's LPARAM.
pub fn point_from_lparam(lp: isize) -> (p: Point)
    ensures
        p == lparam_point(lp as int),
{
    let v = lp as i64;
    let mut low = v % 0x1_0000;
    if low < 0 {
        low = low + 0x1_0000;
    }
    let mut high = v / 0x1_0000;
    if v < 0 && v % 0x1_0000 != 0 {
        high = high - 1;
    }
    let mut high = high % 0x1_0000;
    if high < 0 {
        high = high + 0x1_0000;
    }
    let x = if low >= 0x8000 { low - 0x1_0000 } else { low };
    let y = if high >= 0x8000 { high - 0x1_0000 } else { high };
    Point { x: x as i32, y: y as i32 }
}

/// Mouse messages Windows synthesizes from pen and touch input carry this signature in their
/// extra info; the pointer messages already handled them.
pub open spec fn synthesized_spec(extra: int) -> bool {
    (extra % 0x1_0000_0000) / 0x100 == 0xff5157
}

/// Whether a mouse message was synthesized from pen or touch input.
pub fn synthesized_mouse(extra: usize) -> (r: bool)
    ensures
        r == synthesized_spec(extra as int),
{
    let v = extra as u64;
    (v % 0x1_0000_0000) / 0x100 == 0xff5157
}

/// The round orb button answers clicks only inside a circle of 43% of its width around its
/// centre; the corners of its square window let clicks through.
pub open spec fn bubble_hit_spec(window: Rect, px: int, py: int) -> bool {
    let x = px - crate::selection::quot(window.left + window.right, 2);
    let y = py - crate::selection::quot(window.top + window.bottom, 2);
    let radius = crate::selection::quot((window.right - window.left) * 43, 100);
    x * x + y * y <= radius * radius
}

fn half(v: i64) -> (r: i64)
    requires
        -0x1_0000_0000 <= v <= 0x1_0000_0000,
    ensures
        r == crate::selection::quot(v as int, 2),
{
    v / 2
}

/// Whether the orb button takes a click at screen point (`px`, `py`).
pub fn bubble_hit(window: Rect, px: i32, py: i32) -> (r: bool)
    ensures
        r == bubble_hit_spec(window, px as int, py as int),
{
    let x = px as i128 - half(window.left as i64 + window.right as i64) as i128;
    let y = py as i128 - half(window.top as i64 + window.bottom as i64) as i128;
    let width = window.right as i64 - window.left as i64;
    let radius = (width * 43 / 100) as i128;
    assert(-0x4_0000_0000 <= x <= 0x4_0000_0000 && -0x4_0000_0000 <= y <= 0x4_0000_0000);
    assert(0 <= x * x <= 0x10_0000_0000_0000_0000 && 0 <= y * y <= 0x10_0000_0000_0000_0000)
        by (nonlinear_arith)
        requires
            -0x4_0000_0000 <= x <= 0x4_0000_0000,
            -0x4_0000_0000 <= y <= 0x4_0000_0000,
    ;
    assert(-0x2_0000_0000 <= radius <= 0x2_0000_0000);
    assert(0 <= radius * radius <= 0x4_0000_0000_0000_0000) by (nonlinear_arith)
        requires
            -0x2_0000_0000 <= radius <= 0x2_0000_0000,
    ;
    x * x + y * y <= radius * radius
}

/// A press on the orb button becomes a drag once the pointer has travelled more than 6 pixels
/// (horizontal plus vertical); shorter presses are clicks.
pub fn bubble_dragged(start: Point, p: Point) -> (r: bool)
    ensures
        r == (abs_spec(p.x - start.x) + abs_spec(p.y - start.y) > 6),
{
    let dx = p.x as i64 - start.x as i64;
    let dy = p.y as i64 - start.y as i64;
    (if dx < 0 { -dx } else { dx }) + (if dy < 0 { -dy } else { dy }) > 6
}

/// What a press on the overlay lands on.
#[derive(Clone, Copy, Debug, PartialEq, Eq, Structural)]
pub enum PressTarget {
    /// The header's close button: leave the overlay.
    Close,
    /// The rest of the header: nothing happens.
    Header,
    /// The capture: start or grab a selection.
    Canvas,
}

/// Where a press at `p` lands, given the header and its close button.
pub fn press_target(p: Point, header: Rect, close: Rect) -> (t: PressTarget)
    ensures
        t == (if close.holds(p) {
            PressTarget::Close
        } else if header.holds(p) {
            PressTarget::Header
        } else {
            PressTarget::Canvas
        }),
{
    if crate::geometry::inside(p, close) {
        PressTarget::Close
    } else if crate::geometry::inside(p, header) {
        PressTarget::Header
    } else {
        PressTarget::Canvas
    }
}

/// What a pen or touch pointer message means for the selection.
#[derive(Clone, Copy, Debug, PartialEq, Eq, Structural)]
pub enum PointerRole {
    /// Another pointer, or one the selection does not follow.
    Ignore,
    /// Windows canceled the pointer: drop the selection.
    Cancel,
    /// A new press by this pointer, which the selection follows from now on.
    Press,
    /// A move or release of the followed pointer.
    Follow,
}

/// The role of a message from pointer `id` while pointer `active` is followed: only one pointer
/// draws at a time, a canceled pointer drops the selection, a press takes over.
pub fn pointer_role(active: Option<u32>, id: u32, canceled: bool, down: bool) -> (r: PointerRole)
    ensures
        r == (match active {
            Some(a) if a != id => PointerRole::Ignore,
            _ => if canceled {
                PointerRole::Cancel
            } else if down {
                PointerRole::Press
            } else if active == Some(id) {
                PointerRole::Follow
            } else {
                PointerRole::Ignore
            },
        }),
{
    match active {
        Some(a) if a != id => PointerRole::Ignore,
        _ => if canceled {
            PointerRole::Cancel
        } else if down {
            PointerRole::Press
        } else if active == Some(id) {
            PointerRole::Follow
        } else {
            PointerRole::Ignore
        },
    }
}

/// Whether the selection is drawn as a box with corner handles: always for a rectangle, and for
/// a lasso only until its stroke has three points.
pub fn shows_box(lasso: bool, path_len: usize) -> (r: bool)
    ensures
        r == (!lasso || path_len < 3),
{
    !lasso || path_len < 3
}

} // verus!
