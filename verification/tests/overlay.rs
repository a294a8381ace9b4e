use orbom::geometry::Rect;
use orbom::overlay::{
    bubble_dragged, bubble_hit, menu_command, overlay_key_action, overlay_tick, point_from_lparam,
    pointer_role, press_target, shows_box, synthesized_mouse, Command, KeyAction, PointerRole,
    PressTarget, Tick,
};
use orbom::selection::Point;

#[test]
fn menu_ids_map_to_their_commands() {
    assert_eq!(menu_command(101), Command::Capture);
    assert_eq!(menu_command(102), Command::Rectangle);
    assert_eq!(menu_command(103), Command::Lasso);
    assert_eq!(menu_command(104), Command::Reset);
    assert_eq!(menu_command(105), Command::Search);
    assert_eq!(menu_command(109), Command::ToggleBubble);
    assert_eq!(menu_command(110), Command::ToggleMotion);
    assert_eq!(menu_command(111), Command::ToggleStartup);
    assert_eq!(menu_command(112), Command::Exit);
    assert_eq!(menu_command(113), Command::KeyboardArea);
    assert_eq!(menu_command(600), Command::Language(false));
    assert_eq!(menu_command(601), Command::Language(true));
    assert_eq!(menu_command(300), Command::Hotkey(0));
    assert_eq!(menu_command(302), Command::Hotkey(2));
    assert_eq!(menu_command(401), Command::Glass(1));
    assert_eq!(menu_command(502), Command::Dim(2));
}

#[test]
fn unknown_menu_ids_do_nothing() {
    for id in [0, 100, 106, 114, 303, 403, 503, 602, usize::MAX] {
        assert_eq!(menu_command(id), Command::Unknown);
    }
}

#[test]
fn escape_clears_a_selection_before_closing() {
    assert_eq!(overlay_key_action(true, 0x1B, true, false), KeyAction::Reset);
    assert_eq!(overlay_key_action(true, 0x1B, false, false), KeyAction::Close);
    assert_eq!(overlay_key_action(false, 0x1B, true, true), KeyAction::Ignore);
}

#[test]
fn overlay_keys_need_focus() {
    assert_eq!(overlay_key_action(true, 0x0D, false, true), KeyAction::Search);
    assert_eq!(overlay_key_action(true, 0x0D, false, false), KeyAction::Ignore);
    for key in [0x25u16, 0x26, 0x27, 0x28] {
        assert_eq!(overlay_key_action(true, key, false, true), KeyAction::Arrow);
    }
    assert_eq!(overlay_key_action(true, 0x52, false, true), KeyAction::Rectangle);
    assert_eq!(overlay_key_action(true, 0x4C, false, true), KeyAction::Lasso);
    assert_eq!(overlay_key_action(true, 0x4B, false, true), KeyAction::KeyboardArea);
    assert_eq!(overlay_key_action(true, 0x4E, true, true), KeyAction::Reset);
    assert_eq!(overlay_key_action(true, 0x41, false, true), KeyAction::Ignore);
}

#[test]
fn completion_ripple_runs_the_search_after_180_ms() {
    assert_eq!(overlay_tick(Some(179), 5000), Tick::Continue);
    assert_eq!(overlay_tick(Some(180), 0), Tick::RunSearch);
    assert_eq!(overlay_tick(None, 139), Tick::Continue);
    assert_eq!(overlay_tick(None, 140), Tick::Stop);
}

#[test]
fn lparam_points_are_signed_sixteen_bit_fields() {
    assert_eq!(point_from_lparam(0x0002_0001), Point { x: 1, y: 2 });
    // x = -1, y = -2, as a secondary monitor left of or above the primary gives them.
    assert_eq!(point_from_lparam(0xFFFE_FFFF_u32 as i32 as isize), Point { x: -1, y: -2 });
    assert_eq!(point_from_lparam(0xFFFE_FFFF), Point { x: -1, y: -2 });
    assert_eq!(point_from_lparam(-1), Point { x: -1, y: -1 });
    assert_eq!(point_from_lparam(0x7FFF_8000), Point { x: -32768, y: 32767 });
}

#[test]
fn pen_and_touch_mouse_messages_are_recognized() {
    assert!(synthesized_mouse(0xFF51_5700));
    assert!(synthesized_mouse(0xFF51_57FF));
    assert!(!synthesized_mouse(0));
    assert!(!synthesized_mouse(0xFF51_5800));
}

#[test]
fn orb_button_takes_clicks_inside_its_circle_only() {
    let window = Rect { left: 100, top: 200, right: 200, bottom: 300 };
    // Centre (150, 250), radius 43.
    assert!(bubble_hit(window, 150, 250));
    assert!(bubble_hit(window, 193, 250));
    assert!(!bubble_hit(window, 194, 250));
    assert!(!bubble_hit(window, 101, 201));
}

#[test]
fn orb_press_becomes_a_drag_after_six_pixels() {
    let start = Point { x: 10, y: 10 };
    assert!(!bubble_dragged(start, Point { x: 13, y: 13 }));
    assert!(bubble_dragged(start, Point { x: 14, y: 13 }));
    assert!(bubble_dragged(start, Point { x: 3, y: 10 }));
}

#[test]
fn presses_on_the_header_do_not_select() {
    let header = Rect { left: 0, top: 0, right: 100, bottom: 50 };
    let close = Rect { left: 80, top: 10, right: 95, bottom: 40 };
    assert_eq!(press_target(Point { x: 85, y: 20 }, header, close), PressTarget::Close);
    assert_eq!(press_target(Point { x: 10, y: 10 }, header, close), PressTarget::Header);
    assert_eq!(press_target(Point { x: 10, y: 60 }, header, close), PressTarget::Canvas);
}

#[test]
fn one_pointer_draws_at_a_time() {
    assert_eq!(pointer_role(Some(1), 2, false, true), PointerRole::Ignore);
    assert_eq!(pointer_role(None, 2, true, false), PointerRole::Cancel);
    assert_eq!(pointer_role(Some(2), 2, true, false), PointerRole::Cancel);
    assert_eq!(pointer_role(None, 3, false, true), PointerRole::Press);
    assert_eq!(pointer_role(Some(3), 3, false, false), PointerRole::Follow);
    assert_eq!(pointer_role(None, 3, false, false), PointerRole::Ignore);
}

#[test]
fn lasso_hides_the_box_once_it_has_a_stroke() {
    assert!(shows_box(false, 10));
    assert!(shows_box(true, 2));
    assert!(!shows_box(true, 3));
}
