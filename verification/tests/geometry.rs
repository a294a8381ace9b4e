use orbom::capture::{capture_fits, dim_pixels};
use orbom::geometry::{
    bubble_window, caption_button, caption_hit, corner_handles, header_text, inside,
    keyboard_area, lens_source, magnifier_rect, orb_rect, overlay_header, selection_dirty,
    union_rect, Rect,
};
use orbom::selection::{Area, Point};

fn rect(left: i32, top: i32, right: i32, bottom: i32) -> Rect {
    Rect { left, top, right, bottom }
}

#[test]
fn magnifier_floats_above_the_finger_inside_the_screen() {
    assert_eq!(magnifier_rect(Point { x: 500, y: 500 }, 1920), rect(428, 308, 572, 452));
    assert_eq!(magnifier_rect(Point { x: 10, y: 10 }, 1920), rect(0, 0, 144, 144));
    assert_eq!(magnifier_rect(Point { x: 1915, y: 300 }, 1920), rect(1776, 108, 1920, 252));
    assert_eq!(magnifier_rect(Point { x: 50, y: 300 }, 100), rect(0, 108, 144, 252));
}

#[test]
fn dirty_region_covers_the_glow_and_the_magnifier() {
    let area = Some(Area { x: 100, y: 100, w: 50, h: 50 });
    assert_eq!(selection_dirty(area, Point { x: 0, y: 0 }, false, 1920), rect(36, 36, 214, 214));
    assert_eq!(selection_dirty(None, Point { x: 300, y: 300 }, false, 1920), rect(236, 236, 364, 364));
    assert_eq!(
        selection_dirty(None, Point { x: 300, y: 400 }, true, 1920),
        rect(226, 206, 374, 464)
    );
}

#[test]
fn union_and_inside_follow_rect_edges() {
    assert_eq!(union_rect(rect(0, 5, 10, 20), rect(-3, 8, 4, 30)), rect(-3, 5, 10, 30));
    let r = rect(0, 0, 10, 10);
    assert!(inside(Point { x: 0, y: 9 }, r));
    assert!(!inside(Point { x: 10, y: 5 }, r));
}

#[test]
fn overlay_header_is_centered_near_the_top_of_the_work_area() {
    let monitor = rect(0, 0, 1920, 1040);
    let (header, close) = overlay_header(monitor, Point { x: 0, y: 0 }, 96);
    assert_eq!(header, rect(765, 24, 1155, 96));
    assert_eq!(close, rect(1101, 36, 1143, 84));
    // A second monitor left of the first, captured from a virtual-screen origin of -1280.
    let (header, _) = overlay_header(rect(-1280, 0, 0, 1024), Point { x: -1280, y: 0 }, 144);
    assert_eq!(header, rect(347, 36, 932, 144));
    // A narrow work area keeps 24 pixels of margin.
    let (header, _) = overlay_header(rect(0, 0, 300, 600), Point { x: 0, y: 0 }, 96);
    assert_eq!(header, rect(12, 24, 288, 96));
}

#[test]
fn keyboard_selection_starts_in_the_upper_middle() {
    assert_eq!(
        keyboard_area(rect(0, 0, 1920, 1040), Point { x: 0, y: 0 }),
        Area { x: 800, y: 273, w: 320, h: 220 }
    );
    assert_eq!(
        keyboard_area(rect(100, 50, 300, 150), Point { x: 0, y: 0 }),
        Area { x: 100, y: 50, w: 200, h: 100 }
    );
}

#[test]
fn panel_orb_and_caption_layout() {
    assert_eq!(orb_rect(440, 1000, 96, true), rect(12, 44, 80, 112));
    assert_eq!(orb_rect(440, 1000, 96, false), rect(110, 334, 330, 554));
    assert_eq!(orb_rect(100, 200, 96, false), rect(16, 56, 84, 124));
    assert_eq!(caption_button(440, 96, 2), rect(408, 4, 436, 32));
    assert_eq!(caption_button(440, 96, 0), rect(352, 4, 380, 32));
    assert_eq!(caption_hit(440, 96, 420, 10), Some(2));
    assert_eq!(caption_hit(440, 96, 360, 31), Some(0));
    assert_eq!(caption_hit(440, 96, 200, 10), None);
}

#[test]
fn dimming_keeps_the_chosen_brightness() {
    let original = [0u8, 100, 255, 77];
    assert_eq!(dim_pixels(&original, 100), original.to_vec());
    assert_eq!(dim_pixels(&original, 48), vec![0, 48, 122, 36]);
    assert_eq!(dim_pixels(&original, 78), vec![0, 78, 198, 60]);
    assert_eq!(dim_pixels(&[255], 200), vec![254]);
}

#[test]
fn capture_size_is_limited() {
    assert!(capture_fits(1920, 1080));
    assert!(capture_fits(20000, 7500));
    assert!(!capture_fits(20000, 7501));
    assert!(!capture_fits(0, 100));
    assert!(!capture_fits(-5, -5));
}

#[test]
fn orb_button_starts_near_the_top_right() {
    let work = rect(0, 0, 1920, 1040);
    assert_eq!(bubble_window(work, 96), rect(1812, 160, 1896, 244));
    assert_eq!(bubble_window(work, 144), rect(1770, 160, 1896, 286));
}

#[test]
fn corner_handles_sit_on_the_corners() {
    let a = Area { x: 10, y: 20, w: 100, h: 50 };
    assert_eq!(
        corner_handles(a, 96),
        vec![rect(3, 13, 17, 27), rect(3, 63, 17, 77), rect(103, 13, 117, 27), rect(103, 63, 117, 77)]
    );
    assert_eq!(corner_handles(a, 48)[0], rect(4, 14, 16, 26));
}

#[test]
fn magnifier_source_stays_inside_the_capture() {
    assert_eq!(lens_source(Point { x: 10, y: 500 }, 1920, 1080), Point { x: 0, y: 476 });
    assert_eq!(lens_source(Point { x: 1915, y: 1075 }, 1920, 1080), Point { x: 1872, y: 1032 });
    assert_eq!(lens_source(Point { x: 20, y: 20 }, 30, 30), Point { x: 0, y: 0 });
}

#[test]
fn header_text_stands_left_of_the_close_button() {
    let (title, body, cross) = header_text(rect(765, 24, 1155, 96), rect(1101, 36, 1143, 84), 96);
    assert_eq!(title, rect(785, 34, 1095, 55));
    assert_eq!(body, rect(785, 57, 1095, 87));
    assert_eq!(cross, (1122, 60, 6));
}
