use orbom::selection::{
    arrow_adjust, bounds, clamp_point, crop_dib, drag_area, extend_lasso, grab_radius, press, Area,
    Drag, Point, VK_DOWN, VK_LEFT, VK_RIGHT, VK_UP,
};

#[test]
fn reverse_drag_clamps_to_screen() {
    assert_eq!(
        Area::between(Point { x: 120, y: 80 }, Point { x: -20, y: 10 }, 100, 100),
        Area {
            x: 0,
            y: 10,
            w: 100,
            h: 70
        }
    );
}

#[test]
fn lasso_covers_all_points() {
    assert_eq!(
        bounds(
            &[
                Point { x: 10, y: 20 },
                Point { x: 90, y: 40 },
                Point { x: 40, y: 80 }
            ],
            100,
            100
        ),
        Some(Area {
            x: 10,
            y: 20,
            w: 80,
            h: 60
        })
    );
    assert_eq!(bounds(&[], 100, 100), None);
}

#[test]
fn movement_and_resize_stay_inside_frame() {
    let mut a = Area {
        x: 80,
        y: 80,
        w: 20,
        h: 20,
    };
    a.adjust(100, 100, false, 100, 100);
    assert_eq!(a.x, 80);
    a.adjust(-200, -200, true, 100, 100);
    assert_eq!((a.w, a.h), (8, 8));
    a.adjust(-200, -200, false, 100, 100);
    assert_eq!((a.x, a.y), (0, 0));
}

#[test]
fn crop_has_correct_rows_and_orientation() {
    let pixels: Vec<u8> = (0..16 * 16 * 4).map(|i| (i % 251) as u8).collect();
    let dib = crop_dib(
        &pixels,
        16,
        16,
        Area {
            x: 3,
            y: 4,
            w: 8,
            h: 9,
        },
    )
    .unwrap();
    assert_eq!(&dib[8..12], &(-9i32).to_le_bytes());
    assert_eq!(&dib[40..72], &pixels[(4 * 16 + 3) * 4..(4 * 16 + 11) * 4]);
    assert_eq!(dib.len(), 40 + 8 * 9 * 4);
}

#[test]
fn crop_rejects_invalid_bounds_and_buffer() {
    assert!(crop_dib(
        &[],
        16,
        16,
        Area {
            x: 0,
            y: 0,
            w: 8,
            h: 8
        }
    )
    .is_none());
    assert!(crop_dib(
        &vec![0; 1024],
        16,
        16,
        Area {
            x: 12,
            y: 0,
            w: 8,
            h: 8
        }
    )
    .is_none());
    assert!(crop_dib(
        &vec![0; 1024],
        16,
        16,
        Area {
            x: 0,
            y: 0,
            w: 1,
            h: 8
        }
    )
    .is_none());
}

#[test]
fn crop_header_is_a_top_down_32_bit_bitmap() {
    let pixels = vec![7u8; 10 * 10 * 4];
    let dib = crop_dib(&pixels, 10, 10, Area { x: 1, y: 2, w: 8, h: 8 }).unwrap();
    assert_eq!(&dib[0..4], &40u32.to_le_bytes());
    assert_eq!(&dib[4..8], &8i32.to_le_bytes());
    assert_eq!(&dib[12..14], &1u16.to_le_bytes());
    assert_eq!(&dib[14..16], &32u16.to_le_bytes());
    assert_eq!(&dib[16..20], &[0, 0, 0, 0]);
    assert_eq!(&dib[20..24], &(8u32 * 8 * 4).to_le_bytes());
    assert!(dib[24..40].iter().all(|&b| b == 0));
    // Last row of the crop: source row 9, columns 1..9.
    let last = 40 + 7 * 32;
    assert_eq!(&dib[last..last + 32], &pixels[(9 * 10 + 1) * 4..(9 * 10 + 9) * 4]);
}

#[test]
fn crop_rejects_negative_corner_and_wrong_length() {
    let pixels = vec![0u8; 16 * 16 * 4];
    assert!(crop_dib(&pixels, 16, 16, Area { x: -1, y: 0, w: 8, h: 8 }).is_none());
    assert!(crop_dib(&pixels, 16, 16, Area { x: 0, y: 9, w: 8, h: 8 }).is_none());
    assert!(crop_dib(&pixels[..1020], 16, 16, Area { x: 0, y: 0, w: 8, h: 8 }).is_none());
    // The whole frame is a valid crop.
    assert_eq!(
        crop_dib(&pixels, 16, 16, Area { x: 0, y: 0, w: 16, h: 16 }).map(|d| d.len()),
        Some(40 + 16 * 16 * 4)
    );
}

#[test]
fn between_is_the_same_either_way_round() {
    let (a, b) = (Point { x: 5, y: 70 }, Point { x: 60, y: 3 });
    assert_eq!(Area::between(a, b, 50, 50), Area::between(b, a, 50, 50));
    assert_eq!(Area::between(a, b, 50, 50), Area { x: 5, y: 3, w: 45, h: 47 });
}

#[test]
fn valid_needs_eight_pixels_each_way() {
    assert!(Area { x: 0, y: 0, w: 8, h: 8 }.valid());
    assert!(!Area { x: 0, y: 0, w: 7, h: 100 }.valid());
    assert!(!Area { x: 0, y: 0, w: 100, h: 7 }.valid());
}

#[test]
fn contains_excludes_right_and_bottom_edges() {
    let a = Area { x: 10, y: 10, w: 5, h: 5 };
    assert!(a.contains(Point { x: 10, y: 10 }));
    assert!(a.contains(Point { x: 14, y: 14 }));
    assert!(!a.contains(Point { x: 15, y: 12 }));
    assert!(!a.contains(Point { x: 12, y: 15 }));
    assert!(!a.contains(Point { x: 9, y: 12 }));
}

#[test]
fn bounds_of_a_stroke_outside_the_frame_is_clamped() {
    assert_eq!(
        bounds(&[Point { x: -30, y: 50 }, Point { x: 250, y: 60 }], 200, 100),
        Some(Area { x: 0, y: 50, w: 200, h: 10 })
    );
    assert_eq!(
        bounds(&[Point { x: 30, y: 40 }], 200, 100),
        Some(Area { x: 30, y: 40, w: 0, h: 0 })
    );
}

#[test]
fn press_picks_corner_then_inside_then_new_stroke() {
    let a = Area { x: 100, y: 100, w: 50, h: 40 };
    assert_eq!(press(Some(a), Point { x: 151, y: 139 }, 12), Drag::Resize(Point { x: 151, y: 139 }, a, true, true));
    assert_eq!(press(Some(a), Point { x: 95, y: 105 }, 12), Drag::Resize(Point { x: 95, y: 105 }, a, false, false));
    assert_eq!(press(Some(a), Point { x: 125, y: 120 }, 12), Drag::Move(Point { x: 125, y: 120 }, a));
    assert_eq!(press(Some(a), Point { x: 10, y: 10 }, 12), Drag::Draw(Point { x: 10, y: 10 }));
    assert_eq!(press(None, Point { x: 125, y: 120 }, 12), Drag::Draw(Point { x: 125, y: 120 }));
    // A tiny area: every corner is in reach, and the bottom-right one wins.
    let tiny = Area { x: 0, y: 0, w: 2, h: 2 };
    assert_eq!(press(Some(tiny), Point { x: 1, y: 1 }, 12), Drag::Resize(Point { x: 1, y: 1 }, tiny, true, true));
}

#[test]
fn grab_radius_is_larger_for_touch_and_scales_with_dpi() {
    assert_eq!(grab_radius(false, 96), 12);
    assert_eq!(grab_radius(true, 96), 28);
    assert_eq!(grab_radius(true, 144), 42);
    assert_eq!(grab_radius(false, 120), 15);
}

#[test]
fn drags_move_resize_and_draw_inside_the_frame() {
    let a = Area { x: 10, y: 10, w: 20, h: 20 };
    assert_eq!(clamp_point(Point { x: -5, y: 500 }, 100, 100), Point { x: 0, y: 100 });
    assert_eq!(
        drag_area(Drag::Move(Point { x: 15, y: 15 }, a), Point { x: 500, y: 25 }, 100, 100),
        Area { x: 80, y: 20, w: 20, h: 20 }
    );
    // Dragging the bottom-right corner past the top-left one flips the area around the anchor.
    assert_eq!(
        drag_area(Drag::Resize(Point { x: 30, y: 30 }, a, true, true), Point { x: 0, y: 0 }, 100, 100),
        Area { x: 0, y: 0, w: 10, h: 10 }
    );
    assert_eq!(
        drag_area(Drag::Resize(Point { x: 10, y: 10 }, a, false, false), Point { x: 5, y: 20 }, 100, 100),
        Area { x: 5, y: 20, w: 25, h: 10 }
    );
    assert_eq!(
        drag_area(Drag::Draw(Point { x: 90, y: 90 }), Point { x: 120, y: 40 }, 100, 100),
        Area { x: 90, y: 40, w: 10, h: 50 }
    );
}

#[test]
fn lasso_skips_points_closer_than_two_pixels() {
    let mut path = Vec::new();
    assert_eq!(extend_lasso(&mut path, Point { x: 10, y: 10 }, 100, 100), Some(Area { x: 10, y: 10, w: 0, h: 0 }));
    extend_lasso(&mut path, Point { x: 11, y: 10 }, 100, 100);
    assert_eq!(path.len(), 1);
    let area = extend_lasso(&mut path, Point { x: 11, y: 11 }, 100, 100);
    assert_eq!(path.len(), 2);
    assert_eq!(area, Some(Area { x: 10, y: 10, w: 1, h: 1 }));
}

#[test]
fn arrow_keys_move_and_resize_by_one_or_ten() {
    let mut a = Area { x: 50, y: 50, w: 20, h: 20 };
    arrow_adjust(&mut a, VK_LEFT, false, false, 100, 100);
    assert_eq!((a.x, a.y), (49, 50));
    arrow_adjust(&mut a, VK_DOWN, true, false, 100, 100);
    assert_eq!((a.x, a.y), (49, 60));
    arrow_adjust(&mut a, VK_RIGHT, true, true, 100, 100);
    assert_eq!((a.w, a.h), (30, 20));
    arrow_adjust(&mut a, VK_UP, true, true, 100, 100);
    assert_eq!((a.w, a.h), (30, 10));
    arrow_adjust(&mut a, VK_UP, true, true, 100, 100);
    assert_eq!((a.w, a.h), (30, 8));
    arrow_adjust(&mut a, 0x41, true, false, 100, 100);
    assert_eq!(a, Area { x: 49, y: 60, w: 30, h: 8 });
}

#[test]
fn cropping_a_crop_is_one_crop() {
    let (width, height) = (20, 16);
    let pixels: Vec<u8> = (0..width * height * 4).map(|i| (i * 7 % 251) as u8).collect();
    let a = Area { x: 3, y: 2, w: 14, h: 12 };
    let outer = crop_dib(&pixels, width, height, a).unwrap();
    let b = Area { x: 4, y: 1, w: 9, h: 10 };
    let twice = crop_dib(&outer[40..], a.w, a.h, b).unwrap();
    let once = crop_dib(&pixels, width, height, Area { x: 7, y: 3, w: 9, h: 10 }).unwrap();
    assert_eq!(twice, once);
}

#[test]
fn lasso_box_ignores_order_and_repeats() {
    let stroke = [
        Point { x: 10, y: 20 },
        Point { x: 90, y: 40 },
        Point { x: 50, y: 80 },
        Point { x: 30, y: 5 },
    ];
    let shuffled = [stroke[2], stroke[0], stroke[3], stroke[0], stroke[1], stroke[2]];
    let a = bounds(&stroke, 100, 100).unwrap();
    assert_eq!(bounds(&shuffled, 100, 100), Some(a));
    // Each edge passes through a point of the stroke.
    assert_eq!(a, Area { x: 10, y: 5, w: 80, h: 75 });
}
