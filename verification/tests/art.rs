use orbom::art::{icon_dib, icon_factor, icon_pixels, icon_res, ICON_SIZES};

/// A premultiplied test image: opaque white disc-ish square in the middle, clear corners.
fn premultiplied(side: usize) -> Vec<u8> {
    let mut pixels = vec![0u8; side * side * 4];
    for y in side / 4..side * 3 / 4 {
        for x in side / 4..side * 3 / 4 {
            let i = (y * side + x) * 4;
            pixels[i..i + 4].copy_from_slice(&[40, 80, 120, 255]);
        }
    }
    pixels
}

#[test]
fn icon_factor_supersamples_small_icons_up_to_four_times() {
    assert_eq!(icon_factor(16), 4);
    assert_eq!(icon_factor(32), 4);
    assert_eq!(icon_factor(48), 2);
    assert_eq!(icon_factor(64), 2);
    assert_eq!(icon_factor(256), 1);
    assert_eq!(icon_factor(200), 1);
}

#[test]
fn icon_pixels_average_blocks_and_unpremultiply() {
    // 2 x 2 icon from a 4 x 4 source would need factor 2; use size 64 with factor 2 instead.
    let size = 64;
    let f = icon_factor(size);
    let big = premultiplied(size * f);
    let icon = icon_pixels(&big, size);
    assert_eq!(icon.len(), size * size * 4);
    // Corners are clear and carry no color.
    assert_eq!(&icon[0..4], &[0, 0, 0, 0]);
    // The middle is opaque with the source color.
    let mid = (32 * size + 32) * 4;
    assert_eq!(&icon[mid..mid + 4], &[40, 80, 120, 255]);
}

#[test]
fn icon_pixels_turn_half_covered_blocks_back_to_straight_alpha() {
    // size 64, factor 2: a block with two premultiplied half-coverage pixels and two clear ones.
    let size = 64;
    let side = size * 2;
    let mut big = vec![0u8; side * side * 4];
    for (x, y) in [(0usize, 0usize), (1, 0)] {
        let i = (y * side + x) * 4;
        big[i..i + 4].copy_from_slice(&[50, 100, 60, 200]);
    }
    let icon = icon_pixels(&big, size);
    // sums: 100, 200, 120, 400 over n = 4: alpha 100; channel = sum / 4 * 255 / 100.
    assert_eq!(&icon[0..4], &[63, 127, 76, 100]);
}

#[test]
fn icon_dib_flips_rows_and_masks_clear_pixels() {
    let size = 16;
    let mut pixels = vec![0u8; size * size * 4];
    // Row 0 opaque red, every other row clear; pixel (3, 5) opaque.
    for x in 0..size {
        pixels[x * 4..x * 4 + 4].copy_from_slice(&[0, 0, 255, 255]);
    }
    let i = (5 * size + 3) * 4;
    pixels[i..i + 4].copy_from_slice(&[1, 2, 3, 255]);
    let dib = icon_dib(&pixels, size);
    let mask_row = 4;
    assert_eq!(dib.len(), 40 + size * size * 4 + mask_row * size);
    assert_eq!(&dib[0..4], &40u32.to_le_bytes());
    assert_eq!(&dib[4..8], &16u32.to_le_bytes());
    assert_eq!(&dib[8..12], &32u32.to_le_bytes());
    assert_eq!(&dib[12..16], &[1, 0, 32, 0]);
    assert!(dib[16..40].iter().all(|&b| b == 0));
    // Bottom-up: the last stored row is image row 0.
    let last_row = 40 + (size - 1) * size * 4;
    assert_eq!(&dib[last_row..last_row + 4], &[0, 0, 255, 255]);
    // Image row 5 is stored as row 10.
    let row5 = 40 + 10 * size * 4;
    assert_eq!(&dib[row5 + 12..row5 + 16], &[1, 2, 3, 255]);
    let mask = 40 + size * size * 4;
    // Mask row for image row 0 (stored last) is all clear bits: the row is opaque.
    assert_eq!(&dib[mask + 15 * mask_row..mask + 16 * mask_row], &[0, 0, 0, 0]);
    // Image row 5: every pixel transparent except x = 3; padding bits stay zero.
    assert_eq!(&dib[mask + 10 * mask_row..mask + 11 * mask_row], &[0xEF, 0xFF, 0, 0]);
    // A fully clear row.
    assert_eq!(&dib[mask..mask + mask_row], &[0xFF, 0xFF, 0, 0]);
}

#[test]
fn icon_resource_entries_are_aligned_and_grouped() {
    let images: Vec<Vec<u8>> = ICON_SIZES
        .iter()
        .map(|&size| icon_dib(&vec![0u8; size * size * 4], size))
        .collect();
    let res = icon_res(&images);
    assert_eq!(res.len() % 4, 0);
    let mut at = 0;
    let mut kinds = Vec::new();
    let mut ids = Vec::new();
    while at < res.len() {
        let size = u32::from_le_bytes(res[at..at + 4].try_into().unwrap()) as usize;
        assert_eq!(u32::from_le_bytes(res[at + 4..at + 8].try_into().unwrap()), 32);
        kinds.push(u16::from_le_bytes(res[at + 10..at + 12].try_into().unwrap()));
        ids.push(u16::from_le_bytes(res[at + 14..at + 16].try_into().unwrap()));
        at += (32 + size).div_ceil(4) * 4;
    }
    assert_eq!(at, res.len());
    assert_eq!(kinds.iter().filter(|&&k| k == 3).count(), ICON_SIZES.len());
    assert_eq!(kinds.first(), Some(&0));
    assert_eq!(kinds.last(), Some(&14));
    assert_eq!(&ids[1..9], &[1, 2, 3, 4, 5, 6, 7, 8]);
    // The group directory: reserved 0, type 1, 8 images, then 14-byte entries.
    let group_at = res.len() - (32 + 6 + 14 * 8 + 2);
    let group = &res[group_at + 32..];
    assert_eq!(&group[0..6], &[0, 0, 1, 0, 8, 0]);
    let last = &group[6 + 14 * 7..6 + 14 * 8];
    assert_eq!(&last[0..4], &[0, 0, 0, 0]);
    assert_eq!(u32::from_le_bytes(last[8..12].try_into().unwrap()) as usize, images[7].len());
    assert_eq!(u16::from_le_bytes(last[12..14].try_into().unwrap()), 8);
    assert_eq!(&group[6..10], &[16, 16, 0, 0]);
}
