use orbom::search::{
    dib_rgb, google_origin, opens_in_browser, page_event, png_from_dib, upload_image, upload_script, user_agent, wipe,
    PageEvent, UPLOAD_HEAD, UPLOAD_TAIL,
};
use orbom::selection::{crop_dib, Area};

/// Scheme and host of an absolute URL, the parts the origin check reads.
fn origin_parts(url: &str) -> (Option<&str>, Option<&str>) {
    match url.split_once("://") {
        Some((scheme, rest)) => {
            let end = rest.find(['/', '?', '#']).unwrap_or(rest.len());
            (Some(scheme), Some(&rest[..end]))
        }
        None => (None, None),
    }
}

fn is_google(url: &str) -> bool {
    let (scheme, host) = origin_parts(url);
    google_origin(scheme, host)
}

#[test]
fn png_preserves_crop_colors() {
    let pixels = [19, 40, 230, 0].repeat(64);
    let dib = crop_dib(
        &pixels,
        8,
        8,
        Area {
            x: 0,
            y: 0,
            w: 8,
            h: 8,
        },
    )
    .unwrap();
    let png = png_from_dib(&dib, false).unwrap();
    let decoder = png::Decoder::new(std::io::Cursor::new(png));
    let mut reader = decoder.read_info().unwrap();
    let mut output = vec![0; reader.output_buffer_size().unwrap()];
    let info = reader.next_frame(&mut output).unwrap();
    assert_eq!((info.width, info.height), (8, 8));
    assert_eq!(&output[..3], &[230, 40, 19]);
}

#[test]
fn upload_only_targets_exact_google_https_origins() {
    for value in ["https://www.google.com/?olud", "https://lens.google.com/"] {
        assert!(is_google(value));
    }
    for value in [
        "http://www.google.com/",
        "https://www.google.com.evil.test/",
        "https://example.com/",
        "https://accounts.google.com/",
    ] {
        assert!(!is_google(value));
    }
}

#[test]
fn origin_check_needs_both_parts() {
    assert!(google_origin(Some("https"), Some("google.com")));
    assert!(!google_origin(None, Some("google.com")));
    assert!(!google_origin(Some("https"), None));
    assert!(!google_origin(Some("HTTPS"), Some("google.com")));
}

#[test]
fn dib_errors_name_the_problem_in_the_ui_language() {
    assert_eq!(png_from_dib(&[0; 39], true), Err("The selected image is empty.".to_string()));
    assert_eq!(png_from_dib(&[], false), Err("선택 이미지가 비어 있습니다.".to_string()));
    let mut dib = vec![0u8; 40 + 4];
    dib[4..8].copy_from_slice(&1i32.to_le_bytes());
    dib[8..12].copy_from_slice(&(-2i32).to_le_bytes());
    assert_eq!(png_from_dib(&dib, true), Err("The selected image size is invalid.".to_string()));
    assert_eq!(png_from_dib(&dib, false), Err("선택 이미지 크기가 잘못되었습니다.".to_string()));
    // A bottom-up (positive height) DIB is refused too.
    dib[8..12].copy_from_slice(&1i32.to_le_bytes());
    assert!(png_from_dib(&dib, true).is_err());
    dib[8..12].copy_from_slice(&(-1i32).to_le_bytes());
    assert!(png_from_dib(&dib, true).is_ok());
}

#[test]
fn dib_rgb_drops_alpha_and_swaps_to_rgb() {
    let mut dib = vec![0u8; 40];
    dib[4..8].copy_from_slice(&2i32.to_le_bytes());
    dib[8..12].copy_from_slice(&(-1i32).to_le_bytes());
    dib.extend_from_slice(&[1, 2, 3, 4, 5, 6, 7, 8]);
    assert_eq!(dib_rgb(&dib, true), Ok((2, 1, vec![3, 2, 1, 7, 6, 5])));
}

#[test]
fn png_is_a_png_of_the_right_size() {
    let pixels = vec![200u8; 12 * 10 * 4];
    let dib = crop_dib(&pixels, 12, 10, Area { x: 2, y: 1, w: 9, h: 8 }).unwrap();
    let png = png_from_dib(&dib, true).unwrap();
    assert_eq!(&png[..8], &[0x89, b'P', b'N', b'G', 0x0D, 0x0A, 0x1A, 0x0A]);
    assert_eq!(&png[png.len() - 8..png.len() - 4], b"IEND");
    assert_eq!(&png[16..24], &[0, 0, 0, 9, 0, 0, 0, 8]);
}

#[test]
fn upload_image_is_base64_and_wipes_the_png() {
    let mut png = b"hello".to_vec();
    assert_eq!(upload_image(&mut png), "aGVsbG8=");
    assert_eq!(png, vec![0; 5]);
    let mut png = vec![0xFF, 0xEF, 0x00, 0x3E];
    assert_eq!(upload_image(&mut png), "/+8APg==");
    let mut empty = Vec::new();
    assert_eq!(upload_image(&mut empty), "");
    let mut three = b"Man".to_vec();
    assert_eq!(upload_image(&mut three), "TWFu");
}

#[test]
fn wipe_zeroes_every_byte() {
    let mut bytes = vec![1u8, 2, 3, 255];
    wipe(&mut bytes);
    assert_eq!(bytes, vec![0; 4]);
}

#[test]
fn upload_script_embeds_the_image_once() {
    let script = upload_script("QUJD");
    assert_eq!(script, format!("{UPLOAD_HEAD}QUJD{UPLOAD_TAIL}"));
    assert!(script.contains("atob('QUJD')"));
    assert!(script.starts_with("(() => {"));
    assert!(script.ends_with("})();"));
    assert!(script.contains("input[type=\"file\"][name=\"encoded_image\"]"));
}

#[test]
fn mobile_user_agent_names_the_webview_version() {
    assert_eq!(user_agent(false, "140.0.0.0"), "");
    assert_eq!(
        user_agent(true, "140.0.0.0"),
        "Mozilla/5.0 (Linux; Android 10; K) AppleWebKit/537.36 (KHTML, like Gecko) Chrome/140.0.0.0 Mobile Safari/537.36"
    );
}

#[test]
fn page_messages_map_to_events() {
    assert_eq!(page_event("orbom:ready"), Some(PageEvent::Ready));
    assert_eq!(page_event("orbom:submitted"), Some(PageEvent::Submitted));
    assert_eq!(page_event("orbom:failed"), Some(PageEvent::Failed));
    assert_eq!(page_event("orbom:result-page"), Some(PageEvent::ResultPage));
    assert_eq!(page_event("orbom:ready "), None);
    assert_eq!(page_event("hello"), None);
}

#[test]
fn only_web_addresses_open_in_the_browser() {
    assert!(opens_in_browser("https://www.google.com/search?q=orb"));
    assert!(opens_in_browser("http://example.com/"));
    assert!(!opens_in_browser("javascript:alert(1)"));
    assert!(!opens_in_browser("file:///C:/Windows"));
    assert!(!opens_in_browser("http:/"));
    assert!(!opens_in_browser(""));
}

#[test]
fn every_well_formed_crop_encodes() {
    for (w, h) in [(8, 8), (1, 1), (13, 3)] {
        let pixels = vec![7u8; (w * h * 4) as usize];
        let dib = crop_dib(&pixels, w, h, Area { x: 0, y: 0, w, h });
        if let Some(dib) = dib {
            assert!(png_from_dib(&dib, true).is_ok());
        } else {
            assert!(w < 8 || h < 8);
        }
    }
}
