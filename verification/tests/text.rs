use orbom::i18n::{init, system_prefers_english, t};
use orbom::settings::{flag_enabled, parse_choice};
use orbom::text::{has_prefix, same_text, trim_bounds, trimmed_is, wide};

#[test]
fn t_picks_the_ui_language() {
    assert_eq!(t(true, "취소", "Cancel"), "Cancel");
    assert_eq!(t(false, "취소", "Cancel"), "취소");
}

#[test]
fn korean_display_language_means_korean_ui() {
    assert!(!system_prefers_english(0x0412)); // ko-KR
    assert!(system_prefers_english(0x0409)); // en-US
    assert!(system_prefers_english(0x0411)); // ja-JP
    assert!(!system_prefers_english(0x0012 | 0x0400 * 5));
}

#[test]
fn saved_language_wins_over_the_system() {
    assert!(init(Some("en"), 0x0412));
    assert!(init(Some("  en\r\n"), 0x0412));
    assert!(!init(Some("ko"), 0x0409));
    assert!(!init(Some("\tko "), 0x0409));
    assert!(init(Some("fr"), 0x0409));
    assert!(!init(Some("EN"), 0x0412));
    assert!(init(None, 0x0409));
    assert!(!init(None, 0x0412));
}

#[test]
fn trimming_follows_unicode_white_space() {
    let s = "\u{3000}\u{a0} ab c\u{2028}\n";
    let (from, to) = trim_bounds(s);
    let chars: Vec<char> = s.chars().collect();
    assert_eq!(chars[from..to].iter().collect::<String>(), s.trim());
    assert!(trimmed_is(" x ", "x"));
    assert!(trimmed_is("   ", ""));
    assert!(!trimmed_is("x y", "xy"));
    assert!(same_text("한국어", "한국어"));
    assert!(!same_text("abc", "abd"));
    assert!(!same_text("abc", "ab"));
}

#[test]
fn wide_is_nul_terminated_utf16() {
    assert_eq!(wide("Orbom"), "Orbom".encode_utf16().chain(Some(0)).collect::<Vec<u16>>());
    assert_eq!(wide(""), vec![0]);
    assert_eq!(wide("검색🔍"), "검색🔍".encode_utf16().chain(Some(0)).collect::<Vec<u16>>());
    assert_eq!(wide("🔍"), vec![0xD83D, 0xDD0D, 0]);
}

#[test]
fn saved_choices_fall_back_to_the_default() {
    assert_eq!(parse_choice(Some("2"), 3, 1), 2);
    assert_eq!(parse_choice(Some(" 0\n"), 3, 1), 0);
    assert_eq!(parse_choice(Some("+2"), 3, 1), 2);
    assert_eq!(parse_choice(Some("3"), 3, 1), 1);
    assert_eq!(parse_choice(Some("-1"), 3, 1), 1);
    assert_eq!(parse_choice(Some(""), 3, 1), 1);
    assert_eq!(parse_choice(Some("+"), 3, 1), 1);
    assert_eq!(parse_choice(Some("1 2"), 3, 1), 1);
    assert_eq!(parse_choice(Some("99999999999999999999999999"), 3, 1), 1);
    assert_eq!(parse_choice(Some("00002"), 3, 0), 2);
    assert_eq!(parse_choice(None, 2, 1), 1);
}

#[test]
fn flags_are_on_unless_saved_as_zero() {
    assert!(flag_enabled(None));
    assert!(flag_enabled(Some("1")));
    assert!(!flag_enabled(Some("0")));
    assert!(!flag_enabled(Some(" 0\n")));
    assert!(flag_enabled(Some("00")));
}

#[test]
fn prefixes_match_whole_characters() {
    assert!(has_prefix("https://lens.google.com/", "https://"));
    assert!(has_prefix("abc", ""));
    assert!(has_prefix("검색창", "검색"));
    assert!(!has_prefix("ab", "abc"));
    assert!(!has_prefix("xhttps://", "https://"));
}
