//! Korean/English UI strings: every user-facing string is written as a Korean and an English
//! pair, and the UI language picks one of them.

use crate::text::{trim, trimmed_is};
use vstd::prelude::*;

verus! {

/// Picks the string for the UI language: `en` when `english`, else `ko`.
pub fn t(english: bool, ko: &'static str, en: &'static str) -> (r: &'static str)
    ensures
        r@ == (if english { en@ } else { ko@ }),
{
    if english {
        en
    } else {
        ko
    }
}

/// Windows' primary language id for Korean.
pub const LANG_KOREAN: u16 = 0x12;

/// The primary language of a Windows LANGID: its low 10 bits.
pub open spec fn primary_language(language: u16) -> int {
    language as int % 1024
}

/// English unless `language`, the user's Windows display language id, is Korean.
pub fn system_prefers_english(language: u16) -> (r: bool)
    ensures
        r == (primary_language(language) != LANG_KOREAN),
{
    assert(language & 0x3ff == language % 1024) by (bit_vector);
    language & 0x3ff != LANG_KOREAN
}

/// The UI language to start with: a saved choice ("ko" or "en", surrounding white space
/// ignored) wins; otherwise English unless `system_language` is Korean.
pub fn init(saved: Option<&str>, system_language: u16) -> (english: bool)
    ensures
        english == (match saved {
            Some(s) => if trim(s@) == "en"@ {
                true
            } else if trim(s@) == "ko"@ {
                false
            } else {
                primary_language(system_language) != LANG_KOREAN
            },
            None => primary_language(system_language) != LANG_KOREAN,
        }),
{
    match saved {
        Some(s) => {
            if trimmed_is(s, "en") {
                true
            } else if trimmed_is(s, "ko") {
                false
            } else {
                system_prefers_english(system_language)
            }
        },
        None => system_prefers_english(system_language),
    }
}

} // verus!
