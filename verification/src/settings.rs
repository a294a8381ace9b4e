//! Saved tray-menu choices: each lives in a small text file holding a number or a flag.

use crate::text::{trim, trimmed_is};
use vstd::prelude::*;

verus! {

pub open spec fn is_digit(c: char) -> bool {
    '0' <= c && c <= '9'
}

pub open spec fn all_digits(s: Seq<char>) -> bool {
    forall|i: int| 0 <= i < s.len() ==> is_digit(#[trigger] s[i])
}

/// The decimal value of a run of ASCII digits.
pub open spec fn digits_value(s: Seq<char>) -> nat
    decreases s.len(),
{
    if s.len() == 0 {
        0
    } else {
        digits_value(s.drop_last()) * 10 + (s.last() as nat - '0' as nat) as nat
    }
}

/// What `usize::from_str` accepts: an optional `+`, then one or more digits whose value fits.
pub open spec fn parse_usize_spec(s: Seq<char>) -> Option<nat> {
    let body = if s.len() > 0 && s[0] == '+' {
        s.drop_first()
    } else {
        s
    };
    if body.len() > 0 && all_digits(body) && digits_value(body) <= usize::MAX {
        Some(digits_value(body))
    } else {
        None
    }
}

/// The saved choice: the file's trimmed text as a number below `count`, else `default`
/// (also when there is no file).
pub open spec fn choice_spec(text: Option<Seq<char>>, count: int, default: int) -> int {
    match text {
        Some(t) => match parse_usize_spec(trim(t)) {
            Some(v) => if v < count {
                v as int
            } else {
                default
            },
            None => default,
        },
        None => default,
    }
}

/// A longer run of digits is worth at least as much as its prefix.
proof fn lemma_digits_prefix(s: Seq<char>, i: int)
    requires
        all_digits(s),
        0 <= i <= s.len(),
    ensures
        digits_value(s.take(i)) <= digits_value(s),
    decreases s.len() - i,
{
    if i < s.len() {
        lemma_digits_prefix(s, i + 1);
        assert(s.take(i + 1).drop_last() =~= s.take(i));
    } else {
        assert(s.take(i) =~= s);
    }
}

/// The value of `s` as `usize::from_str` reads it.
fn parse_usize(s: &str, from: usize, to: usize) -> (r: Option<usize>)
    requires
        from <= to <= s@.len(),
    ensures
        r matches Some(v) ==> parse_usize_spec(s@.subrange(from as int, to as int)) == Some(
            v as nat,
        ),
        r is None ==> parse_usize_spec(s@.subrange(from as int, to as int)) is None,
{
    let ghost t = s@.subrange(from as int, to as int);
    let start = if from < to && s.get_char(from) == '+' { from + 1 } else { from };
    let ghost body = s@.subrange(start as int, to as int);
    assert(body =~= (if t.len() > 0 && t[0] == '+' { t.drop_first() } else { t }));
    if start == to {
        return None;
    }
    let mut value: usize = 0;
    let mut i = start;
    while i < to
        invariant
            from <= start < to <= s@.len(),
            start <= i <= to,
            body == s@.subrange(start as int, to as int),
            t == s@.subrange(from as int, to as int),
            body == (if t.len() > 0 && t[0] == '+' { t.drop_first() } else { t }),
            all_digits(body.take(i - start)),
            value == digits_value(body.take(i - start)),
        decreases to - i,
    {
        let c = s.get_char(i);
        assert(body.take(i + 1 - start).drop_last() =~= body.take(i - start));
        assert(body[i - start] == c);
        if c < '0' || c > '9' {
            assert(!is_digit(body[i - start]));
            return None;
        }
        let d = (c as u32 - '0' as u32) as usize;
        if value > (usize::MAX - d) / 10 {
            proof {
                assert(body.take(i + 1 - start).last() == c);
                assert(all_digits(body.take(i + 1 - start)));
                assert(digits_value(body.take(i + 1 - start)) == value * 10 + d);
                assert(value * 10 + d > usize::MAX) by (nonlinear_arith)
                    requires
                        value > (usize::MAX - d) / 10,
                        0 <= d <= 9,
                ;
                if all_digits(body) {
                    lemma_digits_prefix(body, i + 1 - start);
                }
            }
            return None;
        }
        assert(value * 10 + d <= usize::MAX) by (nonlinear_arith)
            requires
                value <= (usize::MAX - d) / 10,
                0 <= d <= 9,
        ;
        value = value * 10 + d;
        i += 1;
    }
    assert(body.take(to - start) =~= body);
    Some(value)
}

/// A saved choice among `count` options: the file's text `text` (`None` when there is no
/// file), trimmed and read as a number, or `default` when it is missing or out of range.
pub fn parse_choice(text: Option<&str>, count: usize, default: usize) -> (r: usize)
    ensures
        r == choice_spec(
            match text {
                Some(t) => Some(t@),
                None => None,
            },
            count as int,
            default as int,
        ),
{
    match text {
        Some(t) => {
            let (from, to) = crate::text::trim_bounds(t);
            match parse_usize(t, from, to) {
                Some(v) => if v < count {
                    v
                } else {
                    default
                },
                None => default,
            }
        },
        None => default,
    }
}

/// An on/off setting that is on unless its file says "0" (surrounding white space ignored).
pub fn flag_enabled(text: Option<&str>) -> (on: bool)
    ensures
        on == (match text {
            Some(t) => trim(t@) != "0"@,
            None => true,
        }),
{
    match text {
        Some(t) => !trimmed_is(t, "0"),
        None => true,
    }
}

/// A saved choice is always one of the options when the default is.
pub proof fn law_choice_in_range(text: Option<Seq<char>>, count: int, default: int)
    requires
        0 <= default < count,
    ensures
        0 <= choice_spec(text, count, default) < count,
{
}

} // verus!
