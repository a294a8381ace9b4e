//! Text helpers over `&str` views: white-space trimming and exact comparison.

use vstd::prelude::*;

verus! {

/// Unicode White_Space, the characters `char::is_whitespace` accepts.
pub open spec fn is_space(c: char) -> bool {
    let v = c as u32;
    ||| 0x09 <= v <= 0x0D
    ||| v == 0x20
    ||| v == 0x85
    ||| v == 0xA0
    ||| v == 0x1680
    ||| 0x2000 <= v <= 0x200A
    ||| v == 0x2028
    ||| v == 0x2029
    ||| v == 0x202F
    ||| v == 0x205F
    ||| v == 0x3000
}

fn is_space_exec(c: char) -> (r: bool)
    ensures
        r == is_space(c),
{
    let v = c as u32;
    (0x09 <= v && v <= 0x0D) || v == 0x20 || v == 0x85 || v == 0xA0 || v == 0x1680 || (0x2000 <= v
        && v <= 0x200A) || v == 0x2028 || v == 0x2029 || v == 0x202F || v == 0x205F || v == 0x3000
}

/// `s` without leading white space.
pub open spec fn trim_start(s: Seq<char>) -> Seq<char>
    decreases s.len(),
{
    if s.len() > 0 && is_space(s[0]) {
        trim_start(s.drop_first())
    } else {
        s
    }
}

/// `s` without trailing white space.
pub open spec fn trim_end(s: Seq<char>) -> Seq<char>
    decreases s.len(),
{
    if s.len() > 0 && is_space(s.last()) {
        trim_end(s.drop_last())
    } else {
        s
    }
}

/// `s` without leading and trailing white space, as `str::trim` leaves it.
pub open spec fn trim(s: Seq<char>) -> Seq<char> {
    trim_end(trim_start(s))
}

/// Where the trimmed text of `s` starts and ends, in characters.
pub fn trim_bounds(s: &str) -> (r: (usize, usize))
    ensures
        r.0 <= r.1 <= s@.len(),
        trim(s@) == s@.subrange(r.0 as int, r.1 as int),
{
    let len = s.unicode_len();
    assert(s@.subrange(0, len as int) =~= s@);
    let mut i: usize = 0;
    while i < len && is_space_exec(s.get_char(i))
        invariant
            len == s@.len(),
            i <= len,
            trim_start(s@) == trim_start(s@.subrange(i as int, len as int)),
        decreases len - i,
    {
        assert(s@.subrange(i as int, len as int).drop_first() =~= s@.subrange(i + 1, len as int));
        i += 1;
    }
    let ghost u = s@.subrange(i as int, len as int);
    assert(trim_start(s@) == u) by {
        if i < len {
            assert(u[0] == s@[i as int]);
        } else {
            assert(u.len() == 0);
        }
    }
    let mut j: usize = len;
    while j > i && is_space_exec(s.get_char(j - 1))
        invariant
            len == s@.len(),
            i <= j <= len,
            trim_end(u) == trim_end(s@.subrange(i as int, j as int)),
        decreases j - i,
    {
        assert(s@.subrange(i as int, j as int).drop_last() =~= s@.subrange(i as int, j - 1));
        j -= 1;
    }
    let ghost v = s@.subrange(i as int, j as int);
    assert(trim(s@) == v) by {
        if j > i {
            assert(v.last() == s@[j - 1]);
        } else {
            assert(v.len() == 0);
        }
    }
    (i, j)
}

/// Whether `s`, trimmed, reads exactly `target`.
pub fn trimmed_is(s: &str, target: &str) -> (r: bool)
    ensures
        r == (trim(s@) == target@),
{
    let (i, j) = trim_bounds(s);
    let ghost v = s@.subrange(i as int, j as int);
    let n = target.unicode_len();
    if j - i != n {
        assert(v.len() != target@.len());
        return false;
    }
    let mut k: usize = 0;
    while k < n
        invariant
            n == target@.len(),
            n == j - i,
            i <= j <= s@.len(),
            v == s@.subrange(i as int, j as int),
            trim(s@) == v,
            k <= n,
            forall|m: int| 0 <= m < k ==> v[m] == target@[m],
        decreases n - k,
    {
        if s.get_char(i + k) != target.get_char(k) {
            assert(v[k as int] != target@[k as int]);
            return false;
        }
        k += 1;
    }
    assert(v =~= target@);
    true
}

/// Whether two strings hold exactly the same characters.
pub fn same_text(a: &str, b: &str) -> (r: bool)
    ensures
        r == (a@ == b@),
{
    let n = a.unicode_len();
    if n != b.unicode_len() {
        return false;
    }
    let mut k: usize = 0;
    while k < n
        invariant
            n == a@.len(),
            n == b@.len(),
            k <= n,
            forall|m: int| 0 <= m < k ==> a@[m] == b@[m],
        decreases n - k,
    {
        if a.get_char(k) != b.get_char(k) {
            return false;
        }
        k += 1;
    }
    assert(a@ =~= b@);
    true
}

/// Whether `s` begins with exactly the characters of `prefix`.
pub open spec fn starts_with(s: Seq<char>, prefix: Seq<char>) -> bool {
    prefix.len() <= s.len() && s.take(prefix.len() as int) == prefix
}

/// Whether `s` begins with `prefix`.
pub fn has_prefix(s: &str, prefix: &str) -> (r: bool)
    ensures
        r == starts_with(s@, prefix@),
{
    let n = prefix.unicode_len();
    if n > s.unicode_len() {
        return false;
    }
    let mut k: usize = 0;
    while k < n
        invariant
            n == prefix@.len(),
            n <= s@.len(),
            k <= n,
            forall|m: int| 0 <= m < k ==> s@[m] == prefix@[m],
        decreases n - k,
    {
        if s.get_char(k) != prefix.get_char(k) {
            assert(s@.take(n as int)[k as int] != prefix@[k as int]);
            return false;
        }
        k += 1;
    }
    assert(s@.take(n as int) =~= prefix@);
    true
}

/// The UTF-16 code units of one character: itself below U+10000, else a surrogate pair.
pub open spec fn utf16_char(c: char) -> Seq<u16> {
    let v = c as u32 as int;
    if v < 0x1_0000 {
        seq![v as u16]
    } else {
        seq![(0xD800 + (v - 0x1_0000) / 0x400) as u16, (0xDC00 + (v - 0x1_0000) % 0x400) as u16]
    }
}

/// UTF-16 encoding of a character sequence.
pub open spec fn utf16(s: Seq<char>) -> Seq<u16>
    decreases s.len(),
{
    if s.len() == 0 {
        Seq::empty()
    } else {
        utf16(s.drop_last()) + utf16_char(s.last())
    }
}

/// `s` as a nul-terminated UTF-16 string, the form Win32 calls take.
pub fn wide(s: &str) -> (r: Vec<u16>)
    ensures
        r@ == utf16(s@).push(0u16),
{
    let n = s.unicode_len();
    let mut out: Vec<u16> = Vec::new();
    let mut i: usize = 0;
    while i < n
        invariant
            n == s@.len(),
            i <= n,
            out@ == utf16(s@.take(i as int)),
        decreases n - i,
    {
        let c = s.get_char(i);
        let v = c as u32;
        assert(v <= 0x10FFFF);
        if v < 0x1_0000 {
            out.push(v as u16);
        } else {
            out.push((0xD800 + (v - 0x1_0000) / 0x400) as u16);
            out.push((0xDC00 + (v - 0x1_0000) % 0x400) as u16);
        }
        assert(s@.take(i + 1).drop_last() =~= s@.take(i as int));
        i += 1;
        assert(out@ =~= utf16(s@.take(i as int)));
    }
    assert(s@.take(n as int) =~= s@);
    out.push(0);
    out
}

/// `s` as UTF-16 cut to at most `cap - 1` units, then a nul: what fits a fixed `cap`-unit
/// buffer such as a tray icon's tip.
pub fn wide_within(s: &str, cap: usize) -> (r: Vec<u16>)
    requires
        cap >= 1,
    ensures
        r@ == (if utf16(s@).len() < cap {
            utf16(s@)
        } else {
            utf16(s@).take(cap - 1)
        }).push(0u16),
{
    let all = wide(s);
    let n = all.len() - 1;
    let keep = if n < cap { n } else { cap - 1 };
    let mut out: Vec<u16> = Vec::new();
    let mut i: usize = 0;
    while i < keep
        invariant
            all@ == utf16(s@).push(0u16),
            n == utf16(s@).len(),
            keep <= n,
            i <= keep,
            out@ == utf16(s@).take(i as int),
        decreases keep - i,
    {
        out.push(all[i]);
        assert(out@ =~= utf16(s@).take(i + 1));
        i += 1;
    }
    if n < cap {
        assert(utf16(s@).take(n as int) =~= utf16(s@));
    }
    out.push(0);
    out
}

} // verus!
