//! Character-level helpers shared by the locale and version parsers, and the
//! few `str`/`String` operations of std that they rely on.
use vstd::prelude::*;
use vstd::string::*;

verus! {

/// Characters with the Unicode `White_Space` property, the set that
/// `str::trim` removes from both ends of a string.
pub open spec fn is_unicode_whitespace(c: char) -> bool {
    let u = c as u32;
    (0x09 <= u && u <= 0x0D) || u == 0x20 || u == 0x85 || u == 0xA0 || u == 0x1680 || (0x2000
        <= u && u <= 0x200A) || u == 0x2028 || u == 0x2029 || u == 0x202F || u == 0x205F || u
        == 0x3000
}

/// `s` without its leading whitespace.
pub open spec fn trim_start_spec(s: Seq<char>) -> Seq<char>
    decreases s.len(),
{
    if s.len() > 0 && is_unicode_whitespace(s[0]) {
        trim_start_spec(s.drop_first())
    } else {
        s
    }
}

/// `s` without its trailing whitespace.
pub open spec fn trim_end_spec(s: Seq<char>) -> Seq<char>
    decreases s.len(),
{
    if s.len() > 0 && is_unicode_whitespace(s.last()) {
        trim_end_spec(s.drop_last())
    } else {
        s
    }
}

/// `s` without whitespace at either end.
pub open spec fn trim_spec(s: Seq<char>) -> Seq<char> {
    trim_end_spec(trim_start_spec(s))
}

/// The string slice with leading and trailing Unicode whitespace removed
/// (what `str::trim` returns).
pub fn trim_str(s: &str) -> (r: &str)
    ensures
        r@ == trim_spec(s@),
{
    let n = s.unicode_len();
    let mut start: usize = 0;
    assert(s@.subrange(0, n as int) =~= s@);
    while start < n && is_whitespace_char(s.get_char(start))
        invariant
            n == s@.len(),
            start <= n,
            trim_start_spec(s@) == trim_start_spec(s@.subrange(start as int, n as int)),
        decreases n - start,
    {
        let ghost rest = s@.subrange(start as int, n as int);
        assert(rest.drop_first() =~= s@.subrange(start + 1, n as int));
        start = start + 1;
    }
    let ghost t = s@.subrange(start as int, n as int);
    assert(trim_start_spec(t) == t);
    let mut end: usize = n;
    while end > start && is_whitespace_char(s.get_char(end - 1))
        invariant
            n == s@.len(),
            start <= end <= n,
            trim_start_spec(s@) == t,
            t == s@.subrange(start as int, n as int),
            trim_end_spec(t) == trim_end_spec(s@.subrange(start as int, end as int)),
        decreases end - start,
    {
        let ghost rest = s@.subrange(start as int, end as int);
        assert(rest.drop_last() =~= s@.subrange(start as int, end - 1));
        end = end - 1;
    }
    s.substring_char(start, end)
}

/// What `str::to_lowercase` returns for a string: the Unicode lowercase
/// mapping, which can change the length of the text.
pub uninterp spec fn unicode_lowercase(s: Seq<char>) -> Seq<char>;

/// All characters of `s` are ASCII.
pub open spec fn all_ascii(s: Seq<char>) -> bool {
    forall|i: int| 0 <= i < s.len() ==> (s[i] as u32) < 128
}

/// ASCII lowercase of one character.
pub open spec fn ascii_lower_char(c: char) -> char {
    if 'A' <= c && c <= 'Z' {
        ((c as u32) + 32) as char
    } else {
        c
    }
}

/// ASCII lowercase of a string.
pub open spec fn ascii_lowercase(s: Seq<char>) -> Seq<char> {
    s.map_values(|c: char| ascii_lower_char(c))
}

/// Wraps `str::to_lowercase`. The result is named by `unicode_lowercase`; the
/// contract adds only that on an all-ASCII string it is the ASCII lowercase,
/// as the documentation's examples show. What it does to other characters is
/// left to the name.
#[verifier::external_body]
pub fn to_lowercase(s: &str) -> (r: String)
    ensures
        r@ == unicode_lowercase(s@),
        all_ascii(s@) ==> r@ == ascii_lowercase(s@),
{
    s.to_lowercase()
}

/// Wraps `String::push`: appends one character.
#[verifier::external_body]
pub fn push_char(s: &mut String, c: char)
    ensures
        final(s)@ == old(s)@.push(c),
{
    s.push(c)
}

/// Wraps `String::push_str`: appends a string slice.
#[verifier::external_body]
pub fn push_str(s: &mut String, t: &str)
    ensures
        final(s)@ == old(s)@ + t@,
{
    s.push_str(t)
}

/// `p` is a prefix of `s`.
pub open spec fn has_prefix(s: Seq<char>, p: Seq<char>) -> bool {
    p.len() <= s.len() && forall|i: int| 0 <= i < p.len() ==> s[i] == p[i]
}

/// Whether `s` starts with `p`.
pub fn starts_with(s: &str, p: &str) -> (r: bool)
    ensures
        r == has_prefix(s@, p@),
{
    let n = s.unicode_len();
    let m = p.unicode_len();
    if m > n {
        return false;
    }
    let mut i: usize = 0;
    while i < m
        invariant
            m <= n,
            n == s@.len(),
            m == p@.len(),
            i <= m,
            forall|j: int| 0 <= j < i ==> s@[j] == p@[j],
        decreases m - i,
    {
        if s.get_char(i) != p.get_char(i) {
            return false;
        }
        i = i + 1;
    }
    true
}

/// `s` with every `from` replaced by `to`.
pub open spec fn replace_char(s: Seq<char>, from: char, to: char) -> Seq<char> {
    s.map_values(|c: char| if c == from { to } else { c })
}

/// Trimming and turning `_` into `-` keep a string ASCII.
pub proof fn lemma_clean_keeps_ascii(s: Seq<char>)
    requires
        all_ascii(s),
    ensures
        all_ascii(trim_spec(s)),
        all_ascii(replace_char(trim_spec(s), '_', '-')),
{
    lemma_trim_start_keeps_ascii(s);
    lemma_trim_end_keeps_ascii(trim_start_spec(s));
    let t = trim_spec(s);
    let r = replace_char(t, '_', '-');
    assert forall|i: int| 0 <= i < r.len() implies (r[i] as u32) < 128 by {
        assert(r[i] == if t[i] == '_' { '-' } else { t[i] });
    }
}

proof fn lemma_trim_start_keeps_ascii(s: Seq<char>)
    requires
        all_ascii(s),
    ensures
        all_ascii(trim_start_spec(s)),
    decreases s.len(),
{
    if s.len() > 0 && is_unicode_whitespace(s[0]) {
        let d = s.drop_first();
        assert forall|i: int| 0 <= i < d.len() implies (d[i] as u32) < 128 by {
            assert(d[i] == s[i + 1]);
        }
        lemma_trim_start_keeps_ascii(d);
    }
}

proof fn lemma_trim_end_keeps_ascii(s: Seq<char>)
    requires
        all_ascii(s),
    ensures
        all_ascii(trim_end_spec(s)),
    decreases s.len(),
{
    if s.len() > 0 && is_unicode_whitespace(s.last()) {
        let d = s.drop_last();
        assert forall|i: int| 0 <= i < d.len() implies (d[i] as u32) < 128 by {
            assert(d[i] == s[i]);
        }
        lemma_trim_end_keeps_ascii(d);
    }
}

/// Copies `s`, replacing each `from` with `to`.
pub fn replace_char_string(s: &str, from: char, to: char) -> (r: String)
    ensures
        r@ == replace_char(s@, from, to),
{
    let n = s.unicode_len();
    let mut out = String::new();
    let mut i: usize = 0;
    while i < n
        invariant
            n == s@.len(),
            i <= n,
            out@ =~= replace_char(s@.take(i as int), from, to),
        decreases n - i,
    {
        let c = s.get_char(i);
        push_char(&mut out, if c == from { to } else { c });
        assert(s@.take(i + 1) =~= s@.take(i as int).push(c));
        i = i + 1;
    }
    assert(s@.take(n as int) =~= s@);
    out
}

/// Whether `c` is Unicode whitespace (see `is_unicode_whitespace`).
pub fn is_whitespace_char(c: char) -> (r: bool)
    ensures
        r == is_unicode_whitespace(c),
{
    let u = c as u32;
    (0x09 <= u && u <= 0x0D) || u == 0x20 || u == 0x85 || u == 0xA0 || u == 0x1680 || (0x2000 <= u && u
        <= 0x200A) || u == 0x2028 || u == 0x2029 || u == 0x202F || u == 0x205F || u == 0x3000
}

/// `s` cut to its first `max` characters and followed by `...` when it was
/// longer than that.
pub open spec fn ellipsized(s: Seq<char>, max: int) -> Seq<char> {
    if s.len() > max {
        s.take(max) + seq!['.', '.', '.']
    } else {
        s
    }
}

/// Shortens `text` to `max_chars` characters, marking a cut with `...`.
pub fn ellipsize(text: &str, max_chars: usize) -> (r: String)
    ensures
        r@ == ellipsized(text@, max_chars as int),
{
    let n = text.unicode_len();
    let keep = if n < max_chars { n } else { max_chars };
    let mut out = String::new();
    let mut i: usize = 0;
    while i < keep
        invariant
            n == text@.len(),
            keep <= n,
            i <= keep,
            out@ =~= text@.take(i as int),
        decreases keep - i,
    {
        push_char(&mut out, text.get_char(i));
        i = i + 1;
    }
    if n > max_chars {
        push_str(&mut out, "...");
        proof {
            reveal_strlit("...");
        }
    } else {
        assert(text@.take(n as int) =~= text@);
    }
    out
}

/// The words of `s` (its runs of non-whitespace characters) joined by single
/// spaces: leading, trailing and repeated whitespace disappear.
pub open spec fn squeezed(s: Seq<char>) -> Seq<char>
    decreases s.len(),
{
    if s.len() == 0 {
        Seq::empty()
    } else {
        let before = squeezed(s.drop_last());
        let c = s.last();
        if is_unicode_whitespace(c) {
            before
        } else if s.len() >= 2 && is_unicode_whitespace(s[s.len() - 2]) && before.len() > 0 {
            before + seq![' ', c]
        } else {
            before.push(c)
        }
    }
}

/// `text` on a single line: its words joined by single spaces.
pub fn compact_single_line(text: &str) -> (r: String)
    ensures
        r@ == squeezed(text@),
{
    let n = text.unicode_len();
    let mut out = String::new();
    let mut after_space = false;
    let mut any = false;
    let mut i: usize = 0;
    while i < n
        invariant
            n == text@.len(),
            i <= n,
            out@ == squeezed(text@.take(i as int)),
            after_space == (i > 0 && is_unicode_whitespace(text@[i - 1])),
            any == (out@.len() > 0),
        decreases n - i,
    {
        let c = text.get_char(i);
        let ghost t = text@.take(i + 1);
        proof {
            assert(t.drop_last() =~= text@.take(i as int));
            assert(t.last() == c);
            if i > 0 {
                assert(t[t.len() - 2] == text@[i - 1]);
            }
        }
        if is_whitespace_char(c) {
            after_space = true;
        } else {
            if after_space && any {
                push_char(&mut out, ' ');
            }
            push_char(&mut out, c);
            any = true;
            after_space = false;
        }
        proof {
            assert(out@ =~= squeezed(t));
        }
        i = i + 1;
    }
    assert(text@.take(n as int) =~= text@);
    out
}

} // verus!
