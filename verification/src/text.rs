//! Character-level text operations used by the policy engine, the request
//! handlers and the client: substring search, Unicode trimming, ASCII
//! case-insensitive comparison, prefix stripping and line splitting.
//! Each is specified over `Seq<char>`, the view of `str` and `String`.
use vstd::prelude::*;

verus! {

// ---------------------------------------------------------------------------
// Specifications
// ---------------------------------------------------------------------------

/// `p` occurs in `s` starting at position `i`.
pub open spec fn occurs_at(s: Seq<char>, p: Seq<char>, i: int) -> bool {
    0 <= i && i + p.len() <= s.len() && s.subrange(i, i + p.len()) == p
}

/// `p` is a substring of `s` (the empty sequence is a substring of everything).
pub open spec fn has_substring(s: Seq<char>, p: Seq<char>) -> bool {
    exists|i: int| occurs_at(s, p, i)
}

/// `s` begins with `p`.
pub open spec fn has_prefix(s: Seq<char>, p: Seq<char>) -> bool {
    p.len() <= s.len() && s.subrange(0, p.len() as int) == p
}

/// The Unicode `White_Space` property, the set of characters that
/// `char::is_whitespace` and `str::trim` treat as whitespace.
pub open spec fn is_white_space(c: char) -> bool {
    let u = c as u32;
    ||| 0x09 <= u <= 0x0d
    ||| u == 0x20
    ||| u == 0x85
    ||| u == 0xa0
    ||| u == 0x1680
    ||| 0x2000 <= u <= 0x200a
    ||| u == 0x2028
    ||| u == 0x2029
    ||| u == 0x202f
    ||| u == 0x205f
    ||| u == 0x3000
}

/// Index of the first non-whitespace character of `s` at or after `i`
/// (or `s.len()` if there is none).
pub open spec fn content_start_from(s: Seq<char>, i: int) -> int
    decreases s.len() - i,
{
    if i < 0 || i >= s.len() {
        s.len() as int
    } else if is_white_space(s[i]) {
        content_start_from(s, i + 1)
    } else {
        i
    }
}

/// One past the last non-whitespace character of `s` before `j`, not going
/// below `lo` (or `lo` if there is none).
pub open spec fn content_end_from(s: Seq<char>, j: int, lo: int) -> int
    decreases j - lo,
{
    if j <= lo {
        lo
    } else if is_white_space(s[j - 1]) {
        content_end_from(s, j - 1, lo)
    } else {
        j
    }
}

/// `s` without its leading and trailing whitespace (`str::trim`).
pub open spec fn trimmed(s: Seq<char>) -> Seq<char> {
    let a = content_start_from(s, 0);
    let b = content_end_from(s, s.len() as int, a);
    s.subrange(a, b)
}

/// `s` with every leading repetition of the non-empty pattern `p` removed
/// (`str::trim_start_matches` with a string pattern).
pub open spec fn strip_leading(s: Seq<char>, p: Seq<char>) -> Seq<char>
    decreases s.len(),
{
    if p.len() > 0 && has_prefix(s, p) {
        strip_leading(s.subrange(p.len() as int, s.len() as int), p)
    } else {
        s
    }
}

/// ASCII case folding of a character, as a code point.
pub open spec fn ascii_fold(c: char) -> int {
    let u = c as u32;
    if 0x41 <= u <= 0x5a {
        u + 32
    } else {
        u as int
    }
}

/// `a` and `b` are equal up to ASCII case (`str::eq_ignore_ascii_case`).
pub open spec fn eq_ignoring_ascii_case(a: Seq<char>, b: Seq<char>) -> bool {
    a.len() == b.len() && forall|i: int| 0 <= i < a.len() ==> ascii_fold(a[i]) == ascii_fold(b[i])
}

/// Scans `s` for newline characters: the segments that a newline closes, and
/// the unterminated rest.
pub open spec fn newline_scan(s: Seq<char>) -> (Seq<Seq<char>>, Seq<char>)
    decreases s.len(),
{
    if s.len() == 0 {
        (seq![], seq![])
    } else {
        let (done, rest) = newline_scan(s.drop_last());
        if s.last() == '\n' {
            (done.push(rest), seq![])
        } else {
            (done, rest.push(s.last()))
        }
    }
}

/// A newline-terminated segment without a carriage return that ended it.
pub open spec fn without_cr(l: Seq<char>) -> Seq<char> {
    if l.len() > 0 && l.last() == '\r' {
        l.drop_last()
    } else {
        l
    }
}

/// The lines of `s` as `str::lines` yields them: split at `\n`, a `\r` just
/// before a `\n` dropped, and no empty last line after a final newline.
pub open spec fn text_lines(s: Seq<char>) -> Seq<Seq<char>> {
    let (done, rest) = newline_scan(s);
    let closed = done.map_values(|l: Seq<char>| without_cr(l));
    if rest.len() == 0 {
        closed
    } else {
        closed.push(rest)
    }
}

/// The views of a sequence of string slices.
pub open spec fn str_views(v: Seq<&str>) -> Seq<Seq<char>> {
    v.map_values(|l: &str| l@)
}

/// The views of a sequence of strings.
pub open spec fn string_views(v: Seq<String>) -> Seq<Seq<char>> {
    v.map_values(|l: String| l@)
}

/// What `str::to_lowercase` returns for a string with the given characters:
/// its lowercase form under the Unicode case mappings (character by
/// character, except that a capital sigma at the end of a word becomes `ς`).
pub uninterp spec fn unicode_lowercase(s: Seq<char>) -> Seq<char>;

// ---------------------------------------------------------------------------
// Trusted: std's Unicode lowercasing
// ---------------------------------------------------------------------------

/// Calls `str::to_lowercase`. The contract claims only that the result is the
/// named function `unicode_lowercase` of the argument's characters: std maps
/// each character through the Unicode lowercase tables, which nothing here
/// restates.
#[verifier::external_body]
pub(crate) fn lowercase(s: &str) -> (r: String)
    ensures
        r@ == unicode_lowercase(s@),
{
    s.to_lowercase()
}

// ---------------------------------------------------------------------------
// Verified operations
// ---------------------------------------------------------------------------

/// The characters of `s`, in order.
pub fn chars_of(s: &str) -> (v: Vec<char>)
    ensures
        v@ == s@,
{
    let mut v: Vec<char> = Vec::new();
    for c in it: s.chars()
        invariant
            v@ == it.seq().take(it.index() as int),
    {
        v.push(c);
    }
    v
}

/// A fresh string holding `s`.
pub fn owned(s: &str) -> (r: String)
    ensures
        r@ == s@,
{
    s.to_owned()
}

/// The concatenation of `a` and `b`.
pub fn joined(a: &str, b: &str) -> (r: String)
    ensures
        r@ == a@ + b@,
{
    let mut r = a.to_owned();
    r.append(b);
    r
}

/// Whether `p` occurs in `s` at position `i`, for `i + p.len() <= s.len()`.
fn matches_at(s: &Vec<char>, p: &Vec<char>, i: usize) -> (r: bool)
    requires
        i + p.len() <= s.len(),
    ensures
        r == (s@.subrange(i as int, i + p@.len()) == p@),
{
    let mut j: usize = 0;
    while j < p.len()
        invariant
            i + p.len() <= s.len(),
            j <= p@.len(),
            forall|k: int| 0 <= k < j ==> s@[i + k] == p@[k],
        decreases p@.len() - j,
    {
        if s[i + j] != p[j] {
            return false;
        }
        j += 1;
    }
    assert(s@.subrange(i as int, i + p@.len()) =~= p@);
    true
}

/// Whether `p` is a substring of `s` (`str::contains` with a string pattern).
pub fn contains_text(s: &str, p: &str) -> (r: bool)
    ensures
        r == has_substring(s@, p@),
{
    let sv = chars_of(s);
    let pv = chars_of(p);
    if pv.len() > sv.len() {
        return false;
    }
    let limit = sv.len() - pv.len();
    let mut i: usize = 0;
    loop
        invariant
            sv@ == s@,
            pv@ == p@,
            limit == sv@.len() - pv@.len(),
            i <= limit,
            forall|k: int| 0 <= k < i ==> !occurs_at(s@, p@, k),
        decreases limit - i,
    {
        if matches_at(&sv, &pv, i) {
            assert(occurs_at(s@, p@, i as int));
            return true;
        }
        if i == limit {
            assert(forall|k: int| !occurs_at(s@, p@, k));
            return false;
        }
        i += 1;
    }
}

/// Whether `s` begins with `p` (`str::starts_with` with a string pattern).
pub fn starts_with_text(s: &str, p: &str) -> (r: bool)
    ensures
        r == has_prefix(s@, p@),
{
    let sv = chars_of(s);
    let pv = chars_of(p);
    if pv.len() > sv.len() {
        return false;
    }
    matches_at(&sv, &pv, 0)
}

/// Whether `a` and `b` hold the same characters.
pub fn same_text(a: &str, b: &str) -> (r: bool)
    ensures
        r == (a@ == b@),
{
    let av = chars_of(a);
    let bv = chars_of(b);
    if av.len() != bv.len() {
        return false;
    }
    let r = matches_at(&av, &bv, 0);
    assert(av@.subrange(0, av@.len() as int) =~= av@);
    r
}

/// Whether `c` has the Unicode `White_Space` property (`char::is_whitespace`).
pub fn is_white_space_char(c: char) -> (r: bool)
    ensures
        r == is_white_space(c),
{
    let u = c as u32;
    (0x09 <= u && u <= 0x0d) || u == 0x20 || u == 0x85 || u == 0xa0 || u == 0x1680 || (0x2000 <= u
        && u <= 0x200a) || u == 0x2028 || u == 0x2029 || u == 0x202f || u == 0x205f || u == 0x3000
}

/// `s` without leading and trailing whitespace (`str::trim`).
pub fn trim_text(s: &str) -> (r: &str)
    ensures
        r@ == trimmed(s@),
{
    let v = chars_of(s);
    let n = v.len();
    let mut a: usize = 0;
    while a < n && is_white_space_char(v[a])
        invariant
            v@ == s@,
            n == v@.len(),
            a <= n,
            content_start_from(s@, 0) == content_start_from(s@, a as int),
        decreases n - a,
    {
        a += 1;
    }
    let mut b: usize = n;
    while b > a && is_white_space_char(v[b - 1])
        invariant
            v@ == s@,
            n == v@.len(),
            a <= b <= n,
            content_end_from(s@, n as int, a as int) == content_end_from(s@, b as int, a as int),
        decreases b - a,
    {
        b -= 1;
    }
    s.substring_char(a, b)
}

/// Whether `s` is empty or only whitespace.
pub fn is_blank(s: &str) -> (r: bool)
    ensures
        r == (trimmed(s@).len() == 0),
{
    let t = trim_text(s);
    t.unicode_len() == 0
}

/// `s` with every leading repetition of `p` removed
/// (`str::trim_start_matches` with a string pattern).
pub fn strip_leading_text<'a>(s: &'a str, p: &str) -> (r: &'a str)
    ensures
        p@.len() > 0 ==> r@ == strip_leading(s@, p@),
        p@.len() == 0 ==> r@ == s@,
{
    let sv = chars_of(s);
    let pv = chars_of(p);
    let n = sv.len();
    if pv.len() == 0 {
        let r = s.substring_char(0, n);
        return r;
    }
    let mut pos: usize = 0;
    assert(s@.subrange(0, n as int) =~= s@);
    while pv.len() <= n - pos && matches_at(&sv, &pv, pos)
        invariant
            sv@ == s@,
            pv@ == p@,
            p@.len() > 0,
            n == s@.len(),
            pos <= n,
            strip_leading(s@, p@) == strip_leading(s@.subrange(pos as int, n as int), p@),
        decreases n - pos,
    {
        let ghost rest = s@.subrange(pos as int, n as int);
        assert(rest.subrange(0, p@.len() as int) =~= s@.subrange(pos as int, pos + p@.len()));
        assert(rest.subrange(p@.len() as int, rest.len() as int) =~= s@.subrange(
            pos + p@.len(),
            n as int,
        ));
        pos += pv.len();
    }
    proof {
        let rest = s@.subrange(pos as int, n as int);
        if has_prefix(rest, p@) {
            assert(rest.subrange(0, p@.len() as int) =~= s@.subrange(pos as int, pos + p@.len()));
        }
    }
    s.substring_char(pos, n)
}

/// Whether `ascii_fold` agrees on two characters
/// (`u8::eq_ignore_ascii_case` on each ASCII byte).
fn fold_eq(a: char, b: char) -> (r: bool)
    ensures
        r == (ascii_fold(a) == ascii_fold(b)),
{
    let x = a as u32;
    let y = b as u32;
    let fx: u32 = if 0x41 <= x && x <= 0x5a { x + 32 } else { x };
    let fy: u32 = if 0x41 <= y && y <= 0x5a { y + 32 } else { y };
    fx == fy
}

/// Whether `a` and `b` are equal up to ASCII case (`str::eq_ignore_ascii_case`).
pub fn eq_ignore_ascii_case_text(a: &str, b: &str) -> (r: bool)
    ensures
        r == eq_ignoring_ascii_case(a@, b@),
{
    let av = chars_of(a);
    let bv = chars_of(b);
    if av.len() != bv.len() {
        return false;
    }
    let mut i: usize = 0;
    while i < av.len()
        invariant
            av@ == a@,
            bv@ == b@,
            av@.len() == bv@.len(),
            i <= av@.len(),
            forall|k: int| 0 <= k < i ==> ascii_fold(a@[k]) == ascii_fold(b@[k]),
        decreases av@.len() - i,
    {
        if !fold_eq(av[i], bv[i]) {
            return false;
        }
        i += 1;
    }
    true
}

/// The lines of `s` (`str::lines`).
pub fn lines_of<'a>(s: &'a str) -> (r: Vec<&'a str>)
    ensures
        str_views(r@) == text_lines(s@),
{
    let v = chars_of(s);
    let n = v.len();
    let mut done: Vec<&'a str> = Vec::new();
    let mut start: usize = 0;
    let mut i: usize = 0;
    while i < n
        invariant
            v@ == s@,
            n == s@.len(),
            start <= i <= n,
            newline_scan(s@.take(i as int)).0.map_values(|l: Seq<char>| without_cr(l)) == str_views(
                done@,
            ),
            newline_scan(s@.take(i as int)).1 == s@.subrange(start as int, i as int),
        decreases n - i,
    {
        let ghost prev = s@.take(i as int);
        assert(s@.take(i + 1).drop_last() =~= prev);
        if v[i] == '\n' {
            let mut end = i;
            if end > start && v[end - 1] == '\r' {
                end = end - 1;
            }
            let line = s.substring_char(start, end);
            proof {
                let seg = s@.subrange(start as int, i as int);
                assert(without_cr(seg) =~= s@.subrange(start as int, end as int));
            }
            done.push(line);
            proof {
                let d = newline_scan(prev).0;
                let seg = s@.subrange(start as int, i as int);
                assert(d.push(seg).map_values(|l: Seq<char>| without_cr(l)) =~= d.map_values(
                    |l: Seq<char>| without_cr(l),
                ).push(without_cr(seg)));
            }
            start = i + 1;
        } else {
            assert(s@.subrange(start as int, i as int).push(s@[i as int]) =~= s@.subrange(
                start as int,
                i + 1,
            ));
        }
        i += 1;
    }
    assert(s@.take(n as int) =~= s@);
    if start < n {
        let last = s.substring_char(start, n);
        done.push(last);
    }
    done
}

} // verus!
