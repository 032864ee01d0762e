//! Character-level text utilities with exact specifications.
//!
//! Text is handled as sequences of `char` (the view of `str` and `String`).
//! The functions mirror the std string operations the engine relies on
//! (`trim`, `contains`, `find`, `lines`, `replace("\r\n", "\n")`), stated
//! over `Seq<char>` and proved.

use vstd::prelude::*;

verus! {

// ---------------------------------------------------------------------------
// Conversions between strings and character vectors
// ---------------------------------------------------------------------------

/// Collects the characters of `s` into a vector.
pub fn chars_of(s: &str) -> (v: Vec<char>)
    ensures
        v@ == s@,
{
    let n = s.unicode_len();
    let mut v: Vec<char> = Vec::new();
    let mut i: usize = 0;
    while i < n
        invariant
            n == s@.len(),
            i <= n,
            v@ == s@.subrange(0, i as int),
        decreases n - i,
    {
        let c = s.get_char(i);
        v.push(c);
        i = i + 1;
        assert(v@ =~= s@.subrange(0, i as int));
    }
    assert(v@ =~= s@);
    v
}

/// Builds a `String` holding exactly the given characters, in order, with
/// std's `String::from_iter` (`FromIterator<&char> for String`).
#[verifier::external_body]
pub(crate) fn string_from_chars(v: &[char]) -> (s: String)
    ensures
        s@ == v@,
{
    String::from_iter(v)
}

/// Builds a `String` from a `&str`.
pub fn owned(s: &str) -> (r: String)
    ensures
        r@ == s@,
{
    String::from_str(s)
}

/// The Unicode lower-case mapping of a string, as `str::to_lowercase`
/// computes it.
pub uninterp spec fn lowercase_of(s: Seq<char>) -> Seq<char>;

/// Calls `str::to_lowercase`; the result is the Unicode lower-case mapping of
/// `s`, named `lowercase_of`.  Nothing more is stated of that mapping.
#[verifier::external_body]
pub(crate) fn to_lowercase(s: &str) -> (r: String)
    ensures
        r@ == lowercase_of(s@),
{
    s.to_lowercase()
}

// ---------------------------------------------------------------------------
// Whitespace and trimming
// ---------------------------------------------------------------------------

/// The Unicode `White_Space` property, which `char::is_whitespace` tests.
pub open spec fn is_whitespace_char(c: char) -> bool {
    let u = c as u32;
    ||| u == 0x09 || u == 0x0A || u == 0x0B || u == 0x0C || u == 0x0D || u == 0x20
    ||| u == 0x85 || u == 0xA0 || u == 0x1680
    ||| (0x2000 <= u && u <= 0x200A)
    ||| u == 0x2028 || u == 0x2029 || u == 0x202F || u == 0x205F || u == 0x3000
}

/// Tests whether `c` is whitespace.
pub fn is_whitespace(c: char) -> (b: bool)
    ensures
        b == is_whitespace_char(c),
{
    let u = c as u32;
    u == 0x09 || u == 0x0A || u == 0x0B || u == 0x0C || u == 0x0D || u == 0x20 || u == 0x85
        || u == 0xA0 || u == 0x1680 || (0x2000 <= u && u <= 0x200A) || u == 0x2028 || u
        == 0x2029 || u == 0x202F || u == 0x205F || u == 0x3000
}

/// `s` without its leading whitespace.
pub open spec fn trim_start(s: Seq<char>) -> Seq<char>
    decreases s.len(),
{
    if s.len() > 0 && is_whitespace_char(s[0]) {
        trim_start(s.drop_first())
    } else {
        s
    }
}

/// `s` without its trailing whitespace.
pub open spec fn trim_end(s: Seq<char>) -> Seq<char>
    decreases s.len(),
{
    if s.len() > 0 && is_whitespace_char(s.last()) {
        trim_end(s.drop_last())
    } else {
        s
    }
}

/// `s` without leading and trailing whitespace (`str::trim`).
pub open spec fn trim(s: Seq<char>) -> Seq<char> {
    trim_end(trim_start(s))
}

/// Whether the text is empty once trimmed (`s.trim().is_empty()`).
pub open spec fn is_blank(s: Seq<char>) -> bool {
    trim(s).len() == 0
}

proof fn lemma_trim_start_skip(s: Seq<char>, i: int)
    requires
        0 <= i <= s.len(),
        forall|k: int| 0 <= k < i ==> is_whitespace_char(#[trigger] s[k]),
    ensures
        trim_start(s) == trim_start(s.skip(i)),
    decreases i,
{
    if i > 0 {
        assert(s.skip(1) =~= s.drop_first());
        let t = s.drop_first();
        assert forall|k: int| 0 <= k < i - 1 implies is_whitespace_char(#[trigger] t[k]) by {
            assert(t[k] == s[k + 1]);
        }
        lemma_trim_start_skip(t, i - 1);
        assert(t.skip(i - 1) =~= s.skip(i));
    } else {
        assert(s.skip(0) =~= s);
    }
}

proof fn lemma_trim_end_take(s: Seq<char>, j: int)
    requires
        0 <= j <= s.len(),
        forall|k: int| j <= k < s.len() ==> is_whitespace_char(#[trigger] s[k]),
    ensures
        trim_end(s) == trim_end(s.take(j)),
    decreases s.len() - j,
{
    if j < s.len() {
        let t = s.drop_last();
        assert forall|k: int| j <= k < t.len() implies is_whitespace_char(#[trigger] t[k]) by {
            assert(t[k] == s[k]);
        }
        lemma_trim_end_take(t, j);
        assert(t.take(j) =~= s.take(j));
    } else {
        assert(s.take(j) =~= s);
    }
}

/// Bounds of the trimmed part of `v[lo..hi]`: the result `(a, b)` satisfies
/// `v[a..b] == trim(v[lo..hi])`.
pub fn trim_bounds(v: &Vec<char>, lo: usize, hi: usize) -> (r: (usize, usize))
    requires
        lo <= hi <= v.len(),
    ensures
        lo <= r.0 <= r.1 <= hi,
        v@.subrange(r.0 as int, r.1 as int) == trim(v@.subrange(lo as int, hi as int)),
{
    let ghost s = v@.subrange(lo as int, hi as int);
    let mut a = lo;
    while a < hi && is_whitespace(v[a])
        invariant
            lo <= a <= hi <= v.len(),
            s == v@.subrange(lo as int, hi as int),
            forall|k: int| lo <= k < a ==> is_whitespace_char(#[trigger] v@[k]),
        decreases hi - a,
    {
        a = a + 1;
    }
    proof {
        let d = (a - lo) as int;
        assert forall|k: int| 0 <= k < d implies is_whitespace_char(#[trigger] s[k]) by {
            assert(s[k] == v@[lo + k]);
        }
        lemma_trim_start_skip(s, d);
        assert(s.skip(d) =~= v@.subrange(a as int, hi as int));
        let t = s.skip(d);
        if t.len() > 0 {
            assert(t[0] == v@[a as int]);
            assert(!is_whitespace_char(t[0]));
        }
        assert(trim_start(t) == t);
    }
    let mut b = hi;
    while b > a && is_whitespace(v[b - 1])
        invariant
            lo <= a <= b <= hi <= v.len(),
            forall|k: int| b <= k < hi ==> is_whitespace_char(#[trigger] v@[k]),
        decreases b - a,
    {
        b = b - 1;
    }
    proof {
        let t = v@.subrange(a as int, hi as int);
        let j = (b - a) as int;
        assert forall|k: int| j <= k < t.len() implies is_whitespace_char(#[trigger] t[k]) by {
            assert(t[k] == v@[a + k]);
        }
        lemma_trim_end_take(t, j);
        let u = t.take(j);
        assert(u =~= v@.subrange(a as int, b as int));
        if u.len() > 0 {
            assert(u.last() == v@[b - 1]);
        }
        assert(trim_end(u) == u);
    }
    (a, b)
}

/// Tests whether `s` is empty once trimmed.
pub fn str_is_blank(s: &str) -> (b: bool)
    ensures
        b == is_blank(s@),
{
    let v = chars_of(s);
    let (a, c) = trim_bounds(&v, 0, v.len());
    assert(v@.subrange(0, v@.len() as int) =~= v@);
    a == c
}

/// The trimmed copy of `s` (`s.trim().to_string()`).
pub fn trimmed(s: &str) -> (r: String)
    ensures
        r@ == trim(s@),
{
    let v = chars_of(s);
    let (a, c) = trim_bounds(&v, 0, v.len());
    assert(v@.subrange(0, v@.len() as int) =~= v@);
    string_from_chars(slice_range(&v, a, c).as_slice())
}

/// A copy of `v[lo..hi]`.
pub fn slice_range(v: &Vec<char>, lo: usize, hi: usize) -> (r: Vec<char>)
    requires
        lo <= hi <= v.len(),
    ensures
        r@ == v@.subrange(lo as int, hi as int),
{
    let mut r: Vec<char> = Vec::new();
    let mut i = lo;
    while i < hi
        invariant
            lo <= i <= hi <= v.len(),
            r@ == v@.subrange(lo as int, i as int),
        decreases hi - i,
    {
        r.push(v[i]);
        i = i + 1;
        assert(r@ =~= v@.subrange(lo as int, i as int));
    }
    r
}

// ---------------------------------------------------------------------------
// Substring search
// ---------------------------------------------------------------------------

/// `needle` occurs in `hay` at position `i`.
pub open spec fn occurs_at(hay: Seq<char>, needle: Seq<char>, i: int) -> bool {
    0 <= i && i + needle.len() <= hay.len() && hay.subrange(i, i + needle.len()) == needle
}

/// `needle` occurs somewhere in `hay` (`str::contains`).
pub open spec fn contains_seq(hay: Seq<char>, needle: Seq<char>) -> bool {
    exists|i: int| occurs_at(hay, needle, i)
}

/// The first position of `needle` in `hay` (`str::find`).
pub open spec fn is_first_occurrence(hay: Seq<char>, needle: Seq<char>, i: int) -> bool {
    occurs_at(hay, needle, i) && forall|j: int| 0 <= j < i ==> !occurs_at(hay, needle, j)
}

/// Whether `needle` occurs in `hay` at `i` (executable).
pub fn matches_at(hay: &Vec<char>, needle: &Vec<char>, i: usize) -> (b: bool)
    ensures
        b == occurs_at(hay@, needle@, i as int),
{
    if i > hay.len() || needle.len() > hay.len() - i {
        return false;
    }
    let mut k: usize = 0;
    while k < needle.len()
        invariant
            i + needle.len() <= hay.len(),
            k <= needle.len(),
            forall|m: int| 0 <= m < k ==> hay@[i + m] == needle@[m],
        decreases needle.len() - k,
    {
        if hay[i + k] != needle[k] {
            assert(hay@.subrange(i as int, i + needle@.len())[k as int] != needle@[k as int]);
            return false;
        }
        k = k + 1;
    }
    assert(hay@.subrange(i as int, i + needle@.len()) =~= needle@);
    true
}

/// The first position at which `needle` occurs in `hay`, if any.
pub fn find_chars(hay: &Vec<char>, needle: &Vec<char>) -> (r: Option<usize>)
    ensures
        match r {
            Some(i) => is_first_occurrence(hay@, needle@, i as int),
            None => !contains_seq(hay@, needle@),
        },
{
    if needle.len() > hay.len() {
        assert forall|j: int| !occurs_at(hay@, needle@, j) by {}
        return None;
    }
    let last = hay.len() - needle.len();
    let mut i: usize = 0;
    while i <= last
        invariant
            last == hay.len() - needle.len(),
            i <= last,
            forall|j: int| 0 <= j < i ==> !occurs_at(hay@, needle@, j),
        decreases last - i,
    {
        if matches_at(hay, needle, i) {
            return Some(i);
        }
        if i == last {
            assert forall|j: int| !occurs_at(hay@, needle@, j) by {
                if 0 <= j && j + needle@.len() <= hay@.len() {
                    assert(j <= i);
                }
            }
            return None;
        }
        i = i + 1;
    }
    None
}

/// Tests whether `needle` occurs in `hay` (`str::contains`).
pub fn str_contains(hay: &str, needle: &str) -> (b: bool)
    ensures
        b == contains_seq(hay@, needle@),
{
    let h = chars_of(hay);
    let n = chars_of(needle);
    match find_chars(&h, &n) {
        Some(_) => true,
        None => false,
    }
}

/// Tests whether two strings are equal.
pub fn str_eq(a: &str, b: &str) -> (r: bool)
    ensures
        r == (a@ == b@),
{
    let x = owned(a);
    let y = owned(b);
    x == y
}

/// `s` starts with `p`.
pub open spec fn starts_with(s: Seq<char>, p: Seq<char>) -> bool {
    p.len() <= s.len() && s.take(p.len() as int) == p
}

/// `s` ends with `p`.
pub open spec fn ends_with(s: Seq<char>, p: Seq<char>) -> bool {
    p.len() <= s.len() && s.skip(s.len() - p.len()) == p
}

/// Tests whether two character vectors are equal.
pub fn chars_eq(a: &Vec<char>, b: &Vec<char>) -> (r: bool)
    ensures
        r == (a@ == b@),
{
    if a.len() != b.len() {
        return false;
    }
    let mut k: usize = 0;
    while k < a.len()
        invariant
            a.len() == b.len(),
            k <= a.len(),
            forall|m: int| 0 <= m < k ==> a@[m] == b@[m],
        decreases a.len() - k,
    {
        if a[k] != b[k] {
            return false;
        }
        k = k + 1;
    }
    assert(a@ =~= b@);
    true
}

/// Appends all characters of `src` to `dst`.
pub fn push_all(dst: &mut Vec<char>, src: &Vec<char>)
    ensures
        final(dst)@ == old(dst)@ + src@,
{
    let mut k: usize = 0;
    while k < src.len()
        invariant
            k <= src.len(),
            dst@ == old(dst)@ + src@.take(k as int),
        decreases src.len() - k,
    {
        dst.push(src[k]);
        k = k + 1;
        assert(dst@ =~= old(dst)@ + src@.take(k as int));
    }
    assert(src@.take(src.len() as int) =~= src@);
}

// ---------------------------------------------------------------------------
// Line endings and lines
// ---------------------------------------------------------------------------

/// `s` with every `"\r\n"` replaced by `"\n"`, scanning left to right
/// (`s.replace("\r\n", "\n")`).
pub open spec fn normalize_crlf(s: Seq<char>) -> Seq<char>
    decreases s.len(),
{
    if s.len() == 0 {
        Seq::empty()
    } else if s.len() >= 2 && s[0] == '\r' && s[1] == '\n' {
        seq!['\n'] + normalize_crlf(s.skip(2))
    } else {
        seq![s[0]] + normalize_crlf(s.drop_first())
    }
}

/// Replaces every `"\r\n"` of `v` by `"\n"`.
pub fn normalize_crlf_chars(v: &Vec<char>) -> (r: Vec<char>)
    ensures
        r@ == normalize_crlf(v@),
{
    let mut r: Vec<char> = Vec::new();
    let mut i: usize = 0;
    assert(v@.skip(0) =~= v@);
    while i < v.len()
        invariant
            i <= v.len(),
            normalize_crlf(v@) == r@ + normalize_crlf(v@.skip(i as int)),
        decreases v.len() - i,
    {
        let ghost rest = v@.skip(i as int);
        if i + 1 < v.len() && v[i] == '\r' && v[i + 1] == '\n' {
            r.push('\n');
            proof {
                assert(rest[0] == '\r' && rest[1] == '\n');
                assert(rest.skip(2) =~= v@.skip(i + 2));
                assert(r@ =~= r@.drop_last() + seq!['\n']);
            }
            i = i + 2;
        } else {
            r.push(v[i]);
            proof {
                assert(rest[0] == v@[i as int]);
                assert(!(rest.len() >= 2 && rest[0] == '\r' && rest[1] == '\n'));
                assert(rest.drop_first() =~= v@.skip(i + 1));
            }
            i = i + 1;
        }
    }
    assert(v@.skip(v.len() as int) =~= Seq::<char>::empty());
    assert(r@ + Seq::<char>::empty() =~= r@);
    r
}

/// Index of the first `'\n'` in `s`, or `s.len()` when there is none.
pub open spec fn line_end(s: Seq<char>) -> nat
    decreases s.len(),
{
    if s.len() == 0 {
        0
    } else if s[0] == '\n' {
        0
    } else {
        1 + line_end(s.drop_first())
    }
}

/// A line without its trailing `'\r'`, if it has one.
pub open spec fn strip_cr(l: Seq<char>) -> Seq<char> {
    if l.len() > 0 && l.last() == '\r' {
        l.drop_last()
    } else {
        l
    }
}

/// The lines of `s` as `str::lines` yields them: split at `'\n'`, a `'\r'`
/// right before a `'\n'` dropped, and no empty line after a final `'\n'`.
pub open spec fn split_lines(s: Seq<char>) -> Seq<Seq<char>>
    decreases s.len(),
{
    if s.len() == 0 {
        Seq::empty()
    } else {
        let e = line_end(s);
        if e >= s.len() {
            seq![s]
        } else {
            seq![strip_cr(s.take(e as int))] + split_lines(s.skip(e + 1 as int))
        }
    }
}

proof fn lemma_line_end(s: Seq<char>, e: int)
    requires
        0 <= e <= s.len(),
        forall|k: int| 0 <= k < e ==> #[trigger] s[k] != '\n',
        e == s.len() || s[e] == '\n',
    ensures
        line_end(s) == e,
    decreases e,
{
    if e > 0 {
        let t = s.drop_first();
        assert forall|k: int| 0 <= k < e - 1 implies #[trigger] t[k] != '\n' by {
            assert(t[k] == s[k + 1]);
        }
        if e < s.len() {
            assert(t[e - 1] == s[e]);
        }
        lemma_line_end(t, e - 1);
    }
}

/// The views of a sequence of character vectors.
pub open spec fn views(vs: Seq<Vec<char>>) -> Seq<Seq<char>> {
    Seq::new(vs.len(), |i: int| vs[i]@)
}

/// The lines of `v` (`str::lines`).
pub fn lines_of(v: &Vec<char>) -> (r: Vec<Vec<char>>)
    ensures
        views(r@) == split_lines(v@),
{
    let mut r: Vec<Vec<char>> = Vec::new();
    let mut pos: usize = 0;
    assert(v@.skip(0) =~= v@);
    assert(views(r@) =~= Seq::<Seq<char>>::empty());
    while pos < v.len()
        invariant
            pos <= v.len(),
            split_lines(v@) == views(r@) + split_lines(v@.skip(pos as int)),
        decreases v.len() - pos,
    {
        let ghost rest = v@.skip(pos as int);
        let mut e = pos;
        while e < v.len() && v[e] != '\n'
            invariant
                pos <= e <= v.len(),
                forall|k: int| pos <= k < e ==> v@[k] != '\n',
            decreases v.len() - e,
        {
            e = e + 1;
        }
        proof {
            let d = (e - pos) as int;
            assert forall|k: int| 0 <= k < d implies #[trigger] rest[k] != '\n' by {
                assert(rest[k] == v@[pos + k]);
            }
            if e < v.len() {
                assert(rest[d] == v@[e as int]);
            }
            lemma_line_end(rest, d);
        }
        let mut line = slice_range(v, pos, e);
        if e < v.len() {
            if line.len() > 0 && line[line.len() - 1] == '\r' {
                line.pop();
            }
            proof {
                assert(rest.take((e - pos) as int) =~= v@.subrange(pos as int, e as int));
                assert(rest.skip((e - pos) + 1) =~= v@.skip(e + 1));
            }
            let ghost before = views(r@);
            r.push(line);
            proof {
                assert(views(r@) =~= before + seq![line@]);
                assert(split_lines(rest) == seq![line@] + split_lines(v@.skip(e + 1)));
                assert(before + split_lines(rest) =~= views(r@) + split_lines(
                    v@.skip(e + 1),
                ));
            }
            pos = e + 1;
        } else {
            proof {
                assert(rest =~= v@.subrange(pos as int, e as int));
            }
            let ghost before = views(r@);
            r.push(line);
            proof {
                assert(views(r@) =~= before + seq![line@]);
                assert(v@.skip(e as int) =~= Seq::<char>::empty());
                assert(split_lines(v@.skip(e as int)) =~= Seq::<Seq<char>>::empty());
                assert(before + split_lines(rest) =~= views(r@) + split_lines(
                    v@.skip(e as int),
                ));
            }
            pos = e;
        }
    }
    proof {
        assert(v@.skip(pos as int) =~= Seq::<char>::empty());
        assert(views(r@) + Seq::<Seq<char>>::empty() =~= views(r@));
    }
    r
}

/// The lines of `ls`, each followed by `'\n'`, concatenated.
pub open spec fn terminated(ls: Seq<Seq<char>>) -> Seq<char>
    decreases ls.len(),
{
    if ls.len() == 0 {
        Seq::empty()
    } else {
        terminated(ls.drop_last()) + ls.last() + seq!['\n']
    }
}

// ---------------------------------------------------------------------------
// Decimal numbers
// ---------------------------------------------------------------------------

/// The character of a decimal digit.
pub open spec fn digit_char(d: nat) -> char {
    if d == 0 {
        '0'
    } else if d == 1 {
        '1'
    } else if d == 2 {
        '2'
    } else if d == 3 {
        '3'
    } else if d == 4 {
        '4'
    } else if d == 5 {
        '5'
    } else if d == 6 {
        '6'
    } else if d == 7 {
        '7'
    } else if d == 8 {
        '8'
    } else {
        '9'
    }
}

/// The decimal representation of `n`, without sign or leading zeros
/// (what `Display` prints for an unsigned integer).
pub open spec fn decimal(n: nat) -> Seq<char>
    decreases n,
{
    if n < 10 {
        seq![digit_char(n)]
    } else {
        decimal(n / 10).push(digit_char(n % 10))
    }
}

fn digit(d: u64) -> (c: char)
    requires
        d < 10,
    ensures
        c == digit_char(d as nat),
{
    if d == 0 {
        '0'
    } else if d == 1 {
        '1'
    } else if d == 2 {
        '2'
    } else if d == 3 {
        '3'
    } else if d == 4 {
        '4'
    } else if d == 5 {
        '5'
    } else if d == 6 {
        '6'
    } else if d == 7 {
        '7'
    } else if d == 8 {
        '8'
    } else {
        '9'
    }
}

fn push_decimal(v: &mut Vec<char>, n: u64)
    ensures
        final(v)@ == old(v)@ + decimal(n as nat),
    decreases n,
{
    if n >= 10 {
        push_decimal(v, n / 10);
    }
    v.push(digit(n % 10));
    proof {
        if n < 10 {
            assert(decimal(n as nat) =~= seq![digit_char(n as nat)]);
        }
    }
}

/// The decimal text of `n` (`n.to_string()`).
pub fn u64_to_string(n: u64) -> (s: String)
    ensures
        s@ == decimal(n as nat),
{
    let mut v: Vec<char> = Vec::new();
    push_decimal(&mut v, n);
    assert(v@ =~= decimal(n as nat));
    string_from_chars(v.as_slice())
}

/// The decimal text of `n` (`n.to_string()`).
pub fn usize_to_string(n: usize) -> (s: String)
    ensures
        s@ == decimal(n as nat),
{
    u64_to_string(n as u64)
}

/// The first `n` characters of `s` (`s.chars().take(n).collect()`).
pub fn take_chars(s: &str, n: usize) -> (r: String)
    ensures
        r@ == (if s@.len() <= n { s@ } else { s@.take(n as int) }),
{
    let v = chars_of(s);
    if v.len() <= n {
        return owned(s);
    }
    let t = slice_range(&v, 0, n);
    assert(v@.subrange(0, n as int) =~= s@.take(n as int));
    string_from_chars(t.as_slice())
}

// ---------------------------------------------------------------------------
// First and last positions, prefixes and suffixes
// ---------------------------------------------------------------------------

/// The first position of `needle` in `hay` (meaningful when it occurs).
pub open spec fn first_index(hay: Seq<char>, needle: Seq<char>) -> int {
    choose|i: int| is_first_occurrence(hay, needle, i)
}

/// There is only one first occurrence.
pub proof fn lemma_first_occurrence_unique(hay: Seq<char>, needle: Seq<char>, i: int)
    requires
        is_first_occurrence(hay, needle, i),
    ensures
        first_index(hay, needle) == i,
{
    let j = first_index(hay, needle);
    assert(is_first_occurrence(hay, needle, j));
    if j < i {
        assert(!occurs_at(hay, needle, j));
    }
    if i < j {
        assert(!occurs_at(hay, needle, i));
    }
}

/// `i` is the last position of `c` in `s`.
pub open spec fn is_last_index_of(s: Seq<char>, c: char, i: int) -> bool {
    0 <= i < s.len() && s[i] == c && forall|j: int| i < j < s.len() ==> s[j] != c
}

/// The last position of `c` in `v`, if any (`str::rfind` for one character).
pub fn rfind_char(v: &Vec<char>, c: char) -> (r: Option<usize>)
    ensures
        match r {
            Some(i) => is_last_index_of(v@, c, i as int),
            None => forall|j: int| 0 <= j < v@.len() ==> v@[j] != c,
        },
{
    let mut k = v.len();
    while k > 0
        invariant
            k <= v.len(),
            forall|j: int| k <= j < v@.len() ==> v@[j] != c,
        decreases k,
    {
        if v[k - 1] == c {
            return Some(k - 1);
        }
        k = k - 1;
    }
    None
}

/// The last position of `c` in `s` (meaningful when `c` occurs).
pub open spec fn last_index_of(s: Seq<char>, c: char) -> int {
    choose|i: int| is_last_index_of(s, c, i)
}

/// There is only one last position.
pub proof fn lemma_last_index_unique(s: Seq<char>, c: char, i: int)
    requires
        is_last_index_of(s, c, i),
    ensures
        last_index_of(s, c) == i,
{
    let j = last_index_of(s, c);
    assert(is_last_index_of(s, c, j));
}

/// The first position of `needle` in `hay`, if it occurs (`str::find`).
pub fn find_first(hay: &Vec<char>, needle: &Vec<char>) -> (r: Option<usize>)
    ensures
        match r {
            Some(i) => {
                &&& contains_seq(hay@, needle@)
                &&& is_first_occurrence(hay@, needle@, i as int)
                &&& i == first_index(hay@, needle@)
            },
            None => !contains_seq(hay@, needle@),
        },
{
    let r = find_chars(hay, needle);
    if let Some(i) = r {
        proof {
            lemma_first_occurrence_unique(hay@, needle@, i as int);
        }
    }
    r
}

/// The last position of `c` in `v`, if it occurs (`str::rfind`).
pub fn find_last(v: &Vec<char>, c: char) -> (r: Option<usize>)
    ensures
        match r {
            Some(i) => (exists|j: int| is_last_index_of(v@, c, j)) && i == last_index_of(v@, c),
            None => !(exists|j: int| is_last_index_of(v@, c, j)),
        },
{
    let r = rfind_char(v, c);
    match r {
        Some(i) => {
            proof {
                lemma_last_index_unique(v@, c, i as int);
            }
        },
        None => {
            assert forall|j: int| !is_last_index_of(v@, c, j) by {
                if 0 <= j < v@.len() {
                    assert(v@[j] != c);
                }
            }
        },
    }
    r
}

/// `s` with every leading copy of `p` removed (`str::trim_start_matches`).
pub open spec fn strip_prefixes(s: Seq<char>, p: Seq<char>) -> Seq<char>
    decreases s.len(),
{
    if p.len() > 0 && starts_with(s, p) {
        strip_prefixes(s.skip(p.len() as int), p)
    } else {
        s
    }
}

/// `s` with every trailing copy of `p` removed (`str::trim_end_matches`).
pub open spec fn strip_suffixes(s: Seq<char>, p: Seq<char>) -> Seq<char>
    decreases s.len(),
{
    if p.len() > 0 && ends_with(s, p) {
        strip_suffixes(s.take(s.len() - p.len()), p)
    } else {
        s
    }
}

/// Bounds of `v[lo..hi]` without its leading copies of `p`.
pub fn strip_prefixes_bounds(v: &Vec<char>, lo: usize, hi: usize, p: &Vec<char>) -> (a: usize)
    requires
        lo <= hi <= v.len(),
    ensures
        lo <= a <= hi,
        v@.subrange(a as int, hi as int) == strip_prefixes(v@.subrange(lo as int, hi as int), p@),
{
    let mut a = lo;
    while a < hi
        invariant
            lo <= a <= hi <= v.len(),
            strip_prefixes(v@.subrange(lo as int, hi as int), p@) == strip_prefixes(
                v@.subrange(a as int, hi as int),
                p@,
            ),
        decreases hi - a,
    {
        let ghost cur = v@.subrange(a as int, hi as int);
        if p.len() == 0 || p.len() > hi - a {
            return a;
        }
        if !matches_at(v, p, a) {
            proof {
                assert(v@.subrange(a as int, a + p@.len()) =~= cur.take(p@.len() as int));
            }
            return a;
        }
        proof {
            assert(v@.subrange(a as int, a + p@.len()) =~= cur.take(p@.len() as int));
            assert(cur.skip(p@.len() as int) =~= v@.subrange(a + p@.len(), hi as int));
        }
        a = a + p.len();
    }
    a
}

/// Bounds of `v[lo..hi]` without its trailing copies of `p`.
pub fn strip_suffixes_bounds(v: &Vec<char>, lo: usize, hi: usize, p: &Vec<char>) -> (b: usize)
    requires
        lo <= hi <= v.len(),
    ensures
        lo <= b <= hi,
        v@.subrange(lo as int, b as int) == strip_suffixes(v@.subrange(lo as int, hi as int), p@),
{
    let mut b = hi;
    while b > lo
        invariant
            lo <= b <= hi <= v.len(),
            strip_suffixes(v@.subrange(lo as int, hi as int), p@) == strip_suffixes(
                v@.subrange(lo as int, b as int),
                p@,
            ),
        decreases b - lo,
    {
        let ghost cur = v@.subrange(lo as int, b as int);
        if p.len() == 0 || p.len() > b - lo {
            return b;
        }
        let start = b - p.len();
        if !matches_at(v, p, start) {
            proof {
                assert(v@.subrange(start as int, b as int) =~= cur.skip(cur.len() - p@.len()));
            }
            return b;
        }
        proof {
            assert(v@.subrange(start as int, b as int) =~= cur.skip(cur.len() - p@.len()));
            assert(cur.take(cur.len() - p@.len()) =~= v@.subrange(lo as int, start as int));
        }
        b = start;
    }
    b
}

} // verus!
