//! The search-and-replace algorithm behind the `apply_patch` tool.
//!
//! A patch replaces an original snippet of a file by a new snippet.  Line
//! endings are normalised to `'\n'` first.  Without a line hint the first exact
//! occurrence of the snippet is replaced.  Otherwise (or when there is no exact
//! occurrence) the file and the snippet are compared line by line, ignoring
//! leading and trailing whitespace, from the hinted line on; the first block of
//! lines that matches is replaced and the file is re-assembled around it.

use vstd::prelude::*;
use crate::text::{
    chars_eq, chars_of, contains_seq, find_chars, is_first_occurrence, lines_of, normalize_crlf,
    normalize_crlf_chars, owned, push_all, slice_range, split_lines, string_from_chars, terminated,
    trim, trim_bounds, views, occurs_at,
};

verus! {

/// Why a patch could not be applied.
#[derive(Debug, Clone, Copy, PartialEq, Eq, Structural)]
pub enum PatchError {
    /// The original snippet has no lines.
    EmptyOriginal,
    /// Neither the exact nor the line-wise search found the snippet.
    NotFound,
    /// The line-wise search ran past the last line of the file: the file has
    /// fewer lines than the snippet, and all of them match its first lines.
    RanPastEnd,
}

impl PatchError {
    /// The message reported for this error.
    pub fn message(&self) -> (m: String)
        ensures
            *self == PatchError::EmptyOriginal ==> m@ == "Original snippet is empty"@,
            *self == PatchError::NotFound ==> m@
                == "Original snippet not found (tried exact and fuzzy match)."@,
            *self == PatchError::RanPastEnd ==> m@
                == "Line-wise match ran past the end of the file"@,
    {
        match self {
            PatchError::EmptyOriginal => owned("Original snippet is empty"),
            PatchError::NotFound => owned(
                "Original snippet not found (tried exact and fuzzy match).",
            ),
            PatchError::RanPastEnd => owned("Line-wise match ran past the end of the file"),
        }
    }
}

/// The lines `ol` match the lines of `cl` starting at line `i`, each line
/// compared without leading and trailing whitespace.
pub open spec fn block_matches(cl: Seq<Seq<char>>, ol: Seq<Seq<char>>, i: int) -> bool {
    &&& 0 <= i
    &&& i + ol.len() <= cl.len()
    &&& forall|j: int| 0 <= j < ol.len() ==> trim(#[trigger] cl[i + j]) == trim(ol[j])
}

/// `i` is the first line at or after `s` where `ol` matches.
pub open spec fn is_first_block(cl: Seq<Seq<char>>, ol: Seq<Seq<char>>, s: int, i: int) -> bool {
    &&& s <= i
    &&& block_matches(cl, ol, i)
    &&& forall|k: int| s <= k < i ==> !block_matches(cl, ol, k)
}

/// The line where the line-wise search starts (line hints count from 1);
/// `None` for a negative hint, from which no line can be reached.
pub open spec fn search_start(start: Option<i64>) -> Option<int> {
    match start {
        None => Some(0),
        Some(l) => if l < 0 {
            None
        } else if l == 0 {
            Some(0)
        } else {
            Some(l - 1)
        },
    }
}

/// The file re-assembled after the block of `olen` lines at line `m` of `cl`
/// is replaced by `new`.
pub open spec fn rebuild(
    content: Seq<char>,
    cl: Seq<Seq<char>>,
    m: int,
    olen: int,
    new: Seq<char>,
) -> Seq<char> {
    let head = terminated(cl.take(m)) + new;
    let end = m + olen;
    if end < cl.len() {
        let a = if new.len() > 0 && new.last() == '\n' {
            head
        } else {
            head.push('\n')
        };
        let b = a + terminated(cl.skip(end)).drop_last();
        if !(b.len() > 0 && b.last() == '\n') && content.len() > 0 && content.last() == '\n' {
            b.push('\n')
        } else {
            b
        }
    } else {
        head
    }
}

/// What applying a patch gives: the new file text or the error.
pub open spec fn patch_outcome(
    content: Seq<char>,
    original: Seq<char>,
    new: Seq<char>,
    start: Option<i64>,
    r: Result<Seq<char>, PatchError>,
) -> bool {
    let c = normalize_crlf(content);
    let o = normalize_crlf(original);
    if start is None && contains_seq(c, o) {
        exists|i: int|
            is_first_occurrence(c, o, i) && r == Ok::<Seq<char>, PatchError>(
                c.take(i) + new + c.skip(i + o.len()),
            )
    } else {
        let cl = split_lines(c);
        let ol = split_lines(o);
        if ol.len() == 0 {
            r == Err::<Seq<char>, PatchError>(PatchError::EmptyOriginal)
        } else {
            match search_start(start) {
                None => r == Err::<Seq<char>, PatchError>(PatchError::NotFound),
                Some(s) => if ol.len() <= cl.len() {
                    if exists|i: int| s <= i && block_matches(cl, ol, i) {
                        exists|i: int|
                            is_first_block(cl, ol, s, i) && r == Ok::<Seq<char>, PatchError>(
                                rebuild(content, cl, i, ol.len() as int, new),
                            )
                    } else {
                        r == Err::<Seq<char>, PatchError>(PatchError::NotFound)
                    }
                } else {
                    if s == 0 && forall|j: int| 0 <= j < cl.len() ==> trim(#[trigger] cl[j]) == trim(ol[j]) {
                        r == Err::<Seq<char>, PatchError>(PatchError::RanPastEnd)
                    } else {
                        r == Err::<Seq<char>, PatchError>(PatchError::NotFound)
                    }
                },
            }
        }
    }
}

/// Every way `rebuild` ends starts with the kept lines and the new text.
proof fn lemma_rebuild_prefix(content: Seq<char>, cl: Seq<Seq<char>>, m: int, olen: int, new: Seq<char>)
    ensures
        ({
            let head = terminated(cl.take(m)) + new;
            let res = rebuild(content, cl, m, olen, new);
            res.len() >= head.len() && res.subrange(0, head.len() as int) == head
        }),
{
    let head = terminated(cl.take(m)) + new;
    let end = m + olen;
    if end < cl.len() {
        let a = if new.len() > 0 && new.last() == '\n' {
            head
        } else {
            head.push('\n')
        };
        assert(a.subrange(0, head.len() as int) =~= head);
        let b = a + terminated(cl.skip(end)).drop_last();
        assert(b.subrange(0, head.len() as int) =~= head);
        if !(b.len() > 0 && b.last() == '\n') && content.len() > 0 && content.last() == '\n' {
            assert(b.push('\n').subrange(0, head.len() as int) =~= head);
        }
    } else {
        assert(head.subrange(0, head.len() as int) =~= head);
    }
}

/// Law: a line-wise patch keeps the file before the matched block as it
/// was.  When the patch is applied line by line (the hint is given, or the
/// text does not occur exactly) and the block first matches at line `m`,
/// the result starts with the file's first `m` lines exactly as they were
/// (whitespace included), each ending with a newline, followed by the new
/// text.
pub proof fn law_patch_keeps_lines_before_block(
    content: Seq<char>,
    original: Seq<char>,
    new: Seq<char>,
    start: Option<i64>,
    r: Seq<char>,
    s: int,
    m: int,
)
    requires
        patch_outcome(content, original, new, start, Ok(r)),
        !(start is None && contains_seq(normalize_crlf(content), normalize_crlf(original))),
        search_start(start) == Some(s),
        is_first_block(split_lines(normalize_crlf(content)), split_lines(normalize_crlf(original)), s, m),
    ensures
        ({
            let kept = terminated(split_lines(normalize_crlf(content)).take(m));
            &&& r.len() >= kept.len() + new.len()
            &&& r.take(kept.len() as int) == kept
            &&& r.subrange(kept.len() as int, (kept.len() + new.len()) as int) == new
        }),
{
    let c = normalize_crlf(content);
    let cl = split_lines(c);
    let ol = split_lines(normalize_crlf(original));
    let kept = terminated(cl.take(m));
    let head = kept + new;
    assert(ol.len() != 0);
    assert(ol.len() <= cl.len());
    assert(exists|i: int| s <= i && block_matches(cl, ol, i));
    let i = choose|i: int|
        is_first_block(cl, ol, s, i) && Ok::<Seq<char>, PatchError>(r) == Ok::<Seq<char>, PatchError>(
            rebuild(content, cl, i, ol.len() as int, new),
        );
    if i < m {
        assert(!block_matches(cl, ol, i));
    }
    if m < i {
        assert(!block_matches(cl, ol, m));
    }
    assert(i == m);
    lemma_rebuild_prefix(content, cl, m, ol.len() as int, new);
    assert(r.subrange(0, head.len() as int) == head);
    assert(r.take(kept.len() as int) =~= head.subrange(0, kept.len() as int));
    assert(head.subrange(0, kept.len() as int) =~= kept);
    assert(r.subrange(kept.len() as int, (kept.len() + new.len()) as int) =~= head.subrange(
        kept.len() as int,
        head.len() as int,
    ));
    assert(head.subrange(kept.len() as int, head.len() as int) =~= new);
}

/// Law: a line-wise patch keeps the file after the matched block.  When
/// the block of `ol` lines first matches at line `m` and lines remain after
/// it, the new text is followed by a line break (its own last one, or one
/// added), then by the remaining lines exactly as they were, joined by line
/// breaks, and at most a final line break after them.
pub proof fn law_patch_keeps_lines_after_block(
    content: Seq<char>,
    original: Seq<char>,
    new: Seq<char>,
    start: Option<i64>,
    r: Seq<char>,
    s: int,
    m: int,
)
    requires
        patch_outcome(content, original, new, start, Ok(r)),
        !(start is None && contains_seq(normalize_crlf(content), normalize_crlf(original))),
        search_start(start) == Some(s),
        is_first_block(split_lines(normalize_crlf(content)), split_lines(normalize_crlf(original)), s, m),
        m + split_lines(normalize_crlf(original)).len() < split_lines(normalize_crlf(content)).len(),
    ensures
        ({
            let cl = split_lines(normalize_crlf(content));
            let rest = terminated(cl.skip(m + split_lines(normalize_crlf(original)).len())).drop_last();
            let at: int = (terminated(cl.take(m)).len() + new.len()) as int;
            let p = if new.len() > 0 && new.last() == '\n' { at } else { at + 1 };
            &&& r.len() == p + rest.len() || r.len() == p + rest.len() + 1
            &&& r[p - 1] == '\n'
            &&& r.subrange(p, p + rest.len() as int) == rest
            &&& r.len() == p + rest.len() + 1 ==> r.last() == '\n'
        }),
{
    let c = normalize_crlf(content);
    let cl = split_lines(c);
    let ol = split_lines(normalize_crlf(original));
    assert(ol.len() != 0);
    assert(exists|i: int| s <= i && block_matches(cl, ol, i));
    let i = choose|i: int|
        is_first_block(cl, ol, s, i) && Ok::<Seq<char>, PatchError>(r) == Ok::<Seq<char>, PatchError>(
            rebuild(content, cl, i, ol.len() as int, new),
        );
    if i < m {
        assert(!block_matches(cl, ol, i));
    }
    if m < i {
        assert(!block_matches(cl, ol, m));
    }
    let head = terminated(cl.take(m)) + new;
    let a = if new.len() > 0 && new.last() == '\n' {
        head
    } else {
        head.push('\n')
    };
    let rest = terminated(cl.skip(m + ol.len())).drop_last();
    let b = a + rest;
    assert(b.subrange(a.len() as int, b.len() as int) =~= rest);
    if new.len() > 0 && new.last() == '\n' {
        assert(a[a.len() - 1] == new.last());
    }
    assert(b[a.len() - 1] == a[a.len() - 1]);
    if !(b.len() > 0 && b.last() == '\n') && content.len() > 0 && content.last() == '\n' {
        assert(b.push('\n').subrange(a.len() as int, b.len() as int) =~= rest);
    }
}

/// Law: without a line hint, a snippet that occurs in the file is replaced
/// at its first occurrence, and only there.  With CRLF line ends read as
/// LF, if the snippet first occurs at `i`, the result is the file up to
/// `i`, then the new text, then the file after the snippet, unchanged.
pub proof fn law_patch_exact_first_occurrence(
    content: Seq<char>,
    original: Seq<char>,
    new: Seq<char>,
    r: Seq<char>,
    i: int,
)
    requires
        patch_outcome(content, original, new, None, Ok(r)),
        is_first_occurrence(normalize_crlf(content), normalize_crlf(original), i),
    ensures
        ({
            let c = normalize_crlf(content);
            let o = normalize_crlf(original);
            &&& r.len() == c.len() - o.len() + new.len()
            &&& r.take(i) == c.take(i)
            &&& r.subrange(i, i + new.len()) == new
            &&& r.skip(i + new.len()) == c.skip(i + o.len())
        }),
{
    let c = normalize_crlf(content);
    let o = normalize_crlf(original);
    assert(contains_seq(c, o));
    let j = choose|j: int|
        is_first_occurrence(c, o, j) && Ok::<Seq<char>, PatchError>(r) == Ok::<Seq<char>, PatchError>(
            c.take(j) + new + c.skip(j + o.len()),
        );
    if j < i {
        assert(!occurs_at(c, o, j));
    }
    if i < j {
        assert(!occurs_at(c, o, i));
    }
    assert(r.take(i) =~= c.take(i));
    assert(r.subrange(i, i + new.len()) =~= new);
    assert(r.skip(i + new.len()) =~= c.skip(i + o.len()));
}

/// The view of a patch result.
pub open spec fn patch_result_view(r: Result<String, PatchError>) -> Result<Seq<char>, PatchError> {
    match r {
        Ok(s) => Ok(s@),
        Err(e) => Err(e),
    }
}

/// The trimmed copy of every line.
fn trim_all(ls: &Vec<Vec<char>>) -> (r: Vec<Vec<char>>)
    ensures
        r.len() == ls.len(),
        forall|k: int| 0 <= k < ls.len() ==> (#[trigger] r@[k])@ == trim(ls@[k]@),
{
    let mut r: Vec<Vec<char>> = Vec::new();
    let mut k: usize = 0;
    while k < ls.len()
        invariant
            k <= ls.len(),
            r.len() == k,
            forall|m: int| 0 <= m < k ==> (#[trigger] r@[m])@ == trim(ls@[m]@),
        decreases ls.len() - k,
    {
        let line = &ls[k];
        let (a, b) = trim_bounds(line, 0, line.len());
        assert(line@.subrange(0, line@.len() as int) =~= line@);
        r.push(slice_range(line, a, b));
        k = k + 1;
    }
    r
}

proof fn lemma_terminated_step(ls: Seq<Seq<char>>, k: int)
    requires
        0 <= k < ls.len(),
    ensures
        terminated(ls.take(k + 1)) == terminated(ls.take(k)) + ls[k] + seq!['\n'],
{
    let t = ls.take(k + 1);
    assert(t.drop_last() =~= ls.take(k));
    assert(t.last() == ls[k]);
}

/// Re-assembles the file around the replaced block (see `rebuild`).
fn rebuild_chars(
    content: &Vec<char>,
    cl: &Vec<Vec<char>>,
    m: usize,
    olen: usize,
    new: &Vec<char>,
) -> (r: Vec<char>)
    requires
        m + olen <= cl.len(),
    ensures
        r@ == rebuild(content@, views(cl@), m as int, olen as int, new@),
{
    let ghost lv = views(cl@);
    let mut sb: Vec<char> = Vec::new();
    let mut k: usize = 0;
    assert(lv.take(0) =~= Seq::<Seq<char>>::empty());
    while k < m
        invariant
            m + olen <= cl.len(),
            lv == views(cl@),
            k <= m,
            sb@ == terminated(lv.take(k as int)),
        decreases m - k,
    {
        push_all(&mut sb, &cl[k]);
        sb.push('\n');
        proof {
            lemma_terminated_step(lv, k as int);
        }
        k = k + 1;
    }
    push_all(&mut sb, new);
    let ghost head = sb@;
    let end = m + olen;
    if end < cl.len() {
        if !(new.len() > 0 && new[new.len() - 1] == '\n') {
            sb.push('\n');
        }
        let ghost a = sb@;
        let ghost tail = lv.skip(end as int);
        let last = cl.len() - 1;
        let mut k2: usize = end;
        assert(tail.take(0) =~= Seq::<Seq<char>>::empty());
        assert(sb@ =~= a + terminated(tail.take(0)));
        while k2 < last
            invariant
                end <= k2 <= last,
                last == cl.len() - 1,
                lv == views(cl@),
                tail == lv.skip(end as int),
                sb@ == a + terminated(tail.take(k2 - end)),
            decreases last - k2,
        {
            push_all(&mut sb, &cl[k2]);
            sb.push('\n');
            proof {
                assert(tail[k2 - end] == cl@[k2 as int]@);
                lemma_terminated_step(tail, k2 - end);
            }
            k2 = k2 + 1;
        }
        push_all(&mut sb, &cl[last]);
        proof {
            let n = tail.len();
            assert(n == last - end + 1);
            assert(tail.drop_last() =~= tail.take(n - 1));
            assert(tail.last() == cl@[last as int]@);
            assert(terminated(tail).drop_last() =~= terminated(tail.take(n - 1)) + tail.last());
            assert(sb@ =~= a + terminated(tail).drop_last());
        }
        let ends_nl = sb.len() > 0 && sb[sb.len() - 1] == '\n';
        if !ends_nl && content.len() > 0 && content[content.len() - 1] == '\n' {
            sb.push('\n');
        }
    }
    sb
}

/// Compares the trimmed lines `tol` with the trimmed lines `tcl` from line
/// `i` on, stopping at the first difference.  `None` when the comparison runs
/// past the last line of `tcl` before a difference is found.
fn compare_block(tcl: &Vec<Vec<char>>, tol: &Vec<Vec<char>>, i: usize) -> (r: Option<bool>)
    requires
        i <= tcl.len(),
    ensures
        r is None ==> i + tol.len() > tcl.len() && forall|m: int|
            0 <= m < tcl.len() - i ==> (#[trigger] tcl@[i + m])@ == tol@[m]@,
        r == Some(true) ==> i + tol.len() <= tcl.len() && forall|m: int|
            0 <= m < tol.len() ==> (#[trigger] tcl@[i + m])@ == tol@[m]@,
        r == Some(false) ==> exists|m: int|
            0 <= m < tol.len() && i + m < tcl.len() && (#[trigger] tcl@[i + m])@ != tol@[m]@,
{
    let mut j: usize = 0;
    while j < tol.len()
        invariant
            i <= tcl.len(),
            j <= tol.len(),
            i + j <= tcl.len(),
            forall|m: int| 0 <= m < j ==> (#[trigger] tcl@[i + m])@ == tol@[m]@,
        decreases tol.len() - j,
    {
        if i + j >= tcl.len() {
            return None;
        }
        if !chars_eq(&tcl[i + j], &tol[j]) {
            return Some(false);
        }
        j = j + 1;
    }
    Some(true)
}

/// Applies a patch to the text of a file: replaces `original` by
/// `new_snippet`, exactly or line by line (see `patch_outcome`).
pub fn patch_text(content: &str, original: &str, new_snippet: &str, start_line: Option<i64>) -> (r:
    Result<String, PatchError>)
    ensures
        patch_outcome(content@, original@, new_snippet@, start_line, patch_result_view(r)),
{
    let cv = chars_of(content);
    let c = normalize_crlf_chars(&cv);
    let ov = chars_of(original);
    let o = normalize_crlf_chars(&ov);
    let nv = chars_of(new_snippet);

    if start_line.is_none() {
        if let Some(i) = find_chars(&c, &o) {
            let mut out = slice_range(&c, 0, i);
            push_all(&mut out, &nv);
            let rest = slice_range(&c, i + o.len(), c.len());
            push_all(&mut out, &rest);
            proof {
                assert(c@.subrange(0, i as int) =~= c@.take(i as int));
                assert(c@.subrange(i + o@.len(), c@.len() as int) =~= c@.skip(i + o@.len()));
            }
            return Ok(string_from_chars(out.as_slice()));
        }
    }
    assert(!(start_line is None && contains_seq(c@, o@)));
    let cl = lines_of(&c);
    let ol = lines_of(&o);
    if ol.len() == 0 {
        return Err(PatchError::EmptyOriginal);
    }
    let s: usize = match start_line {
        None => 0,
        Some(l) => {
            if l < 0 {
                return Err(PatchError::NotFound);
            } else if l == 0 {
                0
            } else {
                let l1: u64 = (l - 1) as u64;
                if l1 > cl.len() as u64 {
                    proof {
                        let cls = split_lines(c@);
                        let ols = split_lines(o@);
                        assert forall|i: int| (l - 1) <= i implies !block_matches(cls, ols, i) by {}
                    }
                    return Err(PatchError::NotFound);
                }
                l1 as usize
            }
        },
    };
    let ghost cls = views(cl@);
    let ghost ols = views(ol@);
    assert(search_start(start_line) == Some(s as int));
    let tcl = trim_all(&cl);
    let tol = trim_all(&ol);
    let upper: usize = if cl.len() >= ol.len() {
        cl.len() - ol.len()
    } else {
        0
    };
    if s > upper {
        proof {
            assert forall|i: int| s <= i implies !block_matches(cls, ols, i) by {}
        }
        return Err(PatchError::NotFound);
    }
    let mut i: usize = s;
    while i <= upper
        invariant
            s <= i <= upper,
            upper == (if cl.len() >= ol.len() { cl.len() - ol.len() } else { 0int }),
            cls == views(cl@),
            ols == views(ol@),
            cls == split_lines(c@),
            ols == split_lines(o@),
            c@ == normalize_crlf(content@),
            o@ == normalize_crlf(original@),
            cv@ == content@,
            nv@ == new_snippet@,
            !(start_line is None && contains_seq(c@, o@)),
            search_start(start_line) == Some(s as int),
            ol.len() > 0,
            tcl.len() == cl.len(),
            tol.len() == ol.len(),
            forall|k: int| 0 <= k < cl.len() ==> (#[trigger] tcl@[k])@ == trim(cl@[k]@),
            forall|k: int| 0 <= k < ol.len() ==> (#[trigger] tol@[k])@ == trim(ol@[k]@),
            forall|k: int| s <= k < i ==> !block_matches(cls, ols, k),
        decreases upper - i,
    {
        let outcome = compare_block(&tcl, &tol, i);
        match outcome {
            None => {
                proof {
                    assert(cl.len() < ol.len());
                    assert(i == 0);
                    assert forall|jj: int| 0 <= jj < cls.len() implies trim(#[trigger] cls[jj])
                        == trim(ols[jj]) by {
                        assert(tcl@[0 + jj]@ == tol@[jj]@);
                    }
                }
                return Err(PatchError::RanPastEnd);
            },
            Some(true) => {
                proof {
                    assert forall|j: int| 0 <= j < ols.len() implies trim(#[trigger] cls[i + j])
                        == trim(ols[j]) by {
                        assert(tcl@[i + j]@ == tol@[j]@);
                    }
                    assert(block_matches(cls, ols, i as int));
                    assert(is_first_block(cls, ols, s as int, i as int));
                }
                let out = rebuild_chars(&cv, &cl, i, ol.len(), &nv);
                let text = string_from_chars(out.as_slice());
                proof {
                    let r = Ok::<String, PatchError>(text);
                    assert(patch_result_view(r) == Ok::<Seq<char>, PatchError>(
                        rebuild(content@, cls, i as int, ols.len() as int, new_snippet@),
                    ));
                    assert(ols.len() <= cls.len());
                    assert(exists|k: int| s <= k && block_matches(cls, ols, k));
                }
                return Ok(text);
            },
            Some(false) => {
                proof {
                    let m = choose|m: int|
                        0 <= m < tol.len() && i + m < tcl.len() && tcl@[i + m]@ != tol@[m]@;
                    assert(trim(cls[i + m]) != trim(ols[m]));
                    assert(!block_matches(cls, ols, i as int));
                    if cl.len() < ol.len() {
                        assert(!(s == 0 && forall|j: int|
                            0 <= j < cls.len() ==> trim(#[trigger] cls[j]) == trim(ols[j])));
                    }
                }
            },
        }
        if i == upper {
            proof {
                assert forall|k: int| s <= k implies !block_matches(cls, ols, k) by {
                    if k > i {
                        assert(!(k + ols.len() <= cls.len()));
                    }
                }
            }
            return Err(PatchError::NotFound);
        }
        i = i + 1;
    }
    Err(PatchError::NotFound)
}

} // verus!
