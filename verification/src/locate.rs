use vstd::prelude::*;
use vstd::utf8::is_continuation_byte;
use crate::diagnostic::RenderError;

verus! {

/// 1-based line and character column of a byte offset, as the locator
/// reports them.
#[derive(Clone, Copy, Debug, PartialEq, Eq, Structural)]
pub struct LineColumn {
    pub line: usize,
    pub column: usize,
}

/// 0-based line index and 0-based column of byte offset `off`: the line
/// counts the line feeds before `off`, the column counts the Unicode
/// scalars (the non-continuation bytes) since the line's start.
pub open spec fn loc_of(s: Seq<u8>, off: int) -> (int, int)
    decreases off,
{
    if off <= 0 {
        (0, 0)
    } else {
        let p = loc_of(s, off - 1);
        if s[off - 1] == 10 {
            (p.0 + 1, 0)
        } else if is_continuation_byte(s[off - 1]) {
            p
        } else {
            (p.0, p.1 + 1)
        }
    }
}

/// Offset of the first line feed at or after `i`, or the text's length if
/// there is none.
pub open spec fn next_newline(s: Seq<u8>, i: int) -> int
    decreases s.len() - i,
{
    if 0 <= i < s.len() {
        if s[i] == 10 {
            i
        } else {
            next_newline(s, i + 1)
        }
    } else {
        s.len() as int
    }
}

/// Start offset of the 0-based line `k`: 0 for the first line, one past
/// the k-th line feed otherwise (the text's length once lines run out).
pub open spec fn line_start_of(s: Seq<u8>, k: int) -> int
    decreases k,
{
    if k <= 0 {
        0
    } else {
        let e = next_newline(s, line_start_of(s, k - 1));
        if e < s.len() {
            e + 1
        } else {
            s.len() as int
        }
    }
}

/// Whether the text has a 0-based line `k`: line 0 always exists, line
/// k + 1 exists when line k ends in a line feed.
pub open spec fn line_exists(s: Seq<u8>, k: int) -> bool
    decreases k,
{
    if k <= 0 {
        true
    } else {
        line_exists(s, k - 1) && next_newline(s, line_start_of(s, k - 1)) < s.len()
    }
}

/// A line that exists has existing predecessors.
pub proof fn lemma_line_exists_monotone(s: Seq<u8>, j: int, k: int)
    requires
        j <= k,
        line_exists(s, k),
    ensures
        line_exists(s, j),
    decreases k - j,
{
    if j < k {
        lemma_line_exists_monotone(s, j, k - 1);
    }
}

/// `next_newline` never moves backwards.
pub proof fn lemma_next_newline_ge(s: Seq<u8>, i: int)
    requires
        0 <= i <= s.len(),
    ensures
        i <= next_newline(s, i) <= s.len(),
    decreases s.len() - i,
{
    if i < s.len() && s[i] != 10 {
        lemma_next_newline_ge(s, i + 1);
    }
}

/// Pins `next_newline(s, i)` to `j` when no line feed sits in `[i, j)`
/// and `j` is a line feed or the end of the text.
pub proof fn lemma_next_newline_at(s: Seq<u8>, i: int, j: int)
    requires
        0 <= i <= j <= s.len(),
        forall|m: int| i <= m < j ==> s[m] != 10,
        j == s.len() || s[j] == 10,
    ensures
        next_newline(s, i) == j,
    decreases j - i,
{
    if i < j {
        assert(s[i] != 10);
        lemma_next_newline_at(s, i + 1, j);
    }
}

/// One line starts at or after the one before it.
pub proof fn lemma_line_start_step(s: Seq<u8>, k: int)
    requires
        k >= 0,
    ensures
        0 <= line_start_of(s, k) <= line_start_of(s, k + 1) <= s.len(),
    decreases k,
{
    if k == 0 {
        lemma_next_newline_ge(s, 0);
    } else {
        lemma_line_start_step(s, k - 1);
        lemma_next_newline_ge(s, line_start_of(s, k));
    }
}

/// Line starts never move backwards.
pub proof fn lemma_line_start_monotone(s: Seq<u8>, j: int, k: int)
    requires
        0 <= j <= k,
    ensures
        0 <= line_start_of(s, j) <= line_start_of(s, k) <= s.len(),
    decreases k - j,
{
    if j == k {
        if k == 0 {
        } else {
            lemma_line_start_step(s, k - 1);
        }
    } else {
        lemma_line_start_monotone(s, j, k - 1);
        lemma_line_start_step(s, k - 1);
    }
}

/// The line that an offset lies on exists, starts at or before the
/// offset, and has no line feed between its start and the offset.
pub proof fn lemma_loc_line(s: Seq<u8>, off: int)
    requires
        0 <= off <= s.len(),
    ensures
        line_exists(s, loc_of(s, off).0),
        line_start_of(s, loc_of(s, off).0) <= off,
        forall|m: int| line_start_of(s, loc_of(s, off).0) <= m < off ==> s[m] != 10,
    decreases off,
{
    if off > 0 {
        lemma_loc_line(s, off - 1);
        let l = loc_of(s, off - 1).0;
        lemma_loc_monotone(s, 0, off - 1);
        if s[off - 1] == 10 {
            let ls = line_start_of(s, l);
            lemma_line_start_monotone(s, 0, l);
            lemma_next_newline_at(s, ls, off - 1);
            assert(next_newline(s, line_start_of(s, l)) == off - 1);
            assert(l + 1 > 0);
            assert(line_exists(s, l + 1));
            assert(line_start_of(s, l + 1) == off);
        }
    }
}

/// The line index of an offset never decreases as the offset grows.
pub proof fn lemma_loc_monotone(s: Seq<u8>, a: int, b: int)
    requires
        a <= b,
    ensures
        loc_of(s, a).0 <= loc_of(s, b).0,
    decreases b - a,
{
    if a < b {
        lemma_loc_monotone(s, a, b - 1);
    }
}

/// Finds the first line feed at or after `from`.
fn find_newline(text: &Vec<u8>, from: usize) -> (r: usize)
    requires
        from <= text@.len(),
    ensures
        r as int == next_newline(text@, from as int),
        from <= r <= text@.len(),
{
    let n = text.len();
    let mut j = from;
    while j < n && text[j] != 10
        invariant
            from <= j <= n,
            n == text@.len(),
            forall|m: int| from <= m < j ==> text@[m] != 10,
        decreases n - j,
    {
        j += 1;
    }
    proof {
        lemma_next_newline_at(text@, from as int, j as int);
    }
    j
}

/// Resolves a byte offset to its 1-based line and column. Fails with
/// `LocationOutOfBounds` exactly when the offset lies past the end of the
/// text. The column counts Unicode scalar values, not bytes.
pub fn location(text: &Vec<u8>, offset: u32) -> (r: Result<LineColumn, RenderError>)
    requires
        text@.len() < usize::MAX,
    ensures
        offset <= text@.len() ==> (r matches Ok(p) && p.line as int == loc_of(
            text@,
            offset as int,
        ).0 + 1 && p.column as int == loc_of(text@, offset as int).1 + 1),
        offset > text@.len() ==> (r matches Err(e) && e == RenderError::LocationOutOfBounds),
{
    let n = text.len();
    if offset as usize > n {
        return Err(RenderError::LocationOutOfBounds);
    }
    let off = offset as usize;
    let mut line: usize = 0;
    let mut col: usize = 0;
    let mut i: usize = 0;
    while i < off
        invariant
            i <= off <= n,
            n == text@.len(),
            line == loc_of(text@, i as int).0,
            col == loc_of(text@, i as int).1,
            line <= i,
            col <= i,
        decreases off - i,
    {
        let b = text[i];
        if b == 10 {
            line += 1;
            col = 0;
        } else if 0x80 <= b && b <= 0xbf {
        } else {
            col += 1;
        }
        i += 1;
    }
    Ok(LineColumn { line: line + 1, column: col + 1 })
}

/// The byte range `[start, end)` of the 0-based line `line_index`, its
/// terminator included. Fails with `LocationOutOfBounds` exactly when the
/// text has no such line.
pub fn line_range(text: &Vec<u8>, line_index: usize) -> (r: Result<(usize, usize), RenderError>)
    ensures
        line_exists(text@, line_index as int) ==> (r matches Ok(p) && p.0 as int == line_start_of(
            text@,
            line_index as int,
        ) && p.1 as int == line_start_of(text@, line_index as int + 1)),
        !line_exists(text@, line_index as int) ==> (r matches Err(e) && e
            == RenderError::LocationOutOfBounds),
{
    let n = text.len();
    let mut start: usize = 0;
    let mut k: usize = 0;
    while k < line_index
        invariant
            k <= line_index,
            n == text@.len(),
            start <= n,
            start as int == line_start_of(text@, k as int),
            line_exists(text@, k as int),
        decreases line_index - k,
    {
        let nn = find_newline(text, start);
        if nn == n {
            proof {
                assert(!line_exists(text@, k as int + 1));
                if line_exists(text@, line_index as int) {
                    lemma_line_exists_monotone(text@, k as int + 1, line_index as int);
                }
            }
            return Err(RenderError::LocationOutOfBounds);
        }
        start = nn + 1;
        k += 1;
    }
    let nn = find_newline(text, start);
    let end = if nn == n {
        n
    } else {
        nn + 1
    };
    Ok((start, end))
}

} // verus!
