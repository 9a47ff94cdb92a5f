use vstd::prelude::*;
use crate::diagnostic::TextSpan;
use crate::scalar::{decode_scalar, is_unicode_ws, scalar_at, scalar_len_at, unicode_ws_char};

verus! {

/// A byte sub-range of one line's trimmed text: the portion to highlight
/// on that line.
#[derive(Clone, Copy, Debug, PartialEq, Eq, Structural)]
pub struct Marker {
    pub start: usize,
    pub end: usize,
}

/// The marker of one line under a span, by the line's role. `line_start`
/// and `line_end` bound the line's bytes terminator included,
/// `trimmed_len` is the line's length with the terminator trimmed, and
/// `lead_ws` the byte length of its leading whitespace. Offsets local to
/// the line are clamped below at zero.
pub open spec fn marker_of(
    span_start: int,
    span_end: int,
    line_start: int,
    line_end: int,
    trimmed_len: int,
    lead_ws: int,
    is_first: bool,
    is_last: bool,
) -> (int, int) {
    let local_start = if span_start > line_start {
        span_start - line_start
    } else {
        0
    };
    let local_end = if span_end >= line_end {
        line_end - line_start
    } else if span_end > line_start {
        span_end - line_start
    } else {
        0
    };
    if is_first && is_last {
        (local_start, local_end)
    } else if is_first {
        (local_start, trimmed_len)
    } else if is_last {
        (lead_ws, local_end)
    } else {
        (0, trimmed_len)
    }
}

/// Computes the highlighted sub-range of one physical line given the
/// diagnostic's global span. A single line covering the whole span keeps
/// the span's local offsets; the first line of a multi-line span extends
/// to the line's end; the last line starts at its first non-whitespace
/// character; an interior line is highlighted whole.
pub fn clip_marker(
    span: TextSpan,
    line_start: usize,
    line_end: usize,
    trimmed_len: usize,
    lead_ws: usize,
    is_first: bool,
    is_last: bool,
) -> (m: Marker)
    requires
        line_start <= line_end,
        lead_ws <= trimmed_len,
    ensures
        (m.start as int, m.end as int) == marker_of(
            span.start as int,
            span.end as int,
            line_start as int,
            line_end as int,
            trimmed_len as int,
            lead_ws as int,
            is_first,
            is_last,
        ),
{
    let ss = span.start as usize;
    let se = span.end as usize;
    let local_start = if ss > line_start {
        ss - line_start
    } else {
        0
    };
    let local_end = if se >= line_end {
        line_end - line_start
    } else if se > line_start {
        se - line_start
    } else {
        0
    };
    if is_first && is_last {
        Marker { start: local_start, end: local_end }
    } else if is_first {
        Marker { start: local_start, end: trimmed_len }
    } else if is_last {
        Marker { start: lead_ws, end: local_end }
    } else {
        Marker { start: 0, end: trimmed_len }
    }
}

/// Byte length of the run of Unicode whitespace characters at the start
/// of `s[i..]`.
pub open spec fn leading_ws_from(s: Seq<u8>, i: int) -> int
    decreases s.len() - i,
{
    if 0 <= i < s.len() && is_unicode_ws(scalar_at(s, i)) {
        let l = scalar_len_at(s, i);
        l + leading_ws_from(s, i + l)
    } else {
        0
    }
}

/// Byte length of a line's leading whitespace: what trimming the line
/// from the start would remove.
pub fn leading_ws_len(line: &Vec<u8>) -> (r: usize)
    ensures
        r as int == leading_ws_from(line@, 0),
        r <= line@.len(),
{
    let n = line.len();
    let mut i: usize = 0;
    while i < n
        invariant
            i <= n,
            n == line@.len(),
            leading_ws_from(line@, 0) == i + leading_ws_from(line@, i as int),
        decreases n - i,
    {
        let (c, l) = decode_scalar(line, i);
        if unicode_ws_char(c) {
            i += l;
        } else {
            return i;
        }
    }
    i
}

/// Copies the bytes `text[from..to]` into a vector of their own.
pub fn copy_range(text: &Vec<u8>, from: usize, to: usize) -> (r: Vec<u8>)
    requires
        from <= to <= text@.len(),
    ensures
        r@ == text@.subrange(from as int, to as int),
{
    let mut r: Vec<u8> = Vec::new();
    let mut j = from;
    while j < to
        invariant
            from <= j <= to <= text@.len(),
            r@ == text@.subrange(from as int, j as int),
        decreases to - j,
    {
        r.push(text[j]);
        proof {
            assert(text@.subrange(from as int, j as int).push(text@[j as int]) =~= text@.subrange(
                from as int,
                j + 1,
            ));
        }
        j += 1;
    }
    r
}

/// First index of the trailing run of carriage returns and line feeds in
/// `s[..le]`, or `le` if there is none: where trimming the terminator
/// ends the line.
pub open spec fn trim_crlf_end(s: Seq<u8>, ls: int, le: int) -> int
    decreases le - ls,
{
    if ls < le && le <= s.len() && (s[le - 1] == 13 || s[le - 1] == 10) {
        trim_crlf_end(s, ls, le - 1)
    } else {
        le
    }
}

/// Trims the terminator bytes from the end of the line `text[ls..le]`,
/// returning the end of the trimmed text.
pub fn trim_line_end(text: &Vec<u8>, ls: usize, le: usize) -> (r: usize)
    requires
        ls <= le <= text@.len(),
    ensures
        r as int == trim_crlf_end(text@, ls as int, le as int),
        ls <= r <= le,
{
    let mut e = le;
    while e > ls && (text[e - 1] == 13 || text[e - 1] == 10)
        invariant
            ls <= e <= le <= text@.len(),
            trim_crlf_end(text@, ls as int, le as int) == trim_crlf_end(text@, ls as int, e as int),
        decreases e,
    {
        e -= 1;
    }
    e
}

} // verus!
