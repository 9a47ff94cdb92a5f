use vstd::prelude::*;
use crate::clip::marker_of;
use crate::diagnostic::Severity;
use crate::github::{ci_line, command_of};
use crate::markup::TextStyle;
use crate::render::{excerpt_render, RenderMode};

verus! {

/// For a span fully inside one line (a line that is both the first and
/// the last the span touches), the marker is exactly the span's offsets
/// made local to the line: `[span.start - line.start, span.end -
/// line.start)`, which clipping to the line's range leaves unchanged.
pub proof fn lemma_single_line_marker(
    ss: int,
    se: int,
    ls: int,
    le: int,
    trimmed_len: int,
    lead_ws: int,
)
    requires
        ls <= ss <= se <= le,
    ensures
        marker_of(ss, se, ls, le, trimmed_len, lead_ws, true, true) == (ss - ls, se - ls),
{
}

/// The span's local offsets are clipped to the line's range: whatever
/// the span, a single-line marker never starts before the line nor ends
/// past it.
pub proof fn lemma_marker_clipped(
    ss: int,
    se: int,
    ls: int,
    le: int,
    trimmed_len: int,
    lead_ws: int,
)
    requires
        ls <= le,
    ensures
        0 <= marker_of(ss, se, ls, le, trimmed_len, lead_ws, true, true).0,
        marker_of(ss, se, ls, le, trimmed_len, lead_ws, true, true).1 <= le - ls,
{
}

/// Severity maps to the CI command word: Error and Fatal to `error`,
/// Warning to `warning`, Hint and Information to `notice`.
pub proof fn lemma_severity_command(sev: Severity)
    ensures
        sev == Severity::Error || sev == Severity::Fatal ==> command_of(sev) == "error"@,
        sev == Severity::Warning ==> command_of(sev) == "warning"@,
        sev == Severity::Hint || sev == Severity::Information ==> command_of(sev) == "notice"@,
{
}

/// Rendering the terminal excerpt is a pure function of the diagnostic's
/// message, source, span and mode: two renders of the same inputs emit
/// identical runs, so their serialized output is byte-identical.
pub proof fn lemma_excerpt_idempotent(
    msg: Seq<(TextStyle, Seq<char>)>,
    s: Seq<u8>,
    ss: int,
    se: int,
    mode: RenderMode,
    o1: Seq<(TextStyle, Seq<char>)>,
    o2: Seq<(TextStyle, Seq<char>)>,
)
    requires
        o1 == excerpt_render(msg, s, ss, se, mode),
        o2 == excerpt_render(msg, s, ss, se, mode),
    ensures
        o1 == o2,
{
}

/// The CI annotation line is a pure function of its inputs as well: two
/// renders of the same diagnostic produce the same characters.
pub proof fn lemma_ci_idempotent(
    sev: Severity,
    cat: Seq<char>,
    path: Seq<char>,
    msg: Seq<(TextStyle, Seq<char>)>,
    sl: int,
    el: int,
    sc: int,
    ec: int,
    o1: Seq<char>,
    o2: Seq<char>,
)
    requires
        o1 == ci_line(sev, cat, path, msg, sl, el, sc, ec),
        o2 == ci_line(sev, cat, path, msg, sl, el, sc, ec),
    ensures
        o1 == o2,
{
}

} // verus!
