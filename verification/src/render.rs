use vstd::prelude::*;
use crate::clip::{
    clip_marker, copy_range, leading_ws_from, leading_ws_len, marker_of, trim_crlf_end,
    trim_line_end, Marker,
};
use crate::diagnostic::{Diagnostic, RenderError, TextSpan};
use crate::invisible::{invis_render, print_invisibles, PrintInvisiblesOptions};
use crate::locate::{
    lemma_line_exists_monotone, lemma_line_start_step, lemma_loc_line, lemma_loc_monotone,
    line_exists, line_range, line_start_of, loc_of, location,
};
use crate::markup::{push_chars, push_run, Styled, TextStyle};
use crate::scalar::{dec_chars, decode_scalar, push_dec, scalar_at, scalar_len_at};

verus! {

/// How the terminal renderer draws a line: highlighting driven purely by
/// the clipped marker, or the invisible-character substitution pass.
#[derive(Clone, Copy, Debug, PartialEq, Eq, Structural)]
pub enum RenderMode {
    SimpleHighlight,
    InvisiblesVisualized,
}

/// The options the terminal renderer hands to the invisible-character
/// pass.
pub open spec fn default_invis_opts() -> PrintInvisiblesOptions {
    PrintInvisiblesOptions {
        ignore_leading_tabs: true,
        ignore_lone_spaces: true,
        ignore_trailing_carriage_return: true,
        at_line_start: true,
        at_line_end: true,
        substitute_only_in_marker: false,
    }
}

/// The runs of the excerpt header: the styled message, then a blank
/// line.
pub open spec fn header_runs(msg: Seq<(TextStyle, Seq<char>)>) -> Seq<(TextStyle, Seq<char>)> {
    msg + seq![(TextStyle::Plain, seq!['\n', '\n'])]
}

/// Per-character emission of one line's text: a character whose byte
/// index falls inside the marker is highlighted, all others print
/// literally.
pub open spec fn simple_chars_from(t: Seq<u8>, m: (int, int), p: int) -> Seq<
    (TextStyle, Seq<char>),
>
    decreases t.len() - p,
{
    if p < 0 || p >= t.len() {
        Seq::empty()
    } else {
        let c = scalar_at(t, p);
        let style = if m.0 <= p < m.1 {
            TextStyle::Highlight
        } else {
            TextStyle::Plain
        };
        seq![(style, seq![c as char])] + simple_chars_from(t, m, p + scalar_len_at(t, p))
    }
}

/// The gutter of one line: its 1-based number, a space, a vertical bar,
/// a space, as emphasis.
pub open spec fn gutter_run(line_no: int) -> (TextStyle, Seq<char>) {
    (TextStyle::Emphasis, dec_chars(line_no) + seq![' ', '\u{2502}', ' '])
}

/// The runs of the rendered 0-based line `k` under the span `[ss, se)`
/// whose first line is `l1` and last line `l2`.
pub open spec fn line_runs(
    s: Seq<u8>,
    ss: int,
    se: int,
    l1: int,
    l2: int,
    k: int,
    mode: RenderMode,
) -> Seq<(TextStyle, Seq<char>)> {
    let ls = line_start_of(s, k);
    let le = line_start_of(s, k + 1);
    let te = trim_crlf_end(s, ls, le);
    let t = s.subrange(ls, te);
    if mode is SimpleHighlight {
        let m = marker_of(ss, se, ls, le, te - ls, leading_ws_from(t, 0), k == l1, k == l2);
        seq![gutter_run(k + 1)] + simple_chars_from(t, m, 0) + seq![
            (TextStyle::Plain, seq!['\n']),
        ]
    } else {
        let m = marker_of(ss, se, ls, le, te - ls, leading_ws_from(t, 0), true, true);
        invis_render(t, default_invis_opts(), m) + seq![(TextStyle::Plain, seq!['\n'])]
    }
}

/// The rendered lines from `k` through `l2`.
pub open spec fn lines_render(
    s: Seq<u8>,
    ss: int,
    se: int,
    l1: int,
    l2: int,
    k: int,
    mode: RenderMode,
) -> Seq<(TextStyle, Seq<char>)>
    decreases l2 + 1 - k,
{
    if k > l2 {
        Seq::empty()
    } else {
        line_runs(s, ss, se, l1, l2, k, mode) + lines_render(s, ss, se, l1, l2, k + 1, mode)
    }
}

/// The whole excerpt of a diagnostic with message `msg` and span
/// `[ss, se)` over the source `s`: the header, then every line the span
/// touches, then (under the invisibles mode) a blank line.
pub open spec fn excerpt_render(
    msg: Seq<(TextStyle, Seq<char>)>,
    s: Seq<u8>,
    ss: int,
    se: int,
    mode: RenderMode,
) -> Seq<(TextStyle, Seq<char>)> {
    let l1 = loc_of(s, ss).0;
    let l2 = loc_of(s, se).0;
    header_runs(msg) + lines_render(s, ss, se, l1, l2, l1, mode) + if mode
        is InvisiblesVisualized {
        seq![(TextStyle::Plain, seq!['\n', '\n'])]
    } else {
        Seq::empty()
    }
}

/// Appends a diagnostic's header: its styled message, then a blank line.
fn push_header(out: &mut Vec<Styled>, msg: &Vec<Styled>)
    ensures
        final(out).deep_view() == old(out).deep_view() + header_runs(msg.deep_view()),
{
    let ghost base = out.deep_view();
    let ghost dv = msg.deep_view();
    let mut i: usize = 0;
    while i < msg.len()
        invariant
            i <= msg.len(),
            dv == msg.deep_view(),
            out.deep_view() == base + dv.take(i as int),
        decreases msg.len() - i,
    {
        let ghost out0 = out.deep_view();
        let run = &msg[i];
        proof {
            assert(dv[i as int] == msg[i as int].deep_view());
        }
        let mut v: Vec<char> = Vec::new();
        push_chars(&mut v, &run.text, 0, run.text.len());
        proof {
            assert(v@ =~= run.text@);
        }
        push_run(out, run.style, v);
        proof {
            assert(out.deep_view() =~= base + dv.take(i + 1));
        }
        i += 1;
    }
    let mut v: Vec<char> = Vec::new();
    v.push('\n');
    v.push('\n');
    proof {
        assert(v@ =~= seq!['\n', '\n']);
        assert(dv.take(msg.len() as int) =~= dv);
    }
    push_run(out, TextStyle::Plain, v);
    proof {
        assert(out.deep_view() =~= base + header_runs(dv));
    }
}

/// Streams one line's characters, highlighting those under the marker.
fn print_simple_chars(out: &mut Vec<Styled>, t: &Vec<u8>, mk: &Marker)
    ensures
        final(out).deep_view() == old(out).deep_view() + simple_chars_from(
            t@,
            (mk.start as int, mk.end as int),
            0,
        ),
{
    let ghost s = t@;
    let ghost m = (mk.start as int, mk.end as int);
    let ghost base = out.deep_view();
    let n = t.len();
    let mut p: usize = 0;
    while p < n
        invariant
            p <= n,
            n == s.len(),
            s == t@,
            m == (mk.start as int, mk.end as int),
            base + simple_chars_from(s, m, 0) == out.deep_view() + simple_chars_from(
                s,
                m,
                p as int,
            ),
        decreases n - p,
    {
        let ghost p0 = p as int;
        let ghost out0 = out.deep_view();
        let (c0, l) = decode_scalar(t, p);
        let style = if mk.start <= p && p < mk.end {
            TextStyle::Highlight
        } else {
            TextStyle::Plain
        };
        let mut v: Vec<char> = Vec::new();
        v.push(c0);
        push_run(out, style, v);
        proof {
            let c = scalar_at(s, p0);
            vstd::utf8::char_u32_cast(c0, c0 as u32);
            assert(seq![c0] =~= seq![c as char]);
            assert(simple_chars_from(s, m, p0) == seq![
                (
                    if m.0 <= p0 < m.1 {
                        TextStyle::Highlight
                    } else {
                        TextStyle::Plain
                    },
                    seq![c as char],
                ),
            ] + simple_chars_from(s, m, p0 + l));
            assert(out.deep_view() + simple_chars_from(s, m, p0 + l) =~= out0 + simple_chars_from(
                s,
                m,
                p0,
            ));
        }
        p += l;
    }
    proof {
        assert(out.deep_view() + simple_chars_from(s, m, p as int) =~= out.deep_view());
    }
}

/// Helper struct for printing a diagnostic's source excerpt as styled
/// runs, the span's lines marked, in either rendering mode.
pub struct PrintMatchDiagnostic<'a> {
    pub diag: &'a Diagnostic,
    pub mode: RenderMode,
}

impl<'a> PrintMatchDiagnostic<'a> {
    /// The renderer the search report uses: invisible characters shown.
    pub fn simple(diag: &'a Diagnostic) -> (r: Self)
        ensures
            r.diag == diag,
            r.mode == RenderMode::InvisiblesVisualized,
    {
        PrintMatchDiagnostic { diag, mode: RenderMode::InvisiblesVisualized }
    }

    /// A renderer with the rendering mode of the caller's choice.
    pub fn with_mode(diag: &'a Diagnostic, mode: RenderMode) -> (r: Self)
        ensures
            r.diag == diag,
            r.mode == mode,
    {
        PrintMatchDiagnostic { diag, mode }
    }

    /// Renders the excerpt into `out`: the header, then each line the
    /// span touches, with gutter and per-character highlighting under the
    /// simple mode, or the invisible-character pass under the invisibles
    /// mode. Emits nothing when the diagnostic has no span or no source;
    /// fails with `LocationOutOfBounds`, the header already emitted,
    /// exactly when the span reaches past the end of the source.
    #[verifier::rlimit(100)]
    pub fn fmt(&self, out: &mut Vec<Styled>) -> (r: Result<(), RenderError>)
        requires
            self.diag.source matches Some(src) ==> src@.len() < usize::MAX,
        ensures
            match (self.diag.span, self.diag.source) {
                (Some(sp), Some(src)) => {
                    if sp.start > src@.len() || sp.end > src@.len() {
                        &&& r matches Err(e) && e == RenderError::LocationOutOfBounds
                        &&& final(out).deep_view() == old(out).deep_view() + header_runs(
                            self.diag.message.deep_view(),
                        )
                    } else {
                        &&& r is Ok
                        &&& final(out).deep_view() == old(out).deep_view() + excerpt_render(
                            self.diag.message.deep_view(),
                            src@,
                            sp.start as int,
                            sp.end as int,
                            self.mode,
                        )
                    }
                },
                _ => r is Ok && final(out).deep_view() == old(out).deep_view(),
            },
    {
        let ghost base = out.deep_view();
        let diag = self.diag;
        let sp: TextSpan = match &diag.span {
            Some(sp) => *sp,
            None => {
                return Ok(());
            },
        };
        let src: &Vec<u8> = match &diag.source {
            Some(s) => s,
            None => {
                return Ok(());
            },
        };
        let ghost s = src@;
        let ghost ss = sp.start as int;
        let ghost se = sp.end as int;
        push_header(out, &diag.message);
        let ghost base2 = out.deep_view();
        let start_lc = match location(src, sp.start) {
            Ok(p) => p,
            Err(e) => {
                return Err(e);
            },
        };
        let end_lc = match location(src, sp.end) {
            Ok(p) => p,
            Err(e) => {
                return Err(e);
            },
        };
        proof {
            lemma_loc_monotone(s, 0, ss);
            lemma_loc_monotone(s, 0, se);
            lemma_loc_line(s, se);
        }
        let l1 = start_lc.line - 1;
        let l2 = end_lc.line - 1;
        let ghost l1i = l1 as int;
        let ghost l2i = l2 as int;
        let mut k = l1;
        while k <= l2
            invariant
                l1i <= k as int,
                l1i == l1 as int,
                l2i == l2 as int,
                l1i == loc_of(s, ss).0,
                l2i == loc_of(s, se).0,
                l2i < usize::MAX,
                k as int <= l2i + 1 || k as int == l1i,
                s == src@,
                s.len() < usize::MAX,
                ss == sp.start as int,
                se == sp.end as int,
                0 <= ss <= s.len(),
                0 <= se <= s.len(),
                line_exists(s, l2i),
                base2 + lines_render(s, ss, se, l1i, l2i, l1i, self.mode) == out.deep_view()
                    + lines_render(s, ss, se, l1i, l2i, k as int, self.mode),
            decreases l2i + 1 - k as int,
        {
            let ghost ki = k as int;
            let ghost out0 = out.deep_view();
            proof {
                lemma_line_exists_monotone(s, ki, l2i);
            }
            let (ls, le) = match line_range(src, k) {
                Ok(rg) => rg,
                Err(e) => {
                    proof {
                        assert(false);
                    }
                    return Err(e);
                },
            };
            proof {
                lemma_line_start_step(s, ki);
            }
            let te = trim_line_end(src, ls, le);
            let t = copy_range(src, ls, te);
            let lw = leading_ws_len(&t);
            let ghost tv = s.subrange(ls as int, te as int);
            if self.mode == RenderMode::SimpleHighlight {
                let mk = clip_marker(sp, ls, le, te - ls, lw, k == l1, k == l2);
                let mut v: Vec<char> = Vec::new();
                push_dec(&mut v, k + 1);
                v.push(' ');
                v.push('\u{2502}');
                v.push(' ');
                proof {
                    assert(v@ =~= dec_chars(ki + 1) + seq![' ', '\u{2502}', ' ']);
                }
                push_run(out, TextStyle::Emphasis, v);
                print_simple_chars(out, &t, &mk);
            } else {
                let mk = clip_marker(sp, ls, le, te - ls, lw, true, true);
                let opts = PrintInvisiblesOptions {
                    ignore_leading_tabs: true,
                    ignore_lone_spaces: true,
                    ignore_trailing_carriage_return: true,
                    at_line_start: true,
                    at_line_end: true,
                    substitute_only_in_marker: false,
                };
                proof {
                    assert(opts == default_invis_opts());
                }
                let _ = print_invisibles(out, &t, &mk, &opts);
            }
            let mut nl: Vec<char> = Vec::new();
            nl.push('\n');
            proof {
                assert(nl@ =~= seq!['\n']);
            }
            push_run(out, TextStyle::Plain, nl);
            proof {
                assert(lines_render(s, ss, se, l1i, l2i, ki, self.mode) == line_runs(
                    s,
                    ss,
                    se,
                    l1i,
                    l2i,
                    ki,
                    self.mode,
                ) + lines_render(s, ss, se, l1i, l2i, ki + 1, self.mode));
                assert(out.deep_view() =~= out0 + line_runs(s, ss, se, l1i, l2i, ki, self.mode));
                assert(out.deep_view() + lines_render(s, ss, se, l1i, l2i, ki + 1, self.mode) =~= out0
                    + lines_render(s, ss, se, l1i, l2i, ki, self.mode));
            }
            k += 1;
        }
        proof {
            assert(lines_render(s, ss, se, l1i, l2i, k as int, self.mode)
                =~= Seq::<(TextStyle, Seq<char>)>::empty());
            assert(out.deep_view() =~= base2 + lines_render(s, ss, se, l1i, l2i, l1i, self.mode));
        }
        if self.mode == RenderMode::InvisiblesVisualized {
            let mut v: Vec<char> = Vec::new();
            v.push('\n');
            v.push('\n');
            proof {
                assert(v@ =~= seq!['\n', '\n']);
            }
            push_run(out, TextStyle::Plain, v);
        }
        proof {
            assert(out.deep_view() =~= base + excerpt_render(
                self.diag.message.deep_view(),
                s,
                ss,
                se,
                self.mode,
            ));
        }
        Ok(())
    }
}

} // verus!
