use vstd::prelude::*;
use crate::clip::Marker;
use crate::markup::{push_run, Styled, TextStyle};
use crate::scalar::{
    ascii_ws_byte, ascii_ws_char, control_char, decode_scalar, glyph_chars, glyph_of, hex_chars,
    is_ascii_ws, is_ascii_ws_byte, is_control_scalar, is_unicode_ws, scalar_at, scalar_len_at,
    unicode_ws_char,
};

verus! {

/// Options of the invisible-character pass.
#[derive(Clone, Copy, Debug)]
pub struct PrintInvisiblesOptions {
    /// Do not substitute tab characters at the start of the line.
    pub ignore_leading_tabs: bool,
    /// Substitute a space only when another whitespace character stands
    /// right before or after it; an isolated space prints literally.
    pub ignore_lone_spaces: bool,
    /// Drop a carriage return that a line feed follows.
    pub ignore_trailing_carriage_return: bool,
    /// Whether start-of-line handling applies (false for a fragment).
    pub at_line_start: bool,
    /// Whether end-of-line handling applies (false for a fragment).
    pub at_line_end: bool,
    /// Substitute only inside the marker range; a character outside it
    /// prints literally.
    pub substitute_only_in_marker: bool,
}

/// Byte index of the first character of the trailing run of ASCII
/// whitespace of `s`, or its length if the run is empty.
pub open spec fn trailing_ws_start(s: Seq<u8>) -> int
    decreases s.len(),
{
    if s.len() == 0 {
        0
    } else if is_ascii_ws_byte(s[s.len() - 1]) {
        trailing_ws_start(s.drop_last())
    } else {
        s.len() as int
    }
}

/// What the pass emits for the character at byte `p`, and whether a
/// non-whitespace character has been printed literally after it. `had`
/// and `prev` carry whether that had happened before `p` and whether the
/// previous character was ASCII whitespace.
pub open spec fn invis_step(
    s: Seq<u8>,
    o: PrintInvisiblesOptions,
    m: (int, int),
    p: int,
    had: bool,
    prev: bool,
) -> (Seq<(TextStyle, Seq<char>)>, bool) {
    let c = scalar_at(s, p);
    let l = scalar_len_at(s, p);
    let next_ws = p + l < s.len() && is_ascii_ws(scalar_at(s, p + l));
    let next_lf = p + l < s.len() && scalar_at(s, p + l) == 10;
    let show0 = if c == 32 && o.ignore_lone_spaces {
        prev || next_ws
    } else {
        true
    };
    let show1 = if o.at_line_start && !had && c == 9 && o.ignore_leading_tabs {
        false
    } else {
        show0
    };
    let show = if o.at_line_end && p >= trailing_ws_start(s) {
        true
    } else {
        show1
    };
    let in_marker = !o.substitute_only_in_marker || (m.0 <= p < m.1);
    if o.ignore_trailing_carriage_return && c == 13 && next_lf && in_marker {
        (Seq::empty(), had)
    } else if !show || !in_marker {
        (seq![(TextStyle::Plain, seq![c as char])], had || !is_ascii_ws(c))
    } else if glyph_of(c) is Some {
        (seq![(TextStyle::Dim, glyph_of(c)->Some_0)], had)
    } else if (is_unicode_ws(c) && !is_ascii_ws(c)) || is_control_scalar(c) {
        (seq![(TextStyle::Inverse, seq!['U', '+'] + hex_chars(c as int))], had)
    } else {
        (seq![(TextStyle::Plain, seq![c as char])], had || !is_ascii_ws(c))
    }
}

/// Everything the pass emits from byte `p` on, with the state threaded
/// through, and whether any non-whitespace character was printed
/// literally.
pub open spec fn invis_from(
    s: Seq<u8>,
    o: PrintInvisiblesOptions,
    m: (int, int),
    p: int,
    had: bool,
    prev: bool,
) -> (Seq<(TextStyle, Seq<char>)>, bool)
    decreases s.len() - p,
{
    if p < 0 || p >= s.len() {
        (Seq::empty(), had)
    } else {
        let st = invis_step(s, o, m, p, had, prev);
        let rest = invis_from(
            s,
            o,
            m,
            p + scalar_len_at(s, p),
            st.1,
            is_ascii_ws(scalar_at(s, p)),
        );
        (st.0 + rest.0, rest.1)
    }
}

/// Everything the pass emits for one line.
pub open spec fn invis_render(s: Seq<u8>, o: PrintInvisiblesOptions, m: (int, int)) -> Seq<
    (TextStyle, Seq<char>),
> {
    invis_from(s, o, m, 0, false, false).0
}

/// Whether the pass prints any non-whitespace character literally.
pub open spec fn invis_had(s: Seq<u8>, o: PrintInvisiblesOptions, m: (int, int)) -> bool {
    invis_from(s, o, m, 0, false, false).1
}

/// Finds the start of the trailing run of ASCII whitespace.
fn trailing_ws_index(input: &Vec<u8>) -> (t: usize)
    ensures
        t as int == trailing_ws_start(input@),
        t <= input@.len(),
{
    let mut t = input.len();
    proof {
        assert(input@.take(input@.len() as int) =~= input@);
    }
    while t > 0 && ascii_ws_byte(input[t - 1])
        invariant
            t <= input@.len(),
            trailing_ws_start(input@) == trailing_ws_start(input@.take(t as int)),
        decreases t,
    {
        proof {
            assert(input@.take(t as int).drop_last() =~= input@.take(t - 1));
        }
        t -= 1;
    }
    proof {
        if t > 0 {
            assert(trailing_ws_start(input@.take(t as int)) == t);
        }
    }
    t
}

/// Prints `input` to `out` with invisible characters replaced by a
/// visible representation: glyphs from the substitution table dimmed,
/// other non-ASCII whitespace and control characters as an inverse-styled
/// `U+` escape, under the contextual rules the options choose. Returns
/// whether any non-whitespace character was printed literally.
#[verifier::rlimit(80)]
pub fn print_invisibles(
    out: &mut Vec<Styled>,
    input: &Vec<u8>,
    range: &Marker,
    options: &PrintInvisiblesOptions,
) -> (had: bool)
    ensures
        final(out).deep_view() == old(out).deep_view() + invis_render(
            input@,
            *options,
            (range.start as int, range.end as int),
        ),
        had == invis_had(input@, *options, (range.start as int, range.end as int)),
{
    let ghost s = input@;
    let ghost o = *options;
    let ghost m = (range.start as int, range.end as int);
    let ghost base = out.deep_view();
    let n = input.len();
    let twi = trailing_ws_index(input);
    let mut p: usize = 0;
    let mut had = false;
    let mut prev = false;
    while p < n
        invariant
            p <= n,
            n == s.len(),
            s == input@,
            o == *options,
            m == (range.start as int, range.end as int),
            twi as int == trailing_ws_start(s),
            base + invis_from(s, o, m, 0, false, false).0 == out.deep_view() + invis_from(
                s,
                o,
                m,
                p as int,
                had,
                prev,
            ).0,
            invis_from(s, o, m, 0, false, false).1 == invis_from(s, o, m, p as int, had, prev).1,
        decreases n - p,
    {
        let ghost p0 = p as int;
        let ghost had0 = had;
        let ghost prev0 = prev;
        let ghost out0 = out.deep_view();
        let (c0, l) = decode_scalar(input, p);
        let u = c0 as u32;
        let cws = ascii_ws_char(c0);
        let (nws, nlf) = if p + l < n {
            let (c1, _) = decode_scalar(input, p + l);
            (ascii_ws_char(c1), c1 as u32 == 10)
        } else {
            (false, false)
        };
        let show0 = if u == 32 && options.ignore_lone_spaces {
            prev || nws
        } else {
            true
        };
        let show1 = if options.at_line_start && !had && u == 9 && options.ignore_leading_tabs {
            false
        } else {
            show0
        };
        let show = if options.at_line_end && p >= twi {
            true
        } else {
            show1
        };
        let in_marker = !options.substitute_only_in_marker || (range.start <= p && p < range.end);
        if options.ignore_trailing_carriage_return && u == 13 && nlf && in_marker {
        } else if !show || !in_marker {
            let mut v: Vec<char> = Vec::new();
            v.push(c0);
            push_run(out, TextStyle::Plain, v);
            if !cws {
                had = true;
            }
        } else {
            let g = glyph_chars(c0);
            match g {
                Some(gv) => {
                    push_run(out, TextStyle::Dim, gv);
                },
                None => {
                    if (unicode_ws_char(c0) && !cws) || control_char(c0) {
                        let mut v: Vec<char> = Vec::new();
                        v.push('U');
                        v.push('+');
                        crate::scalar::push_hex(&mut v, u);
                        proof {
                            assert(v@ =~= seq!['U', '+'] + hex_chars(scalar_at(s, p0) as int));
                        }
                        push_run(out, TextStyle::Inverse, v);
                    } else {
                        let mut v: Vec<char> = Vec::new();
                        v.push(c0);
                        push_run(out, TextStyle::Plain, v);
                        if !cws {
                            had = true;
                        }
                    }
                },
            }
        }
        proof {
            let st = invis_step(s, o, m, p0, had0, prev0);
            let c = scalar_at(s, p0);
            vstd::utf8::char_u32_cast(c0, u);
            assert(c0 == c as char);
            assert(seq![c0] =~= seq![c as char]);
            assert(out.deep_view() =~= out0 + st.0);
            assert(had == st.1);
            let rest = invis_from(s, o, m, p0 + l, st.1, is_ascii_ws(c));
            assert(invis_from(s, o, m, p0, had0, prev0).0 == st.0 + rest.0);
            assert(out.deep_view() + rest.0 =~= out0 + invis_from(s, o, m, p0, had0, prev0).0);
        }
        prev = cws;
        p += l;
    }
    proof {
        assert(invis_from(s, o, m, p as int, had, prev).0 =~= Seq::<(TextStyle, Seq<char>)>::empty());
        assert(out.deep_view() + Seq::<(TextStyle, Seq<char>)>::empty() =~= out.deep_view());
        assert(base + invis_render(s, o, m) =~= out.deep_view());
    }
    had
}

} // verus!
