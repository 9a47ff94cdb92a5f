use vstd::prelude::*;
use vstd::string::StrSliceExecFns;

verus! {

/// Style of one run of rendered text. `Highlight` is the combined
/// emphasis-plus-info styling used for the characters under a marker.
#[derive(Clone, Copy, Debug, PartialEq, Eq, Structural)]
pub enum TextStyle {
    Plain,
    Emphasis,
    Dim,
    Inverse,
    Highlight,
}

/// One run of styled text: the unit that renderers append to their
/// output sink.
#[derive(Debug)]
pub struct Styled {
    pub style: TextStyle,
    pub text: Vec<char>,
}

impl DeepView for Styled {
    type V = (TextStyle, Seq<char>);

    open spec fn deep_view(&self) -> (TextStyle, Seq<char>) {
        (self.style, self.text@)
    }
}

/// Appends one styled run to an output sink.
pub fn push_run(out: &mut Vec<Styled>, style: TextStyle, text: Vec<char>)
    ensures
        final(out).deep_view() == old(out).deep_view().push((style, text@)),
{
    let ghost t = text@;
    let ghost before = out.deep_view();
    out.push(Styled { style, text });
    proof {
        assert(out.deep_view() =~= before.push((style, t)));
    }
}

/// Appends the characters `src[from..to]` to `out`.
pub fn push_chars(out: &mut Vec<char>, src: &Vec<char>, from: usize, to: usize)
    requires
        from <= to <= src.len(),
    ensures
        final(out)@ == old(out)@ + src@.subrange(from as int, to as int),
{
    let ghost before = out@;
    let mut j: usize = from;
    while j < to
        invariant
            from <= j <= to <= src.len(),
            out@ == before + src@.subrange(from as int, j as int),
        decreases to - j,
    {
        out.push(src[j]);
        proof {
            assert(before + src@.subrange(from as int, j as int) + seq![src@[j as int]] =~= before
                + src@.subrange(from as int, j + 1 as int));
        }
        j += 1;
    }
}

/// Appends the characters of `s` to `out`.
pub fn push_str_chars(out: &mut Vec<char>, s: &str)
    ensures
        final(out)@ == old(out)@ + s@,
{
    let ghost base = out@;
    let n = s.unicode_len();
    let mut i: usize = 0;
    while i < n
        invariant
            i <= n,
            n == s@.len(),
            out@ == base + s@.take(i as int),
        decreases n - i,
    {
        let c = s.get_char(i);
        out.push(c);
        proof {
            assert(base + s@.take(i as int) + seq![s@[i as int]] =~= base + s@.take(i + 1));
        }
        i += 1;
    }
    proof {
        assert(base + s@.take(n as int) =~= base + s@);
    }
}

/// Plain text of the runs `runs[i..]`: their text concatenated, the
/// styling stripped.
pub open spec fn plain_text_from(runs: Seq<(TextStyle, Seq<char>)>, i: int) -> Seq<char>
    decreases runs.len() - i,
{
    if i < 0 || i >= runs.len() {
        Seq::empty()
    } else {
        runs[i].1 + plain_text_from(runs, i + 1)
    }
}

/// Plain text of a styled message: the concatenation of its runs' text.
pub open spec fn plain_text(runs: Seq<(TextStyle, Seq<char>)>) -> Seq<char> {
    plain_text_from(runs, 0)
}

/// Strips the styling from a message, returning the concatenated text of
/// its runs.
pub fn markup_to_string(markup: &Vec<Styled>) -> (r: Vec<char>)
    ensures
        r@ == plain_text(markup.deep_view()),
{
    let ghost dv = markup.deep_view();
    let mut r: Vec<char> = Vec::new();
    let mut i: usize = 0;
    while i < markup.len()
        invariant
            i <= markup.len(),
            dv == markup.deep_view(),
            r@ + plain_text_from(dv, i as int) == plain_text(dv),
        decreases markup.len() - i,
    {
        let ghost r0 = r@;
        let run = &markup[i];
        proof {
            assert(dv[i as int] == markup[i as int].deep_view());
        }
        push_chars(&mut r, &run.text, 0, run.text.len());
        proof {
            assert(run.text@.subrange(0, run.text@.len() as int) =~= run.text@);
            assert(r@ + plain_text_from(dv, i + 1 as int) =~= r0 + plain_text_from(
                dv,
                i as int,
            ));
        }
        i += 1;
    }
    proof {
        assert(r@ + plain_text_from(dv, markup.len() as int) =~= r@);
    }
    r
}

} // verus!
