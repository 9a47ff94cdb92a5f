use vstd::prelude::*;
use crate::diagnostic::{Diagnostic, RenderError, Resource, Severity, TextSpan};
use crate::escape::{escape_data, escape_property, escaped_data, escaped_prop};
use crate::locate::{loc_of, location};
use crate::markup::{markup_to_string, plain_text, push_chars, push_run, push_str_chars, Styled,
    TextStyle};
use crate::scalar::{dec_chars, push_dec};

verus! {

/// The CI command word of a severity: errors report as `error`, warnings
/// as `warning`, hints and information as `notice`.
pub open spec fn command_of(sev: Severity) -> Seq<char> {
    match sev {
        Severity::Error | Severity::Fatal => "error"@,
        Severity::Warning => "warning"@,
        Severity::Hint | Severity::Information => "notice"@,
    }
}

/// The one annotation line of a diagnostic: command, unescaped category
/// as title, property-escaped path, the 1-based line and column numbers
/// of the span's ends, and the data-escaped plain message.
pub open spec fn ci_line(
    sev: Severity,
    cat: Seq<char>,
    path: Seq<char>,
    msg: Seq<(TextStyle, Seq<char>)>,
    sl: int,
    el: int,
    sc: int,
    ec: int,
) -> Seq<char> {
    "::"@ + command_of(sev) + " title="@ + cat + ",file="@ + escaped_prop(path) + ",line="@
        + dec_chars(sl) + ",endLine="@ + dec_chars(el) + ",col="@ + dec_chars(sc) + ",endColumn="@
        + dec_chars(ec) + "::"@ + escaped_data(plain_text(msg))
}

/// The category of a diagnostic as the annotation title, or nothing.
pub open spec fn title_of(cat: Option<Vec<char>>) -> Seq<char> {
    match cat {
        Some(c) => c@,
        None => Seq::empty(),
    }
}

/// Builds the characters of one annotation line.
fn build_ci_line(
    sev: Severity,
    cat: &Option<Vec<char>>,
    path: &Vec<char>,
    msg: &Vec<Styled>,
    sl: usize,
    el: usize,
    sc: usize,
    ec: usize,
) -> (v: Vec<char>)
    ensures
        v@ == ci_line(
            sev,
            title_of(*cat),
            path@,
            msg.deep_view(),
            sl as int,
            el as int,
            sc as int,
            ec as int,
        ),
{
    let mut v: Vec<char> = Vec::new();
    push_str_chars(&mut v, "::");
    match sev {
        Severity::Error | Severity::Fatal => push_str_chars(&mut v, "error"),
        Severity::Warning => push_str_chars(&mut v, "warning"),
        Severity::Hint | Severity::Information => push_str_chars(&mut v, "notice"),
    }
    push_str_chars(&mut v, " title=");
    match cat {
        Some(c) => {
            push_chars(&mut v, c, 0, c.len());
            proof {
                assert(c@.subrange(0, c@.len() as int) =~= c@);
            }
        },
        None => {
        },
    }
    let ghost g1 = v@;
    push_str_chars(&mut v, ",file=");
    let ep = escape_property(path);
    push_chars(&mut v, &ep, 0, ep.len());
    proof {
        assert(ep@.subrange(0, ep@.len() as int) =~= ep@);
    }
    push_str_chars(&mut v, ",line=");
    push_dec(&mut v, sl);
    let ghost g2 = v@;
    push_str_chars(&mut v, ",endLine=");
    push_dec(&mut v, el);
    push_str_chars(&mut v, ",col=");
    push_dec(&mut v, sc);
    let ghost g3 = v@;
    push_str_chars(&mut v, ",endColumn=");
    push_dec(&mut v, ec);
    push_str_chars(&mut v, "::");
    let msgtext = markup_to_string(msg);
    let ed = escape_data(&msgtext);
    push_chars(&mut v, &ed, 0, ed.len());
    proof {
        assert(ed@.subrange(0, ed@.len() as int) =~= ed@);
        assert(g1 =~= "::"@ + command_of(sev) + " title="@ + title_of(*cat));
        assert(g2 =~= g1 + ",file="@ + escaped_prop(path@) + ",line="@ + dec_chars(sl as int));
        assert(g3 =~= g2 + ",endLine="@ + dec_chars(el as int) + ",col="@ + dec_chars(sc as int));
        assert(v@ =~= g3 + ",endColumn="@ + dec_chars(ec as int) + "::"@ + escaped_data(
            plain_text(msg.deep_view()),
        ));
        assert(v@ =~= ci_line(
            sev,
            title_of(*cat),
            path@,
            msg.deep_view(),
            sl as int,
            el as int,
            sc as int,
            ec as int,
        ));
    }
    v
}

/// Helper struct for printing a diagnostic as one structured annotation
/// line for a CI log parser.
pub struct PrintGitHubDiagnostic<'a>(pub &'a Diagnostic);

impl<'a> PrintGitHubDiagnostic<'a> {
    /// Emits the annotation line as one plain run. Emits nothing when
    /// the diagnostic has no span, no source, or a resource that is not
    /// a file; fails with `LocationOutOfBounds`, nothing emitted,
    /// exactly when the span reaches past the end of the source.
    pub fn fmt(&self, out: &mut Vec<Styled>) -> (r: Result<(), RenderError>)
        requires
            self.0.source matches Some(src) ==> src@.len() < usize::MAX,
        ensures
            match (self.0.span, self.0.source, self.0.resource) {
                (Some(sp), Some(src), Some(Resource::File(path))) => {
                    if sp.start > src@.len() || sp.end > src@.len() {
                        &&& r matches Err(e) && e == RenderError::LocationOutOfBounds
                        &&& final(out).deep_view() == old(out).deep_view()
                    } else {
                        &&& r is Ok
                        &&& final(out).deep_view() == old(out).deep_view().push(
                            (
                                TextStyle::Plain,
                                ci_line(
                                    self.0.severity,
                                    title_of(self.0.category),
                                    path@,
                                    self.0.message.deep_view(),
                                    loc_of(src@, sp.start as int).0 + 1,
                                    loc_of(src@, sp.end as int).0 + 1,
                                    loc_of(src@, sp.start as int).1 + 1,
                                    loc_of(src@, sp.end as int).1 + 1,
                                ),
                            ),
                        )
                    }
                },
                _ => r is Ok && final(out).deep_view() == old(out).deep_view(),
            },
    {
        let diag = self.0;
        let sp: TextSpan = match &diag.span {
            Some(sp) => *sp,
            None => {
                return Ok(());
            },
        };
        let src: &Vec<u8> = match &diag.source {
            Some(s) => s,
            None => {
                return Ok(());
            },
        };
        let path: &Vec<char> = match &diag.resource {
            Some(Resource::File(p)) => p,
            _ => {
                return Ok(());
            },
        };
        let start_lc = match location(src, sp.start) {
            Ok(p) => p,
            Err(e) => {
                return Err(e);
            },
        };
        let end_lc = match location(src, sp.end) {
            Ok(p) => p,
            Err(e) => {
                return Err(e);
            },
        };
        let v = build_ci_line(
            diag.severity,
            &diag.category,
            path,
            &diag.message,
            start_lc.line,
            end_lc.line,
            start_lc.column,
            end_lc.column,
        );
        push_run(out, TextStyle::Plain, v);
        Ok(())
    }
}

} // verus!
