use diag_render::clip::{clip_marker, leading_ws_len, trim_line_end, Marker};
use diag_render::diagnostic::{Diagnostic, RenderError, Resource, Severity, TextSpan};
use diag_render::locate::line_range;
use diag_render::markup::{Styled, TextStyle};
use diag_render::render::{PrintMatchDiagnostic, RenderMode};

fn bytes(s: &str) -> Vec<u8> {
    s.as_bytes().to_vec()
}

fn msg(s: &str) -> Vec<Styled> {
    vec![Styled { style: TextStyle::Emphasis, text: s.chars().collect() }]
}

fn diag(source: &str, start: u32, end: u32) -> Diagnostic {
    Diagnostic {
        severity: Severity::Information,
        category: None,
        resource: Some(Resource::File("a.txt".chars().collect())),
        span: Some(TextSpan { start, end }),
        source: Some(bytes(source)),
        message: msg("found"),
    }
}

fn flatten(out: &Vec<Styled>) -> Vec<(TextStyle, String)> {
    out.iter().map(|r| (r.style, r.text.iter().collect::<String>())).collect()
}

#[test]
fn multi_line_markers_first_extends_last_skips_indentation() {
    // A span crossing lines: the first line's marker runs to that line's
    // end, the last line's marker starts at the first non-whitespace
    // character.
    let t = bytes("foo\n  barbaz\nqux");
    let sp = TextSpan { start: 2, end: 11 };
    let (ls0, le0) = line_range(&t, 0).unwrap();
    let te0 = trim_line_end(&t, ls0, le0);
    let line0: Vec<u8> = t[ls0..te0].to_vec();
    let lw0 = leading_ws_len(&line0);
    let m0 = clip_marker(sp, ls0, le0, te0 - ls0, lw0, true, false);
    assert_eq!(m0, Marker { start: 2, end: 3 });

    let (ls1, le1) = line_range(&t, 1).unwrap();
    let te1 = trim_line_end(&t, ls1, le1);
    let line1: Vec<u8> = t[ls1..te1].to_vec();
    let lw1 = leading_ws_len(&line1);
    assert_eq!(lw1, 2);
    let m1 = clip_marker(sp, ls1, le1, te1 - ls1, lw1, false, true);
    assert_eq!(m1, Marker { start: 2, end: 7 });
}

#[test]
fn single_line_marker_is_local_span() {
    let t = bytes("foo\nbar");
    let sp = TextSpan { start: 5, end: 6 };
    let (ls, le) = line_range(&t, 1).unwrap();
    let te = trim_line_end(&t, ls, le);
    let m = clip_marker(sp, ls, le, te - ls, 0, true, true);
    assert_eq!(m, Marker { start: 1, end: 2 });
}

#[test]
fn interior_line_marker_covers_whole_line() {
    let sp = TextSpan { start: 0, end: 100 };
    let m = clip_marker(sp, 10, 16, 5, 1, false, false);
    assert_eq!(m, Marker { start: 0, end: 5 });
}

#[test]
fn simple_mode_gutter_and_highlight() {
    let d = diag("foo\nbar", 5, 6);
    let r = PrintMatchDiagnostic::with_mode(&d, RenderMode::SimpleHighlight);
    let mut out: Vec<Styled> = Vec::new();
    r.fmt(&mut out).unwrap();
    let expect = vec![
        (TextStyle::Emphasis, "found".to_string()),
        (TextStyle::Plain, "\n\n".to_string()),
        (TextStyle::Emphasis, "2 \u{2502} ".to_string()),
        (TextStyle::Plain, "b".to_string()),
        (TextStyle::Highlight, "a".to_string()),
        (TextStyle::Plain, "r".to_string()),
        (TextStyle::Plain, "\n".to_string()),
    ];
    assert_eq!(flatten(&out), expect);
}

#[test]
fn invisibles_mode_substitutes_and_adds_blank_line() {
    let d = diag("ab \nx", 0, 1);
    let r = PrintMatchDiagnostic::simple(&d);
    let mut out: Vec<Styled> = Vec::new();
    r.fmt(&mut out).unwrap();
    let expect = vec![
        (TextStyle::Emphasis, "found".to_string()),
        (TextStyle::Plain, "\n\n".to_string()),
        (TextStyle::Plain, "a".to_string()),
        (TextStyle::Plain, "b".to_string()),
        (TextStyle::Dim, "\u{b7}".to_string()),
        (TextStyle::Plain, "\n".to_string()),
        (TextStyle::Plain, "\n\n".to_string()),
    ];
    assert_eq!(flatten(&out), expect);
}

#[test]
fn no_span_renders_nothing() {
    let mut d = diag("foo", 0, 1);
    d.span = None;
    let r = PrintMatchDiagnostic::simple(&d);
    let mut out: Vec<Styled> = Vec::new();
    assert_eq!(r.fmt(&mut out), Ok(()));
    assert!(out.is_empty());
}

#[test]
fn no_source_renders_nothing() {
    let mut d = diag("foo", 0, 1);
    d.source = None;
    let r = PrintMatchDiagnostic::simple(&d);
    let mut out: Vec<Styled> = Vec::new();
    assert_eq!(r.fmt(&mut out), Ok(()));
    assert!(out.is_empty());
}

#[test]
fn span_past_end_fails_after_header() {
    let d = diag("foo", 0, 9);
    let r = PrintMatchDiagnostic::simple(&d);
    let mut out: Vec<Styled> = Vec::new();
    assert_eq!(r.fmt(&mut out), Err(RenderError::LocationOutOfBounds));
    let expect = vec![
        (TextStyle::Emphasis, "found".to_string()),
        (TextStyle::Plain, "\n\n".to_string()),
    ];
    assert_eq!(flatten(&out), expect);
}

#[test]
fn rendering_twice_is_byte_identical() {
    let d = diag("foo\n  barbaz\nqux", 2, 11);
    for mode in [RenderMode::SimpleHighlight, RenderMode::InvisiblesVisualized] {
        let r1 = PrintMatchDiagnostic::with_mode(&d, mode);
        let mut o1: Vec<Styled> = Vec::new();
        r1.fmt(&mut o1).unwrap();
        let r2 = PrintMatchDiagnostic::with_mode(&d, mode);
        let mut o2: Vec<Styled> = Vec::new();
        r2.fmt(&mut o2).unwrap();
        assert_eq!(flatten(&o1), flatten(&o2));
        assert!(!o1.is_empty());
    }
}

#[test]
fn span_crossing_lines_renders_each_line() {
    let d = diag("foo\nbar\nqux", 1, 9);
    let r = PrintMatchDiagnostic::with_mode(&d, RenderMode::SimpleHighlight);
    let mut out: Vec<Styled> = Vec::new();
    r.fmt(&mut out).unwrap();
    let f = flatten(&out);
    // Header, then three gutters and three newlines.
    assert_eq!(f[0], (TextStyle::Emphasis, "found".to_string()));
    let gutters: Vec<&(TextStyle, String)> =
        f.iter().filter(|(_, t)| t.contains('\u{2502}')).collect();
    assert_eq!(gutters.len(), 3);
    assert_eq!(gutters[0].1, "1 \u{2502} ");
    assert_eq!(gutters[1].1, "2 \u{2502} ");
    assert_eq!(gutters[2].1, "3 \u{2502} ");
}
