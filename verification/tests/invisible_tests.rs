use diag_render::clip::Marker;
use diag_render::invisible::{print_invisibles, PrintInvisiblesOptions};
use diag_render::markup::{Styled, TextStyle};
use diag_render::scalar::show_invisible_char;

fn opts() -> PrintInvisiblesOptions {
    PrintInvisiblesOptions {
        ignore_leading_tabs: true,
        ignore_lone_spaces: true,
        ignore_trailing_carriage_return: true,
        at_line_start: true,
        at_line_end: true,
        substitute_only_in_marker: false,
    }
}

fn run_pass(input: &str, o: PrintInvisiblesOptions) -> (Vec<(TextStyle, String)>, bool) {
    let mut out: Vec<Styled> = Vec::new();
    let bytes: Vec<u8> = input.as_bytes().to_vec();
    let marker = Marker { start: 0, end: bytes.len() };
    let had = print_invisibles(&mut out, &bytes, &marker, &o);
    (flatten(&out), had)
}

fn flatten(out: &Vec<Styled>) -> Vec<(TextStyle, String)> {
    out.iter().map(|r| (r.style, r.text.iter().collect::<String>())).collect()
}

#[test]
fn leading_space_run_substituted_lone_space_literal() {
    // Three leading spaces form a run and are substituted; the single
    // space between the words prints literally.
    let (runs, had) = run_pass("   foo bar", opts());
    let expect = vec![
        (TextStyle::Dim, "\u{b7}".to_string()),
        (TextStyle::Dim, "\u{b7}".to_string()),
        (TextStyle::Dim, "\u{b7}".to_string()),
        (TextStyle::Plain, "f".to_string()),
        (TextStyle::Plain, "o".to_string()),
        (TextStyle::Plain, "o".to_string()),
        (TextStyle::Plain, " ".to_string()),
        (TextStyle::Plain, "b".to_string()),
        (TextStyle::Plain, "a".to_string()),
        (TextStyle::Plain, "r".to_string()),
    ];
    assert_eq!(runs, expect);
    assert!(had);
}

#[test]
fn carriage_return_line_feed_pair_one_glyph() {
    // Exactly one glyph comes out of a \r\n pair: the \r is dropped, the
    // \n shows as the return symbol.
    let (runs, _) = run_pass("a\r\n", opts());
    let expect = vec![
        (TextStyle::Plain, "a".to_string()),
        (TextStyle::Dim, "\u{23ce}".to_string()),
    ];
    assert_eq!(runs, expect);
}

#[test]
fn lone_carriage_return_substituted() {
    let (runs, _) = run_pass("a\rb", opts());
    let expect = vec![
        (TextStyle::Plain, "a".to_string()),
        (TextStyle::Dim, "\u{240d}".to_string()),
        (TextStyle::Plain, "b".to_string()),
    ];
    assert_eq!(runs, expect);
}

#[test]
fn two_trailing_spaces_both_substituted() {
    let (runs, _) = run_pass("ab  ", opts());
    let expect = vec![
        (TextStyle::Plain, "a".to_string()),
        (TextStyle::Plain, "b".to_string()),
        (TextStyle::Dim, "\u{b7}".to_string()),
        (TextStyle::Dim, "\u{b7}".to_string()),
    ];
    assert_eq!(runs, expect);
}

#[test]
fn single_trailing_space_forced_despite_lone_rule() {
    let (runs, _) = run_pass("ab x ", opts());
    let expect = vec![
        (TextStyle::Plain, "a".to_string()),
        (TextStyle::Plain, "b".to_string()),
        (TextStyle::Plain, " ".to_string()),
        (TextStyle::Plain, "x".to_string()),
        (TextStyle::Dim, "\u{b7}".to_string()),
    ];
    assert_eq!(runs, expect);
}

#[test]
fn leading_tab_literal_later_tab_substituted() {
    let (runs, _) = run_pass("\ta\tb", opts());
    let expect = vec![
        (TextStyle::Plain, "\t".to_string()),
        (TextStyle::Plain, "a".to_string()),
        (TextStyle::Dim, "\u{2192} ".to_string()),
        (TextStyle::Plain, "b".to_string()),
    ];
    assert_eq!(runs, expect);
}

#[test]
fn non_ascii_whitespace_gets_inverse_escape() {
    let (runs, _) = run_pass("a\u{a0}b", opts());
    let expect = vec![
        (TextStyle::Plain, "a".to_string()),
        (TextStyle::Inverse, "U+a0".to_string()),
        (TextStyle::Plain, "b".to_string()),
    ];
    assert_eq!(runs, expect);
}

#[test]
fn control_char_gets_inverse_escape() {
    let (runs, _) = run_pass("a\u{7f}b", opts());
    let expect = vec![
        (TextStyle::Plain, "a".to_string()),
        (TextStyle::Inverse, "U+7f".to_string()),
        (TextStyle::Plain, "b".to_string()),
    ];
    assert_eq!(runs, expect);
}

#[test]
fn substitution_restricted_to_marker() {
    // With the marker option set, the second space lies outside the
    // marker and prints literally although the rules would substitute it.
    let mut out: Vec<Styled> = Vec::new();
    let bytes: Vec<u8> = b"a  b".to_vec();
    let marker = Marker { start: 0, end: 2 };
    let mut o = opts();
    o.substitute_only_in_marker = true;
    o.at_line_end = false;
    print_invisibles(&mut out, &bytes, &marker, &o);
    let expect = vec![
        (TextStyle::Plain, "a".to_string()),
        (TextStyle::Dim, "\u{b7}".to_string()),
        (TextStyle::Plain, " ".to_string()),
        (TextStyle::Plain, "b".to_string()),
    ];
    assert_eq!(flatten(&out), expect);
}

#[test]
fn whitespace_only_line_reports_no_literal_text() {
    let (_, had) = run_pass("   ", opts());
    assert!(!had);
}

#[test]
fn glyph_table() {
    assert_eq!(show_invisible_char(' '), Some("\u{b7}"));
    assert_eq!(show_invisible_char('\r'), Some("\u{240d}"));
    assert_eq!(show_invisible_char('\n'), Some("\u{23ce}"));
    assert_eq!(show_invisible_char('\t'), Some("\u{2192} "));
    assert_eq!(show_invisible_char('\0'), Some("\u{2400}"));
    assert_eq!(show_invisible_char('\u{b}'), Some("\u{240b}"));
    assert_eq!(show_invisible_char('\u{8}'), Some("\u{232b}"));
    assert_eq!(show_invisible_char('\u{c}'), Some("\u{21a1}"));
    assert_eq!(show_invisible_char('x'), None);
}
