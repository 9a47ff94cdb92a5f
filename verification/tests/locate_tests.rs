use diag_render::diagnostic::RenderError;
use diag_render::locate::{line_range, location, LineColumn};

fn bytes(s: &str) -> Vec<u8> {
    s.as_bytes().to_vec()
}

#[test]
fn location_start_of_text() {
    let t = bytes("foo\nbar");
    let p = location(&t, 0).unwrap();
    assert_eq!(p, LineColumn { line: 1, column: 1 });
}

#[test]
fn location_second_line() {
    let t = bytes("foo\nbar");
    let p = location(&t, 5).unwrap();
    assert_eq!(p, LineColumn { line: 2, column: 2 });
}

#[test]
fn location_at_line_boundary() {
    let t = bytes("foo\nbar");
    let p = location(&t, 4).unwrap();
    assert_eq!(p, LineColumn { line: 2, column: 1 });
}

#[test]
fn location_counts_scalars_not_bytes() {
    // "héllo": the accented character takes two bytes but one column.
    let t = bytes("h\u{e9}llo\nx");
    let p = location(&t, 4).unwrap();
    assert_eq!(p, LineColumn { line: 1, column: 4 });
}

#[test]
fn location_end_of_text() {
    let t = bytes("a\n");
    let p = location(&t, 2).unwrap();
    assert_eq!(p, LineColumn { line: 2, column: 1 });
}

#[test]
fn location_out_of_bounds() {
    let t = bytes("abc");
    assert_eq!(location(&t, 4), Err(RenderError::LocationOutOfBounds));
}

#[test]
fn line_range_includes_terminator() {
    let t = bytes("foo\nbarbaz\nqux");
    assert_eq!(line_range(&t, 0), Ok((0, 4)));
    assert_eq!(line_range(&t, 1), Ok((4, 11)));
    assert_eq!(line_range(&t, 2), Ok((11, 14)));
}

#[test]
fn line_range_trailing_newline_makes_empty_line() {
    let t = bytes("a\nb\n");
    assert_eq!(line_range(&t, 2), Ok((4, 4)));
    assert_eq!(line_range(&t, 3), Err(RenderError::LocationOutOfBounds));
}
