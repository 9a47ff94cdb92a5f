use diag_render::diagnostic::{Diagnostic, RenderError, Resource, Severity, TextSpan};
use diag_render::github::PrintGitHubDiagnostic;
use diag_render::markup::{markup_to_string, Styled, TextStyle};

fn bytes(s: &str) -> Vec<u8> {
    s.as_bytes().to_vec()
}

fn msg(s: &str) -> Vec<Styled> {
    vec![Styled { style: TextStyle::Emphasis, text: s.chars().collect() }]
}

fn diag(sev: Severity) -> Diagnostic {
    Diagnostic {
        severity: sev,
        category: Some("lint/test".chars().collect()),
        resource: Some(Resource::File("src/a.rs".chars().collect())),
        span: Some(TextSpan { start: 4, end: 7 }),
        source: Some(bytes("foo\nbar\nqux")),
        message: msg("found it"),
    }
}

fn render(d: &Diagnostic) -> Result<String, RenderError> {
    let mut out: Vec<Styled> = Vec::new();
    PrintGitHubDiagnostic(d).fmt(&mut out)?;
    Ok(out.iter().map(|r| r.text.iter().collect::<String>()).collect::<Vec<_>>().join(""))
}

#[test]
fn annotation_line_exact() {
    let line = render(&diag(Severity::Error)).unwrap();
    assert_eq!(
        line,
        "::error title=lint/test,file=src/a.rs,line=2,endLine=2,col=1,endColumn=4::found it"
    );
}

#[test]
fn severity_commands() {
    assert!(render(&diag(Severity::Error)).unwrap().starts_with("::error "));
    assert!(render(&diag(Severity::Fatal)).unwrap().starts_with("::error "));
    assert!(render(&diag(Severity::Warning)).unwrap().starts_with("::warning "));
    assert!(render(&diag(Severity::Hint)).unwrap().starts_with("::notice "));
    assert!(render(&diag(Severity::Information)).unwrap().starts_with("::notice "));
}

#[test]
fn path_is_property_escaped_message_data_escaped() {
    let mut d = diag(Severity::Warning);
    d.resource = Some(Resource::File("dir,x:y/a.rs".chars().collect()));
    d.message = msg("50% done\nmore");
    let line = render(&d).unwrap();
    assert_eq!(
        line,
        "::warning title=lint/test,file=dir%2Cx%3Ay/a.rs,line=2,endLine=2,col=1,endColumn=4::50%25 done%0Amore"
    );
}

#[test]
fn missing_category_gives_empty_title() {
    let mut d = diag(Severity::Error);
    d.category = None;
    let line = render(&d).unwrap();
    assert!(line.starts_with("::error title=,file="));
}

#[test]
fn no_span_emits_nothing() {
    let mut d = diag(Severity::Error);
    d.span = None;
    assert_eq!(render(&d).unwrap(), "");
}

#[test]
fn no_source_emits_nothing() {
    let mut d = diag(Severity::Error);
    d.source = None;
    assert_eq!(render(&d).unwrap(), "");
}

#[test]
fn non_file_resource_emits_nothing() {
    let mut d = diag(Severity::Error);
    d.resource = Some(Resource::Memory);
    assert_eq!(render(&d).unwrap(), "");
    d.resource = None;
    assert_eq!(render(&d).unwrap(), "");
}

#[test]
fn span_past_end_fails_with_location_error() {
    let mut d = diag(Severity::Error);
    d.span = Some(TextSpan { start: 4, end: 99 });
    assert_eq!(render(&d), Err(RenderError::LocationOutOfBounds));
}

#[test]
fn span_crossing_lines_reports_both_ends() {
    let mut d = diag(Severity::Error);
    d.span = Some(TextSpan { start: 2, end: 9 });
    let line = render(&d).unwrap();
    assert!(line.contains(",line=1,endLine=3,col=3,endColumn=2::"));
}

#[test]
fn multi_byte_column_counted_in_characters() {
    let mut d = diag(Severity::Error);
    d.source = Some(bytes("h\u{e9}llo"));
    d.span = Some(TextSpan { start: 3, end: 5 });
    let line = render(&d).unwrap();
    assert!(line.contains(",line=1,endLine=1,col=3,endColumn=5::"));
}

#[test]
fn markup_to_string_strips_styling() {
    let runs = vec![
        Styled { style: TextStyle::Emphasis, text: "a".chars().collect() },
        Styled { style: TextStyle::Dim, text: "bc".chars().collect() },
    ];
    let text: String = markup_to_string(&runs).iter().collect();
    assert_eq!(text, "abc");
}

#[test]
fn rendering_twice_is_identical() {
    let d = diag(Severity::Warning);
    assert_eq!(render(&d).unwrap(), render(&d).unwrap());
}
