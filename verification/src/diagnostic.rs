use vstd::prelude::*;
use crate::markup::Styled;

verus! {

/// How severe a diagnostic is.
#[derive(Clone, Copy, Debug, PartialEq, Eq, Structural)]
pub enum Severity {
    Hint,
    Information,
    Warning,
    Error,
    Fatal,
}

/// Half-open byte-offset range `[start, end)` into a source text.
#[derive(Clone, Copy, Debug, PartialEq, Eq, Structural)]
pub struct TextSpan {
    pub start: u32,
    pub end: u32,
}

impl TextSpan {
    /// Well-formed over a text of `len` bytes: ordered and in bounds.
    pub open spec fn wf(self, len: int) -> bool {
        self.start <= self.end <= len
    }

    pub fn new(start: u32, end: u32) -> (r: TextSpan)
        requires
            start <= end,
        ensures
            r.start == start,
            r.end == end,
    {
        TextSpan { start, end }
    }
}

/// What a diagnostic points at: a file on disk, or something without a
/// path such as command-line input held in memory.
#[derive(Debug)]
pub enum Resource {
    File(Vec<char>),
    Memory,
}

/// Why a render call produced no complete output: the locator was handed
/// an offset past the end of the text, or the caller's sink failed.
/// The renderers in this crate only ever report `LocationOutOfBounds`;
/// `SinkWriteFailed` is for callers that forward the runs to real output.
#[derive(Clone, Copy, Debug, PartialEq, Eq, Structural)]
pub enum RenderError {
    LocationOutOfBounds,
    SinkWriteFailed,
}

/// A diagnostic handed to a renderer: severity, optional category name,
/// optional location parts, and a pre-rendered styled message. The
/// renderers read it and never change it.
#[derive(Debug)]
pub struct Diagnostic {
    pub severity: Severity,
    pub category: Option<Vec<char>>,
    pub resource: Option<Resource>,
    pub span: Option<TextSpan>,
    pub source: Option<Vec<u8>>,
    pub message: Vec<Styled>,
}

/// Builds the diagnostic reported for one search match: severity
/// `Information`, the matched file as resource, the match as span.
pub fn match_diagnostic(
    path: Vec<char>,
    span: TextSpan,
    source: Vec<u8>,
    message: Vec<Styled>,
) -> (d: Diagnostic)
    ensures
        d.severity == Severity::Information,
        d.category is None,
        d.resource matches Some(Resource::File(p)) && p@ == path@,
        d.span == Some(span),
        d.source matches Some(s) && s@ == source@,
        d.message.deep_view() == message.deep_view(),
{
    Diagnostic {
        severity: Severity::Information,
        category: None,
        resource: Some(Resource::File(path)),
        span: Some(span),
        source: Some(source),
        message,
    }
}

} // verus!
