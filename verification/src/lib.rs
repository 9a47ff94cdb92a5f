//! Renders a diagnostic's byte-offset span over a source text in two forms:
//! a styled, multi-line terminal excerpt (optionally with invisible
//! characters substituted by visible glyphs) and a single-line structured
//! annotation for a CI log parser.

pub mod markup;
pub mod diagnostic;
pub mod scalar;
pub mod locate;
pub mod escape;
pub mod clip;
pub mod invisible;
pub mod render;
pub mod github;
pub mod laws;
