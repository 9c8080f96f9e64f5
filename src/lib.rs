//! Text editing and document-state core of a Markdown editor: a rope-backed
//! text buffer, cursor and selection values, an undo/redo log, front-matter
//! extraction and the document aggregate, plus small text transforms
//! (LaTeX to Unicode, emoji shortcodes, diagram detection) and editor themes.
use vstd::prelude::*;

pub mod buffer;
pub mod config;
pub mod document;
pub mod emoji;
pub mod frontmatter;
pub mod history;
pub mod latex;
pub mod mermaid;
pub mod parser;
pub mod selection;
pub mod text;
pub mod theme;
pub mod tui;

verus! {

/// Errors of the document core.
#[derive(Debug, Clone, PartialEq, Eq)]
pub enum Error {
    Buffer(String),
    Parse(String),
    Frontmatter(String),
    /// Storage failed; the message says how.
    Io(String),
    /// A save was asked of a document that has no path.
    NoPath,
}

} // verus!
