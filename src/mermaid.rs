//! Mermaid diagrams as text art: the diagram type is read from the first
//! line, and each type has a fixed sketch.
use vstd::prelude::*;

use crate::buffer::next_newline;
use crate::text::{
    chars_of, first_non_space, is_prefix, last_non_space, lower_of, lowercase, starts_with_lit, string_of,
    trim_space_end, trim_space_start,
};

verus! {

/// Kinds of diagram.
#[derive(Debug, Clone, Copy, PartialEq, Eq, Structural)]
pub enum DiagramType {
    Flowchart,
    Sequence,
    State,
    Pie,
    Unknown,
}

/// Why a diagram could not be rendered.
#[derive(Debug, Clone, Copy, PartialEq, Eq, Structural)]
pub enum MermaidError {
    ParseError,
    UnsupportedDiagram,
}

/// The first line of `s`, without its line feed.
pub open spec fn first_line(s: Seq<char>) -> Seq<char> {
    s.take(next_newline(s, 0))
}

/// The header of a diagram: its first line, trimmed and lower-cased.
pub open spec fn header_of(s: Seq<char>) -> Seq<char> {
    lower_of(trim_space_end(trim_space_start(first_line(s))))
}

/// The diagram type that a lower-cased header names.
pub open spec fn diagram_type_of(header: Seq<char>) -> DiagramType {
    if is_prefix("graph"@, header) || is_prefix("flowchart"@, header) {
        DiagramType::Flowchart
    } else if is_prefix("sequencediagram"@, header) {
        DiagramType::Sequence
    } else if is_prefix("statediagram"@, header) {
        DiagramType::State
    } else if is_prefix("pie"@, header) {
        DiagramType::Pie
    } else {
        DiagramType::Unknown
    }
}

/// The flowchart sketch, in box-drawing characters or in ASCII.
pub open spec fn flowchart_text(unicode: bool) -> Seq<char> {
    if unicode {
        "┌─────────┐     ┌─────────┐     ┌─────────┐\n│  Start  │────▶│ Process │────▶│   End   │\n└─────────┘     └─────────┘     └─────────┘"@
    } else {
        "+---------+     +---------+     +---------+\n|  Start  |────▶| Process |────▶|   End   |\n+---------+     +---------+     +---------+"@
    }
}

/// The sequence-diagram sketch.
pub open spec fn sequence_text() -> Seq<char> {
    "┌─────┐          ┌─────┐\n│  A  │───────▶│  B  │\n└─────┘          └─────┘"@
}

/// The state-diagram sketch.
pub open spec fn state_text() -> Seq<char> {
    "( State1 ) ──▶ ( State2 )"@
}

/// The pie-chart sketch, as horizontal bars.
pub open spec fn pie_text() -> Seq<char> {
    "███████████░░░░░░░░░ 55% - Item A\n████████░░░░░░░░░░░░ 40% - Item B\n█░░░░░░░░░░░░░░░░░░░  5% - Item C"@
}

/// The diagram type that the lower-cased header `header` names.
pub fn diagram_type(header: &str) -> (r: DiagramType)
    ensures
        r == diagram_type_of(header@),
{
    let h = chars_of(header);
    if starts_with_lit(&h, "graph") || starts_with_lit(&h, "flowchart") {
        DiagramType::Flowchart
    } else if starts_with_lit(&h, "sequencediagram") {
        DiagramType::Sequence
    } else if starts_with_lit(&h, "statediagram") {
        DiagramType::State
    } else if starts_with_lit(&h, "pie") {
        DiagramType::Pie
    } else {
        DiagramType::Unknown
    }
}

/// Renders Mermaid diagrams as text.
pub struct MermaidRenderer {
    pub max_width: usize,
    pub use_unicode: bool,
}

impl MermaidRenderer {
    /// Eighty columns wide, with box-drawing characters.
    pub fn new() -> (r: Self)
        ensures
            r.max_width == 80,
            r.use_unicode,
    {
        MermaidRenderer { max_width: 80, use_unicode: true }
    }

    /// The same renderer with another width bound.
    pub fn max_width(self, width: usize) -> (r: Self)
        ensures
            r.max_width == width,
            r.use_unicode == self.use_unicode,
    {
        MermaidRenderer { max_width: width, use_unicode: self.use_unicode }
    }

    /// The same renderer drawing in ASCII.
    pub fn ascii_mode(self) -> (r: Self)
        ensures
            r.max_width == self.max_width,
            !r.use_unicode,
    {
        MermaidRenderer { max_width: self.max_width, use_unicode: false }
    }

    /// The sketch of the diagram `mermaid`, or `UnsupportedDiagram` when its
    /// first line names no known type.
    pub fn render(&self, mermaid: &str) -> (r: Result<String, MermaidError>)
        ensures
            ({
                let kind = diagram_type_of(header_of(mermaid@));
                &&& kind == DiagramType::Unknown ==> r == Err::<String, MermaidError>(MermaidError::UnsupportedDiagram)
                &&& kind == DiagramType::Flowchart ==> r is Ok && r->Ok_0@ == flowchart_text(self.use_unicode)
                &&& kind == DiagramType::Sequence ==> r is Ok && r->Ok_0@ == sequence_text()
                &&& kind == DiagramType::State ==> r is Ok && r->Ok_0@ == state_text()
                &&& kind == DiagramType::Pie ==> r is Ok && r->Ok_0@ == pie_text()
            }),
    {
        let kind = match self.detect_type(mermaid) {
            Ok(k) => k,
            Err(e) => {
                return Err(e);
            },
        };
        match kind {
            DiagramType::Flowchart => self.render_flowchart(mermaid),
            DiagramType::Sequence => self.render_sequence(mermaid),
            DiagramType::State => self.render_state(mermaid),
            DiagramType::Pie => self.render_pie(mermaid),
            DiagramType::Unknown => Err(MermaidError::UnsupportedDiagram),
        }
    }

    /// The type that the first line of `mermaid` names.
    fn detect_type(&self, mermaid: &str) -> (r: Result<DiagramType, MermaidError>)
        ensures
            r == Ok::<DiagramType, MermaidError>(diagram_type_of(header_of(mermaid@))),
    {
        let cs = chars_of(mermaid);
        let mut e: usize = 0;
        while e < cs.len() && cs[e] != '\n'
            invariant
                e <= cs@.len(),
                next_newline(cs@, 0) == next_newline(cs@, e as int),
            decreases cs@.len() - e,
        {
            e += 1;
        }
        let line = string_of(&cs, 0, e);
        let lc = chars_of(line.as_str());
        assert(lc@ == first_line(cs@));
        let a = first_non_space(&lc);
        let trimmed_start = string_of(&lc, a, lc.len());
        let tc = chars_of(trimmed_start.as_str());
        assert(tc@ =~= lc@.skip(a as int));
        let b = last_non_space(&tc, tc.len());
        assert(tc@.take(tc@.len() as int) =~= tc@);
        let trimmed = string_of(&tc, 0, b);
        assert(tc@.subrange(0, b as int) =~= tc@.take(b as int));
        let header = lowercase(trimmed.as_str());
        Ok(diagram_type(header.as_str()))
    }

    fn render_flowchart(&self, _mermaid: &str) -> (r: Result<String, MermaidError>)
        ensures
            r is Ok && r->Ok_0@ == flowchart_text(self.use_unicode),
    {
        if self.use_unicode {
            Ok(String::from_str(
                "┌─────────┐     ┌─────────┐     ┌─────────┐\n│  Start  │────▶│ Process │────▶│   End   │\n└─────────┘     └─────────┘     └─────────┘",
            ))
        } else {
            Ok(String::from_str(
                "+---------+     +---------+     +---------+\n|  Start  |────▶| Process |────▶|   End   |\n+---------+     +---------+     +---------+",
            ))
        }
    }

    fn render_sequence(&self, _mermaid: &str) -> (r: Result<String, MermaidError>)
        ensures
            r is Ok && r->Ok_0@ == sequence_text(),
    {
        Ok(String::from_str("┌─────┐          ┌─────┐\n│  A  │───────▶│  B  │\n└─────┘          └─────┘"))
    }

    fn render_state(&self, _mermaid: &str) -> (r: Result<String, MermaidError>)
        ensures
            r is Ok && r->Ok_0@ == state_text(),
    {
        Ok(String::from_str("( State1 ) ──▶ ( State2 )"))
    }

    fn render_pie(&self, _mermaid: &str) -> (r: Result<String, MermaidError>)
        ensures
            r is Ok && r->Ok_0@ == pie_text(),
    {
        Ok(String::from_str(
            "███████████░░░░░░░░░ 55% - Item A\n████████░░░░░░░░░░░░ 40% - Item B\n█░░░░░░░░░░░░░░░░░░░  5% - Item C",
        ))
    }
}

impl Default for MermaidRenderer {
    fn default() -> (r: Self)
        ensures
            r.max_width == 80,
            r.use_unicode,
    {
        MermaidRenderer::new()
    }
}

} // verus!
