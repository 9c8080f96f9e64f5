//! The Markdown engine boundary: text in, owned HTML or heading records out.
use comrak::nodes::NodeValue;
use vstd::prelude::*;

verus! {

#[verifier::external_type_specification]
#[verifier::external_body]
pub struct ExOptions<'c>(comrak::Options<'c>);

/// HTML that comrak renders from `md` with the GitHub-flavoured options of
/// this library.
pub uninterp spec fn html_of(md: Seq<char>) -> Seq<char>;

/// Headings that comrak finds in `md` with the GitHub-flavoured options of
/// this library, in document order: level, text, 1-based source line.
pub uninterp spec fn outline_of(md: Seq<char>) -> Seq<(u8, Seq<char>, usize)>;

/// A heading of the document outline.
#[derive(Debug, Clone)]
pub struct Heading {
    /// 1 to 6.
    pub level: u8,
    pub text: String,
    /// 1-based line of the heading in the source.
    pub line: usize,
}

/// Relies on comrak's `Options`: GitHub-flavoured extensions (strikethrough,
/// tables, autolinks, task lists, footnotes, description lists), smart
/// punctuation and language classes on code blocks.
#[verifier::external_body]
fn gfm_options() -> comrak::Options<'static> {
    let mut options = comrak::Options::default();
    options.extension.strikethrough = true;
    options.extension.table = true;
    options.extension.autolink = true;
    options.extension.tasklist = true;
    options.extension.footnotes = true;
    options.extension.description_lists = true;
    options.parse.smart = true;
    options.render.github_pre_lang = true;
    options
}

/// Relies on `comrak::markdown_to_html`, under the options of
/// `gfm_options`: the rendered HTML.
#[verifier::external_body]
fn comrak_html(md: &str) -> (r: String)
    ensures
        r@ == html_of(md@),
{
    comrak::markdown_to_html(md, &gfm_options())
}

/// Relies on `comrak::parse_document` (under the options of `gfm_options`),
/// `Node::descendants` and `Node::collect_text`: each heading node in
/// document order, with its level, its text and the line where it starts.
#[verifier::external_body]
fn comrak_headings(md: &str) -> (r: Vec<(u8, String, usize)>)
    ensures
        r@.len() == outline_of(md@).len(),
        forall|i: int| 0 <= i < r@.len() ==> (r@[i].0, r@[i].1@, r@[i].2) == #[trigger] outline_of(md@)[i],
{
    let arena = comrak::Arena::new();
    let options = gfm_options();
    let root = comrak::parse_document(&arena, md, &options);
    let mut out = Vec::new();
    for node in root.descendants() {
        if let NodeValue::Heading(h) = node.data().value {
            out.push((h.level, node.collect_text(), node.data().sourcepos.start.line));
        }
    }
    out
}

/// A Markdown parser with GitHub-flavoured options.
#[derive(Debug)]
pub struct MarkdownParser;

impl MarkdownParser {
    pub fn new() -> (r: Self) {
        MarkdownParser
    }

    /// `markdown` rendered as HTML.
    pub fn to_html(&self, markdown: &str) -> (r: String)
        ensures
            r@ == html_of(markdown@),
    {
        comrak_html(markdown)
    }

    /// The headings of `markdown`, in document order.
    pub fn extract_headings(&self, markdown: &str) -> (r: Vec<Heading>)
        ensures
            r@.len() == outline_of(markdown@).len(),
            forall|i: int|
                0 <= i < r@.len() ==> (r@[i].level, r@[i].text@, r@[i].line) == #[trigger] outline_of(markdown@)[i],
    {
        let records = comrak_headings(markdown);
        let mut out: Vec<Heading> = Vec::new();
        let mut i: usize = 0;
        while i < records.len()
            invariant
                i <= records@.len(),
                records@.len() == outline_of(markdown@).len(),
                forall|j: int| 0 <= j < records@.len() ==> (records@[j].0, records@[j].1@, records@[j].2) == #[trigger] outline_of(markdown@)[j],
                out@.len() == i,
                forall|j: int| 0 <= j < i ==> (out@[j].level, out@[j].text@, out@[j].line) == #[trigger] outline_of(markdown@)[j],
            decreases records@.len() - i,
        {
            let (level, text, line) = &records[i];
            out.push(Heading { level: *level, text: text.clone(), line: *line });
            i += 1;
        }
        out
    }
}

impl Default for MarkdownParser {
    fn default() -> (r: Self) {
        MarkdownParser::new()
    }
}

} // verus!
