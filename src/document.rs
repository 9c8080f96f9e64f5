//! The document aggregate: buffer, front matter, history, path, view state
//! and a lazily rebuilt HTML rendering.
use vstd::prelude::*;

use crate::buffer::{
    inserted, lemma_line_col_round_trip, lemma_line_start, line_col_offset, line_count, line_len, line_text,
    next_newline, removed, Buffer,
};
use crate::frontmatter::{
    delimited, extract_spec, field_texts, map_get_str, map_get_text, payload_fields, payload_strings, string_fields,
    Frontmatter,
};
use crate::history::{record_spec, redo_spec, undo_spec, Edit, History, HistoryView};
use crate::selection::{Position, Selection};
use crate::text::chars_of;
use crate::parser::{html_of, outline_of, Heading, MarkdownParser};
use crate::Error;

verus! {

/// The last component of the path `p`, if it has one.
pub uninterp spec fn file_name_of(p: Seq<char>) -> Option<Seq<char>>;

/// Relies on `Path::file_name` (with `OsStr::to_string_lossy`): the final
/// component of the path.
#[verifier::external_body]
fn path_file_name(p: &str) -> (r: Option<String>)
    ensures
        r is Some == file_name_of(p@) is Some,
        r is Some ==> r->0@ == file_name_of(p@)->0,
{
    std::path::Path::new(p).file_name().map(|n| n.to_string_lossy().into_owned())
}

/// What a document with front matter `fm` and body `text` saves: the block
/// as written, a line feed and the body; or the body alone.
pub open spec fn full_content_spec(fm: Option<Frontmatter>, text: Seq<char>) -> Seq<char> {
    match fm {
        Some(f) => delimited(f.format, f.raw@) + seq!['\n'] + text,
        None => text,
    }
}

/// The title: the front matter's `title` field (the string itself when it
/// is a string, else its JSON text), else the file name of the path, else
/// "Untitled".
pub open spec fn title_spec(fm: Option<Frontmatter>, path: Option<String>) -> Seq<char> {
    if fm is Some && string_fields(fm->0.data).contains_key("title"@) {
        string_fields(fm->0.data)["title"@]
    } else if fm is Some && field_texts(fm->0.data).contains_key("title"@) {
        field_texts(fm->0.data)["title"@]
    } else if path is Some && file_name_of(path->0@) is Some {
        file_name_of(path->0@)->0
    } else {
        "Untitled"@
    }
}

/// The cursor (line, column) as a zero-width selection.
pub open spec fn cursor_sel(c: (usize, usize)) -> Selection {
    Selection { anchor: Position { line: c.0, col: c.1 }, head: Position { line: c.0, col: c.1 } }
}

/// `new_h` is `old_h` with one more record: at `pos`, `deleted` gave way to
/// `ins`, moving the cursor from `before` to `after`.
pub open spec fn recorded(
    old_h: HistoryView,
    new_h: HistoryView,
    pos: int,
    deleted: Seq<char>,
    ins: Seq<char>,
    before: Selection,
    after: Selection,
) -> bool {
    exists|e: Edit|
        e.position == pos && e.deleted@ == deleted && e.inserted@ == ins && e.cursor_before == before
            && e.cursor_after == after && new_h == #[trigger] record_spec(old_h, e)
}

/// Characters on line `l` without its line feed; 0 past the last line.
pub open spec fn line_length_spec(s: Seq<char>, l: nat) -> int {
    if l < line_count(s) {
        line_len(s, l)
    } else {
        0
    }
}

/// Where the cursor goes after a backspace: one column left, or to the end
/// of the line above when it was at a line start.
pub open spec fn cursor_after_backspace(s: Seq<char>, c: (usize, usize)) -> (usize, usize) {
    if c.1 > 0 {
        (c.0, (c.1 - 1) as usize)
    } else if c.0 > 0 {
        ((c.0 - 1) as usize, line_length_spec(s, (c.0 - 1) as nat) as usize)
    } else {
        c
    }
}

/// The record `e` fits the text `s` for an undo: what it inserted lies within `s`.
pub open spec fn undo_fits(s: Seq<char>, e: Edit) -> bool {
    e.position + e.inserted@.len() <= s.len()
}

/// The record `e` fits the text `s` for a redo: what it deleted lies within `s`.
pub open spec fn redo_fits(s: Seq<char>, e: Edit) -> bool {
    e.position + e.deleted@.len() <= s.len()
}

/// `s` with the record `e` reverted: its inserted text taken out and its
/// deleted text put back.
pub open spec fn undo_text(s: Seq<char>, e: Edit) -> Seq<char> {
    inserted(removed(s, e.position as int, e.position + e.inserted@.len()), e.position as int, e.deleted@)
}

/// `s` with the record `e` applied again.
pub open spec fn redo_text(s: Seq<char>, e: Edit) -> Seq<char> {
    inserted(removed(s, e.position as int, e.position + e.deleted@.len()), e.position as int, e.inserted@)
}

/// Undoing the record of a deletion of `s[p..q]` from `s` gives `s` back.
pub proof fn lemma_undo_reverts_delete(s: Seq<char>, p: int, q: int, e: Edit)
    requires
        0 <= p <= q <= s.len(),
        e.position == p,
        e.deleted@ == s.subrange(p, q),
        e.inserted@.len() == 0,
    ensures
        undo_fits(removed(s, p, q), e),
        undo_text(removed(s, p, q), e) == s,
{
    assert(undo_text(removed(s, p, q), e) =~= s);
}

/// Undoing the record of an insertion of `t` at `p` in `s` gives `s` back.
pub proof fn lemma_undo_reverts_insert(s: Seq<char>, p: int, t: Seq<char>, e: Edit)
    requires
        0 <= p <= s.len(),
        e.position == p,
        e.inserted@ == t,
        e.deleted@.len() == 0,
    ensures
        undo_fits(inserted(s, p, t), e),
        undo_text(inserted(s, p, t), e) == s,
{
    assert(undo_text(inserted(s, p, t), e) =~= s);
}

/// What saving hands to storage: where to write and what.
#[derive(Debug, Clone)]
pub struct SaveJob {
    pub path: String,
    pub content: String,
}

/// A document: its body text, front matter, path, history and view state.
#[derive(Debug)]
pub struct Document {
    pub buffer: Buffer,
    pub frontmatter: Option<Frontmatter>,
    /// File path; `None` while untitled.
    pub path: Option<String>,
    pub history: History,
    /// Cursor (line, column).
    pub cursor: (usize, usize),
    pub scroll_offset: usize,
    /// The engine that renders the body.
    pub parser: MarkdownParser,
    /// The last rendering, if one was made.
    pub cached_html: Option<String>,
    /// Whether `cached_html` is stale.
    pub html_dirty: bool,
}

impl Document {
    /// The cached rendering, if any.
    pub open spec fn cache_spec(&self) -> Option<Seq<char>> {
        match self.cached_html {
            Some(h) => Some(h@),
            None => None,
        }
    }

    /// Whether the cached rendering is marked stale.
    pub open spec fn dirty_spec(&self) -> bool {
        self.html_dirty
    }

    /// An empty, untitled document.
    pub fn new() -> (r: Self)
        ensures
            r.history.wf(),
            r.buffer.view() == Seq::<char>::empty(),
            !r.buffer.is_modified_spec(),
            r.frontmatter is None,
            r.path is None,
            r.history.view().undo.len() == 0 && r.history.view().redo.len() == 0,
            r.cursor == (0usize, 0usize),
            r.scroll_offset == 0,
            r.dirty_spec(),
    {
        Document {
            buffer: Buffer::new(),
            frontmatter: None,
            path: None,
            history: History::new(),
            cursor: (0, 0),
            scroll_offset: 0,
            parser: MarkdownParser::new(),
            cached_html: None,
            html_dirty: true,
        }
    }

    /// A document from raw content: front matter is split off and the body
    /// goes into the buffer.
    pub fn from_content(content: &str) -> (r: Self)
        ensures
            r.history.wf(),
            r.buffer.view() == extract_spec(content@).1,
            !r.buffer.is_modified_spec(),
            r.frontmatter is Some == extract_spec(content@).0 is Some,
            r.frontmatter is Some ==> (r.frontmatter->0.format, r.frontmatter->0.raw@)
                == extract_spec(content@).0->0,
            r.frontmatter is Some ==> field_texts(r.frontmatter->0.data) == payload_fields(
                r.frontmatter->0.format,
                r.frontmatter->0.raw@,
            ) && string_fields(r.frontmatter->0.data) == payload_strings(
                r.frontmatter->0.format,
                r.frontmatter->0.raw@,
            ),
            r.path is None,
            r.history.view().undo.len() == 0 && r.history.view().redo.len() == 0,
            r.cursor == (0usize, 0usize),
            r.scroll_offset == 0,
            r.dirty_spec(),
    {
        let (frontmatter, body) = Frontmatter::extract(content);
        Document {
            buffer: Buffer::from_str(body),
            frontmatter,
            path: None,
            history: History::new(),
            cursor: (0, 0),
            scroll_offset: 0,
            parser: MarkdownParser::new(),
            cached_html: None,
            html_dirty: true,
        }
    }

    /// A document loaded from `path`, whose text was `content`; loading is
    /// no edit, so the buffer is unmodified.
    pub fn from_file_content(path: String, content: &str) -> (r: Self)
        ensures
            r.history.wf(),
            r.buffer.view() == extract_spec(content@).1,
            !r.buffer.is_modified_spec(),
            r.frontmatter is Some == extract_spec(content@).0 is Some,
            r.frontmatter is Some ==> (r.frontmatter->0.format, r.frontmatter->0.raw@)
                == extract_spec(content@).0->0,
            r.frontmatter is Some ==> field_texts(r.frontmatter->0.data) == payload_fields(
                r.frontmatter->0.format,
                r.frontmatter->0.raw@,
            ) && string_fields(r.frontmatter->0.data) == payload_strings(
                r.frontmatter->0.format,
                r.frontmatter->0.raw@,
            ),
            r.path == Some(path),
            r.history.view().undo.len() == 0 && r.history.view().redo.len() == 0,
            r.cursor == (0usize, 0usize),
            r.scroll_offset == 0,
            r.dirty_spec(),
    {
        let mut doc = Self::from_content(content);
        doc.path = Some(path);
        doc.buffer.mark_saved();
        doc
    }

    /// What to write where for a save: the full content to the path, or
    /// `Error::NoPath` for an untitled document. The caller writes it and
    /// then marks the buffer saved.
    pub fn save(&self) -> (r: Result<SaveJob, Error>)
        ensures
            self.path is None ==> r == Err::<SaveJob, Error>(Error::NoPath),
            self.path is Some ==> r is Ok && r->Ok_0.path == self.path->0
                && r->Ok_0.content@ == full_content_spec(self.frontmatter, self.buffer.view()),
    {
        match &self.path {
            Some(p) => Ok(SaveJob { path: p.clone(), content: self.full_content() }),
            None => Err(Error::NoPath),
        }
    }

    /// Sets the path, then saves as `save` does.
    pub fn save_as(&mut self, path: String) -> (r: Result<SaveJob, Error>)
        ensures
            final(self).path == Some(path),
            final(self).buffer == old(self).buffer,
            final(self).frontmatter == old(self).frontmatter,
            final(self).history == old(self).history,
            r is Ok && r->Ok_0.path == path
                && r->Ok_0.content@ == full_content_spec(old(self).frontmatter, old(self).buffer.view()),
    {
        self.path = Some(path);
        self.save()
    }

    /// The text a save writes: the front-matter block, a line feed and the
    /// body; or the body alone.
    pub fn full_content(&self) -> (r: String)
        ensures
            r@ == full_content_spec(self.frontmatter, self.buffer.view()),
    {
        match &self.frontmatter {
            Some(fm) => {
                let mut s = fm.to_string();
                s.push('\n');
                let body = self.buffer.text();
                s.append(body.as_str());
                s
            },
            None => self.buffer.text(),
        }
    }

    /// The title: front-matter `title` field, else file name, else "Untitled".
    pub fn title(&self) -> (r: String)
        ensures
            r@ == title_spec(self.frontmatter, self.path),
    {
        if let Some(fm) = &self.frontmatter {
            if let Some(t) = map_get_str(&fm.data, "title") {
                return String::from_str(t);
            }
            if let Some(t) = map_get_text(&fm.data, "title") {
                return t;
            }
        }
        if let Some(p) = &self.path {
            if let Some(name) = path_file_name(p.as_str()) {
                return name;
            }
        }
        String::from_str("Untitled")
    }

    /// Whether the buffer changed since loading or the last save.
    pub fn is_modified(&self) -> (r: bool)
        ensures
            r == self.buffer.is_modified_spec(),
    {
        self.buffer.is_modified()
    }

    /// Marks the cached rendering stale. Edits made straight on `buffer` do
    /// not do this by themselves.
    pub fn invalidate_cache(&mut self)
        ensures
            final(self).dirty_spec(),
            final(self).cache_spec() == old(self).cache_spec(),
            final(self).buffer == old(self).buffer,
            final(self).frontmatter == old(self).frontmatter,
            final(self).path == old(self).path,
            final(self).history == old(self).history,
    {
        self.html_dirty = true;
    }

    /// The HTML rendering of the body: rebuilt from the buffer when stale
    /// or absent, else the cached one.
    pub fn html(&mut self) -> (r: String)
        ensures
            (old(self).dirty_spec() || old(self).cache_spec() is None) ==> r@ == html_of(old(self).buffer.view()),
            !(old(self).dirty_spec() || old(self).cache_spec() is None) ==> Some(r@) == old(self).cache_spec(),
            final(self).cache_spec() == Some(r@),
            !final(self).dirty_spec(),
            final(self).buffer == old(self).buffer,
            final(self).frontmatter == old(self).frontmatter,
            final(self).path == old(self).path,
            final(self).history == old(self).history,
    {
        if self.html_dirty || self.cached_html.is_none() {
            let text = self.buffer.text();
            let html = self.parser.to_html(text.as_str());
            self.cached_html = Some(html.clone());
            self.html_dirty = false;
            html
        } else {
            match &self.cached_html {
                Some(h) => h.clone(),
                None => String::new(),
            }
        }
    }

    fn cursor_selection(&self) -> (r: Selection)
        ensures
            r == cursor_sel(self.cursor),
    {
        Selection::cursor(Position::new(self.cursor.0, self.cursor.1))
    }

    /// Characters on line `line_idx` without its line feed; 0 past the last line.
    pub fn line_length(&self, line_idx: usize) -> (r: usize)
        ensures
            r == line_length_spec(self.buffer.view(), line_idx as nat),
    {
        match self.buffer.line(line_idx) {
            None => 0,
            Some(text) => {
                let cs = chars_of(text.as_str());
                let n = cs.len();
                proof {
                    let s = self.buffer.view();
                    lemma_line_start(s, line_idx as nat);
                    let nn = next_newline(s, crate::buffer::line_start(s, line_idx as nat));
                    crate::buffer::lemma_next_newline(s, crate::buffer::line_start(s, line_idx as nat));
                    if n > 0 && nn == s.len() {
                        assert(cs@[n - 1] == s[crate::buffer::line_start(s, line_idx as nat) + n - 1]);
                    }
                }
                if n > 0 && cs[n - 1] == '\n' {
                    n - 1
                } else {
                    n
                }
            },
        }
    }

    /// Types `c` at the cursor, which moves one column right; the edit is
    /// recorded and the rendering marked stale.
    pub fn insert_char(&mut self, c: char)
        requires
            old(self).history.wf(),
            old(self).cursor.0 < line_count(old(self).buffer.view()),
            old(self).cursor.1 < usize::MAX,
        ensures
            final(self).history.wf(),
            final(self).buffer.view() == inserted(
                old(self).buffer.view(),
                line_col_offset(old(self).buffer.view(), old(self).cursor.0 as nat, old(self).cursor.1 as nat),
                seq![c],
            ),
            final(self).cursor == (old(self).cursor.0, (old(self).cursor.1 + 1) as usize),
            recorded(
                old(self).history.view(),
                final(self).history.view(),
                line_col_offset(old(self).buffer.view(), old(self).cursor.0 as nat, old(self).cursor.1 as nat),
                Seq::empty(),
                seq![c],
                cursor_sel(old(self).cursor),
                cursor_sel(final(self).cursor),
            ),
            final(self).dirty_spec(),
    {
        let before = self.cursor_selection();
        let pos = self.buffer.line_col_to_char(self.cursor.0, self.cursor.1);
        proof {
            lemma_line_col_round_trip(self.buffer.view(), self.cursor.0 as nat, self.cursor.1 as nat);
        }
        let mut text = String::new();
        text.push(c);
        self.buffer.insert(pos, text.as_str());
        self.cursor.1 = self.cursor.1 + 1;
        let after = self.cursor_selection();
        let edit = Edit::insert(pos, text, before, after);
        let ghost ge = edit;
        self.history.record(edit);
        assert(self.history.view() == record_spec(old(self).history.view(), ge));
        self.html_dirty = true;
    }

    /// Splits the line at the cursor, which moves to the start of the new
    /// line; the edit is recorded and the rendering marked stale.
    pub fn insert_newline(&mut self)
        requires
            old(self).history.wf(),
            old(self).cursor.0 < line_count(old(self).buffer.view()),
            old(self).cursor.0 < usize::MAX,
        ensures
            final(self).history.wf(),
            final(self).buffer.view() == inserted(
                old(self).buffer.view(),
                line_col_offset(old(self).buffer.view(), old(self).cursor.0 as nat, old(self).cursor.1 as nat),
                seq!['\n'],
            ),
            final(self).cursor == ((old(self).cursor.0 + 1) as usize, 0usize),
            recorded(
                old(self).history.view(),
                final(self).history.view(),
                line_col_offset(old(self).buffer.view(), old(self).cursor.0 as nat, old(self).cursor.1 as nat),
                Seq::empty(),
                seq!['\n'],
                cursor_sel(old(self).cursor),
                cursor_sel(final(self).cursor),
            ),
            final(self).dirty_spec(),
    {
        let before = self.cursor_selection();
        let pos = self.buffer.line_col_to_char(self.cursor.0, self.cursor.1);
        proof {
            lemma_line_col_round_trip(self.buffer.view(), self.cursor.0 as nat, self.cursor.1 as nat);
        }
        let mut text = String::new();
        text.push('\n');
        self.buffer.insert(pos, text.as_str());
        self.cursor = (self.cursor.0 + 1, 0);
        let after = self.cursor_selection();
        let edit = Edit::insert(pos, text, before, after);
        let ghost ge = edit;
        self.history.record(edit);
        assert(self.history.view() == record_spec(old(self).history.view(), ge));
        self.html_dirty = true;
    }

    /// Deletes the character before the cursor, if any, joining lines at a
    /// line start; the edit is recorded and the rendering marked stale.
    pub fn delete_backward(&mut self)
        requires
            old(self).history.wf(),
            old(self).cursor.0 < line_count(old(self).buffer.view()),
        ensures
            final(self).history.wf(),
            ({
                let s = old(self).buffer.view();
                let pos = line_col_offset(s, old(self).cursor.0 as nat, old(self).cursor.1 as nat);
                if pos > 0 {
                    &&& final(self).buffer.view() == removed(s, pos - 1, pos)
                    &&& final(self).cursor == cursor_after_backspace(final(self).buffer.view(), old(self).cursor)
                    &&& recorded(
                        old(self).history.view(),
                        final(self).history.view(),
                        pos - 1,
                        s.subrange(pos - 1, pos),
                        Seq::empty(),
                        cursor_sel(old(self).cursor),
                        cursor_sel(final(self).cursor),
                    )
                    &&& final(self).dirty_spec()
                } else {
                    &&& final(self).buffer == old(self).buffer
                    &&& final(self).cursor == old(self).cursor
                    &&& final(self).history == old(self).history
                }
            }),
    {
        let pos = self.buffer.line_col_to_char(self.cursor.0, self.cursor.1);
        proof {
            lemma_line_col_round_trip(self.buffer.view(), self.cursor.0 as nat, self.cursor.1 as nat);
        }
        if pos > 0 {
            let before = self.cursor_selection();
            let deleted = self.buffer.slice(pos - 1, pos);
            self.buffer.delete(pos - 1, pos);
            if self.cursor.1 > 0 {
                self.cursor.1 = self.cursor.1 - 1;
            } else if self.cursor.0 > 0 {
                let l = self.cursor.0 - 1;
                let len = self.line_length(l);
                self.cursor = (l, len);
            }
            let after = self.cursor_selection();
            let edit = Edit::delete(pos - 1, deleted, before, after);
            let ghost ge = edit;
            self.history.record(edit);
            assert(self.history.view() == record_spec(old(self).history.view(), ge));
            self.html_dirty = true;
        }
    }

    /// Deletes the character at the cursor, if any; the cursor stays, the
    /// edit is recorded and the rendering marked stale.
    pub fn delete_forward(&mut self)
        requires
            old(self).history.wf(),
            old(self).cursor.0 < line_count(old(self).buffer.view()),
        ensures
            final(self).history.wf(),
            final(self).cursor == old(self).cursor,
            ({
                let s = old(self).buffer.view();
                let pos = line_col_offset(s, old(self).cursor.0 as nat, old(self).cursor.1 as nat);
                if pos < s.len() {
                    &&& final(self).buffer.view() == removed(s, pos, pos + 1)
                    &&& recorded(
                        old(self).history.view(),
                        final(self).history.view(),
                        pos,
                        s.subrange(pos, pos + 1),
                        Seq::empty(),
                        cursor_sel(old(self).cursor),
                        cursor_sel(old(self).cursor),
                    )
                    &&& final(self).dirty_spec()
                } else {
                    &&& final(self).buffer == old(self).buffer
                    &&& final(self).history == old(self).history
                }
            }),
    {
        let pos = self.buffer.line_col_to_char(self.cursor.0, self.cursor.1);
        let total = self.buffer.len_chars();
        if pos < total {
            let before = self.cursor_selection();
            let deleted = self.buffer.slice(pos, pos + 1);
            self.buffer.delete(pos, pos + 1);
            let after = self.cursor_selection();
            let edit = Edit::delete(pos, deleted, before, after);
            let ghost ge = edit;
            self.history.record(edit);
            assert(self.history.view() == record_spec(old(self).history.view(), ge));
            self.html_dirty = true;
        }
    }

    /// Reverts the newest recorded edit on the buffer and puts the cursor
    /// where it was before it. `Ok(false)` when there is nothing to undo;
    /// `Error::Buffer`, with nothing changed, when the record no longer fits
    /// the text.
    pub fn undo(&mut self) -> (r: Result<bool, Error>)
        requires
            old(self).history.wf(),
        ensures
            final(self).history.wf(),
            final(self).frontmatter == old(self).frontmatter,
            final(self).path == old(self).path,
            old(self).history.view().undo.len() == 0 ==> r == Ok::<bool, Error>(false) && final(self).buffer
                == old(self).buffer && final(self).history == old(self).history && final(self).cursor
                == old(self).cursor,
            old(self).history.view().undo.len() > 0 ==> ({
                let e = old(self).history.view().undo.last();
                if undo_fits(old(self).buffer.view(), e) {
                    &&& r == Ok::<bool, Error>(true)
                    &&& final(self).buffer.view() == undo_text(old(self).buffer.view(), e)
                    &&& final(self).history.view() == undo_spec(old(self).history.view())
                    &&& final(self).cursor == (e.cursor_before.head.line, e.cursor_before.head.col)
                    &&& final(self).dirty_spec()
                } else {
                    &&& r is Err && r->Err_0 is Buffer
                    &&& final(self).buffer == old(self).buffer
                    &&& final(self).history == old(self).history
                    &&& final(self).cursor == old(self).cursor
                }
            }),
    {
        let fits = match self.history.peek_undo() {
            None => {
                return Ok(false);
            },
            Some(e) => {
                let n = e.inserted.as_str().unicode_len();
                let len = self.buffer.len_chars();
                n <= len && e.position <= len - n
            },
        };
        if !fits {
            return Err(Error::Buffer(String::from_str("the edit to undo lies outside the text")));
        }
        match self.history.undo() {
            None => Ok(false),
            Some(edit) => {
                let ghost s = self.buffer.view();
                let p = edit.position;
                let n = edit.inserted.as_str().unicode_len();
                if n > 0 {
                    self.buffer.delete(p, p + n);
                } else {
                    assert(removed(s, p as int, p as int) =~= s);
                }
                let ghost s1 = self.buffer.view();
                if edit.deleted.as_str().unicode_len() > 0 {
                    self.buffer.insert(p, edit.deleted.as_str());
                } else {
                    assert(inserted(s1, p as int, edit.deleted@) =~= s1);
                }
                self.cursor = (edit.cursor_before.head.line, edit.cursor_before.head.col);
                self.html_dirty = true;
                Ok(true)
            },
        }
    }

    /// Applies the most recently undone edit to the buffer again and puts
    /// the cursor where it was after it. `Ok(false)` when there is nothing
    /// to redo; `Error::Buffer`, with nothing changed, when the record no
    /// longer fits the text.
    pub fn redo(&mut self) -> (r: Result<bool, Error>)
        requires
            old(self).history.wf(),
        ensures
            final(self).history.wf(),
            final(self).frontmatter == old(self).frontmatter,
            final(self).path == old(self).path,
            old(self).history.view().redo.len() == 0 ==> r == Ok::<bool, Error>(false) && final(self).buffer
                == old(self).buffer && final(self).history == old(self).history && final(self).cursor
                == old(self).cursor,
            old(self).history.view().redo.len() > 0 ==> ({
                let e = old(self).history.view().redo.last();
                if redo_fits(old(self).buffer.view(), e) {
                    &&& r == Ok::<bool, Error>(true)
                    &&& final(self).buffer.view() == redo_text(old(self).buffer.view(), e)
                    &&& final(self).history.view() == redo_spec(old(self).history.view())
                    &&& final(self).cursor == (e.cursor_after.head.line, e.cursor_after.head.col)
                    &&& final(self).dirty_spec()
                } else {
                    &&& r is Err && r->Err_0 is Buffer
                    &&& final(self).buffer == old(self).buffer
                    &&& final(self).history == old(self).history
                    &&& final(self).cursor == old(self).cursor
                }
            }),
    {
        let fits = match self.history.peek_redo() {
            None => {
                return Ok(false);
            },
            Some(e) => {
                let n = e.deleted.as_str().unicode_len();
                let len = self.buffer.len_chars();
                n <= len && e.position <= len - n
            },
        };
        if !fits {
            return Err(Error::Buffer(String::from_str("the edit to redo lies outside the text")));
        }
        match self.history.redo() {
            None => Ok(false),
            Some(edit) => {
                let ghost s = self.buffer.view();
                let p = edit.position;
                let n = edit.deleted.as_str().unicode_len();
                if n > 0 {
                    self.buffer.delete(p, p + n);
                } else {
                    assert(removed(s, p as int, p as int) =~= s);
                }
                let ghost s1 = self.buffer.view();
                if edit.inserted.as_str().unicode_len() > 0 {
                    self.buffer.insert(p, edit.inserted.as_str());
                } else {
                    assert(inserted(s1, p as int, edit.inserted@) =~= s1);
                }
                self.cursor = (edit.cursor_after.head.line, edit.cursor_after.head.col);
                self.html_dirty = true;
                Ok(true)
            },
        }
    }

    /// The headings of the body, in document order.
    pub fn headings(&self) -> (r: Vec<Heading>)
        ensures
            r@.len() == outline_of(self.buffer.view()).len(),
            forall|i: int|
                0 <= i < r@.len() ==> (r@[i].level, r@[i].text@, r@[i].line) == #[trigger] outline_of(
                    self.buffer.view(),
                )[i],
    {
        let text = self.buffer.text();
        self.parser.extract_headings(text.as_str())
    }
}

impl Default for Document {
    fn default() -> (r: Self)
        ensures
            r.history.wf(),
            r.buffer.view() == Seq::<char>::empty(),
            r.frontmatter is None,
            r.path is None,
    {
        Document::new()
    }
}

} // verus!
