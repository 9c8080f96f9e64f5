//! State of the terminal editor: open documents, the active one, view
//! settings and the input prompt. Drawing and key handling stay outside.
use vstd::prelude::*;

use crate::document::Document;
use crate::theme::{is_dracula, Theme};

verus! {

/// How the active document is shown.
#[derive(Debug, Clone, Copy, PartialEq, Eq, Structural)]
pub enum ViewMode {
    /// The Markdown source.
    Raw,
    /// The rendered preview.
    Rendered,
    /// Source and preview side by side.
    Split,
}

/// What keystrokes go to.
#[derive(Debug, Clone, Copy, PartialEq, Eq, Structural)]
pub enum InputMode {
    /// Editing the document.
    Normal,
    /// Typing a path to open.
    OpenFile,
    /// Typing a path to save to.
    SaveAs,
}

/// A one-line prompt and what has been typed into it.
#[derive(Debug, Clone)]
pub struct InputPrompt {
    pub prompt: String,
    pub buffer: String,
    /// Cursor offset in `buffer`.
    pub cursor: usize,
}

/// The view mode that follows `m` in the cycle raw, rendered, split.
pub open spec fn next_view(m: ViewMode) -> ViewMode {
    match m {
        ViewMode::Raw => ViewMode::Rendered,
        ViewMode::Rendered => ViewMode::Split,
        ViewMode::Split => ViewMode::Raw,
    }
}

/// Editor state.
pub struct App {
    pub documents: Vec<Document>,
    pub active_doc: usize,
    pub theme: Theme,
    pub should_quit: bool,
    pub view_mode: ViewMode,
    pub zen_mode: bool,
    /// Shown in the status bar until cleared.
    pub status_message: Option<String>,
    pub input_mode: InputMode,
    pub input_prompt: Option<InputPrompt>,
}

impl App {
    /// At least one document is open and the active index points at one.
    pub open spec fn wf(&self) -> bool {
        self.documents@.len() > 0 && self.active_doc < self.documents@.len()
    }

    /// One empty document, the default theme, split view, no prompt.
    pub fn new() -> (r: Self)
        ensures
            r.wf(),
            r.documents@.len() == 1,
            r.active_doc == 0,
            is_dracula(r.theme),
            !r.should_quit,
            r.view_mode == ViewMode::Split,
            !r.zen_mode,
            r.status_message is None,
            r.input_mode == InputMode::Normal,
            r.input_prompt is None,
    {
        let mut documents: Vec<Document> = Vec::new();
        documents.push(Document::new());
        App {
            documents,
            active_doc: 0,
            theme: Theme::default(),
            should_quit: false,
            view_mode: ViewMode::Split,
            zen_mode: false,
            status_message: None,
            input_mode: InputMode::Normal,
            input_prompt: None,
        }
    }

    /// Whether some open document has unsaved changes.
    pub fn has_unsaved_changes(&self) -> (r: bool)
        ensures
            r == exists|i: int| 0 <= i < self.documents@.len() && (#[trigger] self.documents@[i]).buffer.is_modified_spec(),
    {
        let mut i: usize = 0;
        while i < self.documents.len()
            invariant
                i <= self.documents@.len(),
                forall|j: int| 0 <= j < i ==> !(#[trigger] self.documents@[j]).buffer.is_modified_spec(),
            decreases self.documents@.len() - i,
        {
            if self.documents[i].is_modified() {
                return true;
            }
            i += 1;
        }
        false
    }

    pub fn set_status(&mut self, msg: String)
        ensures
            final(self).status_message == Some(msg),
    {
        self.status_message = Some(msg);
    }

    pub fn clear_status(&mut self)
        ensures
            final(self).status_message is None,
    {
        self.status_message = None;
    }

    pub fn active_document(&self) -> (r: &Document)
        requires
            self.wf(),
        ensures
            *r == self.documents@[self.active_doc as int],
    {
        &self.documents[self.active_doc]
    }

    /// Adds `doc` and makes it the active one.
    pub fn open_document(&mut self, doc: Document)
        ensures
            final(self).wf(),
            final(self).documents@ == old(self).documents@.push(doc),
            final(self).active_doc == old(self).documents@.len(),
    {
        self.documents.push(doc);
        self.active_doc = self.documents.len() - 1;
    }

    /// Closes the active document unless it is the only one; the next one
    /// (or the new last one) becomes active.
    pub fn close_active_document(&mut self)
        requires
            old(self).wf(),
        ensures
            final(self).wf(),
            old(self).documents@.len() > 1 ==> final(self).documents@ == old(self).documents@.remove(
                old(self).active_doc as int,
            ) && final(self).active_doc == (if old(self).active_doc < final(self).documents@.len() {
                old(self).active_doc
            } else {
                (final(self).documents@.len() - 1) as usize
            }),
            old(self).documents@.len() <= 1 ==> final(self).documents@ == old(self).documents@
                && final(self).active_doc == old(self).active_doc,
    {
        if self.documents.len() > 1 {
            let _ = self.documents.remove(self.active_doc);
            if self.active_doc >= self.documents.len() {
                self.active_doc = self.documents.len() - 1;
            }
        }
    }

    /// Activates the next document, wrapping to the first.
    pub fn next_document(&mut self)
        requires
            old(self).wf(),
        ensures
            final(self).wf(),
            final(self).documents@ == old(self).documents@,
            final(self).active_doc == (if old(self).active_doc + 1 < old(self).documents@.len() {
                old(self).active_doc + 1
            } else {
                0
            }),
    {
        if self.active_doc < self.documents.len() - 1 {
            self.active_doc += 1;
        } else {
            self.active_doc = 0;
        }
    }

    /// Activates the previous document, wrapping to the last.
    pub fn prev_document(&mut self)
        requires
            old(self).wf(),
        ensures
            final(self).wf(),
            final(self).documents@ == old(self).documents@,
            final(self).active_doc == (if old(self).active_doc > 0 {
                old(self).active_doc - 1
            } else {
                old(self).documents@.len() - 1
            }),
    {
        if self.active_doc > 0 {
            self.active_doc -= 1;
        } else {
            self.active_doc = self.documents.len() - 1;
        }
    }

    pub fn toggle_zen_mode(&mut self)
        ensures
            final(self).zen_mode == !old(self).zen_mode,
    {
        self.zen_mode = !self.zen_mode;
    }

    /// Raw, then rendered, then split, then raw again.
    pub fn cycle_view_mode(&mut self)
        ensures
            final(self).view_mode == next_view(old(self).view_mode),
    {
        self.view_mode = match self.view_mode {
            ViewMode::Raw => ViewMode::Rendered,
            ViewMode::Rendered => ViewMode::Split,
            ViewMode::Split => ViewMode::Raw,
        };
    }

    pub fn quit(&mut self)
        ensures
            final(self).should_quit,
    {
        self.should_quit = true;
    }

    fn empty_prompt(text: &str) -> (r: InputPrompt)
        ensures
            r.prompt@ == text@,
            r.buffer@ == Seq::<char>::empty(),
            r.cursor == 0,
    {
        InputPrompt { prompt: String::from_str(text), buffer: String::new(), cursor: 0 }
    }

    /// Starts asking for a path to open.
    pub fn start_open_prompt(&mut self)
        ensures
            final(self).input_mode == InputMode::OpenFile,
            final(self).input_prompt is Some,
            final(self).input_prompt->0.prompt@ == "Open file: "@,
            final(self).input_prompt->0.buffer@ == Seq::<char>::empty(),
            final(self).input_prompt->0.cursor == 0,
    {
        self.input_mode = InputMode::OpenFile;
        self.input_prompt = Some(Self::empty_prompt("Open file: "));
    }

    /// Starts asking for a path to save to.
    pub fn start_save_as_prompt(&mut self)
        ensures
            final(self).input_mode == InputMode::SaveAs,
            final(self).input_prompt is Some,
            final(self).input_prompt->0.prompt@ == "Save as: "@,
            final(self).input_prompt->0.buffer@ == Seq::<char>::empty(),
            final(self).input_prompt->0.cursor == 0,
    {
        self.input_mode = InputMode::SaveAs;
        self.input_prompt = Some(Self::empty_prompt("Save as: "));
    }

    /// Drops the prompt and goes back to editing.
    pub fn cancel_input(&mut self)
        ensures
            final(self).input_mode == InputMode::Normal,
            final(self).input_prompt is None,
    {
        self.input_mode = InputMode::Normal;
        self.input_prompt = None;
    }

    /// Closes the prompt and hands back what was typed; `None`, with the
    /// mode unchanged, when no prompt was open.
    pub fn finish_input(&mut self) -> (r: Option<String>)
        ensures
            final(self).input_prompt is None,
            old(self).input_prompt is Some ==> r == Some(old(self).input_prompt->0.buffer)
                && final(self).input_mode == InputMode::Normal,
            old(self).input_prompt is None ==> r is None && final(self).input_mode == old(self).input_mode,
    {
        match self.input_prompt.take() {
            Some(prompt) => {
                self.input_mode = InputMode::Normal;
                Some(prompt.buffer)
            },
            None => None,
        }
    }

    /// Whether a prompt has the keyboard.
    pub fn is_input_mode(&self) -> (r: bool)
        ensures
            r == (self.input_mode != InputMode::Normal),
    {
        self.input_mode != InputMode::Normal
    }
}

impl Default for App {
    fn default() -> (r: Self)
        ensures
            r.wf(),
            r.documents@.len() == 1,
    {
        App::new()
    }
}

} // verus!
