//! Undo/redo log of edit records. Pure bookkeeping: applying a record to a
//! buffer is the caller's business.
use std::collections::VecDeque;
use vstd::prelude::*;

use crate::selection::Selection;

verus! {

/// One invertible text mutation: at char offset `position`, `deleted` was
/// removed and `inserted` put in its place.
#[derive(Debug, Clone)]
pub struct Edit {
    pub position: usize,
    pub deleted: String,
    pub inserted: String,
    pub cursor_before: Selection,
    pub cursor_after: Selection,
}

impl Edit {
    /// A pure insertion of `text` at `position`.
    pub fn insert(position: usize, text: String, cursor_before: Selection, cursor_after: Selection) -> (r: Self)
        ensures
            r.position == position,
            r.deleted@ == Seq::<char>::empty(),
            r.inserted == text,
            r.cursor_before == cursor_before,
            r.cursor_after == cursor_after,
    {
        Edit { position, deleted: String::new(), inserted: text, cursor_before, cursor_after }
    }

    /// A pure deletion of `text`, which stood at `position`.
    pub fn delete(position: usize, text: String, cursor_before: Selection, cursor_after: Selection) -> (r: Self)
        ensures
            r.position == position,
            r.deleted == text,
            r.inserted@ == Seq::<char>::empty(),
            r.cursor_before == cursor_before,
            r.cursor_after == cursor_after,
    {
        Edit { position, deleted: text, inserted: String::new(), cursor_before, cursor_after }
    }

    /// A replacement of `deleted` by `inserted` at `position`.
    pub fn replace(
        position: usize,
        deleted: String,
        inserted: String,
        cursor_before: Selection,
        cursor_after: Selection,
    ) -> (r: Self)
        ensures
            r.position == position,
            r.deleted == deleted,
            r.inserted == inserted,
            r.cursor_before == cursor_before,
            r.cursor_after == cursor_after,
    {
        Edit { position, deleted, inserted, cursor_before, cursor_after }
    }

    /// A field-by-field copy.
    pub(crate) fn duplicate(&self) -> (r: Self)
        ensures
            r == *self,
    {
        Edit {
            position: self.position,
            deleted: self.deleted.clone(),
            inserted: self.inserted.clone(),
            cursor_before: self.cursor_before,
            cursor_after: self.cursor_after,
        }
    }
}

/// The abstract state of a history: the undo stack (most recent last), the
/// redo stack (most recently undone last) and the bound on its size.
pub struct HistoryView {
    pub undo: Seq<Edit>,
    pub redo: Seq<Edit>,
    pub max_size: nat,
}

/// The state after recording `e`: the redo stack is dropped and, when the
/// undo stack outgrows the bound, its oldest record is evicted.
pub open spec fn record_spec(h: HistoryView, e: Edit) -> HistoryView {
    let u = h.undo.push(e);
    HistoryView {
        undo: if u.len() > h.max_size { u.drop_first() } else { u },
        redo: Seq::empty(),
        max_size: h.max_size,
    }
}

/// The state after an undo: the newest record moves to the redo stack.
pub open spec fn undo_spec(h: HistoryView) -> HistoryView {
    if h.undo.len() == 0 {
        h
    } else {
        HistoryView { undo: h.undo.drop_last(), redo: h.redo.push(h.undo.last()), max_size: h.max_size }
    }
}

/// The state after a redo: the most recently undone record moves back.
pub open spec fn redo_spec(h: HistoryView) -> HistoryView {
    if h.redo.len() == 0 {
        h
    } else {
        HistoryView { undo: h.undo.push(h.redo.last()), redo: h.redo.drop_last(), max_size: h.max_size }
    }
}

/// The state after recording each record of `es` in turn.
pub open spec fn record_all(h: HistoryView, es: Seq<Edit>) -> HistoryView
    decreases es.len(),
{
    if es.len() == 0 {
        h
    } else {
        record_spec(record_all(h, es.drop_last()), es.last())
    }
}

/// The state after `n` undos.
pub open spec fn undo_times(h: HistoryView, n: nat) -> HistoryView
    decreases n,
{
    if n == 0 {
        h
    } else {
        undo_spec(undo_times(h, (n - 1) as nat))
    }
}

/// The state after `n` redos.
pub open spec fn redo_times(h: HistoryView, n: nat) -> HistoryView
    decreases n,
{
    if n == 0 {
        h
    } else {
        redo_spec(redo_times(h, (n - 1) as nat))
    }
}

/// What the `n`-th of a run of redos (counted from 1) returns.
pub open spec fn redo_result(h: HistoryView, n: nat) -> Option<Edit> {
    let before = redo_times(h, (n - 1) as nat);
    if before.redo.len() == 0 {
        None
    } else {
        Some(before.redo.last())
    }
}

/// An empty history bounded at `max_size`.
pub open spec fn empty_history(max_size: nat) -> HistoryView {
    HistoryView { undo: Seq::empty(), redo: Seq::empty(), max_size }
}

proof fn lemma_record_all_fresh(max_size: nat, es: Seq<Edit>)
    requires
        es.len() <= max_size,
    ensures
        record_all(empty_history(max_size), es).undo == es,
        record_all(empty_history(max_size), es).redo.len() == 0,
        record_all(empty_history(max_size), es).max_size == max_size,
    decreases es.len(),
{
    if es.len() > 0 {
        lemma_record_all_fresh(max_size, es.drop_last());
        assert(es.drop_last().push(es.last()) =~= es);
    }
}

proof fn lemma_undo_times(h: HistoryView, es: Seq<Edit>, k: nat)
    requires
        h.undo == es,
        h.redo.len() == 0,
        k <= es.len(),
    ensures
        undo_times(h, k).undo == es.take(es.len() - k),
        undo_times(h, k).redo.len() == k,
        undo_times(h, k).max_size == h.max_size,
        forall|m: int| 0 <= m < k ==> undo_times(h, k).redo[m] == es[es.len() - 1 - m],
    decreases k,
{
    if k > 0 {
        lemma_undo_times(h, es, (k - 1) as nat);
        let prev = undo_times(h, (k - 1) as nat);
        assert(prev.undo.drop_last() =~= es.take(es.len() - k));
    }
}

proof fn lemma_redo_times(h: HistoryView, es: Seq<Edit>, j: nat)
    requires
        h.undo.len() == 0,
        h.redo.len() == es.len(),
        forall|m: int| 0 <= m < es.len() ==> h.redo[m] == es[es.len() - 1 - m],
        j <= es.len(),
    ensures
        redo_times(h, j).undo == es.take(j as int),
        redo_times(h, j).redo.len() == es.len() - j,
        forall|m: int| 0 <= m < es.len() - j ==> redo_times(h, j).redo[m] == es[es.len() - 1 - m],
    decreases j,
{
    if j == 0 {
        assert(h.undo =~= es.take(0));
    } else {
        lemma_redo_times(h, es, (j - 1) as nat);
        let prev = redo_times(h, (j - 1) as nat);
        assert(prev.undo.push(prev.redo.last()) =~= es.take(j as int));
    }
}

/// Recording `es` into an empty history that can hold them all, undoing
/// them all and redoing them all leaves every record on the undo stack and
/// none on the redo stack, and the redos hand the records back in the order
/// in which they were recorded.
pub proof fn lemma_undo_redo_symmetry(max_size: nat, es: Seq<Edit>)
    requires
        es.len() <= max_size,
    ensures
        ({
            let undone = undo_times(record_all(empty_history(max_size), es), es.len());
            &&& redo_times(undone, es.len()).undo.len() == es.len()
            &&& redo_times(undone, es.len()).redo.len() == 0
            &&& forall|i: int| 0 <= i < es.len() ==> redo_result(undone, (i + 1) as nat) == Some(es[i])
        }),
{
    let h1 = record_all(empty_history(max_size), es);
    lemma_record_all_fresh(max_size, es);
    lemma_undo_times(h1, es, es.len());
    let undone = undo_times(h1, es.len());
    assert(undone.undo.len() == 0);
    lemma_redo_times(undone, es, es.len());
    assert forall|i: int| 0 <= i < es.len() implies redo_result(undone, (i + 1) as nat) == Some(es[i]) by {
        lemma_redo_times(undone, es, i as nat);
    }
}

/// Recording `e`, then `e2`, undoing once and recording `e3` leaves nothing
/// to redo.
pub proof fn lemma_record_discards_redo(h: HistoryView, e: Edit, e2: Edit, e3: Edit)
    ensures
        record_spec(undo_spec(record_spec(record_spec(h, e), e2)), e3).redo.len() == 0,
{
}

/// Undo/redo history with a bounded undo stack.
#[derive(Debug)]
pub struct History {
    undo_stack: VecDeque<Edit>,
    redo_stack: Vec<Edit>,
    max_size: usize,
}

impl History {
    pub closed spec fn view(&self) -> HistoryView {
        HistoryView { undo: self.undo_stack@, redo: self.redo_stack@, max_size: self.max_size as nat }
    }

    /// The stacks together never hold more records than the bound.
    pub open spec fn wf(&self) -> bool {
        self.view().undo.len() + self.view().redo.len() <= self.view().max_size
    }

    /// An empty history bounded at 1000 records.
    pub fn new() -> (r: Self)
        ensures
            r.wf(),
            r.view().undo.len() == 0,
            r.view().redo.len() == 0,
            r.view().max_size == 1000,
    {
        History { undo_stack: VecDeque::new(), redo_stack: Vec::new(), max_size: 1000 }
    }

    /// An empty history bounded at `max_size` records.
    pub fn with_max_size(max_size: usize) -> (r: Self)
        ensures
            r.wf(),
            r.view().undo.len() == 0,
            r.view().redo.len() == 0,
            r.view().max_size == max_size,
    {
        History { undo_stack: VecDeque::new(), redo_stack: Vec::new(), max_size }
    }

    /// Records a new edit, discarding everything that was undone.
    pub fn record(&mut self, edit: Edit)
        requires
            old(self).wf(),
        ensures
            final(self).wf(),
            final(self).view() == record_spec(old(self).view(), edit),
    {
        self.redo_stack.clear();
        self.undo_stack.push_back(edit);
        if self.undo_stack.len() > self.max_size {
            let _ = self.undo_stack.pop_front();
        }
        assert(self.undo_stack@ == record_spec(old(self).view(), edit).undo);
    }

    /// Moves the newest record to the redo stack and returns it.
    pub fn undo(&mut self) -> (r: Option<Edit>)
        requires
            old(self).wf(),
        ensures
            final(self).wf(),
            final(self).view() == undo_spec(old(self).view()),
            r == (if old(self).view().undo.len() == 0 {
                None
            } else {
                Some(old(self).view().undo.last())
            }),
    {
        match self.undo_stack.pop_back() {
            Some(edit) => {
                self.redo_stack.push(edit.duplicate());
                Some(edit)
            },
            None => None,
        }
    }

    /// Moves the most recently undone record back and returns it.
    pub fn redo(&mut self) -> (r: Option<Edit>)
        requires
            old(self).wf(),
        ensures
            final(self).wf(),
            final(self).view() == redo_spec(old(self).view()),
            r == (if old(self).view().redo.len() == 0 {
                None
            } else {
                Some(old(self).view().redo.last())
            }),
    {
        match self.redo_stack.pop() {
            Some(edit) => {
                self.undo_stack.push_back(edit.duplicate());
                Some(edit)
            },
            None => None,
        }
    }

    /// The record that `undo` would hand back, left in place.
    pub fn peek_undo(&self) -> (r: Option<&Edit>)
        ensures
            r == (if self.view().undo.len() == 0 {
                None
            } else {
                Some(&self.view().undo.last())
            }),
    {
        let n = self.undo_stack.len();
        if n == 0 {
            None
        } else {
            Some(&self.undo_stack[n - 1])
        }
    }

    /// The record that `redo` would hand back, left in place.
    pub fn peek_redo(&self) -> (r: Option<&Edit>)
        ensures
            r == (if self.view().redo.len() == 0 {
                None
            } else {
                Some(&self.view().redo.last())
            }),
    {
        let n = self.redo_stack.len();
        if n == 0 {
            None
        } else {
            Some(&self.redo_stack[n - 1])
        }
    }

    pub fn can_undo(&self) -> (r: bool)
        ensures
            r == (self.view().undo.len() > 0),
    {
        self.undo_stack.len() > 0
    }

    pub fn can_redo(&self) -> (r: bool)
        ensures
            r == (self.view().redo.len() > 0),
    {
        self.redo_stack.len() > 0
    }

    /// Forgets every record; the bound stays.
    pub fn clear(&mut self)
        ensures
            final(self).wf(),
            final(self).view().undo.len() == 0,
            final(self).view().redo.len() == 0,
            final(self).view().max_size == old(self).view().max_size,
    {
        self.undo_stack.clear();
        self.redo_stack.clear();
    }

    pub fn undo_count(&self) -> (r: usize)
        ensures
            r == self.view().undo.len(),
    {
        self.undo_stack.len()
    }

    pub fn redo_count(&self) -> (r: usize)
        ensures
            r == self.view().redo.len(),
    {
        self.redo_stack.len()
    }
}

impl Default for History {
    fn default() -> (r: Self)
        ensures
            r.wf(),
            r.view().undo.len() == 0,
            r.view().redo.len() == 0,
            r.view().max_size == 1000,
    {
        History::new()
    }
}

} // verus!
