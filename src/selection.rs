//! Cursor and selection values in (line, column) coordinates.
use vstd::prelude::*;

verus! {

/// A position in the document: zero-based line and character column.
#[derive(Debug, Clone, Copy, PartialEq, Eq, Structural)]
pub struct Position {
    pub line: usize,
    pub col: usize,
}

/// `a` comes no later than `b` in (line, column) order.
pub open spec fn pos_le(a: Position, b: Position) -> bool {
    a.line < b.line || (a.line == b.line && a.col <= b.col)
}

/// `v + delta`, held within `0..=usize::MAX`.
pub open spec fn saturating_offset(v: usize, delta: isize) -> usize {
    let r = v as int + delta as int;
    if r < 0 {
        0
    } else if r > usize::MAX {
        usize::MAX
    } else {
        r as usize
    }
}

impl Position {
    pub fn new(line: usize, col: usize) -> (r: Self)
        ensures
            r.line == line,
            r.col == col,
    {
        Position { line, col }
    }
}

impl Default for Position {
    fn default() -> (r: Self)
        ensures
            r.line == 0,
            r.col == 0,
    {
        Position { line: 0, col: 0 }
    }
}

/// A selection from `anchor` (where it started) to `head` (where the cursor is).
#[derive(Debug, Clone, Copy, PartialEq, Eq, Structural)]
pub struct Selection {
    pub anchor: Position,
    pub head: Position,
}

fn saturating_move(v: usize, delta: isize) -> (r: usize)
    ensures
        r == saturating_offset(v, delta),
{
    if delta < 0 {
        let back: usize = (-(delta as i128)) as usize;
        if back >= v {
            0
        } else {
            v - back
        }
    } else {
        let fwd: usize = delta as usize;
        if v > usize::MAX - fwd {
            usize::MAX
        } else {
            v + fwd
        }
    }
}

impl Selection {
    /// A zero-width selection at `pos`.
    pub fn cursor(pos: Position) -> (r: Self)
        ensures
            r.anchor == pos,
            r.head == pos,
    {
        Selection { anchor: pos, head: pos }
    }

    pub fn new(anchor: Position, head: Position) -> (r: Self)
        ensures
            r.anchor == anchor,
            r.head == head,
    {
        Selection { anchor, head }
    }

    /// Whether the selection is empty (anchor and head coincide).
    pub fn is_cursor(&self) -> (r: bool)
        ensures
            r == (self.anchor == self.head),
    {
        self.anchor == self.head
    }

    /// The earlier of anchor and head; the anchor on a tie.
    pub fn start(&self) -> (r: Position)
        ensures
            r == (if pos_le(self.anchor, self.head) { self.anchor } else { self.head }),
    {
        if self.anchor.line < self.head.line || (self.anchor.line == self.head.line
            && self.anchor.col <= self.head.col) {
            self.anchor
        } else {
            self.head
        }
    }

    /// The later of anchor and head; the anchor on a tie.
    pub fn end(&self) -> (r: Position)
        ensures
            r == (if pos_le(self.head, self.anchor) { self.anchor } else { self.head }),
    {
        if self.anchor.line > self.head.line || (self.anchor.line == self.head.line
            && self.anchor.col >= self.head.col) {
            self.anchor
        } else {
            self.head
        }
    }

    /// Moves the head by `delta` lines (saturating); without `extend` the
    /// anchor follows the head.
    pub fn move_lines(&mut self, delta: isize, extend: bool)
        ensures
            final(self).head.line == saturating_offset(old(self).head.line, delta),
            final(self).head.col == old(self).head.col,
            final(self).anchor == (if extend { old(self).anchor } else { final(self).head }),
    {
        self.head.line = saturating_move(self.head.line, delta);
        if !extend {
            self.anchor = self.head;
        }
    }

    /// Moves the head by `delta` columns (saturating); without `extend` the
    /// anchor follows the head.
    pub fn move_cols(&mut self, delta: isize, extend: bool)
        ensures
            final(self).head.col == saturating_offset(old(self).head.col, delta),
            final(self).head.line == old(self).head.line,
            final(self).anchor == (if extend { old(self).anchor } else { final(self).head }),
    {
        self.head.col = saturating_move(self.head.col, delta);
        if !extend {
            self.anchor = self.head;
        }
    }
}

impl Default for Selection {
    fn default() -> (r: Self)
        ensures
            r.anchor.line == 0 && r.anchor.col == 0,
            r.head == r.anchor,
    {
        Selection::cursor(Position::default())
    }
}

} // verus!
