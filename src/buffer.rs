//! Character-addressed text buffer on a rope, with line/column conversion.
use ropey::Rope;
use vstd::prelude::*;

verus! {

#[verifier::external_type_specification]
#[verifier::external_body]
pub struct ExRope(Rope);

/// The characters that a rope holds.
pub uninterp spec fn rope_text(r: Rope) -> Seq<char>;

/// Number of line feeds in `s`.
pub open spec fn newlines(s: Seq<char>) -> nat
    decreases s.len(),
{
    if s.len() == 0 {
        0
    } else {
        newlines(s.drop_last()) + if s.last() == '\n' { 1nat } else { 0nat }
    }
}

/// Number of lines: one more than the number of line feeds, so that empty
/// text has one empty line.
pub open spec fn line_count(s: Seq<char>) -> nat {
    newlines(s) + 1
}

/// Index of the first line feed at or after `from`, or `s.len()` if none.
pub open spec fn next_newline(s: Seq<char>, from: int) -> int
    decreases s.len() - from,
{
    if from < 0 || from >= s.len() {
        s.len() as int
    } else if s[from] == '\n' {
        from
    } else {
        next_newline(s, from + 1)
    }
}

/// Char offset at which line `l` starts.
pub open spec fn line_start(s: Seq<char>, l: nat) -> int
    decreases l,
{
    if l == 0 {
        0
    } else {
        next_newline(s, line_start(s, (l - 1) as nat)) + 1
    }
}

/// Length of line `l` without its line feed.
pub open spec fn line_len(s: Seq<char>, l: nat) -> int {
    next_newline(s, line_start(s, l)) - line_start(s, l)
}

/// Line `l` with its trailing line feed, if it has one.
pub open spec fn line_text(s: Seq<char>, l: nat) -> Seq<char> {
    let e = next_newline(s, line_start(s, l));
    s.subrange(line_start(s, l), if e < s.len() { e + 1 } else { e })
}

/// Line of the char at offset `k` (the line count of the text before it).
pub open spec fn char_line(s: Seq<char>, k: int) -> nat {
    newlines(s.take(k))
}

/// Char offset of (`line`, `col`), the column held to the line's last
/// character (its start, on an empty line).
pub open spec fn line_col_offset(s: Seq<char>, line: nat, col: nat) -> int {
    let last = if line_len(s, line) > 0 { line_len(s, line) - 1 } else { 0 };
    line_start(s, line) + if col < last { col as int } else { last }
}

/// `s` with `t` put in at offset `i`.
pub open spec fn inserted(s: Seq<char>, i: int, t: Seq<char>) -> Seq<char> {
    s.take(i) + t + s.skip(i)
}

/// `s` without the chars in `[start, end)`.
pub open spec fn removed(s: Seq<char>, start: int, end: int) -> Seq<char> {
    s.take(start) + s.skip(end)
}

pub assume_specification[ Rope::new ]() -> (r: Rope)
    ensures
        rope_text(r) == Seq::<char>::empty(),
;

pub assume_specification[ Rope::from_str ](text: &str) -> (r: Rope)
    ensures
        rope_text(r) == text@,
;

pub assume_specification[ Rope::len_chars ](r: &Rope) -> (n: usize)
    ensures
        n == rope_text(*r).len(),
;

pub assume_specification[ Rope::len_lines ](r: &Rope) -> (n: usize)
    ensures
        n == line_count(rope_text(*r)),
;

pub assume_specification[ Rope::insert ](r: &mut Rope, char_idx: usize, text: &str)
    requires
        char_idx <= rope_text(*old(r)).len(),
    ensures
        rope_text(*final(r)) == inserted(rope_text(*old(r)), char_idx as int, text@),
;

pub assume_specification[ Rope::line_to_char ](r: &Rope, line_idx: usize) -> (n: usize)
    requires
        line_idx <= line_count(rope_text(*r)),
    ensures
        line_idx < line_count(rope_text(*r)) ==> n == line_start(rope_text(*r), line_idx as nat),
        line_idx == line_count(rope_text(*r)) ==> n == rope_text(*r).len(),
;

pub assume_specification[ Rope::char_to_line ](r: &Rope, char_idx: usize) -> (n: usize)
    requires
        char_idx <= rope_text(*r).len(),
    ensures
        n == char_line(rope_text(*r), char_idx as int),
;

/// Relies on `Rope`'s `Display` (via `to_string`): the text it holds.
#[verifier::external_body]
fn rope_string(r: &Rope) -> (s: String)
    ensures
        s@ == rope_text(*r),
{
    r.to_string()
}

/// Relies on `Rope::remove`: the chars in `[start, end)` are taken out.
#[verifier::external_body]
fn rope_remove(r: &mut Rope, start: usize, end: usize)
    requires
        start <= end <= rope_text(*old(r)).len(),
    ensures
        rope_text(*final(r)) == removed(rope_text(*old(r)), start as int, end as int),
{
    r.remove(start..end)
}

/// Relies on `Rope::line`: line `i`, with its line feed if it has one.
#[verifier::external_body]
fn rope_line(r: &Rope, i: usize) -> (s: String)
    requires
        i < line_count(rope_text(*r)),
    ensures
        s@ == line_text(rope_text(*r), i as nat),
{
    r.line(i).to_string()
}

/// Relies on `Rope::slice`: the chars in `[start, end)`.
#[verifier::external_body]
fn rope_slice(r: &Rope, start: usize, end: usize) -> (s: String)
    requires
        start <= end <= rope_text(*r).len(),
    ensures
        s@ == rope_text(*r).subrange(start as int, end as int),
{
    r.slice(start..end).to_string()
}

proof fn lemma_newlines_step(s: Seq<char>, k: int)
    requires
        0 <= k < s.len(),
    ensures
        newlines(s.take(k + 1)) == newlines(s.take(k)) + if s[k] == '\n' { 1nat } else { 0nat },
{
    assert(s.take(k + 1).drop_last() =~= s.take(k));
}

proof fn lemma_newlines_mono(s: Seq<char>, j: int, k: int)
    requires
        0 <= j <= k <= s.len(),
    ensures
        newlines(s.take(j)) <= newlines(s.take(k)),
    decreases k - j,
{
    if j < k {
        lemma_newlines_mono(s, j, k - 1);
        lemma_newlines_step(s, k - 1);
    }
}

proof fn lemma_newlines_flat(s: Seq<char>, st: int, k: int)
    requires
        0 <= st <= k <= s.len(),
        forall|i: int| st <= i < k ==> s[i] != '\n',
    ensures
        newlines(s.take(k)) == newlines(s.take(st)),
    decreases k - st,
{
    if st < k {
        lemma_newlines_flat(s, st, k - 1);
        lemma_newlines_step(s, k - 1);
    }
}

pub proof fn lemma_next_newline(s: Seq<char>, from: int)
    requires
        0 <= from <= s.len(),
    ensures
        from <= next_newline(s, from) <= s.len(),
        forall|i: int| from <= i < next_newline(s, from) ==> s[i] != '\n',
        next_newline(s, from) < s.len() ==> s[next_newline(s, from)] == '\n',
    decreases s.len() - from,
{
    if from < s.len() && s[from] != '\n' {
        lemma_next_newline(s, from + 1);
    }
}

proof fn lemma_next_newline_le(s: Seq<char>, from: int, j: int)
    requires
        0 <= from <= j < s.len(),
        s[j] == '\n',
    ensures
        next_newline(s, from) <= j,
    decreases j - from,
{
    if from < j && s[from] != '\n' {
        lemma_next_newline_le(s, from + 1, j);
    }
}

proof fn lemma_line_start_nonneg(s: Seq<char>, l: nat)
    ensures
        line_start(s, l) >= 0,
    decreases l,
{
    if l > 0 {
        lemma_line_start_nonneg(s, (l - 1) as nat);
        let st = line_start(s, (l - 1) as nat);
        if st <= s.len() {
            lemma_next_newline(s, st);
        }
    }
}

/// Line `l` starts after exactly `l` line feeds and runs up to the next
/// line feed, which exists unless `l` is the last line.
pub proof fn lemma_line_start(s: Seq<char>, l: nat)
    requires
        l < line_count(s),
    ensures
        0 <= line_start(s, l) <= next_newline(s, line_start(s, l)) <= s.len(),
        newlines(s.take(line_start(s, l))) == l,
        forall|i: int| line_start(s, l) <= i < next_newline(s, line_start(s, l)) ==> s[i] != '\n',
        (l + 1 < line_count(s)) == (next_newline(s, line_start(s, l)) < s.len()),
    decreases l,
{
    if l == 0 {
        assert(s.take(0) =~= Seq::<char>::empty());
    } else {
        lemma_line_start(s, (l - 1) as nat);
        let st0 = line_start(s, (l - 1) as nat);
        let nn0 = next_newline(s, st0);
        lemma_next_newline(s, st0);
        lemma_newlines_flat(s, st0, nn0);
        lemma_newlines_step(s, nn0);
    }
    let st = line_start(s, l);
    lemma_next_newline(s, st);
    let nn = next_newline(s, st);
    lemma_newlines_flat(s, st, nn);
    assert(s.take(s.len() as int) =~= s);
    if nn < s.len() {
        lemma_newlines_step(s, nn);
        lemma_newlines_mono(s, nn + 1, s.len() as int);
    }
}

/// Line `l + 1` starts just past the line feed that ends line `l`.
proof fn lemma_line_start_next(s: Seq<char>, l: nat)
    requires
        l + 1 < line_count(s),
    ensures
        line_start(s, l + 1) == next_newline(s, line_start(s, l)) + 1,
{
}

/// The char at offset `k` lies on an existing line, which starts at or before `k`.
proof fn lemma_char_line_bounds(s: Seq<char>, k: int)
    requires
        0 <= k <= s.len(),
    ensures
        char_line(s, k) < line_count(s),
        0 <= line_start(s, char_line(s, k)) <= k,
    decreases k,
{
    lemma_newlines_mono(s, k, s.len() as int);
    assert(s.take(s.len() as int) =~= s);
    lemma_line_start_nonneg(s, char_line(s, k));
    if k > 0 {
        lemma_char_line_bounds(s, k - 1);
        lemma_newlines_step(s, k - 1);
        let l0 = char_line(s, k - 1);
        if s[k - 1] == '\n' {
            assert(char_line(s, k) == l0 + 1);
            lemma_next_newline_le(s, line_start(s, l0), k - 1);
        }
    } else {
        assert(s.take(0) =~= Seq::<char>::empty());
    }
}

/// Text always has at least one line, and a line feed put at its end adds
/// exactly one.
pub proof fn lemma_append_newline(s: Seq<char>)
    ensures
        line_count(s) >= 1,
        line_count(inserted(s, s.len() as int, seq!['\n'])) == line_count(s) + 1,
{
    let t = inserted(s, s.len() as int, seq!['\n']);
    assert(t.drop_last() =~= s);
}

/// The offset of any column on an existing line maps back to that line.
pub proof fn lemma_line_col_round_trip(s: Seq<char>, line: nat, col: nat)
    requires
        line < line_count(s),
    ensures
        0 <= line_col_offset(s, line, col) <= s.len(),
        char_line(s, line_col_offset(s, line, col)) == line,
{
    lemma_line_start(s, line);
    let st = line_start(s, line);
    let k = line_col_offset(s, line, col);
    lemma_newlines_flat(s, st, k);
}

/// A text buffer on a rope, with a flag for changes since the last save.
#[derive(Debug)]
pub struct Buffer {
    rope: Rope,
    modified: bool,
}

impl Buffer {
    /// The characters held.
    pub closed spec fn view(&self) -> Seq<char> {
        rope_text(self.rope)
    }

    /// Whether the text changed since creation or the last save.
    pub closed spec fn is_modified_spec(&self) -> bool {
        self.modified
    }

    /// An empty, unmodified buffer.
    pub fn new() -> (r: Self)
        ensures
            r.view() == Seq::<char>::empty(),
            !r.is_modified_spec(),
    {
        Buffer { rope: Rope::new(), modified: false }
    }

    /// An unmodified buffer holding `text`.
    pub fn from_str(text: &str) -> (r: Self)
        ensures
            r.view() == text@,
            !r.is_modified_spec(),
    {
        Buffer { rope: Rope::from_str(text), modified: false }
    }

    /// The whole text.
    pub fn text(&self) -> (r: String)
        ensures
            r@ == self.view(),
    {
        rope_string(&self.rope)
    }

    /// Number of lines, at least one.
    pub fn len_lines(&self) -> (r: usize)
        ensures
            r == line_count(self.view()),
            r >= 1,
    {
        self.rope.len_lines()
    }

    pub fn len_chars(&self) -> (r: usize)
        ensures
            r == self.view().len(),
    {
        self.rope.len_chars()
    }

    pub fn is_empty(&self) -> (r: bool)
        ensures
            r == (self.view().len() == 0),
    {
        self.rope.len_chars() == 0
    }

    /// Line `line_idx` with its trailing line feed, or `None` past the last line.
    pub fn line(&self, line_idx: usize) -> (r: Option<String>)
        ensures
            line_idx < line_count(self.view()) ==> r is Some && r->0@ == line_text(self.view(), line_idx as nat),
            line_idx >= line_count(self.view()) ==> r is None,
    {
        if line_idx < self.rope.len_lines() {
            Some(rope_line(&self.rope, line_idx))
        } else {
            None
        }
    }

    /// Puts `text` in at char offset `char_idx`.
    pub fn insert(&mut self, char_idx: usize, text: &str)
        requires
            char_idx <= old(self).view().len(),
        ensures
            final(self).view() == inserted(old(self).view(), char_idx as int, text@),
            final(self).is_modified_spec(),
    {
        self.rope.insert(char_idx, text);
        self.modified = true;
    }

    /// Removes the chars in `[start, end)`.
    pub fn delete(&mut self, start: usize, end: usize)
        requires
            start <= end <= old(self).view().len(),
        ensures
            final(self).view() == removed(old(self).view(), start as int, end as int),
            final(self).is_modified_spec(),
    {
        rope_remove(&mut self.rope, start, end);
        self.modified = true;
    }

    /// Replaces the chars in `[start, end)` by `text`.
    pub fn replace(&mut self, start: usize, end: usize, text: &str)
        requires
            start <= end <= old(self).view().len(),
        ensures
            final(self).view() == old(self).view().take(start as int) + text@ + old(self).view().skip(end as int),
            final(self).is_modified_spec(),
    {
        rope_remove(&mut self.rope, start, end);
        self.rope.insert(start, text);
        self.modified = true;
        assert(self.view() =~= old(self).view().take(start as int) + text@ + old(self).view().skip(end as int));
    }

    /// Char offset of (`line`, `col`); the column is held to the last
    /// character of the line, so it never points past it.
    pub fn line_col_to_char(&self, line: usize, col: usize) -> (r: usize)
        requires
            line < line_count(self.view()),
        ensures
            r == line_col_offset(self.view(), line as nat, col as nat),
    {
        proof {
            lemma_line_start(self.view(), line as nat);
            if line + 1 < line_count(self.view()) {
                lemma_line_start_next(self.view(), line as nat);
            }
        }
        let n = self.rope.len_lines();
        let start = self.rope.line_to_char(line);
        let next = self.rope.line_to_char(line + 1);
        let len = if line + 1 < n { next - start - 1 } else { next - start };
        let last = if len > 0 { len - 1 } else { 0 };
        start + if col < last { col } else { last }
    }

    /// (line, column) of char offset `char_idx`.
    pub fn char_to_line_col(&self, char_idx: usize) -> (r: (usize, usize))
        requires
            char_idx <= self.view().len(),
        ensures
            r.0 == char_line(self.view(), char_idx as int),
            r.1 == char_idx - line_start(self.view(), r.0 as nat),
    {
        proof {
            lemma_char_line_bounds(self.view(), char_idx as int);
        }
        let line = self.rope.char_to_line(char_idx);
        let start = self.rope.line_to_char(line);
        (line, char_idx - start)
    }

    pub fn is_modified(&self) -> (r: bool)
        ensures
            r == self.is_modified_spec(),
    {
        self.modified
    }

    /// Clears the modified flag; the text stays.
    pub fn mark_saved(&mut self)
        ensures
            final(self).view() == old(self).view(),
            !final(self).is_modified_spec(),
    {
        self.modified = false;
    }

    /// The chars in `[start, end)`.
    pub fn slice(&self, start: usize, end: usize) -> (r: String)
        requires
            start <= end <= self.view().len(),
        ensures
            r@ == self.view().subrange(start as int, end as int),
    {
        rope_slice(&self.rope, start, end)
    }
}

impl Default for Buffer {
    fn default() -> (r: Self)
        ensures
            r.view() == Seq::<char>::empty(),
            !r.is_modified_spec(),
    {
        Buffer::new()
    }
}

} // verus!
