//! The text buffer: the document as a sequence of lines, the operations that
//! change it, one level of undo, and literal search.

use vstd::prelude::*;
use crate::text::{
    append_chars, chars_of, copy_line, copy_lines, copy_range, find, has_no, join_lines,
    lemma_split_on_has_no, lines_of, matches_at, no_line_feeds, pieces_of, push_joined, rfind,
    split_lines, split_newlines, string_of, views,
};

verus! {

/// A place in the document: a line and a column, both counted from 1. Line 0
/// stands for "no such place".
#[derive(Clone, Copy, Debug)]
pub struct Position {
    pub line: usize,
    pub col: usize,
}

/// What a buffer holds, as mathematical values.
pub ghost struct ModelView {
    /// The document, line by line, without line endings.
    pub lines: Seq<Seq<char>>,
    /// The document as it was before the last change.
    pub snapshot: Seq<Seq<char>>,
    /// Whether the document is as it was last written out.
    pub saved: bool,
    /// Where the document is written to.
    pub path: Seq<char>,
}

impl ModelView {
    /// The buffer is never empty, and neither is what undo brings back; and
    /// no line holds a line feed.
    pub open spec fn wf(self) -> bool {
        &&& self.lines.len() >= 1
        &&& self.snapshot.len() >= 1
        &&& no_line_feeds(self.lines)
        &&& no_line_feeds(self.snapshot)
    }

    /// Whether the document has a line with this number.
    pub open spec fn has_line(self, line: int) -> bool {
        1 <= line <= self.lines.len()
    }

    /// The text of a line, empty if there is no such line.
    pub open spec fn line(self, line: int) -> Seq<char> {
        if self.has_line(line) {
            self.lines[line - 1]
        } else {
            Seq::empty()
        }
    }

    /// Whether `(line, col)` is a place where text can be put in: a column of
    /// an existing line, or the column just past its end.
    pub open spec fn has_place(self, line: int, col: int) -> bool {
        self.has_line(line) && 1 <= col <= self.lines[line - 1].len() + 1
    }

    /// The buffer after a change to `lines`: the old document becomes the
    /// snapshot, and the buffer is no longer saved.
    pub open spec fn edited(self, lines: Seq<Seq<char>>) -> ModelView {
        ModelView { lines, snapshot: self.lines, saved: false, path: self.path }
    }

    /// The buffer after `c` is typed at `(line, col)`. A line feed splits the
    /// line there; any other character goes into the line. Where the
    /// document has no such place, nothing changes.
    pub open spec fn add_char(self, c: char, line: int, col: int) -> ModelView {
        if self.has_place(line, col) {
            let l = self.lines[line - 1];
            if c == '\n' {
                self.edited(
                    self.lines.take(line - 1) + seq![l.take(col - 1), l.skip(col - 1)]
                        + self.lines.skip(line),
                )
            } else {
                self.edited(self.lines.update(line - 1, l.insert(col - 1, c)))
            }
        } else {
            self
        }
    }

    /// The buffer after `block` is put in at `(line, col)`: the line with the
    /// block spliced in, cut at the block's line feeds, takes the line's
    /// place. Elsewhere nothing changes.
    pub open spec fn add_block(self, block: Seq<char>, line: int, col: int) -> ModelView {
        if self.has_place(line, col) {
            let l = self.lines[line - 1];
            self.edited(
                self.lines.take(line - 1) + split_newlines(l.take(col - 1) + block + l.skip(col - 1))
                    + self.lines.skip(line),
            )
        } else {
            self
        }
    }

    /// Whether deleting at `(line, col)` joins the line to the one before.
    pub open spec fn joins(self, line: int, col: int) -> bool {
        self.has_line(line) && line >= 2 && col == 1
    }

    /// Whether deleting at `(line, col)` takes a character out of the line.
    pub open spec fn removes(self, line: int, col: int) -> bool {
        self.has_place(line, col) && col >= 2
    }

    /// The buffer after the character before `(line, col)` is deleted. At
    /// column 1 the line is joined to the one before it; at the start of the
    /// document and elsewhere nothing changes.
    pub open spec fn delete_char(self, line: int, col: int) -> ModelView {
        if self.joins(line, col) {
            self.edited(
                self.lines.take(line - 2) + seq![self.lines[line - 2] + self.lines[line - 1]]
                    + self.lines.skip(line),
            )
        } else if self.removes(line, col) {
            self.edited(self.lines.update(line - 1, self.lines[line - 1].remove(col - 2)))
        } else {
            self
        }
    }

    /// What deleting at `(line, col)` reports: the length of the joined line
    /// where two lines were joined, else 0.
    pub open spec fn delete_char_joined_len(self, line: int, col: int) -> int {
        if self.joins(line, col) {
            (self.lines[line - 2].len() + self.lines[line - 1].len()) as int
        } else {
            0
        }
    }

    /// Whether `count` characters can be deleted before `(line, col)`.
    pub open spec fn can_delete_block(self, line: int, col: int, count: int) -> bool {
        self.has_place(line, col) && 1 <= count < col
    }

    /// The buffer after the `count` characters before `(line, col)` are
    /// deleted; unchanged where there are not that many, or no such place.
    pub open spec fn delete_block(self, line: int, col: int, count: int) -> ModelView {
        if self.can_delete_block(line, col, count) {
            let l = self.lines[line - 1];
            self.edited(self.lines.update(line - 1, l.take(col - 1 - count) + l.skip(col - 1)))
        } else {
            self
        }
    }

    /// Whether line `line` can be deleted: it exists and is not the only one.
    pub open spec fn can_delete_line(self, line: int) -> bool {
        self.has_line(line) && self.lines.len() != 1
    }

    /// The buffer after line `line` is deleted, if it can be.
    pub open spec fn delete_line(self, line: int) -> ModelView {
        if self.can_delete_line(line) {
            self.edited(self.lines.remove(line - 1))
        } else {
            self
        }
    }

    /// The buffer after an attempt to write the document out: saved if it
    /// was written, and as it was if not.
    pub open spec fn save(self, written: bool) -> ModelView {
        if written {
            ModelView { saved: true, ..self }
        } else {
            self
        }
    }

    /// The buffer after undo: the snapshot is the document again.
    pub open spec fn undo(self) -> ModelView {
        ModelView { lines: self.snapshot, snapshot: self.snapshot, saved: false, path: self.path }
    }

    /// The buffer after its document is replaced by the lines of `text`, or
    /// by one empty line if the text has none.
    pub open spec fn with_text(self, text: Seq<char>) -> ModelView {
        ModelView { lines: seeded(split_lines(text)), ..self }
    }

    /// The lines that `amount` rows show from line `start` on.
    pub open spec fn slice(self, start: int, amount: int) -> Seq<Seq<char>> {
        if self.has_line(start) && amount >= 0 {
            if start - 1 + amount <= self.lines.len() {
                self.lines.subrange(start - 1, start - 1 + amount)
            } else {
                self.lines.skip(start - 1)
            }
        } else {
            Seq::empty()
        }
    }

    /// The character at `(line, col)`, or `'_'` where there is none.
    pub open spec fn char_at(self, line: int, col: int) -> char {
        if self.has_line(line) && 1 <= col <= self.lines[line - 1].len() {
            self.lines[line - 1][col - 1]
        } else {
            '_'
        }
    }

    /// Whether `needle` stands in the document at `(line, col)`. An empty
    /// needle stands nowhere.
    pub open spec fn occurs(self, needle: Seq<char>, line: int, col: int) -> bool {
        needle.len() > 0 && self.has_line(line) && matches_at(self.lines[line - 1], needle, col - 1)
    }

    /// Whether `(line, col)` is an occurrence of `needle` that a forward
    /// search from `(from_line, from_col)` may answer: one that starts after
    /// column `from_col` of line `from_line`, or on a later line.
    pub open spec fn forward_hit(
        self,
        needle: Seq<char>,
        from_line: int,
        from_col: int,
        line: int,
        col: int,
    ) -> bool {
        self.has_line(from_line) && self.occurs(needle, line, col) && (line > from_line || (line
            == from_line && col > from_col))
    }

    /// Whether `(line, col)` is an occurrence of `needle` that a backward
    /// search from `(from_line, from_col)` may answer: one that ends before
    /// column `from_col` of line `from_line`, or lies on an earlier line.
    pub open spec fn backward_hit(
        self,
        needle: Seq<char>,
        from_line: int,
        from_col: int,
        line: int,
        col: int,
    ) -> bool {
        self.has_line(from_line) && self.occurs(needle, line, col) && (line < from_line || (line
            == from_line && col - 1 + needle.len() < from_col))
    }

    /// Whether `(line, col)` is what a forward search answers: the first hit
    /// in document order, or `(0, 0)` if there is none.
    pub open spec fn is_forward_answer(
        self,
        needle: Seq<char>,
        from_line: int,
        from_col: int,
        line: int,
        col: int,
    ) -> bool {
        if line == 0 {
            col == 0 && forall|l: int, c: int| !self.forward_hit(needle, from_line, from_col, l, c)
        } else {
            self.forward_hit(needle, from_line, from_col, line, col) && forall|l: int, c: int|
                self.forward_hit(needle, from_line, from_col, l, c) ==> line < l || (line == l
                    && col <= c)
        }
    }

    /// Whether `(line, col)` is what a backward search answers: the last hit
    /// in document order, or `(0, 0)` if there is none.
    pub open spec fn is_backward_answer(
        self,
        needle: Seq<char>,
        from_line: int,
        from_col: int,
        line: int,
        col: int,
    ) -> bool {
        if line == 0 {
            col == 0 && forall|l: int, c: int| !self.backward_hit(needle, from_line, from_col, l, c)
        } else {
            self.backward_hit(needle, from_line, from_col, line, col) && forall|l: int, c: int|
                self.backward_hit(needle, from_line, from_col, l, c) ==> l < line || (line == l
                    && c <= col)
        }
    }

    /// What a forward search for `needle` from `(from_line, from_col)`
    /// answers.
    pub open spec fn forward_search(self, needle: Seq<char>, from_line: int, from_col: int) -> (
        int,
        int,
    ) {
        choose|p: (int, int)| self.is_forward_answer(needle, from_line, from_col, p.0, p.1)
    }

    /// What a backward search for `needle` from `(from_line, from_col)`
    /// answers.
    pub open spec fn backward_search(self, needle: Seq<char>, from_line: int, from_col: int) -> (
        int,
        int,
    ) {
        choose|p: (int, int)| self.is_backward_answer(needle, from_line, from_col, p.0, p.1)
    }
}

/// `lines`, or one empty line if there are none.
pub open spec fn seeded(lines: Seq<Seq<char>>) -> Seq<Seq<char>> {
    if lines.len() == 0 {
        seq![Seq::empty()]
    } else {
        lines
    }
}

/// A forward search has one answer only.
pub proof fn lemma_forward_answer_unique(
    v: ModelView,
    needle: Seq<char>,
    from_line: int,
    from_col: int,
    line: int,
    col: int,
)
    requires
        v.is_forward_answer(needle, from_line, from_col, line, col),
    ensures
        v.forward_search(needle, from_line, from_col) == (line, col),
{
    let p = v.forward_search(needle, from_line, from_col);
    assert(v.is_forward_answer(needle, from_line, from_col, (line, col).0, (line, col).1));
    assert(v.is_forward_answer(needle, from_line, from_col, p.0, p.1));
    if line != 0 {
        assert(v.forward_hit(needle, from_line, from_col, line, col));
    }
    if p.0 != 0 {
        assert(v.forward_hit(needle, from_line, from_col, p.0, p.1));
    }
}

/// A backward search has one answer only.
pub proof fn lemma_backward_answer_unique(
    v: ModelView,
    needle: Seq<char>,
    from_line: int,
    from_col: int,
    line: int,
    col: int,
)
    requires
        v.is_backward_answer(needle, from_line, from_col, line, col),
    ensures
        v.backward_search(needle, from_line, from_col) == (line, col),
{
    let p = v.backward_search(needle, from_line, from_col);
    assert(v.is_backward_answer(needle, from_line, from_col, (line, col).0, (line, col).1));
    assert(v.is_backward_answer(needle, from_line, from_col, p.0, p.1));
    if line != 0 {
        assert(v.backward_hit(needle, from_line, from_col, line, col));
    }
    if p.0 != 0 {
        assert(v.backward_hit(needle, from_line, from_col, p.0, p.1));
    }
}

} // verus!

verus! {

/// Tells whether none of the lines holds a line feed.
pub fn free_of_line_feeds(lines: &Vec<Vec<char>>) -> (b: bool)
    ensures
        b == no_line_feeds(views(lines@)),
{
    let mut i: usize = 0;
    while i < lines.len()
        invariant
            i <= lines.len(),
            forall|k: int| 0 <= k < i ==> has_no(#[trigger] views(lines@)[k], '\n'),
        decreases lines.len() - i,
    {
        let line = &lines[i];
        let mut j: usize = 0;
        while j < line.len()
            invariant
                j <= line.len(),
                i < lines.len(),
                line@ == views(lines@)[i as int],
                forall|k: int| 0 <= k < j ==> line@[k] != '\n',
            decreases line.len() - j,
        {
            if line[j] == '\n' {
                assert(!has_no(views(lines@)[i as int], '\n'));
                return false;
            }
            j += 1;
        }
        i += 1;
    }
    true
}

/// The text buffer.
pub struct Model {
    text: Vec<Vec<char>>,
    old_text: Vec<Vec<char>>,
    filepath: String,
    saved: bool,
}

impl View for Model {
    type V = ModelView;

    closed spec fn view(&self) -> ModelView {
        ModelView {
            lines: views(self.text@),
            snapshot: views(self.old_text@),
            saved: self.saved,
            path: self.filepath@,
        }
    }
}

impl Model {
    /// A buffer that holds the lines of `text`, or one empty line if it has
    /// none, and is to be written to `filepath`. It counts as saved.
    pub fn new(text: &str, filepath: &str) -> (m: Model)
        ensures
            m@.lines == seeded(split_lines(text@)),
            m@.snapshot == m@.lines,
            m@.saved,
            m@.path == filepath@,
            m@.wf(),
    {
        let chars = chars_of(text);
        let mut lines = lines_of(&chars);
        if lines.len() == 0 {
            lines.push(Vec::new());
            assert(views(lines@) =~= seq![Seq::<char>::empty()]);
        }
        let old_text = copy_lines(&lines);
        Model { text: lines, old_text, filepath: filepath.to_owned(), saved: true }
    }

    /// The whole document, each line followed by a line feed.
    pub fn get_text(&self) -> (s: String)
        ensures
            s@ == join_lines(self@.lines),
    {
        let mut out: Vec<char> = Vec::new();
        push_joined(&mut out, &self.text, 0, self.text.len());
        assert(views(self.text@).subrange(0, self.text@.len() as int) =~= views(self.text@));
        string_of(&out)
    }

    /// Up to `amount` lines from line `start_line` on, each followed by a
    /// line feed; empty if there is no such line.
    pub fn get_text_slice(&self, start_line: usize, amount: usize) -> (s: String)
        ensures
            s@ == join_lines(self@.slice(start_line as int, amount as int)),
    {
        let mut out: Vec<char> = Vec::new();
        if 1 <= start_line && start_line <= self.text.len() {
            let from = start_line - 1;
            let to = if amount <= self.text.len() - from {
                from + amount
            } else {
                self.text.len()
            };
            push_joined(&mut out, &self.text, from, to);
            assert(views(self.text@).skip(from as int) =~= views(self.text@).subrange(
                from as int,
                self.text@.len() as int,
            ));
        }
        string_of(&out)
    }

    /// The character at `(line, column)`, or `'_'` where there is none.
    pub fn get_char(&self, line: usize, column: usize) -> (c: char)
        ensures
            c == self@.char_at(line as int, column as int),
    {
        if 1 <= line && line <= self.text.len() {
            let l = &self.text[line - 1];
            if 1 <= column && column <= l.len() {
                return l[column - 1];
            }
        }
        '_'
    }

    /// The characters of line `line`, none if there is no such line.
    pub fn line_chars(&self, line: usize) -> (l: Vec<char>)
        ensures
            l@ == self@.line(line as int),
    {
        if 1 <= line && line <= self.text.len() {
            copy_line(&self.text[line - 1])
        } else {
            Vec::new()
        }
    }

    /// The number of lines, and of characters of each line, is one that a
    /// machine word holds.
    pub proof fn lemma_fits(&self)
        ensures
            self@.lines.len() <= usize::MAX,
            forall|i: int| 0 <= i < self@.lines.len() ==> (#[trigger] self@.lines[i]).len() <= usize::MAX,
    {
        assert(self@.lines.len() == self.text.len());
        assert forall|i: int| 0 <= i < self@.lines.len() implies (#[trigger] self@.lines[i]).len()
            <= usize::MAX by {
            assert(self@.lines[i] == self.text@[i]@);
            assert(self.text@[i].len() <= usize::MAX);
        }
    }

    /// Appends to `out` the lines from place `from` up to place `to`, counted
    /// from 0, each followed by a line feed.
    pub fn append_joined(&self, out: &mut Vec<char>, from: usize, to: usize)
        requires
            from <= to <= self@.lines.len(),
        ensures
            final(out)@ == old(out)@ + join_lines(self@.lines.subrange(from as int, to as int)),
    {
        push_joined(out, &self.text, from, to);
    }

    /// A copy of up to `amount` lines from line `start_line` on; none if
    /// there is no such line.
    pub fn slice_lines(&self, start_line: usize, amount: usize) -> (r: Vec<Vec<char>>)
        ensures
            views(r@) == self@.slice(start_line as int, amount as int),
    {
        let mut out: Vec<Vec<char>> = Vec::new();
        if 1 <= start_line && start_line <= self.text.len() {
            let from = start_line - 1;
            let to = if amount <= self.text.len() - from {
                from + amount
            } else {
                self.text.len()
            };
            let mut i: usize = from;
            while i < to
                invariant
                    from <= i <= to <= self.text.len(),
                    out@.len() == i - from,
                    forall|j: int| 0 <= j < out@.len() ==> out@[j]@ == self.text@[from + j]@,
                decreases to - i,
            {
                out.push(copy_line(&self.text[i]));
                i += 1;
            }
            assert(views(out@) =~= views(self.text@).subrange(from as int, to as int));
            assert(views(self.text@).skip(from as int) =~= views(self.text@).subrange(
                from as int,
                self.text@.len() as int,
            ));
        } else {
            assert(views(out@) =~= Seq::<Seq<char>>::empty());
        }
        out
    }

    /// Line `line`, which the document has.
    pub fn line_ref(&self, line: usize) -> (l: &Vec<char>)
        requires
            self@.has_line(line as int),
        ensures
            l@ == self@.line(line as int),
    {
        &self.text[line - 1]
    }

    /// The text of line `line`, empty if there is no such line.
    pub fn get_line(&self, line: usize) -> (s: String)
        ensures
            s@ == self@.line(line as int),
    {
        let l = self.line_chars(line);
        string_of(&l)
    }

    /// The number of characters of line `line`, 0 if there is no such line.
    pub fn get_line_len(&self, line: usize) -> (n: usize)
        ensures
            n == self@.line(line as int).len(),
    {
        if 1 <= line && line <= self.text.len() {
            self.text[line - 1].len()
        } else {
            0
        }
    }

    /// Tells whether the buffer is well formed.
    pub fn is_sound(&self) -> (b: bool)
        ensures
            b == self@.wf(),
    {
        self.text.len() >= 1 && self.old_text.len() >= 1 && free_of_line_feeds(&self.text)
            && free_of_line_feeds(&self.old_text)
    }

    /// The number of lines.
    pub fn get_line_count(&self) -> (n: usize)
        ensures
            n == self@.lines.len(),
    {
        self.text.len()
    }

    /// Whether the document is as it was last written out.
    pub fn get_saved_stat(&self) -> (b: bool)
        ensures
            b == self@.saved,
    {
        self.saved
    }

    /// Where the document is written to.
    pub fn get_filepath(&self) -> (s: String)
        ensures
            s@ == self@.path,
    {
        self.filepath.clone()
    }

    /// Takes the outcome of writing the document out: written, the buffer
    /// counts as saved; not written, it stays as it was.
    pub fn save(&mut self, written: bool)
        ensures
            final(self)@ == old(self)@.save(written),
            old(self)@.wf() ==> final(self)@.wf(),
    {
        if written {
            self.saved = true;
        }
    }

    /// Types `c` at `(line, column)`: a line feed splits the line there, any
    /// other character goes into the line. Where the document has no such
    /// place, nothing changes. A change leaves the old document as the
    /// snapshot and the buffer unsaved.
    pub fn add_char(&mut self, c: char, line: usize, column: usize)
        ensures
            final(self)@ == old(self)@.add_char(c, line as int, column as int),
            old(self)@.wf() ==> final(self)@.wf(),
    {
        let count = self.text.len();
        if line < 1 || line > count || column < 1 {
            return;
        }
        if column - 1 > self.text[line - 1].len() {
            return;
        }
        self.old_text = copy_lines(&self.text);
        self.saved = false;
        if c == '\n' {
            let mut head = copy_line(&self.text[line - 1]);
            let tail = head.split_off(column - 1);
            self.text.set(line - 1, head);
            self.text.insert(line, tail);
            proof {
                let o = views(old(self).text@);
                let l = o[line - 1];
                assert(views(self.text@) =~= o.take(line - 1) + seq![
                    l.take(column - 1),
                    l.skip(column - 1),
                ] + o.skip(line as int));
            }
        } else {
            let mut l = copy_line(&self.text[line - 1]);
            l.insert(column - 1, c);
            self.text.set(line - 1, l);
            proof {
                let o = views(old(self).text@);
                assert(views(self.text@) =~= o.update(
                    line - 1,
                    o[line - 1].insert(column - 1, c),
                ));
            }
        }
    }

    /// Puts the block `copy_str` in at `(line, column)`; its line feeds
    /// become line breaks. Where there is no such place, nothing changes.
    pub fn add_block(&mut self, copy_str: String, line: usize, column: usize)
        ensures
            final(self)@ == old(self)@.add_block(copy_str@, line as int, column as int),
            old(self)@.wf() ==> final(self)@.wf(),
    {
        if line < 1 || line > self.text.len() || column < 1 {
            return;
        }
        if column - 1 > self.text[line - 1].len() {
            return;
        }
        self.old_text = copy_lines(&self.text);
        self.saved = false;
        let block = chars_of(copy_str.as_str());
        let cur = &self.text[line - 1];
        let mut joined = copy_range(cur, 0, column - 1);
        append_chars(&mut joined, &block);
        let end = copy_range(cur, column - 1, cur.len());
        append_chars(&mut joined, &end);
        let pieces = pieces_of(&joined, '\n');
        let mut tail = self.text.split_off(line);
        self.text.pop();
        let mut pieces = pieces;
        self.text.append(&mut pieces);
        self.text.append(&mut tail);
        proof {
            let o = views(old(self).text@);
            let l = o[line - 1];
            assert(joined@ =~= l.take(column - 1) + copy_str@ + l.skip(column - 1));
            assert(views(self.text@) =~= o.take(line - 1) + split_newlines(joined@) + o.skip(
                line as int,
            ));
        }
    }

    /// Deletes the character before `(line, column)`; at column 1, joins the
    /// line to the one before it. Gives the length of the joined line where
    /// two lines were joined, else 0.
    pub fn delete_char(&mut self, line: usize, column: usize) -> (joined_len: usize)
        ensures
            final(self)@ == old(self)@.delete_char(line as int, column as int),
            joined_len == old(self)@.delete_char_joined_len(line as int, column as int),
            old(self)@.wf() ==> final(self)@.wf(),
    {
        if line < 1 || line > self.text.len() || column < 1 {
            return 0;
        }
        if column == 1 {
            if line == 1 {
                return 0;
            }
            self.old_text = copy_lines(&self.text);
            self.saved = false;
            let cur = self.text.remove(line - 1);
            let mut prev = copy_line(&self.text[line - 2]);
            append_chars(&mut prev, &cur);
            let n = prev.len();
            self.text.set(line - 2, prev);
            proof {
                let o = views(old(self).text@);
                assert(views(self.text@) =~= o.take(line - 2) + seq![o[line - 2] + o[line - 1]]
                    + o.skip(line as int));
            }
            return n;
        }
        if column - 1 > self.text[line - 1].len() {
            return 0;
        }
        self.old_text = copy_lines(&self.text);
        self.saved = false;
        let mut l = copy_line(&self.text[line - 1]);
        l.remove(column - 2);
        self.text.set(line - 1, l);
        proof {
            let o = views(old(self).text@);
            assert(views(self.text@) =~= o.update(line - 1, o[line - 1].remove(column - 2)));
        }
        0
    }

    /// Deletes the `chars` characters before `(line, column)`, if the line
    /// has that many there.
    pub fn delete_block(&mut self, line: usize, column: usize, chars: usize)
        ensures
            final(self)@ == old(self)@.delete_block(line as int, column as int, chars as int),
            old(self)@.wf() ==> final(self)@.wf(),
    {
        if chars == 0 || column <= chars || line < 1 || line > self.text.len() {
            return;
        }
        if column - 1 > self.text[line - 1].len() {
            return;
        }
        self.old_text = copy_lines(&self.text);
        self.saved = false;
        let cur = &self.text[line - 1];
        let mut l = copy_range(cur, 0, column - 1 - chars);
        let end = copy_range(cur, column - 1, cur.len());
        append_chars(&mut l, &end);
        self.text.set(line - 1, l);
        proof {
            let o = views(old(self).text@);
            let old_line = o[line - 1];
            assert(views(self.text@) =~= o.update(
                line - 1,
                old_line.take(column - 1 - chars) + old_line.skip(column - 1),
            ));
        }
    }

    /// Deletes line `line` and tells whether it did: not the only line, and
    /// not a line that is not there.
    pub fn delete_line(&mut self, line: usize) -> (deleted: bool)
        ensures
            deleted == old(self)@.can_delete_line(line as int),
            final(self)@ == old(self)@.delete_line(line as int),
            old(self)@.lines.len() == 1 ==> !deleted && final(self)@ == old(self)@,
            old(self)@.wf() ==> final(self)@.wf(),
    {
        if self.text.len() == 1 || line < 1 || line > self.text.len() {
            return false;
        }
        self.old_text = copy_lines(&self.text);
        self.saved = false;
        self.text.remove(line - 1);
        assert(views(self.text@) =~= views(old(self).text@).remove(line - 1));
        true
    }

    /// The first occurrence of `search_str` after `cur_pos`: in the rest of
    /// its line, then in the lines that follow. `(0, 0)` if there is none.
    pub fn forward_search(&self, search_str: &str, cur_pos: Position) -> (p: Position)
        ensures
            (p.line as int, p.col as int) == self@.forward_search(
                search_str@,
                cur_pos.line as int,
                cur_pos.col as int,
            ),
            self@.is_forward_answer(
                search_str@,
                cur_pos.line as int,
                cur_pos.col as int,
                p.line as int,
                p.col as int,
            ),            p.line != 0 && p.line == cur_pos.line ==> p.col > cur_pos.col,
    {
        let needle = chars_of(search_str);
        let p = self.forward_search_chars(&needle, cur_pos);
        p
    }

    /// As [`Model::forward_search`], for a needle given as characters.
    pub fn forward_search_chars(&self, needle: &Vec<char>, cur_pos: Position) -> (p: Position)
        ensures
            (p.line as int, p.col as int) == self@.forward_search(
                needle@,
                cur_pos.line as int,
                cur_pos.col as int,
            ),
            self@.is_forward_answer(
                needle@,
                cur_pos.line as int,
                cur_pos.col as int,
                p.line as int,
                p.col as int,
            ),            p.line != 0 && p.line == cur_pos.line ==> p.col > cur_pos.col,
    {
        let ghost v = self@;
        let ghost fl = cur_pos.line as int;
        let ghost fc = cur_pos.col as int;
        if needle.len() > 0 && 1 <= cur_pos.line && cur_pos.line <= self.text.len() {
            let mut ln: usize = cur_pos.line - 1;
            let mut from: usize = cur_pos.col;
            while ln < self.text.len()
                invariant
                    v == self@,
                    fl == cur_pos.line,
                    fc == cur_pos.col,
                    v.has_line(fl),
                    needle@.len() > 0,
                    fl - 1 <= ln <= self.text.len(),
                    ln == fl - 1 ==> from == fc,
                    ln > fl - 1 ==> from == 0,
                    forall|l: int, c: int| v.forward_hit(needle@, fl, fc, l, c) ==> l > ln,
                decreases self.text.len() - ln,
            {
                let hay = &self.text[ln];
                match find(hay, needle, from) {
                    Some(i) => {
                        assert(i < hay.len());
                        proof {
                            assert(v.lines[ln as int] == hay@);
                            assert(v.forward_hit(needle@, fl, fc, ln + 1, i + 1));
                            assert forall|l: int, c: int|
                                v.forward_hit(needle@, fl, fc, l, c) implies ln + 1 < l || (ln + 1
                                == l && i + 1 <= c) by {
                                if l == ln + 1 && c < i + 1 {
                                    assert(!matches_at(hay@, needle@, c - 1));
                                }
                            }
                            lemma_forward_answer_unique(v, needle@, fl, fc, ln + 1, i + 1);
                        }
                        return Position { line: ln + 1, col: i + 1 };
                    },
                    None => {
                        assert forall|l: int, c: int|
                            v.forward_hit(needle@, fl, fc, l, c) implies l > ln + 1 by {
                            if l == ln + 1 {
                                assert(v.lines[ln as int] == hay@);
                                assert(!matches_at(hay@, needle@, c - 1));
                            }
                        }
                    },
                }
                ln += 1;
                from = 0;
            }
        }
        proof {
            lemma_forward_answer_unique(v, needle@, fl, fc, 0, 0);
        }
        Position { line: 0, col: 0 }
    }

    /// The last occurrence of `search_str` before `cur_pos`: ending before
    /// its column on its line, or on a line before. `(0, 0)` if there is
    /// none.
    pub fn backward_search(&self, search_str: &str, cur_pos: Position) -> (p: Position)
        ensures
            (p.line as int, p.col as int) == self@.backward_search(
                search_str@,
                cur_pos.line as int,
                cur_pos.col as int,
            ),
            self@.is_backward_answer(
                search_str@,
                cur_pos.line as int,
                cur_pos.col as int,
                p.line as int,
                p.col as int,
            ),            p.line != 0 && p.line == cur_pos.line ==> p.col < cur_pos.col,
    {
        let needle = chars_of(search_str);
        let p = self.backward_search_chars(&needle, cur_pos);
        p
    }

    /// As [`Model::backward_search`], for a needle given as characters.
    pub fn backward_search_chars(&self, needle: &Vec<char>, cur_pos: Position) -> (p: Position)
        ensures
            (p.line as int, p.col as int) == self@.backward_search(
                needle@,
                cur_pos.line as int,
                cur_pos.col as int,
            ),
            self@.is_backward_answer(
                needle@,
                cur_pos.line as int,
                cur_pos.col as int,
                p.line as int,
                p.col as int,
            ),            p.line != 0 && p.line == cur_pos.line ==> p.col < cur_pos.col,
    {
        let ghost v = self@;
        let ghost fl = cur_pos.line as int;
        let ghost fc = cur_pos.col as int;
        if needle.len() > 0 && 1 <= cur_pos.line && cur_pos.line <= self.text.len() {
            let mut ln: usize = cur_pos.line;
            let mut end: usize = if cur_pos.col >= 1 {
                cur_pos.col - 1
            } else {
                0
            };
            while ln > 0
                invariant
                    v == self@,
                    fl == cur_pos.line,
                    fc == cur_pos.col,
                    v.has_line(fl),
                    needle@.len() > 0,
                    0 <= ln <= fl,
                    ln == fl ==> end == if fc >= 1 {
                        fc - 1
                    } else {
                        0
                    },
                    ln < fl ==> end == usize::MAX,
                    forall|l: int, c: int| v.backward_hit(needle@, fl, fc, l, c) ==> l <= ln,
                decreases ln,
            {
                let hay = &self.text[ln - 1];
                assert(hay.len() <= usize::MAX);
                match rfind(hay, needle, end) {
                    Some(i) => {
                        assert(i < hay.len());
                        proof {
                            assert(v.lines[ln - 1] == hay@);
                            assert(v.backward_hit(needle@, fl, fc, ln as int, i + 1));
                            assert forall|l: int, c: int|
                                v.backward_hit(needle@, fl, fc, l, c) implies l < ln || (ln == l
                                && c <= i + 1) by {
                                if l == ln && c > i + 1 {
                                    assert(!matches_at(hay@, needle@, c - 1));
                                }
                            }
                            lemma_backward_answer_unique(v, needle@, fl, fc, ln as int, i + 1);
                        }
                        return Position { line: ln, col: i + 1 };
                    },
                    None => {
                        assert forall|l: int, c: int|
                            v.backward_hit(needle@, fl, fc, l, c) implies l <= ln - 1 by {
                            if l == ln {
                                assert(v.lines[ln - 1] == hay@);
                                assert(!matches_at(hay@, needle@, c - 1));
                            }
                        }
                    },
                }
                ln -= 1;
                end = usize::MAX;
            }
        }
        proof {
            lemma_backward_answer_unique(v, needle@, fl, fc, 0, 0);
        }
        Position { line: 0, col: 0 }
    }

    /// Brings back the document as it was before the last change.
    pub fn undo(&mut self)
        ensures
            final(self)@ == old(self)@.undo(),
            old(self)@.wf() ==> final(self)@.wf(),
    {
        self.text = copy_lines(&self.old_text);
        self.saved = false;
    }

    /// Replaces the document by the lines of `text`, or by one empty line if
    /// it has none. The snapshot and the saved flag stay.
    pub fn change_text_for_tests(&mut self, text: String)
        ensures
            final(self)@ == old(self)@.with_text(text@),
            old(self)@.wf() ==> final(self)@.wf(),
    {
        let chars = chars_of(text.as_str());
        let mut lines = lines_of(&chars);
        if lines.len() == 0 {
            lines.push(Vec::new());
            assert(views(lines@) =~= seq![Seq::<char>::empty()]);
        }
        self.text = lines;
    }
}

} // verus!

verus! {

/// Deleting just behind a character that was typed gives the document back:
/// for any character but a line feed, typed at a place of the document.
pub proof fn lemma_delete_char_inverts_add_char(v: ModelView, c: char, line: int, col: int)
    requires
        v.has_place(line, col),
        c != '\n',
    ensures
        v.add_char(c, line, col).delete_char(line, col + 1).lines == v.lines,
{
    let l = v.lines[line - 1];
    let w = v.add_char(c, line, col);
    assert(w.lines[line - 1] == l.insert(col - 1, c));
    assert(l.insert(col - 1, c).remove(col - 1) =~= l);
    assert(w.delete_char(line, col + 1).lines =~= v.lines);
}

/// Undo after one change brings back the document as it was before that
/// change, whichever operation made it.
pub proof fn lemma_undo_restores(
    v: ModelView,
    c: char,
    block: Seq<char>,
    line: int,
    col: int,
    count: int,
)
    ensures
        v.add_char(c, line, col) != v ==> v.add_char(c, line, col).undo().lines == v.lines,
        v.add_block(block, line, col) != v ==> v.add_block(block, line, col).undo().lines
            == v.lines,
        v.delete_char(line, col) != v ==> v.delete_char(line, col).undo().lines == v.lines,
        v.delete_block(line, col, count) != v ==> v.delete_block(line, col, count).undo().lines
            == v.lines,
        v.delete_line(line) != v ==> v.delete_line(line).undo().lines == v.lines,
{
}

/// An edit at a place that the document does not have changes nothing:
/// typing and putting in a block past the last line or past the end of a
/// line, deleting there, and deleting a line that is not there.
pub proof fn lemma_edits_past_the_buffer_change_nothing(
    v: ModelView,
    c: char,
    block: Seq<char>,
    line: int,
    col: int,
    count: int,
)
    ensures
        !v.has_place(line, col) ==> v.add_char(c, line, col) == v,
        !v.has_place(line, col) ==> v.add_block(block, line, col) == v,
        !v.has_place(line, col) ==> v.delete_block(line, col, count) == v,
        !v.has_place(line, col) ==> v.delete_char(line, col) == v,
        !v.has_line(line) ==> v.delete_line(line) == v,
{
}

/// A search answers a place on the far side of where it starts: behind the
/// column on the same line when it goes forward, before it when it goes
/// backward.
pub proof fn lemma_search_leaves_the_cursor(
    v: ModelView,
    needle: Seq<char>,
    from_line: int,
    from_col: int,
    line: int,
    col: int,
)
    ensures
        v.is_forward_answer(needle, from_line, from_col, line, col) && line != 0 ==> line
            > from_line || (line == from_line && col > from_col),
        v.is_backward_answer(needle, from_line, from_col, line, col) && line != 0 ==> line
            < from_line || (line == from_line && col < from_col),
{
}

/// A second undo changes nothing.
pub proof fn lemma_undo_idempotent(v: ModelView)
    ensures
        v.undo().undo() == v.undo(),
{
}

/// Every operation keeps the buffer well formed.
pub proof fn lemma_operations_keep_wf(
    v: ModelView,
    c: char,
    block: Seq<char>,
    line: int,
    col: int,
    count: int,
)
    requires
        v.wf(),
    ensures
        v.add_char(c, line, col).wf(),
        v.add_block(block, line, col).wf(),
        v.delete_char(line, col).wf(),
        v.delete_block(line, col, count).wf(),
        v.delete_line(line).wf(),
        v.undo().wf(),
{
    if v.has_place(line, col) {
        let l = v.lines[line - 1];
        lemma_split_on_has_no(l.take(col - 1) + block + l.skip(col - 1), '\n');
    }
}

} // verus!
