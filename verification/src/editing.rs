//! Changing the document from the editor: typing, deleting, copy and paste,
//! undo, and what follows for the cursor and the window.

use vstd::prelude::*;
use crate::cursor::{clamp, sat_add};
use crate::model::ModelView;
use crate::text::{
    copy_range, digits_count, join_lines, number_of_digits, pieces_of, split_newlines, string_of,
    views,
};
use crate::viewer::{text_width, text_width_of, Cursor, Mode, Viewer, ViewerView};

verus! {

/// The buffer after `n` spaces have been typed one after the other, from
/// `(line, col)` on.
pub open spec fn add_spaces(model: ModelView, line: int, col: int, n: nat) -> ModelView
    decreases n,
{
    if n == 0 {
        model
    } else {
        add_spaces(model, line, col, (n - 1) as nat).add_char(
            ' ',
            line,
            clamp(col + n - 1) as int,
        )
    }
}

/// Whether the `n` characters before text column `text_col` of `line` are
/// there and are all spaces.
pub open spec fn is_indent(line: Seq<char>, text_col: int, n: int) -> bool {
    &&& n < text_col
    &&& text_col - 1 <= line.len()
    &&& forall|i: int| text_col - 1 - n <= i < text_col - 1 ==> line[i] == ' '
}

/// The smaller of two numbers.
pub open spec fn min(a: int, b: int) -> int {
    if a <= b {
        a
    } else {
        b
    }
}

/// Whether there is text to copy from `start` to `(end_line, end_col)`: both
/// lines are lines of the document, and the end does not come before the
/// start.
pub open spec fn can_copy(model: ModelView, start: Cursor, end_line: int, end_col: int) -> bool {
    &&& model.has_line(start.line as int)
    &&& model.has_line(end_line)
    &&& start.col >= 1
    &&& (start.line < end_line || (start.line == end_line && start.col <= end_col))
}

/// The text from text column `start.col` of line `start.line` up to and
/// with text column `end_col` of line `end_line`, as far as the lines reach,
/// with a line feed between one line and the next.
pub open spec fn copied(model: ModelView, start: Cursor, end_line: int, end_col: int) -> Seq<char> {
    let first = model.line(start.line as int);
    let last = model.line(end_line);
    let to = min(end_col, last.len() as int);
    if start.line == end_line {
        first.subrange(min(start.col - 1, to), to)
    } else {
        first.skip(min(start.col - 1, first.len() as int)).push('\n') + join_lines(
            model.lines.subrange(start.line as int, end_line - 1),
        ) + last.take(to)
    }
}

impl ViewerView {
    /// Whether the digits of the line numbers are counted anew: always, or,
    /// where one line has come or gone, only where the count may have got a
    /// digit more or less.
    pub open spec fn recounts(self, add: bool, single: bool) -> bool {
        !single || (add && self.count() % 10 == 0) || (!add && self.count() % 10 == 9)
    }

    /// Whether the digits of the line numbers change when counted.
    pub open spec fn digits_change(self, add: bool, single: bool) -> bool {
        self.recounts(add, single) && digits_count(self.count() as nat) != self.num_lines_digits
    }

    /// The state with the digits of the line numbers brought up to date.
    pub open spec fn update_num_lines_digits(self, add: bool, single: bool) -> ViewerView {
        if self.digits_change(add, single) {
            ViewerView { num_lines_digits: digits_count(self.count() as nat) as usize, ..self }
        } else {
            self
        }
    }

    /// The state with the line numbers, where they are shown, given the
    /// room that they need now.
    pub open spec fn refresh_gutter(self, add: bool, single: bool) -> ViewerView {
        if self.show_line_num && self.digits_change(add, single) {
            let s = self.update_num_lines_digits(add, single);
            ViewerView { width: text_width(s.term_width, s.num_lines_digits, true), ..s }
        } else {
            self
        }
    }

    /// The state after `count` characters `c` have been typed at the cursor
    /// and are in the buffer: after a line feed the cursor is at the start
    /// of the new line, else behind what was typed; the window follows it.
    pub open spec fn update_after_add(self, c: char, count: usize) -> ViewerView {
        let s = if c == '\n' {
            let s1 = ViewerView { disp_col: 1, text_col: 1, ..self }.set_current_line(
                clamp(self.cursor.line + 1),
            );
            let s2 = if s1.cursor.line >= s1.disp_line + s1.height {
                ViewerView { disp_line: (s1.disp_line + 1) as usize, ..s1 }
            } else {
                s1
            };
            s2.refresh_gutter(true, true)
        } else {
            ViewerView { text_col: clamp(self.text_col + count), ..self }.set_current_line(
                self.cursor.line,
            )
        };
        s.ensure_cursor_visible()
    }

    /// The state after `c` has been typed at the cursor.
    #[verifier::opaque]
    pub open spec fn add_char(self, c: char) -> ViewerView {
        ViewerView {
            model: self.model.add_char(c, self.cursor.line as int, self.text_col as int),
            ..self
        }.update_after_add(c, 1)
    }

    /// The state after a tab has been typed as spaces.
    #[verifier::opaque]
    pub open spec fn add_tab_spaces(self) -> ViewerView {
        ViewerView {
            model: add_spaces(
                self.model,
                self.cursor.line as int,
                self.text_col as int,
                self.tab_size as nat,
            ),
            ..self
        }.update_after_add(' ', self.tab_size)
    }

    /// The state after backspace at the start of a line that is not the
    /// first: the line is joined to the one above, and the cursor is where
    /// the two meet.
    pub open spec fn join_up(self) -> ViewerView {
        let line = self.cursor.line as int;
        let joined = self.model.delete_char_joined_len(line, 1);
        let s1 = ViewerView {
            model: self.model.delete_char(line, 1),
            text_col: clamp(joined - self.raw_len() + 1),
            ..self
        }.set_current_line((line - 1) as usize);
        let s2 = if s1.cursor.line < s1.disp_line {
            ViewerView { disp_line: (s1.disp_line - 1) as usize, ..s1 }
        } else {
            s1
        };
        s2.refresh_gutter(false, true).ensure_cursor_visible()
    }

    /// The state after the character before the cursor has been deleted.
    pub open spec fn delete_before(self) -> ViewerView {
        ViewerView {
            model: self.model.delete_char(self.cursor.line as int, self.text_col as int),
            text_col: (self.text_col - 1) as usize,
            ..self
        }.set_current_line(self.cursor.line).ensure_cursor_visible()
    }

    /// The state after the character under the cursor has been deleted.
    pub open spec fn delete_under(self) -> ViewerView {
        ViewerView {
            model: self.model.delete_char(
                self.cursor.line as int,
                clamp(self.text_col + 1) as int,
            ),
            ..self
        }.set_current_line(self.cursor.line).ensure_cursor_visible()
    }

    /// The state after a deletion at the cursor. Backspace deletes the
    /// character before the cursor, and at the start of a line joins the
    /// line to the one above; at the start of the document it does nothing.
    /// Delete takes the character under the cursor, if there is one.
    pub open spec fn delete_char(self, backspace: bool) -> ViewerView {
        if backspace {
            if self.cursor.line <= 1 && self.text_col <= 1 {
                self
            } else if self.text_col <= 1 {
                self.join_up()
            } else {
                self.delete_before()
            }
        } else if self.text_col > self.raw_len() {
            self
        } else {
            self.delete_under()
        }
    }

    /// The state after backspace: where a tab's worth of spaces stands
    /// before the cursor, all of them go at once; else one character does.
    #[verifier::opaque]
    pub open spec fn delete_backspace(self) -> ViewerView {
        if is_indent(self.cur(), self.text_col as int, self.tab_size as int) {
            ViewerView {
                model: self.model.delete_block(
                    self.cursor.line as int,
                    self.text_col as int,
                    self.tab_size as int,
                ),
                text_col: (self.text_col - self.tab_size) as usize,
                ..self
            }.set_current_line(self.cursor.line).ensure_cursor_visible()
        } else {
            self.delete_char(true)
        }
    }

    #[verifier::opaque]
    /// The state after the delete key: the character under the cursor is
    /// gone, if there was one.
    pub open spec fn delete_at_cursor(self) -> ViewerView {
        self.delete_char(false)
    }

    /// The state with the start of the text to copy marked at the cursor.
    #[verifier::opaque]
    pub open spec fn select_copy_start_marker(self) -> ViewerView {
        ViewerView { copy_start: Cursor { line: self.cursor.line, col: self.text_col }, ..self }
    }

    /// The state with the text from the mark to the cursor copied, if the
    /// cursor does not come before the mark.
    #[verifier::opaque]
    pub open spec fn select_copy_end_marker(self) -> ViewerView {
        if can_copy(self.model, self.copy_start, self.cursor.line as int, self.text_col as int) {
            ViewerView {
                copy_string: copied(
                    self.model,
                    self.copy_start,
                    self.cursor.line as int,
                    self.text_col as int,
                ),
                ..self
            }
        } else {
            self
        }
    }

    /// The state after the copied text has been put in at the cursor: the
    /// cursor is behind the text, and the window shows it.
    #[verifier::opaque]
    pub open spec fn paste(self) -> ViewerView {
        let block = self.copy_string;
        let pieces = split_newlines(block);
        let s = ViewerView {
            model: self.model.add_block(block, self.cursor.line as int, self.text_col as int),
            ..self
        }.refresh_gutter(true, false);
        let end_line = clamp(self.cursor.line + pieces.len() - 1);
        let end_col = if pieces.len() == 1 {
            clamp(self.text_col + block.len())
        } else {
            clamp(pieces.last().len() as int + 1)
        };
        s.set_cursor(end_line, end_col)
    }

    /// The state after undo: the document as it was before the last change,
    /// the cursor on a line that it has, and the window showing it.
    #[verifier::opaque]
    pub open spec fn undo(self) -> ViewerView {
        let s0 = ViewerView { model: self.model.undo(), ..self }.refresh_gutter(true, false);
        let s1 = if s0.cursor.line > s0.count() {
            s0.move_cursor_end_file()
        } else {
            s0.set_current_line(s0.cursor.line)
        };
        let s2 = if s1.cursor.line < s1.disp_line {
            ViewerView { disp_line: s1.last_page(), ..s1 }
        } else {
            s1
        };
        s2.ensure_cursor_visible()
    }

    /// The state after the cursor's line has been deleted, if it is not the
    /// only one: the cursor at the start of the line that took its place, or
    /// of the line above where the last line went.
    #[verifier::opaque]
    pub open spec fn delete_line(self) -> ViewerView {
        let line = self.cursor.line;
        if self.model.can_delete_line(line as int) {
            let target = if line != self.count() {
                line
            } else {
                (line - 1) as usize
            };
            let s = ViewerView {
                model: self.model.delete_line(line as int),
                ..self
            }.refresh_gutter(false, true).set_cursor(target, 1);
            ViewerView {
                cursor: Cursor { line: s.cursor.line, col: 1 },
                text_col: 1,
                disp_col: 1,
                ..s
            }
        } else {
            self
        }
    }

    /// The state after the rest of the line behind the cursor's character
    /// has been deleted.
    #[verifier::opaque]
    pub open spec fn delete_end_of_line(self) -> ViewerView {
        let raw = self.raw_len();
        if self.text_col >= raw {
            self
        } else {
            ViewerView {
                model: self.model.delete_block(
                    self.cursor.line as int,
                    clamp(raw + 1) as int,
                    raw - self.text_col,
                ),
                ..self
            }
        }
    }

    /// The state with the line numbers shown if they were hidden, and
    /// hidden if they were shown.
    #[verifier::opaque]
    pub open spec fn toggle_line_numbers(self) -> ViewerView {
        ViewerView {
            show_line_num: !self.show_line_num,
            width: text_width(self.term_width, self.num_lines_digits, !self.show_line_num),
            ..self
        }.ensure_cursor_visible()
    }

    /// The state that shows the help: help mode, cursor and window at the
    /// top.
    #[verifier::opaque]
    pub open spec fn show_help(self) -> ViewerView {
        ViewerView {
            mode: Mode::Help,
            cursor: Cursor { line: 1, col: 1 },
            text_col: 1,
            disp_line: 1,
            disp_col: 1,
            ..self
        }
    }

    /// The state after the help: read mode, and the window at the top, or
    /// where it shows the cursor.
    #[verifier::opaque]
    pub open spec fn exit_help(self) -> ViewerView {
        ViewerView { mode: Mode::Read, disp_line: 1, disp_col: 1, ..self }.set_cursor(
            self.cursor.line,
            self.text_col,
        )
    }
}

impl Viewer {
    /// Brings the digits of the line numbers up to date, and tells whether
    /// they changed.
    pub fn update_num_lines_digits(&mut self, add: bool, single: bool) -> (changed: bool)
        ensures
            final(self)@ == old(self)@.update_num_lines_digits(add, single),
            changed == old(self)@.digits_change(add, single),
    {
        let line_count = self.model.get_line_count();
        if single {
            if !((add && line_count % 10 == 0) || (!add && line_count % 10 == 9)) {
                return false;
            }
        }
        let num_lines_digits = number_of_digits(line_count);
        if self.num_lines_digits != num_lines_digits {
            self.num_lines_digits = num_lines_digits;
            return true;
        }
        false
    }

    /// Gives the line numbers, where they are shown, the room that they
    /// need now.
    pub fn refresh_gutter(&mut self, add: bool, single: bool)
        ensures
            final(self)@ == old(self)@.refresh_gutter(add, single),
    {
        if self.show_line_num && self.update_num_lines_digits(add, single) {
            self.width = text_width_of(self.term_width, self.num_lines_digits, true);
        }
    }

    /// Moves the cursor and the window after `count` characters `c` have
    /// been typed at the cursor and are in the buffer.
    pub fn update_after_add(&mut self, c: char, count: usize)
        requires
            old(self)@.has_window(),
        ensures
            final(self)@ == old(self)@.update_after_add(c, count),
            final(self)@.wf(),
    {
        if c == '\n' {
            self.disp_col = 1;
            self.text_col = 1;
            self.set_current_line(sat_add(self.cursor.line, 1));
            if self.cursor.line >= self.disp_line && self.cursor.line - self.disp_line
                >= self.height {
                self.disp_line += 1;
            }
            self.refresh_gutter(true, true);
        } else {
            self.text_col = sat_add(self.text_col, count);
            self.set_current_line(self.cursor.line);
        }
        self.ensure_cursor_visible();
    }

    /// Types `c` at the cursor.
    pub fn add_char(&mut self, c: char)
        requires
            old(self)@.wf(),
        ensures
            final(self)@ == old(self)@.add_char(c),
            final(self)@.wf(),
            old(self)@.in_view() ==> final(self)@.in_view(),
            old(self)@.col_in_view() ==> final(self)@.col_in_view(),
    {
        reveal(ViewerView::add_char);
        self.model.add_char(c, self.cursor.line, self.text_col);
        self.update_after_add(c, 1);
    }

    /// Types a tab as spaces at the cursor.
    pub fn add_tab_spaces(&mut self)
        requires
            old(self)@.wf(),
        ensures
            final(self)@ == old(self)@.add_tab_spaces(),
            final(self)@.wf(),
            old(self)@.in_view() ==> final(self)@.in_view(),
            old(self)@.col_in_view() ==> final(self)@.col_in_view(),
    {
        reveal(ViewerView::add_tab_spaces);
        let tab_size = self.tab_size;
        let line = self.cursor.line;
        let col = self.text_col;
        let mut c: usize = 0;
        while c < tab_size
            invariant
                c <= tab_size,
                self.model@ == add_spaces(old(self)@.model, line as int, col as int, c as nat),
                self.model@.wf(),
                self.model@.lines.len() == old(self)@.model.lines.len(),
                self@ == (ViewerView { model: self.model@, ..old(self)@ }),
            decreases tab_size - c,
        {
            self.model.add_char(' ', line, sat_add(col, c));
            c += 1;
        }
        self.update_after_add(' ', tab_size);
    }

    /// Joins the cursor's line to the one above.
    fn join_up(&mut self)
        requires
            old(self)@.wf(),
            old(self)@.cursor.line >= 2,
        ensures
            final(self)@ == old(self)@.join_up(),
            final(self)@.wf(),
            old(self)@.in_view() ==> final(self)@.in_view(),
            old(self)@.col_in_view() ==> final(self)@.col_in_view(),
    {
        let line_num = self.cursor.line;
        let raw = self.model.get_line_len(line_num);
        let joined = self.model.delete_char(line_num, 1);
        self.text_col = sat_add(joined - raw, 1);
        self.set_current_line(line_num - 1);
        if self.cursor.line < self.disp_line {
            self.disp_line -= 1;
        }
        self.refresh_gutter(false, true);
        self.ensure_cursor_visible();
    }

    /// Deletes the character before the cursor.
    fn delete_before(&mut self)
        requires
            old(self)@.wf(),
            old(self)@.text_col >= 2,
        ensures
            final(self)@ == old(self)@.delete_before(),
            final(self)@.wf(),
            old(self)@.in_view() ==> final(self)@.in_view(),
            old(self)@.col_in_view() ==> final(self)@.col_in_view(),
    {
        let line_num = self.cursor.line;
        let _ = self.model.delete_char(line_num, self.text_col);
        self.text_col -= 1;
        self.set_current_line(line_num);
        self.ensure_cursor_visible();
    }

    /// Deletes the character under the cursor.
    fn delete_under(&mut self)
        requires
            old(self)@.wf(),
        ensures
            final(self)@ == old(self)@.delete_under(),
            final(self)@.wf(),
            old(self)@.in_view() ==> final(self)@.in_view(),
            old(self)@.col_in_view() ==> final(self)@.col_in_view(),
    {
        let line_num = self.cursor.line;
        let _ = self.model.delete_char(line_num, sat_add(self.text_col, 1));
        self.set_current_line(line_num);
        self.ensure_cursor_visible();
    }

    /// Deletes at the cursor: the character before it, or the character
    /// under it.
    pub fn delete_char(&mut self, backspace: bool)
        requires
            old(self)@.wf(),
        ensures
            final(self)@ == old(self)@.delete_char(backspace),
            final(self)@.wf(),
            old(self)@.in_view() ==> final(self)@.in_view(),
            old(self)@.col_in_view() ==> final(self)@.col_in_view(),
    {
        if backspace {
            if self.cursor.line <= 1 && self.text_col <= 1 {
                return;
            }
            if self.text_col <= 1 {
                self.join_up();
            } else {
                self.delete_before();
            }
        } else {
            if self.text_col > self.model.get_line_len(self.cursor.line) {
                return;
            }
            self.delete_under();
        }
    }

    /// Tells whether a tab's worth of spaces stands before the cursor.
    fn indent_before_cursor(&self) -> (b: bool)
        requires
            self@.wf(),
        ensures
            b == is_indent(self@.cur(), self@.text_col as int, self@.tab_size as int),
    {
        let line = self.model.line_ref(self.cursor.line);
        if self.text_col <= self.tab_size || self.text_col - 1 > line.len() {
            return false;
        }
        let end = self.text_col - 1;
        let mut i: usize = end - self.tab_size;
        while i < end
            invariant
                line@ == self@.cur(),
                end == self.text_col - 1,
                self.tab_size < self.text_col,
                end - self.tab_size <= i <= end <= line.len(),
                forall|j: int| end - self.tab_size <= j < i ==> line@[j] == ' ',
            decreases end - i,
        {
            if line[i] != ' ' {
                return false;
            }
            i += 1;
        }
        true
    }

    /// Handles backspace: deletes a tab's worth of spaces before the cursor
    /// at once, or else one character.
    pub fn delete_backspace(&mut self)
        requires
            old(self)@.wf(),
        ensures
            final(self)@ == old(self)@.delete_backspace(),
            final(self)@.wf(),
            old(self)@.in_view() ==> final(self)@.in_view(),
            old(self)@.col_in_view() ==> final(self)@.col_in_view(),
    {
        reveal(ViewerView::delete_backspace);
        if self.indent_before_cursor() {
            self.model.delete_block(self.cursor.line, self.text_col, self.tab_size);
            self.text_col -= self.tab_size;
            self.set_current_line(self.cursor.line);
            self.ensure_cursor_visible();
        } else {
            self.delete_char(true);
        }
    }

    /// Deletes the character under the cursor.
    pub fn delete_at_cursor(&mut self)
        requires
            old(self)@.wf(),
        ensures
            final(self)@ == old(self)@.delete_at_cursor(),
            final(self)@.wf(),
            old(self)@.in_view() ==> final(self)@.in_view(),
            old(self)@.col_in_view() ==> final(self)@.col_in_view(),
    {
        reveal(ViewerView::delete_at_cursor);
        self.delete_char(false);
    }

    /// Marks the start of the text to copy at the cursor.
    pub fn select_copy_start_marker(&mut self)
        ensures
            final(self)@ == old(self)@.select_copy_start_marker(),
            old(self)@.wf() ==> final(self)@.wf(),
            old(self)@.in_view() ==> final(self)@.in_view(),
            old(self)@.col_in_view() ==> final(self)@.col_in_view(),
    {
        reveal(ViewerView::select_copy_start_marker);
        self.copy_start.line = self.cursor.line;
        self.copy_start.col = self.text_col;
    }

    /// Copies the text from the mark to the cursor.
    pub fn select_copy_end_marker(&mut self)
        ensures
            final(self)@ == old(self)@.select_copy_end_marker(),
            old(self)@.wf() ==> final(self)@.wf(),
            old(self)@.in_view() ==> final(self)@.in_view(),
            old(self)@.col_in_view() ==> final(self)@.col_in_view(),
    {
        reveal(ViewerView::select_copy_end_marker);
        let count = self.model.get_line_count();
        let sl = self.copy_start.line;
        let sc = self.copy_start.col;
        let el = self.cursor.line;
        let ec = self.text_col;
        if sl < 1 || sl > count || el < 1 || el > count || sc < 1 {
            return;
        }
        if sl > el || (sl == el && sc > ec) {
            return;
        }
        let last = self.model.line_ref(el);
        let to = if ec < last.len() {
            ec
        } else {
            last.len()
        };
        if sl == el {
            let from = if sc - 1 < to {
                sc - 1
            } else {
                to
            };
            self.copy_string = copy_range(last, from, to);
        } else {
            let first = self.model.line_ref(sl);
            let from = if sc - 1 < first.len() {
                sc - 1
            } else {
                first.len()
            };
            let mut out = copy_range(first, from, first.len());
            out.push('\n');
            self.model.append_joined(&mut out, sl, el - 1);
            let mut tail = copy_range(last, 0, to);
            out.append(&mut tail);
            proof {
                assert(first@.subrange(from as int, first@.len() as int) =~= first@.skip(from as int));
                assert(last@.subrange(0, to as int) =~= last@.take(to as int));
            }
            self.copy_string = out;
        }
    }

    /// Puts the copied text in at the cursor.
    pub fn paste(&mut self)
        requires
            old(self)@.wf(),
        ensures
            final(self)@ == old(self)@.paste(),
            final(self)@.wf(),
            final(self)@.in_view(),
            final(self)@.col_in_view(),
    {
        reveal(ViewerView::paste);
        let line = self.cursor.line;
        let column = self.text_col;
        let pieces = pieces_of(&self.copy_string, '\n');
        assert(views(pieces@).last() == pieces@.last()@);
        let end_line = sat_add(line, pieces.len() - 1);
        let end_col = if pieces.len() == 1 {
            sat_add(column, self.copy_string.len())
        } else {
            sat_add(pieces[pieces.len() - 1].len(), 1)
        };
        self.model.add_block(string_of(&self.copy_string), line, column);
        self.refresh_gutter(true, false);
        self.set_cursor(end_line, end_col);
    }

    /// Takes back the last change to the document.
    pub fn undo(&mut self)
        requires
            old(self)@.wf(),
        ensures
            final(self)@ == old(self)@.undo(),
            final(self)@.wf(),
            old(self)@.in_view() ==> final(self)@.in_view(),
            old(self)@.col_in_view() ==> final(self)@.col_in_view(),
    {
        reveal(ViewerView::undo);
        self.model.undo();
        self.refresh_gutter(true, false);
        let line_count = self.model.get_line_count();
        if self.cursor.line > line_count {
            self.move_cursor_end_file();
        } else {
            self.set_current_line(self.cursor.line);
        }
        if self.cursor.line < self.disp_line {
            self.disp_line = if line_count > self.height {
                line_count - self.height + 1
            } else {
                1
            };
        }
        self.ensure_cursor_visible();
    }

    /// Deletes the cursor's line, if it is not the only one.
    #[verifier::rlimit(40)]
    pub fn delete_line(&mut self)
        requires
            old(self)@.wf(),
        ensures
            final(self)@ == old(self)@.delete_line(),
            final(self)@.wf(),
            old(self)@.in_view() ==> final(self)@.in_view(),
            old(self)@.col_in_view() ==> final(self)@.col_in_view(),
    {
        reveal(ViewerView::delete_line);
        let line = self.cursor.line;
        let line_count = self.model.get_line_count();
        let line_num = if line != line_count {
            line
        } else {
            line - 1
        };
        if !self.model.delete_line(line) {
            return;
        }
        self.refresh_gutter(false, true);
        self.set_cursor(line_num, 1);
        self.text_col = 1;
        self.cursor.col = 1;
        self.disp_col = 1;
    }

    /// Deletes the rest of the line behind the cursor's character.
    pub fn delete_end_of_line(&mut self)
        requires
            old(self)@.wf(),
        ensures
            final(self)@ == old(self)@.delete_end_of_line(),
            final(self)@.wf(),
            old(self)@.in_view() ==> final(self)@.in_view(),
            old(self)@.col_in_view() ==> final(self)@.col_in_view(),
    {
        reveal(ViewerView::delete_end_of_line);
        let line = self.cursor.line;
        let raw = self.model.get_line_len(line);
        let col = self.text_col;
        if col >= raw {
            return;
        }
        self.model.delete_block(line, sat_add(raw, 1), raw - col);
        proof {
            self.model.lemma_fits();
        }
    }

    /// Shows the line numbers if they were hidden, and hides them if they
    /// were shown.
    pub fn toggle_line_numbers(&mut self)
        requires
            old(self)@.wf(),
        ensures
            final(self)@ == old(self)@.toggle_line_numbers(),
            final(self)@.wf(),
            old(self)@.in_view() ==> final(self)@.in_view(),
            old(self)@.col_in_view() ==> final(self)@.col_in_view(),
    {
        reveal(ViewerView::toggle_line_numbers);
        self.show_line_num = !self.show_line_num;
        self.width = text_width_of(self.term_width, self.num_lines_digits, self.show_line_num);
        self.ensure_cursor_visible();
    }

    /// Shows the help.
    pub fn show_help(&mut self)
        requires
            old(self)@.wf(),
        ensures
            final(self)@ == old(self)@.show_help(),
            final(self)@.wf(),
            final(self)@.in_view(),
            final(self)@.col_in_view(),
    {
        reveal(ViewerView::show_help);
        self.mode = Mode::Help;
        self.cursor.line = 1;
        self.cursor.col = 1;
        self.text_col = 1;
        self.disp_line = 1;
        self.disp_col = 1;
    }

    /// Leaves the help.
    pub fn exit_help(&mut self)
        requires
            old(self)@.wf(),
        ensures
            final(self)@ == old(self)@.exit_help(),
            final(self)@.wf(),
            final(self)@.in_view(),
            final(self)@.col_in_view(),
    {
        reveal(ViewerView::exit_help);
        self.mode = Mode::Read;
        self.disp_line = 1;
        self.disp_col = 1;
        self.set_cursor(self.cursor.line, self.text_col);
    }
}

} // verus!
