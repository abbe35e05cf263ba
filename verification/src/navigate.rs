//! Moving about the document: the modes, the jump to a line, search, and
//! the moves by a word.

use vstd::prelude::*;
use crate::config::{digit_value, is_digit};
use crate::cursor::{clamp, sat_add};
use crate::keyconfig::Key;
use crate::model::{ModelView, Position};
use crate::text::{find_break, next_break, prev_break, rfind_break};
use crate::viewer::{Action, Mode, Viewer, ViewerView};

verus! {

/// Where a move to the previous word starts searching, after it has gone up
/// over the lines on which there is nothing before the cursor: a line and a
/// text column of at least 2 on it; or nothing, at the start of the
/// document.
pub open spec fn prev_word_start(model: ModelView, line: int, text_col: int) -> Option<(int, int)>
    decreases line,
{
    if text_col > 1 {
        Some((line, text_col))
    } else if line > 1 {
        prev_word_start(model, line - 1, model.line(line - 1).len() as int)
    } else {
        None
    }
}

impl ViewerView {
    /// The state in another mode: the cursor stays on its line, within the
    /// length that the line has in that mode, and the window shows it.
    pub open spec fn enter_mode(self, mode: Mode) -> ViewerView {
        ViewerView { mode, ..self }.set_current_line(self.cursor.line).ensure_cursor_visible()
    }

    /// The state after a change to edit mode or to read mode.
    #[verifier::opaque]
    pub open spec fn switch_mode(self, action: Action) -> ViewerView {
        match action {
            Action::EditMode => self.enter_mode(Mode::Edit),
            Action::ReadMode => self.enter_mode(Mode::Read),
            _ => self.enter_mode(self.mode),
        }
    }

    /// The state after a key in go-to-line mode: a digit is added to the
    /// number typed so far, backspace takes its last digit away.
    #[verifier::opaque]
    pub open spec fn go_to_line_mode(self, key: Key) -> ViewerView {
        match key {
            Key::Char(c) => if is_digit(c) {
                ViewerView { line_jump: clamp(self.line_jump * 10 + digit_value(c)), ..self }
            } else {
                self
            },
            Key::Backspace => ViewerView { line_jump: self.line_jump / 10, ..self },
            _ => self,
        }
    }

    /// Whether the number typed in go-to-line mode is a line of the
    /// document.
    pub open spec fn can_jump(self) -> bool {
        1 <= self.line_jump <= self.count()
    }

    /// The state after the jump is asked for: the cursor on the line typed,
    /// in read mode; or, if there is no such line, no move and still
    /// go-to-line mode. The number typed is forgotten.
    #[verifier::opaque]
    pub open spec fn do_line_jump(self) -> ViewerView {
        if self.can_jump() {
            ViewerView { line_jump: 0, ..self }.enter_mode(Mode::Read).set_cursor(
                self.line_jump,
                self.match_cursor_text(1),
            )
        } else {
            ViewerView { line_jump: 0, ..self }
        }
    }

    /// The state after a key in search mode: a character is added to the
    /// search string, backspace takes its last one away.
    #[verifier::opaque]
    pub open spec fn search_mode(self, key: Key) -> ViewerView {
        match key {
            Key::Char(c) => ViewerView { search_string: self.search_string.push(c), ..self },
            Key::Backspace => if self.search_string.len() > 0 {
                ViewerView { search_string: self.search_string.drop_last(), ..self }
            } else {
                self
            },
            _ => self,
        }
    }

    /// The state with the cursor on a place that a search has found, or as
    /// it is if the search has found none.
    pub open spec fn go_to_match(self, found: (int, int)) -> ViewerView {
        if found.0 != 0 {
            self.set_cursor(found.0 as usize, found.1 as usize)
        } else {
            self
        }
    }

    /// The state after a search forward from the cursor: read mode, and the
    /// cursor on the next occurrence of the search string, if it has one.
    #[verifier::opaque]
    pub open spec fn do_forward_search(self) -> ViewerView {
        let s = self.enter_mode(Mode::Read);
        if self.search_string.len() == 0 {
            s
        } else {
            s.go_to_match(
                self.model.forward_search(
                    self.search_string,
                    self.cursor.line as int,
                    self.text_col as int,
                ),
            )
        }
    }

    /// The state after a search backward from the cursor.
    #[verifier::opaque]
    pub open spec fn do_backward_search(self) -> ViewerView {
        let s = self.enter_mode(Mode::Read);
        if self.search_string.len() == 0 {
            s
        } else {
            s.go_to_match(
                self.model.backward_search(
                    self.search_string,
                    self.cursor.line as int,
                    self.text_col as int,
                ),
            )
        }
    }

    /// The state after a move to the next word: behind the first space or
    /// tab after the cursor, or at the start of the next line if there is
    /// none on this one; unchanged on the last line without one.
    #[verifier::opaque]
    pub open spec fn move_next_word(self) -> ViewerView {
        let b = next_break(self.cur(), self.text_col as int);
        if b < self.raw_len() {
            self.set_cursor(self.cursor.line, clamp(b + 2))
        } else if self.cursor.line < self.count() {
            self.set_cursor((self.cursor.line + 1) as usize, 1)
        } else {
            self
        }
    }

    /// The state after a move to the previous word: behind the last space or
    /// tab that lies two characters or more before the cursor, or at the
    /// start of the line if there is none. From the start of a line the move
    /// starts at the end of the line before; at the start of the document
    /// nothing changes.
    #[verifier::opaque]
    pub open spec fn move_prev_word(self) -> ViewerView {
        match prev_word_start(self.model, self.cursor.line as int, self.text_col as int) {
            Some((line, col)) => self.set_cursor(
                line as usize,
                clamp(prev_break(self.model.line(line), col - 2) + 2),
            ),
            None => self,
        }
    }
}

impl Viewer {
    /// Changes the mode.
    pub fn enter_mode(&mut self, mode: Mode)
        requires
            old(self)@.wf(),
        ensures
            final(self)@ == old(self)@.enter_mode(mode),
            final(self)@.wf(),
            old(self)@.in_view() ==> final(self)@.in_view(),
            old(self)@.col_in_view() ==> final(self)@.col_in_view(),
    {
        self.mode = mode;
        self.set_current_line(self.cursor.line);
        self.ensure_cursor_visible();
    }

    /// Changes to edit mode or to read mode.
    pub fn switch_mode(&mut self, action: Action)
        requires
            old(self)@.wf(),
        ensures
            final(self)@ == old(self)@.switch_mode(action),
            final(self)@.wf(),
            old(self)@.in_view() ==> final(self)@.in_view(),
            old(self)@.col_in_view() ==> final(self)@.col_in_view(),
    {
        reveal(ViewerView::switch_mode);
        match action {
            Action::EditMode => {
                self.enter_mode(Mode::Edit);
            },
            Action::ReadMode => {
                self.enter_mode(Mode::Read);
            },
            _ => {
                self.enter_mode(self.mode);
            },
        }
    }

    /// Takes a key in go-to-line mode.
    pub fn go_to_line_mode(&mut self, key: &Key)
        requires
            old(self)@.wf(),
        ensures
            final(self)@ == old(self)@.go_to_line_mode(*key),
            final(self)@.wf(),
            old(self)@.in_view() ==> final(self)@.in_view(),
            old(self)@.col_in_view() ==> final(self)@.col_in_view(),
    {
        reveal(ViewerView::go_to_line_mode);
        match *key {
            Key::Char(c) => {
                if c >= '0' && c <= '9' {
                    let digit = (c as u32 - '0' as u32) as usize;
                    if self.line_jump > (usize::MAX - digit) / 10 {
                        self.line_jump = usize::MAX;
                    } else {
                        self.line_jump = self.line_jump * 10 + digit;
                    }
                }
            },
            Key::Backspace => {
                self.line_jump = self.line_jump / 10;
            },
            _ => {},
        }
    }

    /// Jumps to the line typed in go-to-line mode, if the document has it.
    pub fn do_line_jump(&mut self)
        requires
            old(self)@.wf(),
        ensures
            final(self)@ == old(self)@.do_line_jump(),
            final(self)@.wf(),
            old(self)@.in_view() ==> final(self)@.in_view(),
            old(self)@.col_in_view() ==> final(self)@.col_in_view(),
    {
        reveal(ViewerView::do_line_jump);
        let line_num = self.line_jump;
        self.line_jump = 0;
        if line_num > self.model.get_line_count() || line_num == 0 {
            return;
        }
        let col = self.match_cursor_text(1);
        self.enter_mode(Mode::Read);
        self.set_cursor(line_num, col);
    }

    /// Takes a key in search mode.
    pub fn search_mode(&mut self, key: Key)
        requires
            old(self)@.wf(),
        ensures
            final(self)@ == old(self)@.search_mode(key),
            final(self)@.wf(),
            old(self)@.in_view() ==> final(self)@.in_view(),
            old(self)@.col_in_view() ==> final(self)@.col_in_view(),
    {
        reveal(ViewerView::search_mode);
        match key {
            Key::Char(c) => {
                self.search_string.push(c);
            },
            Key::Backspace => {
                if self.search_string.len() > 0 {
                    self.search_string.pop();
                    assert(self.search_string@ =~= old(self).search_string@.drop_last());
                }
            },
            _ => {},
        }
    }

    /// Puts the cursor on a place that a search has found.
    fn go_to_match(&mut self, pos: Position)
        requires
            old(self)@.wf(),
        ensures
            final(self)@ == old(self)@.go_to_match((pos.line as int, pos.col as int)),
            final(self)@.wf(),
            old(self)@.in_view() ==> final(self)@.in_view(),
            old(self)@.col_in_view() ==> final(self)@.col_in_view(),
    {
        if pos.line != 0 {
            self.set_cursor(pos.line, pos.col);
        }
    }

    /// Searches forward from the cursor for the search string.
    pub fn do_forward_search(&mut self)
        requires
            old(self)@.wf(),
        ensures
            final(self)@ == old(self)@.do_forward_search(),
            final(self)@.wf(),
            old(self)@.in_view() ==> final(self)@.in_view(),
            old(self)@.col_in_view() ==> final(self)@.col_in_view(),
    {
        reveal(ViewerView::do_forward_search);
        let cur_pos = Position { line: self.cursor.line, col: self.text_col };
        self.enter_mode(Mode::Read);
        if self.search_string.len() == 0 {
            return;
        }
        let pos = self.model.forward_search_chars(&self.search_string, cur_pos);
        self.go_to_match(pos);
    }

    /// Searches backward from the cursor for the search string.
    pub fn do_backward_search(&mut self)
        requires
            old(self)@.wf(),
        ensures
            final(self)@ == old(self)@.do_backward_search(),
            final(self)@.wf(),
            old(self)@.in_view() ==> final(self)@.in_view(),
            old(self)@.col_in_view() ==> final(self)@.col_in_view(),
    {
        reveal(ViewerView::do_backward_search);
        let cur_pos = Position { line: self.cursor.line, col: self.text_col };
        self.enter_mode(Mode::Read);
        if self.search_string.len() == 0 {
            return;
        }
        let pos = self.model.backward_search_chars(&self.search_string, cur_pos);
        self.go_to_match(pos);
    }

    /// Moves the cursor to the next word.
    pub fn move_next_word(&mut self)
        requires
            old(self)@.wf(),
        ensures
            final(self)@ == old(self)@.move_next_word(),
            final(self)@.wf(),
            old(self)@.in_view() ==> final(self)@.in_view(),
            old(self)@.col_in_view() ==> final(self)@.col_in_view(),
    {
        reveal(ViewerView::move_next_word);
        let line = self.model.line_ref(self.cursor.line);
        let len = line.len();
        let b = find_break(line, self.text_col);
        if b < len {
            self.set_cursor(self.cursor.line, sat_add(b, 2));
        } else if self.cursor.line < self.model.get_line_count() {
            self.set_cursor(self.cursor.line + 1, 1);
        }
    }

    /// Moves the cursor to the previous word.
    pub fn move_prev_word(&mut self)
        requires
            old(self)@.wf(),
        ensures
            final(self)@ == old(self)@.move_prev_word(),
            final(self)@.wf(),
            old(self)@.in_view() ==> final(self)@.in_view(),
            old(self)@.col_in_view() ==> final(self)@.col_in_view(),
    {
        reveal(ViewerView::move_prev_word);
        let mut line = self.cursor.line;
        let mut col = self.text_col;
        while col <= 1 && line > 1
            invariant
                1 <= line <= self@.count(),
                self@.count() <= usize::MAX,
                prev_word_start(self@.model, line as int, col as int) == prev_word_start(
                    self@.model,
                    self@.cursor.line as int,
                    self@.text_col as int,
                ),
            decreases line,
        {
            line -= 1;
            col = self.model.get_line_len(line);
        }
        if col > 1 {
            let target = match rfind_break(self.model.line_ref(line), col - 2) {
                Some(i) => sat_add(i, 2),
                None => 1,
            };
            self.set_cursor(line, target);
        }
    }
}

} // verus!
