//! The mode state machine: what each key does in each mode.
//!
//! What a key does is put together from the steps of the editor. Those steps
//! are opaque: to reason about what one of them does, reveal it.

use vstd::prelude::*;
use crate::keyconfig::{lookup, Key};
use crate::viewer::{Action, Mode, Step, Viewer, ViewerView};

verus! {

/// Whether an action moves the cursor within the lines near it.
pub open spec fn is_edit_move(action: Action) -> bool {
    action == Action::MoveUp || action == Action::MoveDown || action == Action::MoveLeft || action
        == Action::MoveRight || action == Action::MovePageDown || action == Action::MovePageUp
        || action == Action::MoveStartLine || action == Action::MoveEndLine
}

/// Whether an action moves the cursor.
pub open spec fn is_move(action: Action) -> bool {
    is_edit_move(action) || action == Action::MoveStartFile || action == Action::MoveEndFile
}

impl ViewerView {
    /// The action that a key is bound to; nothing, if it is bound to none.
    pub open spec fn action_of(self, key: Key) -> Action {
        match lookup(self.bindings, key) {
            Some(a) => a,
            None => Action::Nothing,
        }
    }

    /// What asking to leave leads to: leaving at once if the document is
    /// saved, and else the question whether to leave, which the next key
    /// answers.
    #[verifier::opaque]
    pub open spec fn confirm_quit(self) -> (ViewerView, Step) {
        if self.model.saved {
            (self, Step::Quit)
        } else {
            (ViewerView { quit_pending: true, ..self }, Step::Continue)
        }
    }

    /// What the answer to the question leads to: `y` leaves, `s` saves and
    /// leaves, any other key stays.
    #[verifier::opaque]
    pub open spec fn answer_quit(self, key: Key) -> (ViewerView, Step) {
        let s = ViewerView { quit_pending: false, ..self };
        if key == Key::Char('y') || key == Key::Char('Y') {
            (s, Step::Quit)
        } else if key == Key::Char('s') || key == Key::Char('S') {
            (s, Step::SaveAndQuit)
        } else {
            (s, Step::Continue)
        }
    }

    /// The state after a key has been typed into the document: a character,
    /// enter, backspace, delete or tab. A tab is typed as such or as spaces;
    /// control and `t` always types it as such.
    #[verifier::opaque]
    pub open spec fn type_key(self, key: Key) -> ViewerView {
        match key {
            Key::Char(c) => self.add_char(c),
            Key::Enter => self.add_char('\n'),
            Key::Backspace => self.delete_backspace(),
            Key::Delete => self.delete_at_cursor(),
            Key::Tab => if self.insert_tab_char {
                self.add_char('\t')
            } else {
                self.add_tab_spaces()
            },
            Key::Ctrl(c) => if c == 't' {
                self.add_char('\t')
            } else {
                self
            },
            _ => self,
        }
    }

    /// What a key does in edit mode, where it is bound to `action`.
    pub open spec fn match_key_action_edit(self, action: Action, key: Key) -> (ViewerView, Step) {
        if action == Action::Quit {
            self.confirm_quit()
        } else if action == Action::Save {
            (self, Step::Save)
        } else {
            (
                if is_edit_move(action) {
                    self.move_cursor(action)
                } else {
                    match action {
                        Action::ReadMode => self.switch_mode(action),
                        Action::KillLine => self.delete_line(),
                        Action::KillEndLine => self.delete_end_of_line(),
                        Action::CopyStartMark => self.select_copy_start_marker(),
                        Action::CopyEndMark => self.select_copy_end_marker(),
                        Action::Paste => self.paste(),
                        Action::Undo => self.undo(),
                        Action::ToggleLineNumbers => self.toggle_line_numbers(),
                        Action::Help => self.show_help(),
                        _ => self.type_key(key),
                    }
                },
                Step::Continue,
            )
        }
    }

    /// What `action` does in read mode.
    pub open spec fn match_key_action_read(self, action: Action) -> (ViewerView, Step) {
        if action == Action::Quit {
            self.confirm_quit()
        } else if action == Action::Save {
            (self, Step::Save)
        } else {
            (
                if is_move(action) {
                    self.move_cursor(action)
                } else {
                    match action {
                        Action::GoToLine => ViewerView { line_jump: 0, ..self }.enter_mode(
                            Mode::GoToLine,
                        ),
                        Action::Search => ViewerView {
                            search_string: Seq::empty(),
                            ..self
                        }.enter_mode(Mode::Search),
                        Action::SearchNext => self.do_forward_search(),
                        Action::SearchPrevious => self.do_backward_search(),
                        Action::MoveNextWord => self.move_next_word(),
                        Action::MovePrevWord => self.move_prev_word(),
                        Action::KillLine => self.delete_line(),
                        Action::KillEndLine => self.delete_end_of_line(),
                        Action::Delete => self.delete_at_cursor(),
                        Action::CopyStartMark => self.select_copy_start_marker(),
                        Action::CopyEndMark => self.select_copy_end_marker(),
                        Action::EditMode => self.switch_mode(action),
                        Action::Append => self.switch_mode(Action::EditMode).move_cursor(
                            Action::MoveRight,
                        ),
                        Action::ToggleLineNumbers => self.toggle_line_numbers(),
                        Action::Help => self.show_help(),
                        _ => self,
                    }
                },
                Step::Continue,
            )
        }
    }

    /// What a key does in go-to-line mode: the jump goes off, is given up
    /// with what was typed, or takes the key.
    pub open spec fn match_key_go_to_line(self, action: Action, key: Key) -> ViewerView {
        if action == Action::Go {
            self.do_line_jump()
        } else if action == Action::Quit {
            ViewerView { line_jump: 0, ..self }.enter_mode(Mode::Read)
        } else {
            self.go_to_line_mode(key)
        }
    }

    /// What a key does in search mode: the search goes off, is given up with
    /// what was typed, or takes the key.
    pub open spec fn match_key_search(self, action: Action, key: Key) -> ViewerView {
        if action == Action::Go {
            self.do_forward_search()
        } else if action == Action::Quit {
            ViewerView { search_string: Seq::empty(), ..self }.enter_mode(Mode::Read)
        } else {
            self.search_mode(key)
        }
    }

    /// What a key does: it answers the question about unsaved changes if
    /// that is waiting, and else does what the mode has it do.
    pub open spec fn match_key_action(self, key: Key) -> (ViewerView, Step) {
        let action = self.action_of(key);
        if self.quit_pending {
            self.answer_quit(key)
        } else {
            match self.mode {
                Mode::Edit => self.match_key_action_edit(action, key),
                Mode::Read => self.match_key_action_read(action),
                Mode::GoToLine => (self.match_key_go_to_line(action, key), Step::Continue),
                Mode::Search => (self.match_key_search(action, key), Step::Continue),
                Mode::Help => (
                    if action == Action::Quit {
                        self.exit_help()
                    } else {
                        self
                    },
                    Step::Continue,
                ),
            }
        }
    }
}

impl Viewer {
    /// Handles the wish to leave: tells to leave if the document is saved,
    /// and else asks.
    pub fn confirm_quit(&mut self) -> (step: Step)
        requires
            old(self)@.wf(),
        ensures
            (final(self)@, step) == old(self)@.confirm_quit(),
            final(self)@.wf(),
            old(self)@.in_view() ==> final(self)@.in_view(),
            old(self)@.col_in_view() ==> final(self)@.col_in_view(),
    {
        reveal(ViewerView::confirm_quit);
        if self.model.get_saved_stat() {
            return Step::Quit;
        }
        self.quit_pending = true;
        Step::Continue
    }

    /// Takes the answer to the question about unsaved changes.
    pub fn answer_quit(&mut self, key: Key) -> (step: Step)
        requires
            old(self)@.wf(),
        ensures
            (final(self)@, step) == old(self)@.answer_quit(key),
            final(self)@.wf(),
            old(self)@.in_view() ==> final(self)@.in_view(),
            old(self)@.col_in_view() ==> final(self)@.col_in_view(),
    {
        reveal(ViewerView::answer_quit);
        self.quit_pending = false;
        match key {
            Key::Char(c) => {
                if c == 'y' || c == 'Y' {
                    Step::Quit
                } else if c == 's' || c == 'S' {
                    Step::SaveAndQuit
                } else {
                    Step::Continue
                }
            },
            _ => Step::Continue,
        }
    }

    /// Types a key into the document.
    pub fn type_key(&mut self, key: Key)
        requires
            old(self)@.wf(),
        ensures
            final(self)@ == old(self)@.type_key(key),
            final(self)@.wf(),
            old(self)@.in_view() ==> final(self)@.in_view(),
            old(self)@.col_in_view() ==> final(self)@.col_in_view(),
    {
        reveal(ViewerView::type_key);
        match key {
            Key::Char(c) => {
                self.add_char(c);
            },
            Key::Enter => {
                self.add_char('\n');
            },
            Key::Backspace => {
                self.delete_backspace();
            },
            Key::Delete => {
                self.delete_at_cursor();
            },
            Key::Tab => {
                if self.insert_tab_char {
                    self.add_char('\t');
                } else {
                    self.add_tab_spaces();
                }
            },
            Key::Ctrl(c) => {
                if c == 't' {
                    self.add_char('\t');
                }
            },
            _ => {},
        }
    }

    /// Handles a key in edit mode.
    pub fn match_key_action_edit(&mut self, action: Action, key: Key) -> (step: Step)
        requires
            old(self)@.wf(),
        ensures
            (final(self)@, step) == old(self)@.match_key_action_edit(action, key),
            final(self)@.wf(),
            old(self)@.in_view() ==> final(self)@.in_view(),
            old(self)@.col_in_view() ==> final(self)@.col_in_view(),
    {
        match action {
            Action::Quit => {
                return self.confirm_quit();
            },
            Action::Save => {
                return Step::Save;
            },
            Action::MoveUp
            | Action::MoveDown
            | Action::MoveLeft
            | Action::MoveRight
            | Action::MovePageDown
            | Action::MovePageUp
            | Action::MoveStartLine
            | Action::MoveEndLine => {
                self.move_cursor(action);
            },
            Action::ReadMode => {
                self.switch_mode(action);
            },
            Action::KillLine => {
                self.delete_line();
            },
            Action::KillEndLine => {
                self.delete_end_of_line();
            },
            Action::CopyStartMark => {
                self.select_copy_start_marker();
            },
            Action::CopyEndMark => {
                self.select_copy_end_marker();
            },
            Action::Paste => {
                self.paste();
            },
            Action::Undo => {
                self.undo();
            },
            Action::ToggleLineNumbers => {
                self.toggle_line_numbers();
            },
            Action::Help => {
                self.show_help();
            },
            _ => {
                self.type_key(key);
            },
        }
        Step::Continue
    }

    /// Handles an action in read mode.
    pub fn match_key_action_read(&mut self, action: Action) -> (step: Step)
        requires
            old(self)@.wf(),
        ensures
            (final(self)@, step) == old(self)@.match_key_action_read(action),
            final(self)@.wf(),
            old(self)@.in_view() ==> final(self)@.in_view(),
            old(self)@.col_in_view() ==> final(self)@.col_in_view(),
    {
        match action {
            Action::Quit => {
                return self.confirm_quit();
            },
            Action::Save => {
                return Step::Save;
            },
            Action::MoveUp
            | Action::MoveDown
            | Action::MoveLeft
            | Action::MoveRight
            | Action::MovePageDown
            | Action::MovePageUp
            | Action::MoveStartLine
            | Action::MoveEndLine
            | Action::MoveStartFile
            | Action::MoveEndFile => {
                self.move_cursor(action);
            },
            Action::GoToLine => {
                self.line_jump = 0;
                self.enter_mode(Mode::GoToLine);
            },
            Action::Search => {
                self.search_string = Vec::new();
                self.enter_mode(Mode::Search);
            },
            Action::SearchNext => {
                self.do_forward_search();
            },
            Action::SearchPrevious => {
                self.do_backward_search();
            },
            Action::MoveNextWord => {
                self.move_next_word();
            },
            Action::MovePrevWord => {
                self.move_prev_word();
            },
            Action::KillLine => {
                self.delete_line();
            },
            Action::KillEndLine => {
                self.delete_end_of_line();
            },
            Action::Delete => {
                self.delete_at_cursor();
            },
            Action::CopyStartMark => {
                self.select_copy_start_marker();
            },
            Action::CopyEndMark => {
                self.select_copy_end_marker();
            },
            Action::EditMode => {
                self.switch_mode(action);
            },
            Action::Append => {
                self.switch_mode(Action::EditMode);
                self.move_cursor(Action::MoveRight);
            },
            Action::ToggleLineNumbers => {
                self.toggle_line_numbers();
            },
            Action::Help => {
                self.show_help();
            },
            _ => {},
        }
        Step::Continue
    }

    /// Handles a key, and tells what is to be done next.
    pub fn match_key_action(&mut self, key: Key) -> (step: Step)
        requires
            old(self)@.wf(),
        ensures
            (final(self)@, step) == old(self)@.match_key_action(key),
            final(self)@.wf(),
            old(self)@.in_view() ==> final(self)@.in_view(),
            old(self)@.col_in_view() ==> final(self)@.col_in_view(),
    {
        if self.quit_pending {
            return self.answer_quit(key);
        }
        let action = match self.actions.get(&key) {
            Some(a) => a,
            None => Action::Nothing,
        };
        match self.mode {
            Mode::Edit => {
                return self.match_key_action_edit(action, key);
            },
            Mode::Read => {
                return self.match_key_action_read(action);
            },
            Mode::GoToLine => {
                match action {
                    Action::Go => {
                        self.do_line_jump();
                    },
                    Action::Quit => {
                        self.line_jump = 0;
                        self.enter_mode(Mode::Read);
                    },
                    _ => {
                        self.go_to_line_mode(&key);
                    },
                }
            },
            Mode::Search => {
                match action {
                    Action::Go => {
                        self.do_forward_search();
                    },
                    Action::Quit => {
                        self.search_string = Vec::new();
                        self.enter_mode(Mode::Read);
                    },
                    _ => {
                        self.search_mode(key);
                    },
                }
            },
            Mode::Help => {
                if action == Action::Quit {
                    self.exit_help();
                }
            },
        }
        Step::Continue
    }
}

/// Go-to-line mode, search mode and the help end in read mode: when they
/// are given up, when the search goes off, and when the jump goes to a line
/// that the document has.
pub proof fn lemma_modes_return_to_read(s: ViewerView, key: Key)
    requires
        !s.quit_pending,
    ensures
        (s.mode == Mode::GoToLine || s.mode == Mode::Search || s.mode == Mode::Help)
            && s.action_of(key) == Action::Quit ==> s.match_key_action(key).0.mode == Mode::Read,
        s.mode == Mode::Search && s.action_of(key) == Action::Go ==> s.match_key_action(key).0.mode
            == Mode::Read,
        s.mode == Mode::GoToLine && s.action_of(key) == Action::Go ==> s.match_key_action(
            key,
        ).0.mode == if s.can_jump() {
            Mode::Read
        } else {
            Mode::GoToLine
        },
{
    reveal(ViewerView::exit_help);
    reveal(ViewerView::do_forward_search);
    reveal(ViewerView::do_line_jump);
}

/// In read mode a key that is bound to no action changes nothing.
pub proof fn lemma_unbound_key_is_ignored(s: ViewerView, key: Key)
    requires
        !s.quit_pending,
        s.mode == Mode::Read,
        lookup(s.bindings, key) is None,
    ensures
        s.match_key_action(key) == (s, Step::Continue),
{
}

} // verus!
