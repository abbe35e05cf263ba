//! The editor: cursor, viewport and the mode state machine that turns key
//! presses into buffer operations.

use vstd::prelude::*;
use crate::colorconfig::Color;
use crate::cursor::{
    clamp, lemma_round_trip_in_words, lemma_visual_col_positive, sat_add, text_col,
    text_to_visual, visual_col, visual_to_text,
};
use crate::keyconfig::{Key, KeyMap};
use crate::model::{seeded, Model, ModelView};
use crate::text::{digits_count, number_of_digits, split_lines};

verus! {

/// What a key press asks for.
#[derive(Copy, Clone, Eq, PartialEq, Debug, Structural)]
pub enum Action {
    /// Nothing: the key is bound to no action.
    Nothing,
    Go,
    MoveRight,
    MoveLeft,
    MoveDown,
    MoveUp,
    MovePageUp,
    MovePageDown,
    MoveStartLine,
    MoveEndLine,
    MoveStartFile,
    MoveEndFile,
    GoToLine,
    Search,
    SearchNext,
    SearchPrevious,
    MoveNextWord,
    MovePrevWord,
    KillLine,
    KillEndLine,
    Delete,
    CopyStartMark,
    CopyEndMark,
    Paste,
    EditMode,
    ReadMode,
    Append,
    Undo,
    ToggleLineNumbers,
    Save,
    Quit,
    Help,
}

/// How key presses are read.
#[derive(Copy, Clone, Eq, PartialEq, Debug, Structural)]
pub enum Mode {
    Read,
    Edit,
    GoToLine,
    Search,
    Help,
}

/// A line and a column, both counted from 1.
#[derive(Copy, Clone, Eq, PartialEq, Debug, Structural)]
pub struct Cursor {
    pub line: usize,
    pub col: usize,
}

/// The colours of the text, the background, the line numbers and errors.
#[derive(Copy, Clone, Eq, PartialEq, Debug, Structural)]
pub struct Colors {
    pub fg: Color,
    pub bg: Color,
    pub line_num: Color,
    pub error: Color,
}

impl Colors {
    /// White text on black, blue line numbers, red errors.
    pub fn new() -> (c: Colors)
        ensures
            c == default_colors(),
    {
        Colors { fg: Color::White, bg: Color::Black, line_num: Color::Blue, error: Color::Red }
    }
}

/// The colours used where the configuration names no others.
pub open spec fn default_colors() -> Colors {
    Colors { fg: Color::White, bg: Color::Black, line_num: Color::Blue, error: Color::Red }
}

} // verus!

verus! {

/// What the caller is to do after a key press has been handled.
#[derive(Copy, Clone, Eq, PartialEq, Debug, Structural)]
pub enum Step {
    /// Show the new state and wait for the next key.
    Continue,
    /// Write the document out, then go on.
    Save,
    /// Write the document out, then leave.
    SaveAndQuit,
    /// Leave.
    Quit,
}

/// The answer of the display to a line that the document does not have.
#[derive(Copy, Clone, Eq, PartialEq, Debug, Structural)]
pub struct EndOfFile;

/// The tab width used where none is asked for.
pub const DEFAULT_TAB_SPACES: usize = 4;

/// The length that a line of `raw` characters has for the cursor: in edit
/// mode one more, for the place behind its last character.
pub open spec fn line_len(mode: Mode, raw: int) -> usize {
    if mode == Mode::Edit {
        clamp(raw + 1)
    } else {
        clamp(raw)
    }
}

/// The number of columns left for the text on a terminal `term_width`
/// columns wide: all of them, or those left by the line numbers and the
/// column that parts them from the text; one at least.
pub open spec fn text_width(term_width: usize, digits: usize, show_line_num: bool) -> usize {
    if show_line_num {
        if term_width - digits - 1 >= 1 {
            (term_width - digits - 1) as usize
        } else {
            1
        }
    } else if term_width >= 1 {
        term_width
    } else {
        1
    }
}

/// Whether an action moves the cursor within its line or to a line nearby:
/// after such a move the view follows the cursor sideways.
pub open spec fn is_near_move(action: Action) -> bool {
    action == Action::MoveDown || action == Action::MoveUp || action == Action::MovePageDown
        || action == Action::MovePageUp || action == Action::MoveLeft || action
        == Action::MoveRight || action == Action::MoveStartLine || action == Action::MoveEndLine
}

/// What an editor holds, as mathematical values.
pub ghost struct ViewerView {
    pub model: ModelView,
    pub mode: Mode,
    pub bindings: Seq<(Key, Action)>,
    /// The rows of the window, without the status line.
    pub height: usize,
    /// The columns of the window, without the line numbers.
    pub width: usize,
    /// The columns of the terminal.
    pub term_width: usize,
    pub show_line_num: bool,
    pub insert_tab_char: bool,
    pub tab_size: usize,
    pub filename: Seq<char>,
    /// The first line shown.
    pub disp_line: usize,
    /// The first visual column shown.
    pub disp_col: usize,
    /// The digits that the line numbers are given.
    pub num_lines_digits: usize,
    /// The line number typed so far in go-to-line mode.
    pub line_jump: usize,
    /// The line of the cursor and its visual column.
    pub cursor: Cursor,
    /// The text column of the cursor.
    pub text_col: usize,
    pub colors: Colors,
    pub search_string: Seq<char>,
    /// Where the text to copy starts: a line and a text column.
    pub copy_start: Cursor,
    pub copy_string: Seq<char>,
    /// Whether the question about unsaved changes is waiting for its answer.
    pub quit_pending: bool,
}

impl ViewerView {
    /// The number of lines of the document.
    pub open spec fn count(self) -> int {
        self.model.lines.len() as int
    }

    /// The line that the cursor is on.
    pub open spec fn cur(self) -> Seq<char> {
        self.model.line(self.cursor.line as int)
    }

    /// The number of characters of the line that the cursor is on.
    pub open spec fn raw_len(self) -> int {
        self.cur().len() as int
    }

    /// The length of the cursor's line for the cursor, by the mode.
    pub open spec fn cur_line_len(self) -> usize {
        line_len(self.mode, self.raw_len())
    }

    /// The visual column of a text column of the cursor's line.
    pub open spec fn match_cursor_text(self, text_col: usize) -> usize {
        clamp(visual_col(self.cur(), text_col as nat, self.tab_size as nat) as int)
    }

    /// The text column of a visual column of the cursor's line.
    pub open spec fn match_text_cursor(self, cursor_col: usize) -> usize {
        text_col(self.cur(), cursor_col as nat, self.tab_size as nat) as usize
    }

    /// The state has a sound buffer, a window of at least one row and one
    /// column that starts at a line and a column, and tabs of at least one
    /// cell. The cursor may still be anywhere.
    pub open spec fn has_window(self) -> bool {
        &&& self.model.wf()
        &&& self.height >= 1
        &&& self.width >= 1
        &&& self.tab_size >= 1
        &&& 1 <= self.disp_line
        &&& 1 <= self.disp_col
    }

    /// The state is sound: it has its window; the cursor is on a line of the
    /// document; and its text column lies within the length that the line
    /// has in the mode, or is column 1 on a line without any.
    pub open spec fn wf(self) -> bool {
        &&& self.has_window()
        &&& self.count() <= usize::MAX
        &&& 1 <= self.cursor.line <= self.count()
        &&& 1 <= self.cursor.col
        &&& 1 <= self.text_col
        &&& (self.text_col <= self.cur_line_len() || self.text_col == 1)
    }

    /// The cursor's line is among the rows shown.
    pub open spec fn in_view(self) -> bool {
        self.disp_line <= self.cursor.line < self.disp_line + self.height
    }

    /// The cursor's visual column is among the columns shown.
    pub open spec fn col_in_view(self) -> bool {
        self.disp_col <= self.cursor.col < self.disp_col + self.width
    }

    /// The first line of the last page: the page that ends with the last
    /// line, or line 1 where the document is shorter than the window.
    pub open spec fn last_page(self) -> usize {
        if self.count() > self.height {
            (self.count() - self.height + 1) as usize
        } else {
            1
        }
    }

    /// The state with the cursor's visual column set from its text column.
    pub open spec fn with_col(self) -> ViewerView {
        ViewerView {
            cursor: Cursor { line: self.cursor.line, col: self.match_cursor_text(self.text_col) },
            ..self
        }
    }

    /// The state with the cursor on line `line_num`, or on the nearest line
    /// that there is. The text column stays where the line has it, and else
    /// goes to the line's last column; the visual column follows it.
    pub open spec fn set_current_line(self, line_num: usize) -> ViewerView {
        let line = if line_num < 1 {
            1
        } else if line_num > self.count() {
            self.count() as usize
        } else {
            line_num
        };
        let len = line_len(self.mode, self.model.line(line as int).len() as int);
        let tc = if len < self.text_col {
            if len < 1 {
                1
            } else {
                len
            }
        } else if self.text_col < 1 {
            1
        } else {
            self.text_col
        };
        ViewerView { cursor: Cursor { line, col: self.cursor.col }, text_col: tc, ..self }.with_col()
    }

    /// Whether the display can start at line `start_line`.
    pub open spec fn can_display(self, start_line: usize) -> bool {
        start_line <= self.count()
    }

    /// The state with the window starting at the given line and visual
    /// column, line 1 and column 1 at least; unchanged if the document has
    /// no such line.
    pub open spec fn display_chunk(self, start_line: usize, start_col: usize) -> ViewerView {
        if self.can_display(start_line) {
            ViewerView {
                disp_line: if start_line < 1 {
                    1
                } else {
                    start_line
                },
                disp_col: if start_col < 1 {
                    1
                } else {
                    start_col
                },
                ..self
            }
        } else {
            self
        }
    }

    /// The first line shown after the window has scrolled for `action`: one
    /// line down, but not beyond the last page; one line up, but not above
    /// line 1; one page down, or to the last page where that is nearer; one
    /// page up, or to line 1.
    pub open spec fn scrolled_line(self, action: Action) -> usize {
        let d = self.disp_line;
        let h = self.height;
        let n = self.count();
        match action {
            Action::MoveDown => if d + h <= n {
                (d + 1) as usize
            } else {
                d
            },
            Action::MoveUp => if d > 1 {
                (d - 1) as usize
            } else {
                d
            },
            Action::MovePageDown => if n < h {
                d
            } else if d + h + h <= n {
                (d + h) as usize
            } else {
                (n - h + 1) as usize
            },
            Action::MovePageUp => if d > h {
                (d - h) as usize
            } else {
                1
            },
            _ => d,
        }
    }

    /// The state after the window has scrolled for `action`.
    pub open spec fn do_vertical_scroll(self, action: Action) -> ViewerView {
        self.display_chunk(self.scrolled_line(action), self.disp_col)
    }

    /// The state with the window moved sideways, if it must, so that it
    /// shows the cursor: to the cursor's column where that lies to the left,
    /// and just far enough where it lies to the right.
    pub open spec fn ensure_cursor_visible(self) -> ViewerView {
        if self.cursor.col < self.disp_col {
            ViewerView { disp_col: self.cursor.col, ..self }
        } else if self.cursor.col - self.disp_col >= self.width {
            ViewerView { disp_col: (self.cursor.col - self.width + 1) as usize, ..self }
        } else {
            self
        }
    }

    /// The state after the window has followed the cursor sideways, if
    /// `action` is a move after which it does.
    pub open spec fn consider_horizontal_scroll(self, action: Action) -> ViewerView {
        if is_near_move(action) {
            self.ensure_cursor_visible()
        } else {
            self
        }
    }

    /// The state after a move one line down: on the last line nothing
    /// changes; when the cursor leaves the window at the bottom, the window
    /// goes one line down.
    pub open spec fn move_cursor_down(self) -> ViewerView {
        if self.cursor.line < self.count() {
            let s = self.set_current_line((self.cursor.line + 1) as usize);
            if s.cursor.line >= s.disp_line + s.height {
                s.do_vertical_scroll(Action::MoveDown)
            } else {
                s
            }
        } else {
            self
        }
    }

    /// The state after a move one line up: on the first line nothing changes;
    /// when the cursor leaves the window at the top, the window goes one line
    /// up.
    pub open spec fn move_cursor_up(self) -> ViewerView {
        if self.cursor.line > 1 {
            let s = self.set_current_line((self.cursor.line - 1) as usize);
            if s.cursor.line < s.disp_line {
                s.do_vertical_scroll(Action::MoveUp)
            } else {
                s
            }
        } else {
            self
        }
    }

    /// The state after a move one character to the left, if there is one.
    pub open spec fn move_cursor_left(self) -> ViewerView {
        if self.text_col > 1 {
            ViewerView { text_col: (self.text_col - 1) as usize, ..self }.with_col()
        } else {
            self
        }
    }

    /// The state after a move one character to the right, within the length
    /// that the line has in the mode.
    pub open spec fn move_cursor_right(self) -> ViewerView {
        if self.text_col < self.cur_line_len() {
            ViewerView { text_col: (self.text_col + 1) as usize, ..self }.with_col()
        } else {
            self
        }
    }

    /// The state after a move one page down: the cursor goes down as many
    /// lines as the window has rows, or to the last line, and the window a
    /// page down.
    pub open spec fn move_cursor_page_down(self) -> ViewerView {
        let s = if self.cursor.line + self.height < self.count() {
            self.set_current_line((self.cursor.line + self.height) as usize)
        } else {
            self.set_current_line(self.count() as usize)
        };
        s.do_vertical_scroll(Action::MovePageDown)
    }

    /// The state after a move one page up: the cursor goes up as many lines
    /// as the window has rows, or to the first line, and the window a page up.
    pub open spec fn move_cursor_page_up(self) -> ViewerView {
        let s = if self.cursor.line > self.height {
            self.set_current_line((self.cursor.line - self.height) as usize)
        } else {
            self.set_current_line(1)
        };
        s.do_vertical_scroll(Action::MovePageUp)
    }

    /// The state after a move to the start of the line, if the line has any
    /// length.
    pub open spec fn move_cursor_start_line(self) -> ViewerView {
        if self.cur_line_len() > 0 {
            ViewerView { cursor: Cursor { line: self.cursor.line, col: 1 }, text_col: 1, ..self }
        } else {
            self
        }
    }

    /// The state after a move to the end of the line, if the line has any
    /// length.
    pub open spec fn move_cursor_end_line(self) -> ViewerView {
        if self.cur_line_len() > 0 {
            ViewerView { text_col: self.cur_line_len(), ..self }.with_col()
        } else {
            self
        }
    }

    /// The state after a move to the start of the document: the cursor at the
    /// start of line 1, and the window at the top.
    pub open spec fn move_cursor_start_file(self) -> ViewerView {
        let s = ViewerView { text_col: 1, ..self }.set_current_line(1);
        let t = if s.disp_line > 1 || s.disp_col > 1 {
            s.display_chunk(1, 1)
        } else {
            s
        };
        t.ensure_cursor_visible()
    }

    /// The state after a move to the end of the document: the cursor at the
    /// end of the last line, and the window at the last page, unless it shows
    /// the last line already.
    pub open spec fn move_cursor_end_file(self) -> ViewerView {
        let s = self.set_current_line(self.count() as usize);
        let end = if s.cur_line_len() < 1 {
            1
        } else {
            s.cur_line_len()
        };
        let t = ViewerView { text_col: end, ..s }.with_col();
        let u = if t.disp_line + t.height <= t.count() {
            t.display_chunk((t.count() - t.height + 1) as usize, 1)
        } else {
            t
        };
        u.consider_horizontal_scroll(Action::MovePageDown)
    }

    /// The state after the cursor has moved as `action` asks, and the window
    /// with it.
    #[verifier::opaque]
    pub open spec fn move_cursor(self, action: Action) -> ViewerView {
        let s = match action {
            Action::MoveDown => self.move_cursor_down(),
            Action::MoveUp => self.move_cursor_up(),
            Action::MoveLeft => self.move_cursor_left(),
            Action::MoveRight => self.move_cursor_right(),
            Action::MovePageDown => self.move_cursor_page_down(),
            Action::MovePageUp => self.move_cursor_page_up(),
            Action::MoveStartLine => self.move_cursor_start_line(),
            Action::MoveEndLine => self.move_cursor_end_line(),
            Action::MoveStartFile => self.move_cursor_start_file(),
            Action::MoveEndFile => self.move_cursor_end_file(),
            _ => self,
        };
        s.consider_horizontal_scroll(action)
    }

    /// The state with the cursor at text column `col` of line `line_num`,
    /// as near as the document has them, and the window moved so that it
    /// shows the cursor: where it does not show the line, it starts there,
    /// or at the last page if the line lies on it.
    pub open spec fn set_cursor(self, line_num: usize, col: usize) -> ViewerView {
        let s = ViewerView { text_col: col, ..self }.set_current_line(line_num);
        let line = s.cursor.line;
        let t = if line < s.disp_line || line >= s.disp_line + s.height {
            let top = if line >= s.last_page() {
                s.last_page()
            } else {
                line
            };
            ViewerView { disp_line: top, disp_col: 1, ..s }
        } else {
            s
        };
        t.ensure_cursor_visible()
    }
}

} // verus!

verus! {

/// The editor.
pub struct Viewer {
    pub model: Model,
    pub mode: Mode,
    pub actions: KeyMap,
    pub height: usize,
    pub width: usize,
    pub term_width: usize,
    pub show_line_num: bool,
    pub insert_tab_char: bool,
    pub tab_size: usize,
    pub filename: String,
    pub disp_line: usize,
    pub disp_col: usize,
    pub num_lines_digits: usize,
    pub line_jump: usize,
    pub cursor: Cursor,
    pub text_col: usize,
    pub colors: Colors,
    pub search_string: Vec<char>,
    pub copy_start: Cursor,
    pub copy_string: Vec<char>,
    pub quit_pending: bool,
}

impl View for Viewer {
    type V = ViewerView;

    open spec fn view(&self) -> ViewerView {
        ViewerView {
            model: self.model@,
            mode: self.mode,
            bindings: self.actions.bindings(),
            height: self.height,
            width: self.width,
            term_width: self.term_width,
            show_line_num: self.show_line_num,
            insert_tab_char: self.insert_tab_char,
            tab_size: self.tab_size,
            filename: self.filename@,
            disp_line: self.disp_line,
            disp_col: self.disp_col,
            num_lines_digits: self.num_lines_digits,
            line_jump: self.line_jump,
            cursor: self.cursor,
            text_col: self.text_col,
            colors: self.colors,
            search_string: self.search_string@,
            copy_start: self.copy_start,
            copy_string: self.copy_string@,
            quit_pending: self.quit_pending,
        }
    }
}

/// The state of an editor that has just been opened on `model`.
pub open spec fn initial_view(
    model: ModelView,
    filename: Seq<char>,
    bindings: Seq<(Key, Action)>,
    colors: Colors,
    show_line_num: bool,
    insert_tab_char: bool,
    tab_size: usize,
    term_height: usize,
    term_width: usize,
) -> ViewerView {
    let digits = digits_count(model.lines.len()) as usize;
    ViewerView {
        model,
        mode: Mode::Read,
        bindings,
        height: if term_height >= 2 {
            (term_height - 1) as usize
        } else {
            1
        },
        width: text_width(term_width, digits, show_line_num),
        term_width,
        show_line_num,
        insert_tab_char,
        tab_size: if tab_size == 0 {
            DEFAULT_TAB_SPACES
        } else {
            tab_size
        },
        filename,
        disp_line: 1,
        disp_col: 1,
        num_lines_digits: digits,
        line_jump: 0,
        cursor: Cursor { line: 1, col: 1 },
        text_col: 1,
        colors,
        search_string: Seq::empty(),
        copy_start: Cursor { line: 1, col: 1 },
        copy_string: Seq::empty(),
        quit_pending: false,
    }.set_current_line(1).ensure_cursor_visible()
}

/// Whether two cursors are at the same place.
pub fn compare_cursors(first: &Cursor, second: &Cursor) -> (same: bool)
    ensures
        same == (*first == *second),
{
    first.col == second.col && first.line == second.line
}

/// The length that a line of `raw` characters has for the cursor.
pub fn line_len_in(mode: Mode, raw: usize) -> (n: usize)
    ensures
        n == line_len(mode, raw as int),
{
    if mode == Mode::Edit {
        sat_add(raw, 1)
    } else {
        raw
    }
}

/// The number of columns left for the text.
pub fn text_width_of(term_width: usize, digits: usize, show_line_num: bool) -> (w: usize)
    ensures
        w == text_width(term_width, digits, show_line_num),
{
    if show_line_num {
        if term_width > digits && term_width - digits > 1 {
            term_width - digits - 1
        } else {
            1
        }
    } else if term_width >= 1 {
        term_width
    } else {
        1
    }
}

impl Viewer {
    /// An editor on the document `text`, which is written to `filepath` and
    /// shown under the name `filename`, on a terminal of `term_height` rows
    /// and `term_width` columns. The last row is the status line. A tab size
    /// of 0 asks for the usual one.
    pub fn new(
        text: &str,
        filepath: &str,
        filename: String,
        key_map: KeyMap,
        colors: Colors,
        show_line_num: bool,
        insert_tab_char: bool,
        tab_size: usize,
        term_height: usize,
        term_width: usize,
    ) -> (view: Viewer)
        ensures
            view@ == initial_view(
                view.model@,
                filename@,
                key_map.bindings(),
                colors,
                show_line_num,
                insert_tab_char,
                tab_size,
                term_height,
                term_width,
            ),
            view.model@.lines == seeded(split_lines(text@)),
            view.model@.snapshot == view.model@.lines,
            view.model@.saved,
            view.model@.path == filepath@,
            view@.wf(),
            view@.in_view(),
            view@.col_in_view(),
    {
        let model = Model::new(text, filepath);
        let num_lines_digits = number_of_digits(model.get_line_count());
        let mut view = Viewer {
            model,
            mode: Mode::Read,
            actions: key_map,
            height: if term_height >= 2 {
                term_height - 1
            } else {
                1
            },
            width: text_width_of(term_width, num_lines_digits, show_line_num),
            term_width,
            show_line_num,
            insert_tab_char,
            tab_size: if tab_size == 0 {
                DEFAULT_TAB_SPACES
            } else {
                tab_size
            },
            filename,
            disp_line: 1,
            disp_col: 1,
            num_lines_digits,
            line_jump: 0,
            cursor: Cursor { line: 1, col: 1 },
            text_col: 1,
            colors,
            search_string: Vec::new(),
            copy_start: Cursor { line: 1, col: 1 },
            copy_string: Vec::new(),
            quit_pending: false,
        };
        view.set_current_line(1);
        view.ensure_cursor_visible();
        view
    }

    /// Tells whether the state is sound.
    pub fn is_sound(&self) -> (b: bool)
        ensures
            b == self@.wf(),
    {
        let count = self.model.get_line_count();
        let line = self.cursor.line;
        self.model.is_sound() && self.height >= 1 && self.width >= 1 && self.tab_size >= 1
            && 1 <= line && line <= count && 1 <= self.cursor.col && 1 <= self.text_col && (
        self.text_col <= self.cur_line_len() || self.text_col == 1) && 1 <= self.disp_line && 1
            <= self.disp_col
    }

    /// The cursor: its line and its visual column.
    pub fn get_cursor(&self) -> (c: Cursor)
        ensures
            c == self@.cursor,
    {
        Cursor { line: self.cursor.line, col: self.cursor.col }
    }

    /// The length of the cursor's line for the cursor, by the mode.
    pub fn cur_line_len(&self) -> (n: usize)
        ensures
            n == self@.cur_line_len(),
    {
        line_len_in(self.mode, self.model.get_line_len(self.cursor.line))
    }

    /// The visual column of text column `text_col` of the cursor's line.
    pub fn match_cursor_text(&self, text_col: usize) -> (col: usize)
        ensures
            col == self@.match_cursor_text(text_col),
            self@.tab_size >= 1 && text_col <= self@.raw_len() && visual_col(
                self@.cur(),
                text_col as nat,
                self@.tab_size as nat,
            ) <= usize::MAX ==> self@.match_text_cursor(col) == text_col,
    {
        if 1 <= self.cursor.line && self.cursor.line <= self.model.get_line_count() {
            text_to_visual(self.model.line_ref(self.cursor.line), text_col, self.tab_size)
        } else {
            let empty: Vec<char> = Vec::new();
            text_to_visual(&empty, text_col, self.tab_size)
        }
    }

    /// The text column of visual column `cursor_col` of the cursor's line.
    pub fn match_text_cursor(&self, cursor_col: usize) -> (col: usize)
        ensures
            col == self@.match_text_cursor(cursor_col),
    {
        if 1 <= self.cursor.line && self.cursor.line <= self.model.get_line_count() {
            visual_to_text(self.model.line_ref(self.cursor.line), cursor_col, self.tab_size)
        } else {
            let empty: Vec<char> = Vec::new();
            visual_to_text(&empty, cursor_col, self.tab_size)
        }
    }

    /// Sets the cursor's visual column from its text column.
    fn sync_col(&mut self)
        requires
            old(self)@.wf(),
        ensures
            final(self)@ == old(self)@.with_col(),
            final(self)@.wf(),
    {
        proof {
            lemma_visual_col_positive(self@.cur(), self.text_col as nat, self.tab_size as nat);
        }
        self.cursor.col = self.match_cursor_text(self.text_col);
    }

    /// Puts the cursor on line `line_num`, or on the nearest line that
    /// there is.
    pub fn set_current_line(&mut self, line_num: usize)
        requires
            old(self)@.has_window(),
        ensures
            final(self)@ == old(self)@.set_current_line(line_num),
            final(self)@.wf(),
    {
        let count = self.model.get_line_count();
        let line = if line_num < 1 {
            1
        } else if line_num > count {
            count
        } else {
            line_num
        };
        let len = line_len_in(self.mode, self.model.get_line_len(line));
        let tc = if len < self.text_col {
            if len < 1 {
                1
            } else {
                len
            }
        } else if self.text_col < 1 {
            1
        } else {
            self.text_col
        };
        self.cursor.line = line;
        self.text_col = tc;
        proof {
            lemma_visual_col_positive(self@.cur(), tc as nat, self.tab_size as nat);
        }
        self.cursor.col = self.match_cursor_text(tc);
    }

    /// Moves the window to start at the given line and visual column, if
    /// the document has that line.
    pub fn display_chunk(&mut self, start_line: usize, start_col: usize) -> (r: Result<
        (),
        EndOfFile,
    >)
        requires
            old(self)@.wf(),
        ensures
            final(self)@ == old(self)@.display_chunk(start_line, start_col),
            r is Ok <==> old(self)@.can_display(start_line),
            final(self)@.wf(),
    {
        if start_line > self.model.get_line_count() {
            return Err(EndOfFile);
        }
        self.disp_line = if start_line < 1 {
            1
        } else {
            start_line
        };
        self.disp_col = if start_col < 1 {
            1
        } else {
            start_col
        };
        Ok(())
    }

    /// Scrolls the window for a move up or down, by a line or a page.
    pub fn do_vertical_scroll(&mut self, action: Action)
        requires
            old(self)@.wf(),
        ensures
            final(self)@ == old(self)@.do_vertical_scroll(action),
            final(self)@.wf(),
            old(self)@.disp_line <= old(self)@.last_page() ==> final(self)@.disp_line
                <= final(self)@.last_page(),
    {
        let d = self.disp_line;
        let h = self.height;
        let n = self.model.get_line_count();
        let line = match action {
            Action::MoveDown => if n >= h && d <= n - h {
                d + 1
            } else {
                d
            },
            Action::MoveUp => if d > 1 {
                d - 1
            } else {
                d
            },
            Action::MovePageDown => if n < h {
                d
            } else if n - h >= h && d <= n - h - h {
                d + h
            } else {
                n - h + 1
            },
            Action::MovePageUp => if d > h {
                d - h
            } else {
                1
            },
            _ => d,
        };
        let _ = self.display_chunk(line, self.disp_col);
    }

    /// Moves the window sideways, if it must, so that it shows the cursor.
    pub fn ensure_cursor_visible(&mut self)
        requires
            old(self)@.wf(),
        ensures
            final(self)@ == old(self)@.ensure_cursor_visible(),
            final(self)@.wf(),
            final(self)@.col_in_view(),
    {
        if self.cursor.col < self.disp_col {
            self.disp_col = self.cursor.col;
        } else if self.cursor.col - self.disp_col >= self.width {
            self.disp_col = self.cursor.col - self.width + 1;
        }
    }

    /// Lets the window follow the cursor sideways after a move within the
    /// line or to a line nearby.
    pub fn consider_horizontal_scroll(&mut self, action: Action)
        requires
            old(self)@.wf(),
        ensures
            final(self)@ == old(self)@.consider_horizontal_scroll(action),
            final(self)@.wf(),
    {
        match action {
            Action::MoveDown
            | Action::MoveUp
            | Action::MovePageDown
            | Action::MovePageUp
            | Action::MoveLeft
            | Action::MoveRight
            | Action::MoveStartLine
            | Action::MoveEndLine => {
                self.ensure_cursor_visible();
            },
            _ => {},
        }
    }

    /// Moves the cursor one line down, and the window with it.
    pub fn move_cursor_down(&mut self)
        requires
            old(self)@.wf(),
        ensures
            final(self)@ == old(self)@.move_cursor_down(),
            final(self)@.wf(),
    {
        if self.cursor.line < self.model.get_line_count() {
            self.set_current_line(self.cursor.line + 1);
            if self.cursor.line >= self.disp_line && self.cursor.line - self.disp_line
                >= self.height {
                self.do_vertical_scroll(Action::MoveDown);
            }
        }
    }

    /// Moves the cursor one line up, and the window with it.
    pub fn move_cursor_up(&mut self)
        requires
            old(self)@.wf(),
        ensures
            final(self)@ == old(self)@.move_cursor_up(),
            final(self)@.wf(),
    {
        if self.cursor.line > 1 {
            self.set_current_line(self.cursor.line - 1);
            if self.cursor.line < self.disp_line {
                self.do_vertical_scroll(Action::MoveUp);
            }
        }
    }

    /// Moves the cursor one character to the left, if there is one.
    pub fn move_cursor_left(&mut self)
        requires
            old(self)@.wf(),
        ensures
            final(self)@ == old(self)@.move_cursor_left(),
            final(self)@.wf(),
    {
        if self.text_col > 1 {
            self.text_col -= 1;
            self.sync_col();
        }
    }

    /// Moves the cursor one character to the right, if there is one.
    pub fn move_cursor_right(&mut self)
        requires
            old(self)@.wf(),
        ensures
            final(self)@ == old(self)@.move_cursor_right(),
            final(self)@.wf(),
    {
        if self.text_col < self.cur_line_len() {
            self.text_col += 1;
            self.sync_col();
        }
    }

    /// Moves the cursor one page down, and the window with it.
    pub fn move_cursor_page_down(&mut self)
        requires
            old(self)@.wf(),
        ensures
            final(self)@ == old(self)@.move_cursor_page_down(),
            final(self)@.wf(),
    {
        let line_count = self.model.get_line_count();
        if self.height < line_count - self.cursor.line {
            self.set_current_line(self.cursor.line + self.height);
        } else {
            self.set_current_line(line_count);
        }
        self.do_vertical_scroll(Action::MovePageDown);
    }

    /// Moves the cursor one page up, and the window with it.
    pub fn move_cursor_page_up(&mut self)
        requires
            old(self)@.wf(),
        ensures
            final(self)@ == old(self)@.move_cursor_page_up(),
            final(self)@.wf(),
    {
        if self.cursor.line > self.height {
            self.set_current_line(self.cursor.line - self.height);
        } else {
            self.set_current_line(1);
        }
        self.do_vertical_scroll(Action::MovePageUp);
    }

    /// Moves the cursor to the start of its line.
    pub fn move_cursor_start_line(&mut self)
        requires
            old(self)@.wf(),
        ensures
            final(self)@ == old(self)@.move_cursor_start_line(),
            final(self)@.wf(),
    {
        if self.cur_line_len() > 0 {
            self.cursor.col = 1;
            self.text_col = 1;
        }
    }

    /// Moves the cursor to the end of its line.
    pub fn move_cursor_end_line(&mut self)
        requires
            old(self)@.wf(),
        ensures
            final(self)@ == old(self)@.move_cursor_end_line(),
            final(self)@.wf(),
    {
        let len = self.cur_line_len();
        if len > 0 {
            self.text_col = len;
            self.sync_col();
        }
    }

    /// Moves the cursor to the start of the document.
    pub fn move_cursor_start_file(&mut self)
        requires
            old(self)@.wf(),
        ensures
            final(self)@ == old(self)@.move_cursor_start_file(),
            final(self)@.wf(),
            final(self)@.col_in_view(),
    {
        self.text_col = 1;
        self.set_current_line(1);
        if self.disp_line > 1 || self.disp_col > 1 {
            let _ = self.display_chunk(1, 1);
        }
        self.ensure_cursor_visible();
    }

    /// Moves the cursor to the end of the document.
    pub fn move_cursor_end_file(&mut self)
        requires
            old(self)@.has_window(),
        ensures
            final(self)@ == old(self)@.move_cursor_end_file(),
            final(self)@.wf(),
            final(self)@.col_in_view(),
    {
        let line_count = self.model.get_line_count();
        self.set_current_line(line_count);
        let len = self.cur_line_len();
        self.text_col = if len < 1 {
            1
        } else {
            len
        };
        self.sync_col();
        if line_count >= self.height && self.disp_line <= line_count - self.height {
            let _ = self.display_chunk(line_count - self.height + 1, 1);
        }
        self.consider_horizontal_scroll(Action::MovePageDown);
    }

    /// Moves the cursor as `action` asks, and the window with it.
    pub fn move_cursor(&mut self, action: Action)
        requires
            old(self)@.wf(),
        ensures
            final(self)@ == old(self)@.move_cursor(action),
            final(self)@.wf(),
            old(self)@.in_view() ==> final(self)@.in_view(),
            old(self)@.col_in_view() ==> final(self)@.col_in_view(),
            is_near_move(action) ==> final(self)@.col_in_view(),
    {
        reveal(ViewerView::move_cursor);
        proof {
            if self@.in_view() {
                lemma_move_keeps_in_view(self@, action);
            }
        }
        match action {
            Action::MoveDown => {
                self.move_cursor_down();
            },
            Action::MoveUp => {
                self.move_cursor_up();
            },
            Action::MoveLeft => {
                self.move_cursor_left();
            },
            Action::MoveRight => {
                self.move_cursor_right();
            },
            Action::MovePageDown => {
                self.move_cursor_page_down();
            },
            Action::MovePageUp => {
                self.move_cursor_page_up();
            },
            Action::MoveStartLine => {
                self.move_cursor_start_line();
            },
            Action::MoveEndLine => {
                self.move_cursor_end_line();
            },
            Action::MoveStartFile => {
                self.move_cursor_start_file();
            },
            Action::MoveEndFile => {
                self.move_cursor_end_file();
            },
            _ => {},
        }
        self.consider_horizontal_scroll(action);
    }

    /// Puts the cursor at text column `col` of line `line_num`, as near as
    /// the document has them, and moves the window so that it shows the
    /// line.
    pub fn set_cursor(&mut self, line_num: usize, col: usize)
        requires
            old(self)@.has_window(),
        ensures
            final(self)@ == old(self)@.set_cursor(line_num, col),
            final(self)@.wf(),
            final(self)@.in_view(),
            final(self)@.col_in_view(),
    {
        self.text_col = col;
        self.set_current_line(line_num);
        let line = self.cursor.line;
        if line < self.disp_line || line - self.disp_line >= self.height {
            let line_count = self.model.get_line_count();
            let last_page = if line_count > self.height {
                line_count - self.height + 1
            } else {
                1
            };
            self.disp_line = if line >= last_page {
                last_page
            } else {
                line
            };
            self.disp_col = 1;
        }
        self.ensure_cursor_visible();
    }
}

/// Putting the cursor on a line changes neither the document nor the
/// window, and the cursor is then on that line, or on the nearest there is.
pub proof fn lemma_set_current_line(s: ViewerView, line_num: usize)
    requires
        s.model.wf(),
        s.count() <= usize::MAX,
    ensures
        s.set_current_line(line_num).model == s.model,
        s.set_current_line(line_num).mode == s.mode,
        s.set_current_line(line_num).disp_line == s.disp_line,
        s.set_current_line(line_num).disp_col == s.disp_col,
        s.set_current_line(line_num).height == s.height,
        s.set_current_line(line_num).width == s.width,
        1 <= s.set_current_line(line_num).cursor.line <= s.count(),
        1 <= line_num <= s.count() ==> s.set_current_line(line_num).cursor.line == line_num,
        line_num > s.count() ==> s.set_current_line(line_num).cursor.line == s.count(),
        line_num < 1 ==> s.set_current_line(line_num).cursor.line == 1,
{
}

/// A move one page down keeps the cursor's line among the rows shown.
proof fn lemma_page_down_in_view(s: ViewerView)
    requires
        s.wf(),
        s.in_view(),
    ensures
        s.move_cursor_page_down().in_view(),
{
    let n = s.count();
    let target = if s.cursor.line + s.height < n {
        (s.cursor.line + s.height) as usize
    } else {
        n as usize
    };
    lemma_set_current_line(s, target);
    let s1 = s.set_current_line(target);
    assert(s1.cursor.line == target);
    let top = s1.scrolled_line(Action::MovePageDown);
    assert(top <= n);
    assert(s.move_cursor_page_down() == s1.display_chunk(top, s1.disp_col));
}

/// A move one page up keeps the cursor's line among the rows shown.
proof fn lemma_page_up_in_view(s: ViewerView)
    requires
        s.wf(),
        s.in_view(),
    ensures
        s.move_cursor_page_up().in_view(),
{
    let target = if s.cursor.line > s.height {
        (s.cursor.line - s.height) as usize
    } else {
        1
    };
    lemma_set_current_line(s, target);
    let s1 = s.set_current_line(target);
    assert(s1.cursor.line == target);
    let top = s1.scrolled_line(Action::MovePageUp);
    assert(s.move_cursor_page_up() == s1.display_chunk(top, s1.disp_col));
}

/// A move to the end of the document keeps the cursor's line among the
/// rows shown.
proof fn lemma_end_file_in_view(s: ViewerView)
    requires
        s.wf(),
        s.in_view(),
    ensures
        s.move_cursor_end_file().in_view(),
{
    let n = s.count();
    lemma_set_current_line(s, n as usize);
    let s1 = s.set_current_line(n as usize);
    assert(s1.cursor.line == n);
    let end = if s1.cur_line_len() < 1 {
        1
    } else {
        s1.cur_line_len()
    };
    let t = ViewerView { text_col: end, ..s1 }.with_col();
    assert(t.cursor.line == n && t.disp_line == s.disp_line && t.height == s.height && t.count()
        == n);
    let u = if t.disp_line + t.height <= t.count() {
        t.display_chunk((t.count() - t.height + 1) as usize, 1)
    } else {
        t
    };
    assert(u.in_view());
    assert(s.move_cursor_end_file() == u.consider_horizontal_scroll(Action::MovePageDown));
}

/// A move by one line, or to the start of the document, keeps the cursor's
/// line among the rows shown.
proof fn lemma_line_moves_in_view(s: ViewerView)
    requires
        s.wf(),
        s.in_view(),
    ensures
        s.move_cursor_down().in_view(),
        s.move_cursor_up().in_view(),
        s.move_cursor_start_file().in_view(),
{
    lemma_set_current_line(s, (s.cursor.line + 1) as usize);
    lemma_set_current_line(s, (s.cursor.line - 1) as usize);
    lemma_set_current_line(ViewerView { text_col: 1, ..s }, 1);
}

/// From a text column of the cursor's line to its visual column and back
/// gives the text column again, wherever the visual column is one that a
/// machine word holds.
pub proof fn lemma_match_round_trip(s: ViewerView, k: usize)
    requires
        s.tab_size >= 1,
        k <= s.raw_len(),
        visual_col(s.cur(), k as nat, s.tab_size as nat) <= usize::MAX,
    ensures
        s.match_text_cursor(s.match_cursor_text(k)) == k,
{
    lemma_round_trip_in_words(s.cur(), k, s.tab_size);
}

/// The cursor's line stays among the rows shown through every move of the
/// cursor and every scroll that goes with it.
pub proof fn lemma_move_keeps_in_view(s: ViewerView, action: Action)
    requires
        s.wf(),
        s.in_view(),
    ensures
        s.move_cursor(action).in_view(),
{
    reveal(ViewerView::move_cursor);
    let t = match action {
        Action::MoveDown => s.move_cursor_down(),
        Action::MoveUp => s.move_cursor_up(),
        Action::MoveLeft => s.move_cursor_left(),
        Action::MoveRight => s.move_cursor_right(),
        Action::MovePageDown => s.move_cursor_page_down(),
        Action::MovePageUp => s.move_cursor_page_up(),
        Action::MoveStartLine => s.move_cursor_start_line(),
        Action::MoveEndLine => s.move_cursor_end_line(),
        Action::MoveStartFile => s.move_cursor_start_file(),
        Action::MoveEndFile => s.move_cursor_end_file(),
        _ => s,
    };
    assert(t.in_view()) by {
        match action {
            Action::MoveDown | Action::MoveUp | Action::MoveStartFile => {
                lemma_line_moves_in_view(s);
            },
            Action::MovePageDown => {
                lemma_page_down_in_view(s);
            },
            Action::MovePageUp => {
                lemma_page_up_in_view(s);
            },
            Action::MoveEndFile => {
                lemma_end_file_in_view(s);
            },
            _ => {},
        }
    }
    assert(s.move_cursor(action) == t.consider_horizontal_scroll(action));
    lemma_sideways_keeps_in_view(t, action);
}

/// A scroll sideways leaves the rows shown as they are.
pub proof fn lemma_sideways_keeps_in_view(t: ViewerView, action: Action)
    ensures
        t.consider_horizontal_scroll(action).in_view() == t.in_view(),
{
}

} // verus!
