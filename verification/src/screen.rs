//! What the terminal is to show: the rows of text with their tabs spread
//! out, the line numbers, the status line, and the place of the cursor, as a
//! list of drawing steps.

use vstd::prelude::*;
use crate::colorconfig::Color;
use crate::cursor::{clamp, sat_add};
use crate::keyconfig::Key;
use crate::text::{
    decimal, join_lines, push_decimal, push_joined, push_spaces, push_str, spaces,
    string_of, views,
};
use crate::viewer::{Action, Mode, Viewer, ViewerView};

verus! {

/// How text is drawn: as it is, or with text and background swapped.
#[derive(Copy, Clone, Eq, PartialEq, Debug, Structural)]
pub enum Style {
    Normal,
    Reverse,
}

/// One drawing step. Columns and rows are counted from 0.
#[derive(Debug)]
pub enum DrawOp {
    /// Blank the whole terminal.
    Clear,
    /// Write `text` from column `x` of row `y` on.
    Print { x: usize, y: usize, style: Style, fg: Color, bg: Color, text: String },
    /// Put the terminal's cursor at column `x` of row `y`.
    SetCursor { x: usize, y: usize },
    /// Show what has been drawn.
    Present,
}

/// A drawing step, as mathematical values.
pub ghost enum DrawOpView {
    Clear,
    Print { x: usize, y: usize, style: Style, fg: Color, bg: Color, text: Seq<char> },
    SetCursor { x: usize, y: usize },
    Present,
}

impl View for DrawOp {
    type V = DrawOpView;

    open spec fn view(&self) -> DrawOpView {
        match *self {
            DrawOp::Clear => DrawOpView::Clear,
            DrawOp::Print { x, y, style, fg, bg, text } => DrawOpView::Print {
                x,
                y,
                style,
                fg,
                bg,
                text: text@,
            },
            DrawOp::SetCursor { x, y } => DrawOpView::SetCursor { x, y },
            DrawOp::Present => DrawOpView::Present,
        }
    }
}

/// A list of drawing steps, as mathematical values.
pub open spec fn op_views(ops: Seq<DrawOp>) -> Seq<DrawOpView> {
    Seq::new(ops.len(), |i: int| ops[i]@)
}

/// The cells that a character fills: a tab fills `tab` cells with spaces.
pub open spec fn cells_of(c: char, tab: nat) -> Seq<char> {
    if c == '\t' {
        spaces(tab)
    } else {
        seq![c]
    }
}

/// A line with its tabs spread out: what its cells show.
pub open spec fn expand(s: Seq<char>, tab: nat) -> Seq<char>
    decreases s.len(),
{
    if s.len() == 0 {
        Seq::empty()
    } else {
        expand(s.drop_last(), tab) + cells_of(s.last(), tab)
    }
}

/// The smaller of two numbers.
pub open spec fn least(a: int, b: int) -> int {
    if a <= b {
        a
    } else {
        b
    }
}

/// The first cell of a line that a window starting at visual column
/// `start_col` shows, counted from 0.
pub open spec fn window_start(start_col: usize) -> int {
    if start_col >= 1 {
        start_col - 1
    } else {
        0
    }
}

/// What a window `width` cells wide, starting at visual column `start_col`,
/// shows of a line: its cells from there on, as far as the window and the
/// line reach.
pub open spec fn visible(line: Seq<char>, tab: nat, start_col: usize, width: usize) -> Seq<char> {
    let e = expand(line, tab);
    let lo = window_start(start_col);
    let hi = clamp(lo + width) as int;
    e.subrange(least(lo, e.len() as int), least(hi, e.len() as int))
}

/// The cells of the first characters of a line are the first cells of the
/// line.
pub proof fn lemma_expand_prefix(line: Seq<char>, k: int, tab: nat)
    requires
        0 <= k <= line.len(),
    ensures
        expand(line.take(k), tab).len() <= expand(line, tab).len(),
        expand(line, tab).subrange(0, expand(line.take(k), tab).len() as int) == expand(
            line.take(k),
            tab,
        ),
    decreases line.len() - k,
{
    if k == line.len() {
        assert(line.take(k) =~= line);
        assert(expand(line, tab).subrange(0, expand(line, tab).len() as int) =~= expand(
            line,
            tab,
        ));
    } else {
        lemma_expand_prefix(line, k + 1, tab);
        assert(line.take(k + 1).drop_last() =~= line.take(k));
        let a = expand(line.take(k), tab);
        let b = expand(line.take(k + 1), tab);
        assert(b == a + cells_of(line[k], tab));
        assert(expand(line, tab).subrange(0, a.len() as int) =~= b.subrange(0, a.len() as int));
        assert(b.subrange(0, a.len() as int) =~= a);
    }
}

/// What a window `width` cells wide, starting at visual column `start_col`,
/// shows of `line`.
pub fn draw_line(line: &Vec<char>, start_col: usize, width: usize, tab: usize) -> (out: Vec<char>)
    ensures
        out@ == visible(line@, tab as nat, start_col, width),
{
    let lo: usize = if start_col >= 1 {
        start_col - 1
    } else {
        0
    };
    let hi: usize = sat_add(lo, width);
    let mut out: Vec<char> = Vec::new();
    let mut i: usize = 0;
    let mut p: usize = 0;
    assert(line@.take(0) =~= Seq::<char>::empty());
    while i < line.len() && p < hi
        invariant
            i <= line.len(),
            lo <= hi,
            lo == window_start(start_col),
            hi == clamp(lo + width),
            p <= hi,
            p == expand(line@.take(i as int), tab as nat).len(),
            out@ == expand(line@.take(i as int), tab as nat).subrange(
                least(lo as int, p as int),
                p as int,
            ),
        decreases line.len() - i,
    {
        let c = line[i];
        let w: usize = if c == '\t' {
            tab
        } else {
            1
        };
        let ghost e = expand(line@.take(i as int), tab as nat);
        let ghost cells = cells_of(c, tab as nat);
        let ghost e2 = expand(line@.take(i + 1), tab as nat);
        proof {
            assert(line@.take(i + 1).drop_last() =~= line@.take(i as int));
            assert(e2 == e + cells);
        }
        let from: usize = if p > lo {
            p
        } else {
            lo
        };
        if w >= hi - p {
            // The window ends within this character.
            let count: usize = hi - from;
            if c == '\t' {
                push_spaces(&mut out, count);
            } else if count > 0 {
                out.push(c);
            }
            proof {
                assert(out@ =~= e2.subrange(lo as int, hi as int));
                lemma_expand_prefix(line@, i + 1, tab as nat);
                let all = expand(line@, tab as nat);
                assert(all.subrange(0, e2.len() as int).subrange(lo as int, hi as int)
                    =~= all.subrange(lo as int, hi as int));
            }
            return out;
        }
        if from < p + w {
            let count: usize = p + w - from;
            if c == '\t' {
                push_spaces(&mut out, count);
            } else {
                out.push(c);
            }
        }
        p = p + w;
        i += 1;
        proof {
            assert(out@ =~= e2.subrange(least(lo as int, p as int), p as int));
        }
    }
    proof {
        if i == line.len() {
            assert(line@.take(i as int) =~= line@);
        } else {
            lemma_expand_prefix(line@, i as int, tab as nat);
        }
        let all = expand(line@, tab as nat);
        assert(out@ =~= all.subrange(
            least(lo as int, all.len() as int),
            least(hi as int, all.len() as int),
        ));
    }
    out
}

} // verus!

verus! {

/// How a key is written in the help.
pub open spec fn key_name(key: Key) -> Seq<char> {
    match key {
        Key::Tab => "Tab"@,
        Key::Enter => "Enter"@,
        Key::Esc => "Esc"@,
        Key::Backspace => "Backspace"@,
        Key::Right => "Right"@,
        Key::Left => "Left"@,
        Key::Up => "Up"@,
        Key::Down => "Down"@,
        Key::Delete => "Delete"@,
        Key::Insert => "Insert"@,
        Key::Home => "Home"@,
        Key::End => "End"@,
        Key::PageUp => "PageUp"@,
        Key::PageDown => "PageDown"@,
        Key::Char(c) => "Char('"@.push(c) + "')"@,
        Key::Ctrl(c) => "Ctrl('"@.push(c) + "')"@,
        Key::F(n) => "F("@ + decimal(n as nat) + ")"@,
        Key::Unknown(n) => "Unknown("@ + decimal(n as nat) + ")"@,
    }
}

/// How an action is written in the help and in the key configuration.
pub open spec fn action_name(action: Action) -> Seq<char> {
    match action {
        Action::Nothing => "None"@,
        Action::Go => "Go"@,
        Action::MoveRight => "MoveRight"@,
        Action::MoveLeft => "MoveLeft"@,
        Action::MoveDown => "MoveDown"@,
        Action::MoveUp => "MoveUp"@,
        Action::MovePageUp => "MovePageUp"@,
        Action::MovePageDown => "MovePageDown"@,
        Action::MoveStartLine => "MoveStartLine"@,
        Action::MoveEndLine => "MoveEndLine"@,
        Action::MoveStartFile => "MoveStartFile"@,
        Action::MoveEndFile => "MoveEndFile"@,
        Action::GoToLine => "GoToLine"@,
        Action::Search => "Search"@,
        Action::SearchNext => "SearchNext"@,
        Action::SearchPrevious => "SearchPrevious"@,
        Action::MoveNextWord => "MoveNextWord"@,
        Action::MovePrevWord => "MovePrevWord"@,
        Action::KillLine => "KillLine"@,
        Action::KillEndLine => "KillEndLine"@,
        Action::Delete => "Delete"@,
        Action::CopyStartMark => "CopyStartMark"@,
        Action::CopyEndMark => "CopyEndMark"@,
        Action::Paste => "Paste"@,
        Action::EditMode => "EditMode"@,
        Action::ReadMode => "ReadMode"@,
        Action::Append => "Append"@,
        Action::Undo => "Undo"@,
        Action::ToggleLineNumbers => "ToggleLineNumbers"@,
        Action::Save => "Save"@,
        Action::Quit => "Quit"@,
        Action::Help => "Help"@,
    }
}

/// The line of the help that tells of one binding.
pub open spec fn binding_row(b: (Key, Action)) -> Seq<char> {
    key_name(b.0) + " => "@ + action_name(b.1)
}

/// The lines of the help: a heading, then the bindings in their order.
pub open spec fn help_rows(bindings: Seq<(Key, Action)>) -> Seq<Seq<char>> {
    seq!["  ::  Ente Help  ::"@, Seq::empty(), "List of available keys:"@] + Seq::new(
        bindings.len(),
        |i: int| binding_row(bindings[i]),
    )
}

/// Writes a key as the help shows it.
pub fn push_key_name(out: &mut Vec<char>, key: Key)
    ensures
        final(out)@ == old(out)@ + key_name(key),
{
    match key {
        Key::Tab => push_str(out, "Tab"),
        Key::Enter => push_str(out, "Enter"),
        Key::Esc => push_str(out, "Esc"),
        Key::Backspace => push_str(out, "Backspace"),
        Key::Right => push_str(out, "Right"),
        Key::Left => push_str(out, "Left"),
        Key::Up => push_str(out, "Up"),
        Key::Down => push_str(out, "Down"),
        Key::Delete => push_str(out, "Delete"),
        Key::Insert => push_str(out, "Insert"),
        Key::Home => push_str(out, "Home"),
        Key::End => push_str(out, "End"),
        Key::PageUp => push_str(out, "PageUp"),
        Key::PageDown => push_str(out, "PageDown"),
        Key::Char(c) => {
            push_str(out, "Char('");
            out.push(c);
            push_str(out, "')");
            assert(out@ =~= old(out)@ + key_name(key));
        },
        Key::Ctrl(c) => {
            push_str(out, "Ctrl('");
            out.push(c);
            push_str(out, "')");
            assert(out@ =~= old(out)@ + key_name(key));
        },
        Key::F(n) => {
            push_str(out, "F(");
            push_decimal(out, n as usize);
            push_str(out, ")");
            assert(out@ =~= old(out)@ + key_name(key));
        },
        Key::Unknown(n) => {
            push_str(out, "Unknown(");
            push_decimal(out, n as usize);
            push_str(out, ")");
            assert(out@ =~= old(out)@ + key_name(key));
        },
    }
}

/// The name of an action.
pub fn action_name_of(action: Action) -> (name: &'static str)
    ensures
        name@ == action_name(action),
{
    match action {
        Action::Nothing => "None",
        Action::Go => "Go",
        Action::MoveRight => "MoveRight",
        Action::MoveLeft => "MoveLeft",
        Action::MoveDown => "MoveDown",
        Action::MoveUp => "MoveUp",
        Action::MovePageUp => "MovePageUp",
        Action::MovePageDown => "MovePageDown",
        Action::MoveStartLine => "MoveStartLine",
        Action::MoveEndLine => "MoveEndLine",
        Action::MoveStartFile => "MoveStartFile",
        Action::MoveEndFile => "MoveEndFile",
        Action::GoToLine => "GoToLine",
        Action::Search => "Search",
        Action::SearchNext => "SearchNext",
        Action::SearchPrevious => "SearchPrevious",
        Action::MoveNextWord => "MoveNextWord",
        Action::MovePrevWord => "MovePrevWord",
        Action::KillLine => "KillLine",
        Action::KillEndLine => "KillEndLine",
        Action::Delete => "Delete",
        Action::CopyStartMark => "CopyStartMark",
        Action::CopyEndMark => "CopyEndMark",
        Action::Paste => "Paste",
        Action::EditMode => "EditMode",
        Action::ReadMode => "ReadMode",
        Action::Append => "Append",
        Action::Undo => "Undo",
        Action::ToggleLineNumbers => "ToggleLineNumbers",
        Action::Save => "Save",
        Action::Quit => "Quit",
        Action::Help => "Help",
    }
}

/// Adds a step that writes `text`.
pub fn push_print(
    ops: &mut Vec<DrawOp>,
    x: usize,
    y: usize,
    style: Style,
    fg: Color,
    bg: Color,
    text: &Vec<char>,
)
    ensures
        op_views(final(ops)@) == op_views(old(ops)@).push(
            DrawOpView::Print { x, y, style, fg, bg, text: text@ },
        ),
{
    let op = DrawOp::Print { x, y, style, fg, bg, text: string_of(text) };
    ops.push(op);
    assert(op_views(ops@) =~= op_views(old(ops)@).push(
        DrawOpView::Print { x, y, style, fg, bg, text: text@ },
    ));
}

/// Adds a step.
pub fn push_op(ops: &mut Vec<DrawOp>, op: DrawOp)
    ensures
        op_views(final(ops)@) == op_views(old(ops)@).push(op@),
{
    ops.push(op);
    assert(op_views(ops@) =~= op_views(old(ops)@).push(op@));
}

impl ViewerView {
    /// All the lines that there are to show: the help in help mode, and
    /// else the lines of the document from the first line shown on, as many
    /// as the window has rows.
    pub open spec fn all_rows(self) -> Seq<Seq<char>> {
        if self.mode == Mode::Help {
            help_rows(self.bindings)
        } else {
            self.model.slice(self.disp_line as int, self.height as int)
        }
    }

    /// The text that there is to show, each line followed by a line feed.
    pub open spec fn shown_text(self) -> Seq<char> {
        join_lines(self.all_rows())
    }

    /// The lines that the window shows: as many of the lines that there
    /// are to show as it has rows.
    pub open spec fn shown_rows(self) -> Seq<Seq<char>> {
        let all = self.all_rows();
        all.take(least(self.height as int, all.len() as int))
    }

    /// The steps that draw row `r` of the window, which shows `row`: the
    /// part of the line that is in the window and, unless hidden or in help
    /// mode, the number of the line to the right of the text.
    pub open spec fn row_ops(self, r: int, row: Seq<char>) -> Seq<DrawOpView> {
        let text_op = DrawOpView::Print {
            x: 0,
            y: r as usize,
            style: Style::Normal,
            fg: self.colors.fg,
            bg: self.colors.bg,
            text: visible(row, self.tab_size as nat, self.disp_col, self.width),
        };
        if self.show_line_num && self.mode != Mode::Help {
            seq![
                text_op,
                DrawOpView::Print {
                    x: clamp(self.width + 1),
                    y: r as usize,
                    style: Style::Normal,
                    fg: self.colors.line_num,
                    bg: self.colors.bg,
                    text: decimal(clamp(r + self.disp_line) as nat),
                },
            ]
        } else {
            seq![text_op]
        }
    }

    /// The steps that draw the first `n` of the given rows.
    pub open spec fn rows_ops(self, rows: Seq<Seq<char>>, n: nat) -> Seq<DrawOpView>
        decreases n,
    {
        if n == 0 {
            Seq::empty()
        } else {
            self.rows_ops(rows, (n - 1) as nat) + self.row_ops(n - 1, rows[n - 1])
        }
    }

    /// The steps that draw the window: the terminal is blanked, then the
    /// rows are drawn from the top.
    pub open spec fn chunk_ops(self) -> Seq<DrawOpView> {
        seq![DrawOpView::Clear] + self.rows_ops(self.shown_rows(), self.shown_rows().len())
    }

    /// The letter that the status line shows for the mode.
    pub open spec fn mode_char(self) -> char {
        match self.mode {
            Mode::Read => 'R',
            Mode::Edit => 'E',
            _ => ' ',
        }
    }

    /// The mark that the status line shows for the document: a dot if it is
    /// saved, a star if not.
    pub open spec fn saved_char(self) -> char {
        if self.model.saved {
            '.'
        } else {
            '*'
        }
    }

    /// What the status line tells first: mode, saved mark, name and cursor
    /// in read and edit mode; the number typed so far in go-to-line mode;
    /// the search string in search mode; how to leave in help mode.
    pub open spec fn status_text(self) -> Seq<char> {
        match self.mode {
            Mode::Read | Mode::Edit => seq![self.mode_char(), self.saved_char()] + " -- "@
                + self.filename + " ("@ + decimal(self.cursor.line as nat) + ","@ + decimal(
                self.cursor.col as nat,
            ) + ")"@,
            Mode::GoToLine => if self.line_jump == 0 {
                ":"@
            } else {
                ":"@ + decimal(self.line_jump as nat)
            },
            Mode::Search => "/"@ + self.search_string,
            Mode::Help => "Press 'Ctrl-q' to exit help"@,
        }
    }

    /// How far down the document the cursor is, in hundredths.
    pub open spec fn percent(self) -> nat {
        (self.cursor.line * 100 / self.count()) as nat
    }

    /// What the status line tells of how far down the cursor is.
    pub open spec fn percent_text(self) -> Seq<char> {
        " "@ + decimal(self.percent()) + "% "@
    }

    /// The step that puts the terminal's cursor where the editor's is.
    pub open spec fn cursor_op(self) -> DrawOpView {
        DrawOpView::SetCursor {
            x: clamp(self.cursor.col - self.disp_col),
            y: clamp(self.cursor.line - self.disp_line),
        }
    }

    /// A step that writes on the status line.
    pub open spec fn status_op(self, x: int, style: Style, text: Seq<char>) -> DrawOpView {
        DrawOpView::Print {
            x: clamp(x),
            y: self.height,
            style,
            fg: self.colors.fg,
            bg: self.colors.bg,
            text,
        }
    }

    /// The steps that bring the status line and the cursor up to date: the
    /// status at the left; then, unless in help mode, the percentage near
    /// the middle and the hint at the help near the right, with blanks
    /// between them; and the terminal shows it all.
    pub open spec fn update_ops(self) -> Seq<DrawOpView> {
        let status = self.status_text();
        let perc = self.percent_text();
        let help = "F1 for help"@;
        let half = self.term_width / 2;
        let first = spaces(clamp(half - status.len() - 2) as nat);
        let second = spaces(clamp(half - perc.len() / 2 - help.len()) as nat);
        let x1 = status.len() as int;
        let x2 = clamp(x1 + first.len()) as int;
        let x3 = clamp(x2 + perc.len()) as int;
        let x4 = clamp(x3 + second.len()) as int;
        if self.mode == Mode::Help {
            seq![self.cursor_op(), self.status_op(0, Style::Reverse, status), DrawOpView::Present]
        } else {
            seq![
                self.cursor_op(),
                self.status_op(0, Style::Reverse, status),
                self.status_op(x1, Style::Normal, first),
                self.status_op(x2, Style::Reverse, perc),
                self.status_op(x3, Style::Normal, second),
                self.status_op(x4, Style::Reverse, help),
                DrawOpView::Present,
            ]
        }
    }

    /// The steps that ask whether to leave with unsaved changes: the status
    /// line is blanked, and the question stands at its right end.
    pub open spec fn prompt_ops(self) -> Seq<DrawOpView> {
        let prompt = "Unsaved changes. Quit? (y/s/n)"@;
        let pad = clamp(self.term_width - prompt.len());
        seq![
            self.status_op(0, Style::Normal, spaces(pad as nat)),
            self.status_op(pad as int, Style::Reverse, prompt),
            DrawOpView::Present,
        ]
    }

    /// All the steps that draw the state: the window, and below it the
    /// status line, or the question whether to leave while that is open.
    pub open spec fn frame(self) -> Seq<DrawOpView> {
        self.chunk_ops() + if self.quit_pending {
            self.prompt_ops()
        } else {
            self.update_ops()
        }
    }
}

/// `a - b`, or 0 where `b` is the larger.
pub fn sat_sub(a: usize, b: usize) -> (r: usize)
    ensures
        r == clamp(a - b),
{
    if a >= b {
        a - b
    } else {
        0
    }
}

impl Viewer {
    /// The lines of the help.
    pub fn help_lines(&self) -> (rows: Vec<Vec<char>>)
        ensures
            views(rows@) == help_rows(self@.bindings),
    {
        let mut rows: Vec<Vec<char>> = Vec::new();
        let mut title: Vec<char> = Vec::new();
        push_str(&mut title, "  ::  Ente Help  ::");
        rows.push(title);
        rows.push(Vec::new());
        let mut list: Vec<char> = Vec::new();
        push_str(&mut list, "List of available keys:");
        rows.push(list);
        let count = self.actions.len();
        let mut i: usize = 0;
        while i < count
            invariant
                i <= count,
                count == self@.bindings.len(),
                rows@.len() == 3 + i,
                rows@[0]@ == "  ::  Ente Help  ::"@,
                rows@[1]@ == Seq::<char>::empty(),
                rows@[2]@ == "List of available keys:"@,
                forall|j: int| 0 <= j < i ==> rows@[3 + j]@ == binding_row(self@.bindings[j]),
            decreases count - i,
        {
            let (key, action) = self.actions.entry(i);
            let mut row: Vec<char> = Vec::new();
            push_key_name(&mut row, key);
            push_str(&mut row, " => ");
            push_str(&mut row, action_name_of(action));
            rows.push(row);
            i += 1;
        }
        assert(views(rows@) =~= help_rows(self@.bindings));
        rows
    }

    /// All the lines that there are to show.
    pub fn rows(&self) -> (rows: Vec<Vec<char>>)
        ensures
            views(rows@) == self@.all_rows(),
    {
        if self.mode == Mode::Help {
            self.help_lines()
        } else {
            self.model.slice_lines(self.disp_line, self.height)
        }
    }

    /// The text that there is to show, each line followed by a line feed.
    pub fn text(&self) -> (s: String)
        ensures
            s@ == self@.shown_text(),
    {
        let rows = self.rows();
        let mut out: Vec<char> = Vec::new();
        push_joined(&mut out, &rows, 0, rows.len());
        assert(views(rows@).subrange(0, rows@.len() as int) =~= views(rows@));
        string_of(&out)
    }

    /// The steps that draw the window.
    pub fn draw_chunk(&self) -> (ops: Vec<DrawOp>)
        ensures
            op_views(ops@) == self@.chunk_ops(),
    {
        let rows = self.rows();
        let shown: usize = if self.height < rows.len() {
            self.height
        } else {
            rows.len()
        };
        let mut ops: Vec<DrawOp> = Vec::new();
        push_op(&mut ops, DrawOp::Clear);
        let line_numbers = self.show_line_num && self.mode != Mode::Help;
        let ghost rows_shown = self@.shown_rows();
        assert(rows_shown.len() == shown);
        assert(op_views(ops@) =~= seq![DrawOpView::Clear] + self@.rows_ops(rows_shown, 0));
        let mut r: usize = 0;
        while r < shown
            invariant
                r <= shown <= rows.len(),
                rows_shown == self@.shown_rows(),
                rows_shown.len() == shown,
                views(rows@) == self@.all_rows(),
                line_numbers == (self@.show_line_num && self@.mode != Mode::Help),
                op_views(ops@) == seq![DrawOpView::Clear] + self@.rows_ops(rows_shown, r as nat),
            decreases shown - r,
        {
            let ghost before = op_views(ops@);
            let text = draw_line(&rows[r], self.disp_col, self.width, self.tab_size);
            proof {
                assert(rows_shown[r as int] == views(rows@)[r as int]);
                assert(views(rows@)[r as int] == rows@[r as int]@);
            }
            push_print(&mut ops, 0, r, Style::Normal, self.colors.fg, self.colors.bg, &text);
            if line_numbers {
                let mut number: Vec<char> = Vec::new();
                push_decimal(&mut number, sat_add(r, self.disp_line));
                push_print(
                    &mut ops,
                    sat_add(self.width, 1),
                    r,
                    Style::Normal,
                    self.colors.line_num,
                    self.colors.bg,
                    &number,
                );
            }
            proof {
                assert(op_views(ops@) =~= before + self@.row_ops(
                    r as int,
                    rows_shown[r as int],
                ));
                assert(op_views(ops@) =~= seq![DrawOpView::Clear] + self@.rows_ops(
                    rows_shown,
                    (r + 1) as nat,
                ));
            }
            r += 1;
        }
        ops
    }

    /// What the status line tells first.
    pub fn status(&self) -> (out: Vec<char>)
        ensures
            out@ == self@.status_text(),
    {
        let mut out: Vec<char> = Vec::new();
        match self.mode {
            Mode::Read | Mode::Edit => {
                let mode = match self.mode {
                    Mode::Read => 'R',
                    Mode::Edit => 'E',
                    _ => ' ',
                };
                let saved = if self.model.get_saved_stat() {
                    '.'
                } else {
                    '*'
                };
                out.push(mode);
                out.push(saved);
                push_str(&mut out, " -- ");
                push_str(&mut out, self.filename.as_str());
                push_str(&mut out, " (");
                push_decimal(&mut out, self.cursor.line);
                push_str(&mut out, ",");
                push_decimal(&mut out, self.cursor.col);
                push_str(&mut out, ")");
                assert(out@ =~= self@.status_text());
            },
            Mode::GoToLine => {
                push_str(&mut out, ":");
                if self.line_jump != 0 {
                    push_decimal(&mut out, self.line_jump);
                }
                assert(out@ =~= self@.status_text());
            },
            Mode::Search => {
                push_str(&mut out, "/");
                let mut i: usize = 0;
                while i < self.search_string.len()
                    invariant
                        i <= self.search_string.len(),
                        out@ == "/"@ + self.search_string@.take(i as int),
                    decreases self.search_string.len() - i,
                {
                    out.push(self.search_string[i]);
                    i += 1;
                    assert(out@ =~= "/"@ + self.search_string@.take(i as int));
                }
                assert(self.search_string@.take(i as int) =~= self.search_string@);
            },
            Mode::Help => {
                push_str(&mut out, "Press 'Ctrl-q' to exit help");
                assert(out@ =~= self@.status_text());
            },
        }
        out
    }

    /// How far down the document the cursor is, in hundredths.
    pub fn percent(&self) -> (p: usize)
        requires
            self@.wf(),
        ensures
            p == self@.percent(),
    {
        let line = self.cursor.line as u128;
        let count = self.model.get_line_count() as u128;
        assert((line as int) * 100 / (count as int) <= 100) by (nonlinear_arith)
            requires
                1 <= line <= count,
        ;
        (line * 100 / count) as usize
    }

    /// The steps that bring the status line and the cursor up to date.
    pub fn update(&self) -> (ops: Vec<DrawOp>)
        requires
            self@.wf(),
        ensures
            op_views(ops@) == self@.update_ops(),
    {
        let fg = self.colors.fg;
        let bg = self.colors.bg;
        let y = self.height;
        let status = self.status();
        let mut perc: Vec<char> = Vec::new();
        push_str(&mut perc, " ");
        push_decimal(&mut perc, self.percent());
        push_str(&mut perc, "% ");
        assert(perc@ =~= self@.percent_text());
        let mut help: Vec<char> = Vec::new();
        push_str(&mut help, "F1 for help");
        assert(help@ =~= "F1 for help"@);
        let half = self.term_width / 2;
        let mut first: Vec<char> = Vec::new();
        push_spaces(&mut first, sat_sub(sat_sub(half, status.len()), 2));
        let mut second: Vec<char> = Vec::new();
        push_spaces(&mut second, sat_sub(sat_sub(half, perc.len() / 2), help.len()));
        assert(first@ =~= spaces(clamp(half - status@.len() - 2) as nat));
        assert(second@ =~= spaces(clamp(half - perc@.len() / 2 - help@.len()) as nat));
        let x1 = status.len();
        let x2 = sat_add(x1, first.len());
        let x3 = sat_add(x2, perc.len());
        let x4 = sat_add(x3, second.len());
        let mut ops: Vec<DrawOp> = Vec::new();
        push_op(
            &mut ops,
            DrawOp::SetCursor {
                x: sat_sub(self.cursor.col, self.disp_col),
                y: sat_sub(self.cursor.line, self.disp_line),
            },
        );
        push_print(&mut ops, 0, y, Style::Reverse, fg, bg, &status);
        if self.mode == Mode::Help {
            push_op(&mut ops, DrawOp::Present);
            assert(op_views(ops@) =~= self@.update_ops());
            return ops;
        }
        push_print(&mut ops, x1, y, Style::Normal, fg, bg, &first);
        push_print(&mut ops, x2, y, Style::Reverse, fg, bg, &perc);
        push_print(&mut ops, x3, y, Style::Normal, fg, bg, &second);
        push_print(&mut ops, x4, y, Style::Reverse, fg, bg, &help);
        push_op(&mut ops, DrawOp::Present);
        assert(op_views(ops@) =~= self@.update_ops());
        ops
    }

    /// The steps that ask whether to leave with unsaved changes.
    pub fn quit_prompt(&self) -> (ops: Vec<DrawOp>)
        ensures
            op_views(ops@) == self@.prompt_ops(),
    {
        let fg = self.colors.fg;
        let bg = self.colors.bg;
        let mut prompt: Vec<char> = Vec::new();
        push_str(&mut prompt, "Unsaved changes. Quit? (y/s/n)");
        assert(prompt@ =~= "Unsaved changes. Quit? (y/s/n)"@);
        let pad = sat_sub(self.term_width, prompt.len());
        let mut empty: Vec<char> = Vec::new();
        push_spaces(&mut empty, pad);
        assert(empty@ =~= spaces(pad as nat));
        let mut ops: Vec<DrawOp> = Vec::new();
        push_print(&mut ops, 0, self.height, Style::Normal, fg, bg, &empty);
        push_print(&mut ops, pad, self.height, Style::Reverse, fg, bg, &prompt);
        push_op(&mut ops, DrawOp::Present);
        assert(op_views(ops@) =~= self@.prompt_ops());
        ops
    }

    /// All the steps that draw the state.
    pub fn frame(&self) -> (ops: Vec<DrawOp>)
        requires
            self@.wf(),
        ensures
            op_views(ops@) == self@.frame(),
    {
        let mut ops = self.draw_chunk();
        let mut rest = if self.quit_pending {
            self.quit_prompt()
        } else {
            self.update()
        };
        let ghost a = op_views(ops@);
        let ghost b = op_views(rest@);
        ops.append(&mut rest);
        assert(op_views(ops@) =~= a + b);
        ops
    }
}

} // verus!
