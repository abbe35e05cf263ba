//! Keys, the bindings from keys to actions, and the key configuration:
//! lines of the form `key: Action`.

use vstd::prelude::*;
use crate::config::{has_prefix, is_skipped, is_word, number_of, parse_number, trim, trimmed};
use crate::text::{chars_of, copy_range, lines_of, pieces_of, split_lines, split_on, views};
use crate::viewer::Action;

verus! {

/// A key of the keyboard.
#[derive(Copy, Clone, Eq, PartialEq, Debug, Structural)]
pub enum Key {
    Tab,
    Enter,
    Esc,
    Backspace,
    Right,
    Left,
    Up,
    Down,
    Delete,
    Insert,
    Home,
    End,
    PageUp,
    PageDown,
    Char(char),
    Ctrl(char),
    F(u32),
    Unknown(u16),
}

/// The action that the first binding of `key` in `b` gives.
pub open spec fn lookup(b: Seq<(Key, Action)>, key: Key) -> Option<Action>
    decreases b.len(),
{
    if b.len() == 0 {
        None
    } else if b[0].0 == key {
        Some(b[0].1)
    } else {
        lookup(b.skip(1), key)
    }
}

/// `b` with `key` bound to `action`: in place of its first binding, or at
/// the end if it had none.
pub open spec fn put(b: Seq<(Key, Action)>, key: Key, action: Action) -> Seq<(Key, Action)>
    decreases b.len(),
{
    if b.len() == 0 {
        seq![(key, action)]
    } else if b[0].0 == key {
        seq![(key, action)] + b.skip(1)
    } else {
        seq![b[0]] + put(b.skip(1), key, action)
    }
}

/// Whether no key is bound twice.
pub open spec fn distinct_keys(b: Seq<(Key, Action)>) -> bool {
    forall|i: int, j: int| 0 <= i < j < b.len() ==> b[i].0 != b[j].0
}

/// The bindings that an editor starts with.
pub open spec fn default_bindings() -> Seq<(Key, Action)> {
    seq![
        (Key::Right, Action::MoveRight),
        (Key::Left, Action::MoveLeft),
        (Key::Down, Action::MoveDown),
        (Key::Up, Action::MoveUp),
        (Key::PageUp, Action::MovePageUp),
        (Key::PageDown, Action::MovePageDown),
        (Key::Home, Action::MoveStartLine),
        (Key::End, Action::MoveEndLine),
        (Key::Char('<'), Action::MoveStartFile),
        (Key::Char('>'), Action::MoveEndFile),
        (Key::Char('e'), Action::EditMode),
        (Key::Char('a'), Action::Append),
        (Key::Ctrl('r'), Action::ReadMode),
        (Key::Char('g'), Action::GoToLine),
        (Key::Char('/'), Action::Search),
        (Key::Char('n'), Action::SearchNext),
        (Key::Char('p'), Action::SearchPrevious),
        (Key::Char('w'), Action::MoveNextWord),
        (Key::Char('s'), Action::MovePrevWord),
        (Key::Ctrl('d'), Action::KillLine),
        (Key::Ctrl('k'), Action::KillEndLine),
        (Key::Delete, Action::Delete),
        (Key::Ctrl('x'), Action::CopyStartMark),
        (Key::Ctrl('c'), Action::CopyEndMark),
        (Key::Ctrl('v'), Action::Paste),
        (Key::Ctrl('z'), Action::Undo),
        (Key::Ctrl('l'), Action::ToggleLineNumbers),
        (Key::Enter, Action::Go),
        (Key::Ctrl('s'), Action::Save),
        (Key::Ctrl('q'), Action::Quit),
        (Key::F(1), Action::Help),
    ]
}

/// The bindings that an editor starts with bind no key twice.
pub proof fn lemma_default_bindings_distinct()
    ensures
        distinct_keys(default_bindings()),
{
    assert(default_bindings().len() == 31);
}

/// Where `key` is first bound, the first binding gives its action.
pub proof fn lemma_lookup_first(b: Seq<(Key, Action)>, key: Key, i: int)
    requires
        0 <= i <= b.len(),
        forall|j: int| 0 <= j < i ==> b[j].0 != key,
        i < b.len() ==> b[i].0 == key,
    ensures
        lookup(b, key) == if i < b.len() {
            Some(b[i].1)
        } else {
            None
        },
    decreases b.len(),
{
    if b.len() > 0 && i > 0 {
        lemma_lookup_first(b.skip(1), key, i - 1);
    }
}

/// Binding a key replaces its first binding, or adds one at the end.
pub proof fn lemma_put_first(b: Seq<(Key, Action)>, key: Key, action: Action, i: int)
    requires
        0 <= i <= b.len(),
        forall|j: int| 0 <= j < i ==> b[j].0 != key,
        i < b.len() ==> b[i].0 == key,
    ensures
        put(b, key, action) == if i < b.len() {
            b.update(i, (key, action))
        } else {
            b.push((key, action))
        },
    decreases b.len(),
{
    if b.len() == 0 {
        assert(seq![(key, action)] =~= b.push((key, action)));
    } else if i == 0 {
        assert(seq![(key, action)] + b.skip(1) =~= b.update(0, (key, action)));
    } else {
        lemma_put_first(b.skip(1), key, action, i - 1);
        if i < b.len() {
            assert(seq![b[0]] + b.skip(1).update(i - 1, (key, action)) =~= b.update(
                i,
                (key, action),
            ));
        } else {
            assert(seq![b[0]] + b.skip(1).push((key, action)) =~= b.push((key, action)));
        }
    }
}

/// Binding a key leaves every key bound once.
pub proof fn lemma_put_keeps_distinct(b: Seq<(Key, Action)>, key: Key, action: Action)
    requires
        distinct_keys(b),
    ensures
        distinct_keys(put(b, key, action)),
        put(b, key, action).len() >= b.len(),
        forall|i: int| 0 <= i < put(b, key, action).len() ==> #[trigger] put(b, key, action)[i].0
            == key || (i < b.len() && put(b, key, action)[i] == b[i]),
    decreases b.len(),
{
    let p = put(b, key, action);
    if b.len() == 0 {
    } else if b[0].0 == key {
        assert forall|i: int, j: int| 0 <= i < j < p.len() implies p[i].0 != p[j].0 by {
            assert(p[j] == b[j]);
            if i > 0 {
                assert(p[i] == b[i]);
            }
        }
    } else {
        let rest = b.skip(1);
        assert forall|i: int, j: int| 0 <= i < j < rest.len() implies rest[i].0 != rest[j].0 by {
            assert(rest[i] == b[i + 1] && rest[j] == b[j + 1]);
        }
        lemma_put_keeps_distinct(rest, key, action);
        let q = put(rest, key, action);
        assert(p =~= seq![b[0]] + q);
        assert forall|i: int| 0 <= i < p.len() implies #[trigger] p[i].0 == key || (i < b.len()
            && p[i] == b[i]) by {
            if i > 0 {
                assert(p[i] == q[i - 1]);
                if q[i - 1].0 != key {
                    assert(q[i - 1] == rest[i - 1]);
                }
            }
        }
        assert forall|i: int, j: int| 0 <= i < j < p.len() implies p[i].0 != p[j].0 by {
            assert(p[j] == q[j - 1]);
            if i == 0 {
                if q[j - 1].0 != key {
                    assert(q[j - 1] == rest[j - 1]);
                    assert(rest[j - 1] == b[j]);
                }
            } else {
                assert(p[i] == q[i - 1]);
            }
        }
    }
}

/// Configuration lines leave every key bound once.
pub proof fn lemma_apply_lines_keeps_distinct(b: Seq<(Key, Action)>, lines: Seq<Seq<char>>)
    requires
        distinct_keys(b),
    ensures
        distinct_keys(apply_lines(b, lines)),
    decreases lines.len(),
{
    if lines.len() > 0 {
        match binding_of(lines[0]) {
            Some((k, a)) => {
                lemma_put_keeps_distinct(b, k, a);
            },
            None => {},
        }
        lemma_apply_lines_keeps_distinct(apply_line(b, lines[0]), lines.skip(1));
    }
}

/// After `key` is bound to `action`, it gives that action, and every other
/// key gives what it gave before.
pub proof fn lemma_lookup_put(b: Seq<(Key, Action)>, key: Key, action: Action, other: Key)
    ensures
        lookup(put(b, key, action), other) == if other == key {
            Some(action)
        } else {
            lookup(b, other)
        },
    decreases b.len(),
{
    let p = put(b, key, action);
    if b.len() == 0 {
        assert(p.skip(1) =~= Seq::<(Key, Action)>::empty());
        assert(lookup(p.skip(1), other) is None);
    } else if b[0].0 == key {
        assert(p[0] == (key, action));
        assert(p.skip(1) =~= b.skip(1));
    } else {
        lemma_lookup_put(b.skip(1), key, action, other);
        assert(p[0] == b[0]);
        assert(p.skip(1) =~= put(b.skip(1), key, action));
    }
}

/// The bindings from keys to actions, in the order in which the keys were
/// first bound, which is the order in which the help lists them. A key is
/// bound once.
pub struct KeyMap {
    entries: Vec<(Key, Action)>,
}

impl KeyMap {
    /// The bindings, in order.
    pub closed spec fn bindings(&self) -> Seq<(Key, Action)> {
        self.entries@
    }

    /// No key is bound twice.
    pub open spec fn wf(&self) -> bool {
        distinct_keys(self.bindings())
    }

    /// Tells whether no key is bound twice.
    pub fn is_sound(&self) -> (b: bool)
        ensures
            b == self.wf(),
    {
        let mut j: usize = 0;
        while j < self.entries.len()
            invariant
                j <= self.entries.len(),
                forall|a: int, b: int| 0 <= a < b < j ==> self.entries@[a].0 != self.entries@[b].0,
            decreases self.entries.len() - j,
        {
            let mut i: usize = 0;
            while i < j
                invariant
                    i <= j < self.entries.len(),
                    forall|a: int| 0 <= a < i ==> self.entries@[a].0 != self.entries@[j as int].0,
                decreases j - i,
            {
                if self.entries[i].0 == self.entries[j].0 {
                    return false;
                }
                i += 1;
            }
            j += 1;
        }
        true
    }

    /// The action bound to `key`, if any.
    pub fn get(&self, key: &Key) -> (r: Option<Action>)
        ensures
            r == lookup(self.bindings(), *key),
    {
        let mut i: usize = 0;
        while i < self.entries.len()
            invariant
                i <= self.entries.len(),
                forall|j: int| 0 <= j < i ==> self.entries@[j].0 != *key,
            decreases self.entries.len() - i,
        {
            if self.entries[i].0 == *key {
                proof {
                    lemma_lookup_first(self.entries@, *key, i as int);
                }
                return Some(self.entries[i].1);
            }
            i += 1;
        }
        proof {
            lemma_lookup_first(self.entries@, *key, i as int);
        }
        None
    }

    /// Binds `key` to `action`.
    pub fn insert(&mut self, key: Key, action: Action)
        ensures
            final(self).bindings() == put(old(self).bindings(), key, action),
            old(self).wf() ==> final(self).wf(),
    {
        proof {
            if self.wf() {
                lemma_put_keeps_distinct(self.entries@, key, action);
            }
        }
        let mut i: usize = 0;
        while i < self.entries.len()
            invariant
                i <= self.entries.len(),
                self.entries@ == old(self).entries@,
                forall|j: int| 0 <= j < i ==> self.entries@[j].0 != key,
            decreases self.entries.len() - i,
        {
            if self.entries[i].0 == key {
                proof {
                    lemma_put_first(self.entries@, key, action, i as int);
                }
                self.entries.set(i, (key, action));
                return;
            }
            i += 1;
        }
        proof {
            lemma_put_first(self.entries@, key, action, i as int);
        }
        self.entries.push((key, action));
    }

    /// The number of bindings.
    pub fn len(&self) -> (n: usize)
        ensures
            n == self.bindings().len(),
    {
        self.entries.len()
    }

    /// The binding at place `i`.
    pub fn entry(&self, i: usize) -> (e: (Key, Action))
        requires
            i < self.bindings().len(),
        ensures
            e == self.bindings()[i as int],
    {
        self.entries[i]
    }
}

/// The bindings that an editor starts with.
pub fn new() -> (m: KeyMap)
    ensures
        m.bindings() == default_bindings(),
        m.wf(),
{
    let mut e: Vec<(Key, Action)> = Vec::new();
    e.push((Key::Right, Action::MoveRight));
    e.push((Key::Left, Action::MoveLeft));
    e.push((Key::Down, Action::MoveDown));
    e.push((Key::Up, Action::MoveUp));
    e.push((Key::PageUp, Action::MovePageUp));
    e.push((Key::PageDown, Action::MovePageDown));
    e.push((Key::Home, Action::MoveStartLine));
    e.push((Key::End, Action::MoveEndLine));
    e.push((Key::Char('<'), Action::MoveStartFile));
    e.push((Key::Char('>'), Action::MoveEndFile));
    e.push((Key::Char('e'), Action::EditMode));
    e.push((Key::Char('a'), Action::Append));
    e.push((Key::Ctrl('r'), Action::ReadMode));
    e.push((Key::Char('g'), Action::GoToLine));
    e.push((Key::Char('/'), Action::Search));
    e.push((Key::Char('n'), Action::SearchNext));
    e.push((Key::Char('p'), Action::SearchPrevious));
    e.push((Key::Char('w'), Action::MoveNextWord));
    e.push((Key::Char('s'), Action::MovePrevWord));
    e.push((Key::Ctrl('d'), Action::KillLine));
    e.push((Key::Ctrl('k'), Action::KillEndLine));
    e.push((Key::Delete, Action::Delete));
    e.push((Key::Ctrl('x'), Action::CopyStartMark));
    e.push((Key::Ctrl('c'), Action::CopyEndMark));
    e.push((Key::Ctrl('v'), Action::Paste));
    e.push((Key::Ctrl('z'), Action::Undo));
    e.push((Key::Ctrl('l'), Action::ToggleLineNumbers));
    e.push((Key::Enter, Action::Go));
    e.push((Key::Ctrl('s'), Action::Save));
    e.push((Key::Ctrl('q'), Action::Quit));
    e.push((Key::F(1), Action::Help));
    assert(e@ =~= default_bindings());
    proof {
        lemma_default_bindings_distinct();
    }
    KeyMap { entries: e }
}

/// The key that a name stands for: a single character stands for itself;
/// `f+` and a number for a function key; `ctrl+` and a character for that
/// character with the control key; the other keys have their names.
pub open spec fn key_of(name: Seq<char>) -> Option<Key> {
    if name.len() == 1 {
        Some(Key::Char(name[0]))
    } else if name == "Up"@ {
        Some(Key::Up)
    } else if name == "Tab"@ {
        Some(Key::Tab)
    } else if name == "Esc"@ {
        Some(Key::Esc)
    } else if name == "End"@ {
        Some(Key::End)
    } else if name == "Left"@ {
        Some(Key::Left)
    } else if name == "Down"@ {
        Some(Key::Down)
    } else if name == "Home"@ {
        Some(Key::Home)
    } else if name == "Enter"@ {
        Some(Key::Enter)
    } else if name == "Right"@ {
        Some(Key::Right)
    } else if name == "Delete"@ {
        Some(Key::Delete)
    } else if name == "Insert"@ {
        Some(Key::Insert)
    } else if name == "PageUp"@ {
        Some(Key::PageUp)
    } else if name == "PageDown"@ {
        Some(Key::PageDown)
    } else if name == "Backspace"@ {
        Some(Key::Backspace)
    } else if (name.len() == 3 || name.len() == 4) && name.take(2) == "f+"@ {
        match number_of(name.skip(2), u32::MAX as nat) {
            Some(n) => Some(Key::F(n as u32)),
            None => None,
        }
    } else if name.len() == 6 && name.take(5) == "ctrl+"@ {
        Some(Key::Ctrl(name[5]))
    } else {
        None
    }
}

/// The action that a name stands for.
pub open spec fn action_of(name: Seq<char>) -> Option<Action> {
    if name == "None"@ {
        Some(Action::Nothing)
    } else if name == "Go"@ {
        Some(Action::Go)
    } else if name == "MoveRight"@ {
        Some(Action::MoveRight)
    } else if name == "MoveLeft"@ {
        Some(Action::MoveLeft)
    } else if name == "MoveDown"@ {
        Some(Action::MoveDown)
    } else if name == "MoveUp"@ {
        Some(Action::MoveUp)
    } else if name == "MovePageUp"@ {
        Some(Action::MovePageUp)
    } else if name == "MovePageDown"@ {
        Some(Action::MovePageDown)
    } else if name == "MoveStartLine"@ {
        Some(Action::MoveStartLine)
    } else if name == "MoveEndLine"@ {
        Some(Action::MoveEndLine)
    } else if name == "MoveStartFile"@ {
        Some(Action::MoveStartFile)
    } else if name == "MoveEndFile"@ {
        Some(Action::MoveEndFile)
    } else if name == "EditMode"@ {
        Some(Action::EditMode)
    } else if name == "ReadMode"@ {
        Some(Action::ReadMode)
    } else if name == "Append"@ {
        Some(Action::Append)
    } else if name == "GoToLine"@ {
        Some(Action::GoToLine)
    } else if name == "Search"@ {
        Some(Action::Search)
    } else if name == "SearchNext"@ {
        Some(Action::SearchNext)
    } else if name == "SearchPrevious"@ {
        Some(Action::SearchPrevious)
    } else if name == "MoveNextWord"@ {
        Some(Action::MoveNextWord)
    } else if name == "MovePrevWord"@ {
        Some(Action::MovePrevWord)
    } else if name == "KillLine"@ {
        Some(Action::KillLine)
    } else if name == "KillEndLine"@ {
        Some(Action::KillEndLine)
    } else if name == "Delete"@ {
        Some(Action::Delete)
    } else if name == "CopyStartMark"@ {
        Some(Action::CopyStartMark)
    } else if name == "CopyEndMark"@ {
        Some(Action::CopyEndMark)
    } else if name == "Paste"@ {
        Some(Action::Paste)
    } else if name == "Undo"@ {
        Some(Action::Undo)
    } else if name == "ToggleLineNumbers"@ {
        Some(Action::ToggleLineNumbers)
    } else if name == "Save"@ {
        Some(Action::Save)
    } else if name == "Quit"@ {
        Some(Action::Quit)
    } else if name == "Help"@ {
        Some(Action::Help)
    } else {
        None
    }
}

/// What a configuration line binds: the key named before the first colon to
/// the action named between the first colon and the second.
pub open spec fn binding_of(line: Seq<char>) -> Option<(Key, Action)> {
    let fields = split_on(line, ':');
    if is_skipped(line) || fields.len() < 2 {
        None
    } else {
        match (key_of(trim(fields[0])), action_of(trim(fields[1]))) {
            (Some(k), Some(a)) => Some((k, a)),
            _ => None,
        }
    }
}

/// The bindings after one configuration line.
pub open spec fn apply_line(b: Seq<(Key, Action)>, line: Seq<char>) -> Seq<(Key, Action)> {
    match binding_of(line) {
        Some((k, a)) => put(b, k, a),
        None => b,
    }
}

/// The bindings after the given configuration lines, in order.
pub open spec fn apply_lines(b: Seq<(Key, Action)>, lines: Seq<Seq<char>>) -> Seq<(Key, Action)>
    decreases lines.len(),
{
    if lines.len() == 0 {
        b
    } else {
        apply_lines(apply_line(b, lines[0]), lines.skip(1))
    }
}

/// Reads the name of a key.
pub fn parse_key(name: &Vec<char>) -> (r: Option<Key>)
    ensures
        r == key_of(name@),
{
    proof {
        reveal_strlit("f+");
        reveal_strlit("ctrl+");
    }
    if name.len() == 1 {
        Some(Key::Char(name[0]))
    } else if is_word(name, "Up") {
        Some(Key::Up)
    } else if is_word(name, "Tab") {
        Some(Key::Tab)
    } else if is_word(name, "Esc") {
        Some(Key::Esc)
    } else if is_word(name, "End") {
        Some(Key::End)
    } else if is_word(name, "Left") {
        Some(Key::Left)
    } else if is_word(name, "Down") {
        Some(Key::Down)
    } else if is_word(name, "Home") {
        Some(Key::Home)
    } else if is_word(name, "Enter") {
        Some(Key::Enter)
    } else if is_word(name, "Right") {
        Some(Key::Right)
    } else if is_word(name, "Delete") {
        Some(Key::Delete)
    } else if is_word(name, "Insert") {
        Some(Key::Insert)
    } else if is_word(name, "PageUp") {
        Some(Key::PageUp)
    } else if is_word(name, "PageDown") {
        Some(Key::PageDown)
    } else if is_word(name, "Backspace") {
        Some(Key::Backspace)
    } else if (name.len() == 3 || name.len() == 4) && has_prefix(name, "f+") {
        let digits = copy_range(name, 2, name.len());
        assert(digits@ =~= name@.skip(2));
        match parse_number(&digits, u32::MAX) {
            Some(n) => Some(Key::F(n)),
            None => None,
        }
    } else if name.len() == 6 && has_prefix(name, "ctrl+") {
        Some(Key::Ctrl(name[5]))
    } else {
        None
    }
}

/// Reads the name of an action.
pub fn parse_action(name: &Vec<char>) -> (r: Option<Action>)
    ensures
        r == action_of(name@),
{
    if is_word(name, "None") {
        Some(Action::Nothing)
    } else if is_word(name, "Go") {
        Some(Action::Go)
    } else if is_word(name, "MoveRight") {
        Some(Action::MoveRight)
    } else if is_word(name, "MoveLeft") {
        Some(Action::MoveLeft)
    } else if is_word(name, "MoveDown") {
        Some(Action::MoveDown)
    } else if is_word(name, "MoveUp") {
        Some(Action::MoveUp)
    } else if is_word(name, "MovePageUp") {
        Some(Action::MovePageUp)
    } else if is_word(name, "MovePageDown") {
        Some(Action::MovePageDown)
    } else if is_word(name, "MoveStartLine") {
        Some(Action::MoveStartLine)
    } else if is_word(name, "MoveEndLine") {
        Some(Action::MoveEndLine)
    } else if is_word(name, "MoveStartFile") {
        Some(Action::MoveStartFile)
    } else if is_word(name, "MoveEndFile") {
        Some(Action::MoveEndFile)
    } else if is_word(name, "EditMode") {
        Some(Action::EditMode)
    } else if is_word(name, "ReadMode") {
        Some(Action::ReadMode)
    } else if is_word(name, "Append") {
        Some(Action::Append)
    } else if is_word(name, "GoToLine") {
        Some(Action::GoToLine)
    } else if is_word(name, "Search") {
        Some(Action::Search)
    } else if is_word(name, "SearchNext") {
        Some(Action::SearchNext)
    } else if is_word(name, "SearchPrevious") {
        Some(Action::SearchPrevious)
    } else if is_word(name, "MoveNextWord") {
        Some(Action::MoveNextWord)
    } else if is_word(name, "MovePrevWord") {
        Some(Action::MovePrevWord)
    } else if is_word(name, "KillLine") {
        Some(Action::KillLine)
    } else if is_word(name, "KillEndLine") {
        Some(Action::KillEndLine)
    } else if is_word(name, "Delete") {
        Some(Action::Delete)
    } else if is_word(name, "CopyStartMark") {
        Some(Action::CopyStartMark)
    } else if is_word(name, "CopyEndMark") {
        Some(Action::CopyEndMark)
    } else if is_word(name, "Paste") {
        Some(Action::Paste)
    } else if is_word(name, "Undo") {
        Some(Action::Undo)
    } else if is_word(name, "ToggleLineNumbers") {
        Some(Action::ToggleLineNumbers)
    } else if is_word(name, "Save") {
        Some(Action::Save)
    } else if is_word(name, "Quit") {
        Some(Action::Quit)
    } else if is_word(name, "Help") {
        Some(Action::Help)
    } else {
        None
    }
}

/// Reads one configuration line.
pub fn parse_line(line: &Vec<char>) -> (r: Option<(Key, Action)>)
    ensures
        r == binding_of(line@),
{
    if line.len() == 0 || line[0] == '#' {
        return None;
    }
    let fields = pieces_of(line, ':');
    assert(forall|i: int| 0 <= i < fields@.len() ==> views(fields@)[i] == fields@[i]@);
    if fields.len() < 2 {
        return None;
    }
    let name = trimmed(&fields[0]);
    let value = trimmed(&fields[1]);
    match parse_key(&name) {
        Some(key) => match parse_action(&value) {
            Some(action) => Some((key, action)),
            None => None,
        },
        None => None,
    }
}

/// Applies a configuration text to `actions`, line by line. A line that is
/// empty, starts with `#`, names no key or names no action changes nothing.
pub fn parse_config_file(text: String, actions: &mut KeyMap)
    ensures
        final(actions).bindings() == apply_lines(old(actions).bindings(), split_lines(text@)),
        old(actions).wf() ==> final(actions).wf(),
{
    proof {
        if actions.wf() {
            lemma_apply_lines_keeps_distinct(actions.bindings(), split_lines(text@));
        }
    }
    let chars = chars_of(text.as_str());
    let lines = lines_of(&chars);
    let mut i: usize = 0;
    assert(views(lines@).skip(0) =~= views(lines@));
    while i < lines.len()
        invariant
            i <= lines.len(),
            apply_lines(old(actions).bindings(), views(lines@)) == apply_lines(
                actions.bindings(),
                views(lines@).skip(i as int),
            ),
        decreases lines.len() - i,
    {
        proof {
            let rest = views(lines@).skip(i as int);
            assert(rest[0] == lines@[i as int]@);
            assert(rest.skip(1) =~= views(lines@).skip(i + 1));
        }
        match parse_line(&lines[i]) {
            Some((key, action)) => {
                actions.insert(key, action);
            },
            None => {},
        }
        i += 1;
    }
}

/// The bindings that a configuration text asks for: the bindings that an
/// editor starts with, and over them those of the text.
pub fn fill_key_map(text: &str) -> (actions: KeyMap)
    ensures
        actions.bindings() == apply_lines(default_bindings(), split_lines(text@)),
        actions.wf(),
{
    let mut actions = new();
    parse_config_file(text.to_owned(), &mut actions);
    actions
}

} // verus!
