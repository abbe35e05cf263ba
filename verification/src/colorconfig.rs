//! The colour configuration: lines of the form `slot: colour`, where the
//! slot is one of `foreground`, `background`, `line_numbers` and `errors`,
//! and the colour is a name, a number from 0 to 255, or three numbers from 0
//! to 5 joined by `-` for red, green and blue.

use vstd::prelude::*;
use crate::config::{
    is_skipped, is_word, number_of, parse_number, trim, trimmed,
};
use crate::text::{chars_of, lines_of, pieces_of, split_lines, split_on, views};
use crate::viewer::{default_colors, Colors};

verus! {

/// A terminal colour: one of the eight named ones, one of the 256 of the
/// palette by its number, or the terminal's own.
#[derive(Copy, Clone, Eq, PartialEq, Debug, Structural)]
pub enum Color {
    Black,
    Red,
    Green,
    Yellow,
    Blue,
    Magenta,
    Cyan,
    White,
    Byte(u16),
    Default,
}

/// The part of the display that a colour is for.
#[derive(Copy, Clone, Eq, PartialEq, Debug, Structural)]
pub enum Slot {
    Foreground,
    Background,
    LineNumbers,
    Errors,
}

/// The slot that a name stands for.
pub open spec fn slot_of(name: Seq<char>) -> Option<Slot> {
    if name == "foreground"@ {
        Some(Slot::Foreground)
    } else if name == "background"@ {
        Some(Slot::Background)
    } else if name == "line_numbers"@ {
        Some(Slot::LineNumbers)
    } else if name == "errors"@ {
        Some(Slot::Errors)
    } else {
        None
    }
}

/// The colour that a name stands for.
pub open spec fn named_color(name: Seq<char>) -> Option<Color> {
    if name == "Black"@ {
        Some(Color::Black)
    } else if name == "Red"@ {
        Some(Color::Red)
    } else if name == "Green"@ {
        Some(Color::Green)
    } else if name == "Yellow"@ {
        Some(Color::Yellow)
    } else if name == "Blue"@ {
        Some(Color::Blue)
    } else if name == "Magenta"@ {
        Some(Color::Magenta)
    } else if name == "Cyan"@ {
        Some(Color::Cyan)
    } else if name == "White"@ {
        Some(Color::White)
    } else {
        None
    }
}

/// The place in the palette of the colour with the given red, green and
/// blue, each from 0 to 5.
pub open spec fn cube_index(r: nat, g: nat, b: nat) -> nat {
    16 + 36 * r + 6 * g + b
}

/// The colour that numbers joined by `-` stand for: one number up to 255 is
/// a place in the palette; three numbers up to 5 are red, green and blue.
pub open spec fn numbered_color(text: Seq<char>) -> Option<Color> {
    let parts = split_on(text, '-');
    if parts.len() == 1 {
        match number_of(parts[0], 255) {
            Some(n) => Some(Color::Byte(n as u16)),
            None => None,
        }
    } else if parts.len() == 3 {
        match (number_of(parts[0], 5), number_of(parts[1], 5), number_of(parts[2], 5)) {
            (Some(r), Some(g), Some(b)) => Some(Color::Byte(cube_index(r, g, b) as u16)),
            _ => None,
        }
    } else {
        None
    }
}

/// The colour that a text stands for.
pub open spec fn color_of(text: Seq<char>) -> Option<Color> {
    match named_color(text) {
        Some(c) => Some(c),
        None => numbered_color(text),
    }
}

/// What a configuration line sets: the slot named before the first colon
/// and the colour named between the first colon and the second.
pub open spec fn setting_of(line: Seq<char>) -> Option<(Slot, Color)> {
    let fields = split_on(line, ':');
    if is_skipped(line) || fields.len() < 2 {
        None
    } else {
        match (slot_of(trim(fields[0])), color_of(trim(fields[1]))) {
            (Some(s), Some(c)) => Some((s, c)),
            _ => None,
        }
    }
}

/// `colors` with the colour of one slot replaced.
pub open spec fn with_color(colors: Colors, slot: Slot, color: Color) -> Colors {
    match slot {
        Slot::Foreground => Colors { fg: color, ..colors },
        Slot::Background => Colors { bg: color, ..colors },
        Slot::LineNumbers => Colors { line_num: color, ..colors },
        Slot::Errors => Colors { error: color, ..colors },
    }
}

/// `colors` after one configuration line.
pub open spec fn apply_line(colors: Colors, line: Seq<char>) -> Colors {
    match setting_of(line) {
        Some((slot, color)) => with_color(colors, slot, color),
        None => colors,
    }
}

/// `colors` after the given configuration lines, in order.
pub open spec fn apply_lines(colors: Colors, lines: Seq<Seq<char>>) -> Colors
    decreases lines.len(),
{
    if lines.len() == 0 {
        colors
    } else {
        apply_lines(apply_line(colors, lines[0]), lines.skip(1))
    }
}

/// Reads the name of a slot.
pub fn parse_slot(name: &Vec<char>) -> (r: Option<Slot>)
    ensures
        r == slot_of(name@),
{
    if is_word(name, "foreground") {
        Some(Slot::Foreground)
    } else if is_word(name, "background") {
        Some(Slot::Background)
    } else if is_word(name, "line_numbers") {
        Some(Slot::LineNumbers)
    } else if is_word(name, "errors") {
        Some(Slot::Errors)
    } else {
        None
    }
}

/// Reads a colour: a name or numbers.
pub fn parse_color(text: &Vec<char>) -> (r: Option<Color>)
    ensures
        r == color_of(text@),
{
    if is_word(text, "Black") {
        Some(Color::Black)
    } else if is_word(text, "Red") {
        Some(Color::Red)
    } else if is_word(text, "Green") {
        Some(Color::Green)
    } else if is_word(text, "Yellow") {
        Some(Color::Yellow)
    } else if is_word(text, "Blue") {
        Some(Color::Blue)
    } else if is_word(text, "Magenta") {
        Some(Color::Magenta)
    } else if is_word(text, "Cyan") {
        Some(Color::Cyan)
    } else if is_word(text, "White") {
        Some(Color::White)
    } else {
        let parts = pieces_of(text, '-');
        assert(forall|i: int| 0 <= i < parts@.len() ==> views(parts@)[i] == parts@[i]@);
        if parts.len() == 1 {
            match parse_number(&parts[0], 255) {
                Some(n) => Some(Color::Byte(n as u16)),
                None => None,
            }
        } else if parts.len() == 3 {
            let r = parse_number(&parts[0], 5);
            let g = parse_number(&parts[1], 5);
            let b = parse_number(&parts[2], 5);
            match (r, g, b) {
                (Some(r), Some(g), Some(b)) => {
                    let index: u32 = 16 + 36 * r + 6 * g + b;
                    Some(Color::Byte(index as u16))
                },
                _ => None,
            }
        } else {
            None
        }
    }
}

/// Reads one configuration line.
pub fn parse_line(line: &Vec<char>) -> (r: Option<(Slot, Color)>)
    ensures
        r == setting_of(line@),
{
    if line.len() == 0 || line[0] == '#' {
        return None;
    }
    let fields = pieces_of(line, ':');
    assert(forall|i: int| 0 <= i < fields@.len() ==> views(fields@)[i] == fields@[i]@);
    if fields.len() < 2 {
        return None;
    }
    let name = trimmed(&fields[0]);
    let value = trimmed(&fields[1]);
    match parse_slot(&name) {
        Some(slot) => match parse_color(&value) {
            Some(color) => Some((slot, color)),
            None => None,
        },
        None => None,
    }
}

/// Applies a configuration text to `colors`, line by line. A line that is
/// empty, starts with `#`, names no slot or names no colour changes nothing.
pub fn parse_config_file(text: String, colors: &mut Colors)
    ensures
        *final(colors) == apply_lines(*old(colors), split_lines(text@)),
{
    let chars = chars_of(text.as_str());
    let lines = lines_of(&chars);
    let mut i: usize = 0;
    assert(views(lines@).skip(0) =~= views(lines@));
    while i < lines.len()
        invariant
            i <= lines.len(),
            apply_lines(*old(colors), views(lines@)) == apply_lines(
                *colors,
                views(lines@).skip(i as int),
            ),
        decreases lines.len() - i,
    {
        proof {
            let rest = views(lines@).skip(i as int);
            assert(rest[0] == lines@[i as int]@);
            assert(rest.skip(1) =~= views(lines@).skip(i + 1));
        }
        match parse_line(&lines[i]) {
            Some((slot, color)) => {
                match slot {
                    Slot::Foreground => {
                        colors.fg = color;
                    },
                    Slot::Background => {
                        colors.bg = color;
                    },
                    Slot::LineNumbers => {
                        colors.line_num = color;
                    },
                    Slot::Errors => {
                        colors.error = color;
                    },
                }
            },
            None => {},
        }
        i += 1;
    }
}

/// The colours that a configuration text asks for: the default ones, with
/// those replaced that the text sets.
pub fn fill_colors(text: &str) -> (colors: Colors)
    ensures
        colors == apply_lines(default_colors(), split_lines(text@)),
{
    let mut colors = Colors::new();
    parse_config_file(text.to_owned(), &mut colors);
    colors
}

} // verus!
