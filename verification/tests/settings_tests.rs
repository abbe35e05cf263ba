use ente::colorconfig;
use ente::colorconfig::{parse_color, Color, Slot};
use ente::config::{parse_number, trimmed};
use ente::keyconfig;
use ente::keyconfig::{parse_key, Key};
use ente::viewer::{Action, Colors};

fn chars(s: &str) -> Vec<char> {
    s.chars().collect()
}

#[test]
fn trimming_takes_all_white_space_and_nothing_else() {
    assert_eq!(chars("a b"), trimmed(&chars(" \t a b\r\n ")));
    assert_eq!(chars("a"), trimmed(&chars("\u{a0}\u{2003}a\u{3000}")));
    assert_eq!(chars("_a_"), trimmed(&chars("_a_")));
    assert_eq!(chars(""), trimmed(&chars(" \t ")));
    assert_eq!(chars(""), trimmed(&chars("")));
}

#[test]
fn numbers_are_digits_after_at_most_one_plus() {
    assert_eq!(Some(0), parse_number(&chars("0"), 255));
    assert_eq!(Some(255), parse_number(&chars("255"), 255));
    assert_eq!(None, parse_number(&chars("256"), 255));
    assert_eq!(Some(7), parse_number(&chars("+7"), 255));
    assert_eq!(Some(7), parse_number(&chars("007"), 255));
    assert_eq!(None, parse_number(&chars(""), 255));
    assert_eq!(None, parse_number(&chars("+"), 255));
    assert_eq!(None, parse_number(&chars("++7"), 255));
    assert_eq!(None, parse_number(&chars("-7"), 255));
    assert_eq!(None, parse_number(&chars("7 "), 255));
    assert_eq!(None, parse_number(&chars("1a"), 255));
    assert_eq!(Some(4294967295), parse_number(&chars("4294967295"), u32::MAX));
    assert_eq!(None, parse_number(&chars("4294967296"), u32::MAX));
    assert_eq!(None, parse_number(&chars("99999999999999999999999"), u32::MAX));
}

#[test]
fn colors_are_names_or_numbers() {
    assert_eq!(Some(Color::Magenta), parse_color(&chars("Magenta")));
    assert_eq!(None, parse_color(&chars("magenta")));
    assert_eq!(Some(Color::Byte(0)), parse_color(&chars("0")));
    assert_eq!(Some(Color::Byte(255)), parse_color(&chars("255")));
    assert_eq!(None, parse_color(&chars("256")));
    assert_eq!(Some(Color::Byte(16)), parse_color(&chars("0-0-0")));
    assert_eq!(Some(Color::Byte(231)), parse_color(&chars("5-5-5")));
    assert_eq!(Some(Color::Byte(67)), parse_color(&chars("1-2-3")));
    assert_eq!(None, parse_color(&chars("0-0-6")));
    assert_eq!(None, parse_color(&chars("6-0-0")));
    assert_eq!(None, parse_color(&chars("1-2")));
    assert_eq!(None, parse_color(&chars("1-2-3-4")));
    assert_eq!(None, parse_color(&chars("1--3")));
    assert_eq!(None, parse_color(&chars("")));
}

#[test]
fn color_lines_that_say_nothing_are_skipped() {
    let mut colors = Colors::new();
    let text = String::from(
        "# foreground: Red\n\nnothing: Red\nforeground\nforeground: Pink\nforeground: 0-0-9\nbackground : 7 : ignored\n\u{a0}errors\u{a0}:\tGreen\t\nline_numbers:Yellow",
    );
    colorconfig::parse_config_file(text, &mut colors);
    assert_eq!(Color::White, colors.fg);
    assert_eq!(Color::Byte(7), colors.bg);
    assert_eq!(Color::Green, colors.error);
    assert_eq!(Color::Yellow, colors.line_num);
}

#[test]
fn later_color_lines_win() {
    let colors = colorconfig::fill_colors("foreground: Red\nforeground: 3\n");
    assert_eq!(Color::Byte(3), colors.fg);
    assert_eq!(Color::Black, colors.bg);
    assert_eq!(Colors::new(), colorconfig::fill_colors(""));
}

#[test]
fn slots_have_their_names() {
    assert_eq!(
        Some((Slot::LineNumbers, Color::Cyan)),
        colorconfig::parse_line(&chars("line_numbers: Cyan"))
    );
    assert_eq!(None, colorconfig::parse_line(&chars("#errors: Cyan")));
    assert_eq!(Some(Slot::Errors), colorconfig::parse_slot(&chars("errors")));
    assert_eq!(None, colorconfig::parse_slot(&chars("Errors")));
}

#[test]
fn keys_have_their_names() {
    assert_eq!(Some(Key::Char('x')), parse_key(&chars("x")));
    assert_eq!(Some(Key::Char('é')), parse_key(&chars("é")));
    assert_eq!(Some(Key::Up), parse_key(&chars("Up")));
    assert_eq!(Some(Key::Right), parse_key(&chars("Right")));
    assert_eq!(Some(Key::PageDown), parse_key(&chars("PageDown")));
    assert_eq!(Some(Key::Backspace), parse_key(&chars("Backspace")));
    assert_eq!(Some(Key::F(2)), parse_key(&chars("f+2")));
    assert_eq!(Some(Key::F(12)), parse_key(&chars("f+12")));
    assert_eq!(None, parse_key(&chars("f+123")));
    assert_eq!(None, parse_key(&chars("f+x")));
    assert_eq!(None, parse_key(&chars("f+")));
    assert_eq!(Some(Key::Ctrl('p')), parse_key(&chars("ctrl+p")));
    assert_eq!(Some(Key::Insert), parse_key(&chars("Insert")));
    assert_eq!(None, parse_key(&chars("ctrl+")));
    assert_eq!(None, parse_key(&chars("ctrl+pp")));
    assert_eq!(None, parse_key(&chars("up")));
    assert_eq!(None, parse_key(&chars("")));
}

#[test]
fn key_lines_that_say_nothing_are_skipped() {
    let mut map = keyconfig::new();
    let before = map.len();
    let text = String::from("# x: Quit\n\nx\nx: Nothing\nNoKey: Quit\n: Quit\n");
    keyconfig::parse_config_file(text, &mut map);
    assert_eq!(before, map.len());
    assert_eq!(None, map.get(&Key::Char('x')));
}

#[test]
fn a_key_has_one_binding() {
    let mut map = keyconfig::new();
    assert!(map.is_sound());
    let before = map.len();
    assert_eq!(31, before);
    assert_eq!((Key::Right, Action::MoveRight), map.entry(0));
    map.insert(Key::Right, Action::Quit);
    assert_eq!(before, map.len());
    assert_eq!((Key::Right, Action::Quit), map.entry(0));
    assert_eq!(Some(Action::Quit), map.get(&Key::Right));
    assert_eq!(Some(Action::MoveLeft), map.get(&Key::Left));
    map.insert(Key::Char('x'), Action::Delete);
    assert_eq!(before + 1, map.len());
    assert_eq!((Key::Char('x'), Action::Delete), map.entry(before));
    assert_eq!(None, map.get(&Key::Char('y')));
    assert!(map.is_sound());
    let filled = keyconfig::fill_key_map("x: Quit\nx: Save\nUp: Quit\nUp: MoveUp\n");
    assert!(filled.is_sound());
    assert_eq!(32, filled.len());
    assert_eq!(Some(Action::Save), filled.get(&Key::Char('x')));
    assert_eq!(Some(Action::MoveUp), filled.get(&Key::Up));
}

#[test]
fn configured_keys_come_over_the_first_ones() {
    let map = keyconfig::fill_key_map(" Up : MoveDown : more\ng: None\n\tEsc:\tQuit");
    assert_eq!(Some(Action::MoveDown), map.get(&Key::Up));
    assert_eq!(Some(Action::Nothing), map.get(&Key::Char('g')));
    assert_eq!(Some(Action::Quit), map.get(&Key::Esc));
    assert_eq!(Some(Action::MoveDown), map.get(&Key::Down));
    assert_eq!(32, map.len());
}
