use ente::cursor::{sat_add, text_to_visual, visual_to_text};
use ente::model::{Model, Position};
use ente::text::{
    char_is_whitespace, chars_of, find, find_break, lines_of, number_of_digits, pieces_of, rfind,
    rfind_break, string_of,
};

fn chars(s: &str) -> Vec<char> {
    s.chars().collect()
}

#[test]
fn empty_text_is_one_empty_line() {
    let m = Model::new("", "file");
    assert_eq!(1, m.get_line_count());
    assert_eq!("", m.get_line(1));
    assert_eq!("\n", m.get_text());
    assert!(m.get_saved_stat());
    assert!(m.is_sound());
    assert_eq!("file", m.get_filepath());
}

#[test]
fn lines_end_at_line_feeds_and_carriage_returns() {
    let m = Model::new("one\r\ntwo\n\nfour", "file");
    assert_eq!(4, m.get_line_count());
    assert_eq!("one", m.get_line(1));
    assert_eq!("two", m.get_line(2));
    assert_eq!("", m.get_line(3));
    assert_eq!("four", m.get_line(4));
    let kept = Model::new("a\rb\r", "file");
    assert_eq!(1, kept.get_line_count());
    assert_eq!("a\rb\r", kept.get_line(1));
}

#[test]
fn lines_of_and_pieces_of_differ_at_the_end() {
    let text = chars("a\nb\n");
    let lines = lines_of(&text);
    assert_eq!(vec![chars("a"), chars("b")], lines);
    let pieces = pieces_of(&text, '\n');
    assert_eq!(vec![chars("a"), chars("b"), chars("")], pieces);
    assert_eq!(vec![chars("")], pieces_of(&chars(""), '\n'));
    assert!(lines_of(&chars("")).is_empty());
}

#[test]
fn strings_and_characters_convert_both_ways() {
    assert_eq!(vec!['h', 'é', '\t'], chars_of("hé\t"));
    assert_eq!("hé\t", string_of(&vec!['h', 'é', '\t']));
    assert_eq!("", string_of(&Vec::new()));
}

#[test]
fn text_slice_gives_the_lines_asked_for() {
    let m = Model::new("1\n2\n3\n4\n", "file");
    assert_eq!("2\n3\n", m.get_text_slice(2, 2));
    assert_eq!("3\n4\n", m.get_text_slice(3, 10));
    assert_eq!("", m.get_text_slice(5, 1));
    assert_eq!("", m.get_text_slice(0, 1));
    assert_eq!("", m.get_text_slice(1, 0));
}

#[test]
fn get_char_out_of_range_is_underscore() {
    let m = Model::new("ab\n", "file");
    assert_eq!('b', m.get_char(1, 2));
    assert_eq!('_', m.get_char(1, 3));
    assert_eq!('_', m.get_char(1, 0));
    assert_eq!('_', m.get_char(0, 1));
    assert_eq!('_', m.get_char(2, 1));
}

#[test]
fn line_feed_splits_the_line() {
    let mut m = Model::new("abcd\nxy", "file");
    m.add_char('\n', 1, 3);
    assert_eq!("ab\ncd\nxy\n", m.get_text());
    m.add_char('\n', 3, 3);
    assert_eq!("ab\ncd\nxy\n\n", m.get_text());
    assert_eq!(4, m.get_line_count());
    m.add_char('\n', 1, 1);
    assert_eq!("\nab\ncd\nxy\n\n", m.get_text());
    assert!(!m.get_saved_stat());
}

#[test]
fn line_feed_past_the_last_line_changes_nothing() {
    let mut m = Model::new("a", "file");
    m.add_char('\n', 2, 1);
    m.add_char('\n', 2, 2);
    m.add_char('\n', 3, 1);
    m.add_char('x', 2, 1);
    assert_eq!("a\n", m.get_text());
    assert_eq!(1, m.get_line_count());
    assert!(m.get_saved_stat());
    m.add_char('\n', 1, 2);
    assert_eq!("a\n\n", m.get_text());
    assert_eq!(2, m.get_line_count());
}

#[test]
fn add_char_out_of_range_changes_nothing() {
    let mut m = Model::new("ab", "file");
    m.add_char('x', 0, 1);
    m.add_char('x', 1, 0);
    m.add_char('x', 1, 4);
    m.add_char('x', 2, 1);
    m.add_char('\n', 1, 4);
    m.add_char('\n', 3, 1);
    assert_eq!("ab\n", m.get_text());
    assert!(m.get_saved_stat());
    m.add_char('x', 1, 3);
    assert_eq!("abx\n", m.get_text());
}

#[test]
fn block_with_line_feeds_becomes_lines() {
    let mut m = Model::new("start end\nlast", "file");
    m.add_block(String::from("one\ntwo\nthree "), 1, 7);
    assert_eq!("start one\ntwo\nthree end\nlast\n", m.get_text());
    assert_eq!(4, m.get_line_count());
    m.add_block(String::from("!\n"), 4, 5);
    assert_eq!("start one\ntwo\nthree end\nlast!\n\n", m.get_text());
    m.add_block(String::new(), 1, 1);
    assert_eq!(5, m.get_line_count());
    m.add_block(String::from("x"), 1, 0);
    m.add_block(String::from("x"), 0, 1);
    m.add_block(String::from("x"), 6, 1);
    assert_eq!("start one\ntwo\nthree end\nlast!\n\n", m.get_text());
}

#[test]
fn delete_at_column_one_joins_lines() {
    let mut m = Model::new("abc\nde\nf", "file");
    assert_eq!(5, m.delete_char(2, 1));
    assert_eq!("abcde\nf\n", m.get_text());
    assert_eq!(0, m.delete_char(1, 2));
    assert_eq!("bcde\nf\n", m.get_text());
    assert_eq!(0, m.delete_char(1, 1));
    assert_eq!(0, m.delete_char(1, 6));
    assert_eq!(0, m.delete_char(3, 1));
    assert_eq!(0, m.delete_char(0, 1));
    assert_eq!(0, m.delete_char(1, 0));
    assert_eq!("bcde\nf\n", m.get_text());
    assert_eq!(0, m.delete_char(1, 5));
    assert_eq!("bcd\nf\n", m.get_text());
}

#[test]
fn delete_block_needs_enough_characters() {
    let mut m = Model::new("abcdef", "file");
    m.delete_block(1, 3, 3);
    m.delete_block(1, 3, 2 + 1);
    m.delete_block(1, 8, 2);
    m.delete_block(0, 3, 1);
    m.delete_block(2, 3, 1);
    assert_eq!("abcdef\n", m.get_text());
    assert!(m.get_saved_stat());
    m.delete_block(1, 3, 2);
    assert_eq!("cdef\n", m.get_text());
    m.delete_block(1, 5, 1);
    assert_eq!("cde\n", m.get_text());
}

#[test]
fn delete_char_inverts_add_char() {
    let initial = "First\n\tSecond\n\nlast";
    for (line, len) in [(1usize, 5usize), (2, 7), (3, 0), (4, 4)] {
        for col in 1..=(len + 1) {
            for c in ['x', '\t', ' '] {
                let mut m = Model::new(initial, "file");
                let before = m.get_text();
                m.add_char(c, line, col);
                assert_ne!(before, m.get_text());
                assert_eq!(0, m.delete_char(line, col + 1));
                assert_eq!(before, m.get_text());
            }
        }
    }
}

#[test]
fn delete_line_keeps_the_only_line() {
    let mut m = Model::new("only", "file");
    assert!(!m.delete_line(1));
    assert!(!m.delete_line(0));
    assert!(!m.delete_line(2));
    assert_eq!("only\n", m.get_text());
    assert_eq!(1, m.get_line_count());
    assert!(m.get_saved_stat());
}

#[test]
fn delete_line_scenario() {
    let mut m = Model::new("First\nSecond\nThird\n", "file");
    assert!(m.delete_line(2));
    assert_eq!("First\nThird\n", m.get_text());
    assert!(!m.delete_line(4));
    assert!(!m.delete_line(0));
    assert_eq!("First\nThird\n", m.get_text());
    assert!(m.delete_line(1));
    assert_eq!("Third\n", m.get_text());
}

#[test]
fn undo_restores_what_one_change_changed() {
    let initial = "one\ntwo\nthree";
    let mut m = Model::new(initial, "file");
    let before = m.get_text();

    m.add_char('x', 2, 2);
    m.undo();
    assert_eq!(before, m.get_text());
    assert!(!m.get_saved_stat());

    m.add_char('\n', 2, 2);
    m.undo();
    assert_eq!(before, m.get_text());

    m.add_block(String::from("a\nb"), 3, 1);
    m.undo();
    assert_eq!(before, m.get_text());

    m.delete_char(2, 1);
    m.undo();
    assert_eq!(before, m.get_text());

    m.delete_block(3, 4, 2);
    m.undo();
    assert_eq!(before, m.get_text());

    m.delete_line(1);
    m.undo();
    assert_eq!(before, m.get_text());
}

#[test]
fn undo_twice_is_undo_once() {
    let mut m = Model::new("one\ntwo", "file");
    m.add_char('a', 1, 1);
    m.add_char('b', 1, 1);
    m.undo();
    assert_eq!("aone\ntwo\n", m.get_text());
    m.undo();
    assert_eq!("aone\ntwo\n", m.get_text());
    assert_eq!(2, m.get_line_count());
}

#[test]
fn the_buffer_is_saved_when_it_was_written() {
    let mut m = Model::new("a", "file");
    m.add_char('b', 1, 2);
    assert!(!m.get_saved_stat());
    m.save(false);
    assert!(!m.get_saved_stat());
    m.save(true);
    assert!(m.get_saved_stat());
    m.save(false);
    assert!(m.get_saved_stat());
    assert_eq!("ab\n", m.get_text());
    m.undo();
    assert_eq!("a\n", m.get_text());
}

#[test]
fn backward_search_leaves_a_match_under_the_cursor() {
    let m = Model::new("a", "file");
    let p = m.backward_search("a", Position { line: 1, col: 1 });
    assert_eq!((0, 0), (p.line, p.col));
    let p = m.backward_search("a", Position { line: 1, col: 2 });
    assert_eq!((1, 1), (p.line, p.col));
    let two = Model::new("a\na", "file");
    let p = two.backward_search("a", Position { line: 2, col: 1 });
    assert_eq!((1, 1), (p.line, p.col));
    let p = two.forward_search("a", Position { line: 1, col: 1 });
    assert_eq!((2, 1), (p.line, p.col));
}

#[test]
fn change_text_replaces_the_document() {
    let mut m = Model::new("a", "file");
    m.change_text_for_tests(String::from("x\ny"));
    assert_eq!("x\ny\n", m.get_text());
    m.change_text_for_tests(String::new());
    assert_eq!("\n", m.get_text());
    assert_eq!(1, m.get_line_count());
}

#[test]
fn forward_search_walks_the_document() {
    let m = Model::new(
        "This is a test\nin which we try forward search\nthird line includes test\n\t\tthis test should work with tabs as well\ntesting last line as well",
        "file",
    );
    let p = m.forward_search("test", Position { line: 1, col: 1 });
    assert_eq!((1, 11), (p.line, p.col));
    let p = m.forward_search("test", p);
    assert_eq!((3, 21), (p.line, p.col));
    let p = m.forward_search("test", p);
    assert_eq!((4, 8), (p.line, p.col));
    let p = m.forward_search("test", p);
    assert_eq!((5, 1), (p.line, p.col));
    let p = m.forward_search("test", p);
    assert_eq!((0, 0), (p.line, p.col));
}

#[test]
fn forward_search_starts_behind_the_cursor() {
    let m = Model::new("abab\nab", "file");
    let p = m.forward_search("ab", Position { line: 1, col: 1 });
    assert_eq!((1, 3), (p.line, p.col));
    let p = m.forward_search("ab", Position { line: 1, col: 0 });
    assert_eq!((1, 1), (p.line, p.col));
    let p = m.forward_search("ab", Position { line: 1, col: 9 });
    assert_eq!((2, 1), (p.line, p.col));
    let p = m.forward_search("ab", Position { line: 0, col: 1 });
    assert_eq!((0, 0), (p.line, p.col));
    let p = m.forward_search("ab", Position { line: 3, col: 1 });
    assert_eq!((0, 0), (p.line, p.col));
    let p = m.forward_search("", Position { line: 1, col: 1 });
    assert_eq!((0, 0), (p.line, p.col));
    let p = m.forward_search("abc", Position { line: 1, col: 0 });
    assert_eq!((0, 0), (p.line, p.col));
}

#[test]
fn backward_search_walks_the_document() {
    let m = Model::new("abab\nxx\nab", "file");
    let p = m.backward_search("ab", Position { line: 3, col: 3 });
    assert_eq!((3, 1), (p.line, p.col));
    let p = m.backward_search("ab", Position { line: 3, col: 2 });
    assert_eq!((1, 3), (p.line, p.col));
    let p = m.backward_search("ab", Position { line: 3, col: 1 });
    assert_eq!((1, 3), (p.line, p.col));
    let p = m.backward_search("ab", Position { line: 1, col: 4 });
    assert_eq!((1, 1), (p.line, p.col));
    let p = m.backward_search("ab", Position { line: 1, col: 3 });
    assert_eq!((1, 1), (p.line, p.col));
    let p = m.backward_search("ab", Position { line: 1, col: 2 });
    assert_eq!((0, 0), (p.line, p.col));
    let p = m.backward_search("ab", Position { line: 1, col: 1 });
    assert_eq!((0, 0), (p.line, p.col));
    let p = m.backward_search("ab", Position { line: 1, col: 0 });
    assert_eq!((0, 0), (p.line, p.col));
    let p = m.backward_search("ab", Position { line: 4, col: 1 });
    assert_eq!((0, 0), (p.line, p.col));
    let p = m.backward_search("", Position { line: 3, col: 2 });
    assert_eq!((0, 0), (p.line, p.col));
    let p = m.backward_search("ab", Position { line: 1, col: 100 });
    assert_eq!((1, 3), (p.line, p.col));
}

#[test]
fn find_and_rfind_give_first_and_last() {
    let hay = chars("abcabc");
    assert_eq!(Some(0), find(&hay, &chars("abc"), 0));
    assert_eq!(Some(3), find(&hay, &chars("abc"), 1));
    assert_eq!(None, find(&hay, &chars("abc"), 4));
    assert_eq!(None, find(&hay, &chars("abd"), 0));
    assert_eq!(Some(6), find(&hay, &chars(""), 6));
    assert_eq!(None, find(&hay, &chars(""), 7));
    assert_eq!(Some(3), rfind(&hay, &chars("abc"), 6));
    assert_eq!(Some(0), rfind(&hay, &chars("abc"), 5));
    assert_eq!(None, rfind(&hay, &chars("abc"), 2));
    assert_eq!(Some(3), rfind(&hay, &chars("abc"), 100));
}

#[test]
fn visual_columns_count_tabs() {
    let line = chars("abc\tdef\tg");
    assert_eq!(0, text_to_visual(&line, 0, 4));
    assert_eq!(3, text_to_visual(&line, 3, 4));
    assert_eq!(7, text_to_visual(&line, 4, 4));
    assert_eq!(8, text_to_visual(&line, 5, 4));
    assert_eq!(15, text_to_visual(&line, 9, 4));
    assert_eq!(16, text_to_visual(&line, 10, 4));
    assert_eq!(16, text_to_visual(&line, 20, 4));
    assert_eq!(11, text_to_visual(&line, 4, 8));
    assert_eq!(1, text_to_visual(&chars(""), 1, 4));
    assert_eq!(usize::MAX, text_to_visual(&chars("\t\t"), 2, usize::MAX));
}

#[test]
fn text_columns_stop_at_the_line() {
    let line = chars("\tthis is a tab");
    assert_eq!(0, visual_to_text(&line, 0, 4));
    assert_eq!(1, visual_to_text(&line, 1, 4));
    assert_eq!(1, visual_to_text(&line, 4, 4));
    assert_eq!(2, visual_to_text(&line, 5, 4));
    assert_eq!(9, visual_to_text(&line, 12, 4));
    assert_eq!(14, visual_to_text(&line, 17, 4));
    assert_eq!(14, visual_to_text(&line, 1000, 4));
    assert_eq!(0, visual_to_text(&chars(""), 5, 4));
}

#[test]
fn columns_round_trip() {
    for line in ["", "plain", "\t", "a\tb\t\tc", "\t\t\t_test", "tab at the end\t"] {
        let line = chars(line);
        for tab in [1usize, 2, 4, 8] {
            for col in 0..=line.len() {
                let visual = text_to_visual(&line, col, tab);
                assert_eq!(col, visual_to_text(&line, visual, tab));
            }
        }
    }
}

#[test]
fn sums_stop_at_the_largest_number() {
    assert_eq!(5, sat_add(2, 3));
    assert_eq!(usize::MAX, sat_add(usize::MAX, 1));
    assert_eq!(usize::MAX, sat_add(usize::MAX - 1, 1));
    assert_eq!(usize::MAX, sat_add(3, usize::MAX - 1));
}

#[test]
fn digits_are_counted() {
    assert_eq!(0, number_of_digits(0));
    assert_eq!(1, number_of_digits(9));
    assert_eq!(2, number_of_digits(10));
    assert_eq!(3, number_of_digits(999));
    assert_eq!(4, number_of_digits(1000));
}

#[test]
fn white_space_is_what_the_language_calls_so() {
    let mut n: u32 = 0;
    let mut count = 0;
    while n <= 0x10ffff {
        if let Some(c) = char::from_u32(n) {
            assert_eq!(c.is_whitespace(), char_is_whitespace(c));
            if char_is_whitespace(c) {
                count += 1;
            }
        }
        n += 1;
    }
    assert_eq!(25, count);
}

#[test]
fn a_document_written_out_and_read_again_is_the_same() {
    let mut m = Model::new("first\n\tsecond\n\nlast", "file");
    m.add_char('\n', 2, 4);
    m.add_block(String::from("a\nb\n"), 1, 3);
    m.delete_char(5, 1);
    let text = m.get_text();
    let again = Model::new(&text, "file");
    assert_eq!(m.get_line_count(), again.get_line_count());
    for line in 1..=m.get_line_count() {
        assert_eq!(m.get_line(line), again.get_line(line));
    }
    assert_eq!(text, again.get_text());
    assert!(m.is_sound());
}

#[test]
fn word_breaks_are_spaces_and_tabs() {
    let line = chars("ab cd\tef");
    assert_eq!(2, find_break(&line, 0));
    assert_eq!(2, find_break(&line, 2));
    assert_eq!(5, find_break(&line, 3));
    assert_eq!(8, find_break(&line, 6));
    assert_eq!(8, find_break(&line, 100));
    assert_eq!(Some(5), rfind_break(&line, 8));
    assert_eq!(Some(5), rfind_break(&line, 6));
    assert_eq!(Some(2), rfind_break(&line, 5));
    assert_eq!(None, rfind_break(&line, 2));
    assert_eq!(None, rfind_break(&line, 0));
    assert_eq!(Some(5), rfind_break(&line, 100));
}
