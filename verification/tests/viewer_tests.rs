use ente::keyconfig;
use ente::viewer::{compare_cursors, Action, Colors, Cursor, Mode, Viewer, DEFAULT_TAB_SPACES};

const TERM_HEIGHT: usize = 24;
const TERM_WIDTH: usize = 80;

#[test]
fn test_new() {
    let name = String::from("name");
    let actions = keyconfig::new();
    let colors = Colors::new();

    let mut test_view = Viewer::new("", "", name,
                                    actions,
                                    colors,
                                    false,
                                    false,
                                    DEFAULT_TAB_SPACES, TERM_HEIGHT, TERM_WIDTH);
    test_view.model.change_text_for_tests(String::from("test"));

    assert_eq!("test\n", test_view.text());
    assert_eq!(1, test_view.cursor.col);
    assert_eq!(1, test_view.cursor.line);
}


#[test]
fn test_cursor() {
    let name = String::from("name");
    let actions = keyconfig::new();
    let colors = Colors::new();
    let mut test_cursor = Cursor { line: 1, col: 1 };
    let mut view_cursor: Cursor;

    let mut test_view = Viewer::new("", "", name,
                                    actions,
                                    colors,
                                    false,
                                    false,
                                    DEFAULT_TAB_SPACES, TERM_HEIGHT, TERM_WIDTH);
    test_view.model.change_text_for_tests(String::from("test
second line"));

    // Init at 1,1
    view_cursor = test_view.get_cursor();
    assert!(compare_cursors(&view_cursor, &test_cursor));

    // Move Down
    test_view.move_cursor(Action::MoveDown);
    view_cursor = test_view.get_cursor();
    test_cursor.line = 2;
    assert!(compare_cursors(&view_cursor, &test_cursor));

    // Move Left, twice
    test_view.move_cursor(Action::MoveLeft);
    test_view.move_cursor(Action::MoveLeft);
    view_cursor = test_view.get_cursor();
    test_cursor.col = 1;
    assert!(compare_cursors(&view_cursor, &test_cursor));

    // Move Right, thrice
    test_view.move_cursor(Action::MoveRight);
    test_view.move_cursor(Action::MoveRight);
    test_view.move_cursor(Action::MoveRight);
    view_cursor = test_view.get_cursor();
    test_cursor.col = 4;
    assert!(compare_cursors(&view_cursor, &test_cursor));

    // Move Up
    test_view.move_cursor(Action::MoveUp);
    view_cursor = test_view.get_cursor();
    test_cursor.line = 1;
    assert!(compare_cursors(&view_cursor, &test_cursor));
}

#[test]
fn test_pageup_pagedown() {
    let mut text = String::from("test");
    // Increase number of lines in text
    for _ in 0..200 {
        text.push_str("line\n");
    }

    let name = String::from("name");
    let actions = keyconfig::new();
    let colors = Colors::new();
    let mut test_cursor = Cursor { line: 1, col: 1 };
    let mut view_cursor: Cursor;

    let mut test_view = Viewer::new("", "", name,
                                    actions,
                                    colors,
                                    false,
                                    false,
                                    DEFAULT_TAB_SPACES, TERM_HEIGHT, TERM_WIDTH);
    test_view.model.change_text_for_tests(text);

    // Init at 1,1
    view_cursor = test_view.get_cursor();
    assert!(compare_cursors(&view_cursor, &test_cursor));

    // Move Page Down
    test_view.move_cursor(Action::MovePageDown);
    view_cursor = test_view.get_cursor();
    test_cursor.line = 1 + test_view.height;
    assert!(compare_cursors(&view_cursor, &test_cursor));

    // Move Page Up
    test_view.move_cursor(Action::MovePageUp);
    test_view.move_cursor(Action::MovePageUp);
    view_cursor = test_view.get_cursor();
    test_cursor.line = 1;
    assert!(compare_cursors(&view_cursor, &test_cursor));
}

#[test]
fn test_start_end_line() {
    let text = String::from("this text is 30 characters long");
    let name = String::from("name");
    let actions = keyconfig::new();
    let colors = Colors::new();
    let mut test_cursor = Cursor { line: 1, col: 1 };
    let mut view_cursor: Cursor;

    let mut test_view = Viewer::new("", "", name,
                                    actions,
                                    colors,
                                    false,
                                    false,
                                    DEFAULT_TAB_SPACES, TERM_HEIGHT, TERM_WIDTH);
    test_view.model.change_text_for_tests(text);

    // Init at 1,1
    view_cursor = test_view.get_cursor();
    assert!(compare_cursors(&view_cursor, &test_cursor));

    // Move End Line
    test_view.move_cursor(Action::MoveEndLine);
    view_cursor = test_view.get_cursor();
    test_cursor.col = 31;
    assert!(compare_cursors(&view_cursor, &test_cursor));

    // Move Start Line
    test_view.move_cursor(Action::MoveStartLine);
    view_cursor = test_view.get_cursor();
    test_cursor.col = 1;
    assert!(compare_cursors(&view_cursor, &test_cursor));
}

#[test]
fn test_start_end_file() {
    let mut text = String::from("");
    // Increase number of lines in text
    for n in 0..50 {
        text.push_str(format!("line {}\n", n).as_ref());
    }

    let name = String::from("name");
    let actions = keyconfig::new();
    let colors = Colors::new();
    let mut test_cursor = Cursor { line: 1, col: 1 };
    let mut view_cursor: Cursor;

    let mut test_view = Viewer::new("", "", name,
                                    actions,
                                    colors,
                                    false,
                                    false,
                                    DEFAULT_TAB_SPACES, TERM_HEIGHT, TERM_WIDTH);
    test_view.model.change_text_for_tests(text);

    // Init at 1,1
    view_cursor = test_view.get_cursor();
    assert!(compare_cursors(&view_cursor, &test_cursor));

    // Move End Line
    test_view.move_cursor(Action::MoveEndFile);
    view_cursor = test_view.get_cursor();
    test_cursor.line = 50;
    test_cursor.col = 7;
    assert!(compare_cursors(&view_cursor, &test_cursor));

    // Move Start Line
    test_view.move_cursor(Action::MoveStartFile);
    view_cursor = test_view.get_cursor();
    test_cursor.col = 1;
    test_cursor.line = 1;
    assert!(compare_cursors(&view_cursor, &test_cursor));
}

#[test]
fn test_match_cursor_text() {
    let text = String::from("abc\tdef\tg");
    let name = String::from("name");
    let actions = keyconfig::new();
    let colors = Colors::new();
    let mut test_view = Viewer::new("", "", name,
                                    actions,
                                    colors,
                                    false,
                                    false,
                                    DEFAULT_TAB_SPACES, TERM_HEIGHT, TERM_WIDTH);
    test_view.model.change_text_for_tests(text);

    assert_eq!(3, test_view.match_cursor_text(3));
    assert_eq!(4 + test_view.tab_size, test_view.match_cursor_text(5));
    assert_eq!(7 + (test_view.tab_size * 2),
               test_view.match_cursor_text(9));
    assert_eq!(1 + 7 + (test_view.tab_size * 2),
               test_view.match_cursor_text(20));
}

#[test]
fn test_match_cursor_text_start_with_tab() {
    let text = String::from("\t\t\t_test");
    let name = String::from("name");
    let actions = keyconfig::new();
    let colors = Colors::new();
    let mut test_view = Viewer::new("", "", name,
                                    actions,
                                    colors,
                                    false,
                                    false,
                                    DEFAULT_TAB_SPACES, TERM_HEIGHT, TERM_WIDTH);
    test_view.model.change_text_for_tests(text);

    assert_eq!(test_view.tab_size, test_view.match_cursor_text(1));
    assert_eq!(test_view.tab_size * 2, test_view.match_cursor_text(2));
    assert_eq!(test_view.tab_size * 3, test_view.match_cursor_text(3));
    assert_eq!(1 + (test_view.tab_size * 3),
               test_view.match_cursor_text(4));
    assert_eq!(2 + (test_view.tab_size * 3),
               test_view.match_cursor_text(5));
    assert_eq!(5 + (test_view.tab_size * 3),
               test_view.match_cursor_text(8));
    assert_eq!(6 + (test_view.tab_size * 3),
               test_view.match_cursor_text(9));
}

#[test]
fn test_set_current_line() {
    let text = String::from("First
Second length 16
\tThird Line length 20

Fifth 7");
    let name = String::from("name");
    let actions = keyconfig::new();
    let colors = Colors::new();
    let mut test_view = Viewer::new("", "", name,
                                    actions,
                                    colors,
                                    false,
                                    false,
                                    DEFAULT_TAB_SPACES, TERM_HEIGHT, TERM_WIDTH);
    test_view.model.change_text_for_tests(text);

    test_view.set_current_line(2); // move to line 2
    assert_eq!(16, test_view.cur_line_len());
    test_view.set_current_line(3); // move to line 3 (with tab)
    test_view.move_cursor(Action::MoveEndLine); // move to end of line
    assert_eq!(21, test_view.cur_line_len());
    assert_eq!(24, test_view.cursor.col);

    test_view.set_current_line(5); // move to shorter line 5
    assert_eq!(7, test_view.cur_line_len());
    assert_eq!(7, test_view.cursor.col);

    test_view.mode = Mode::Edit; // change mode to edit

    test_view.set_current_line(2); // move to line 2
    assert_eq!(17, test_view.cur_line_len());
    assert_eq!(7, test_view.cursor.col);
    test_view.move_cursor(Action::MoveEndLine); // move to end of line
    assert_eq!(17, test_view.cursor.col);
    test_view.set_current_line(3); // move to line 3
    assert_eq!(22, test_view.cur_line_len());
    test_view.move_cursor(Action::MoveEndLine); // move to end of line

    test_view.set_current_line(5); // move to shorter line 5
    assert_eq!(8, test_view.cur_line_len());

    test_view.move_cursor_left(); // move left twice
    test_view.move_cursor_left();
    assert_eq!(6, test_view.cursor.col);

    test_view.set_current_line(4); // move to empty line 4
    assert_eq!(1, test_view.cursor.col);
}

#[test]
fn test_match_text_cursor() {
    let text = String::from("First line\n\tthis is a tab");
    let name = String::from("name");
    let actions = keyconfig::new();
    let colors = Colors::new();
    let mut test_view = Viewer::new("", "", name,
                                    actions,
                                    colors,
                                    false,
                                    false,
                                    DEFAULT_TAB_SPACES, TERM_HEIGHT, TERM_WIDTH);
    test_view.model.change_text_for_tests(text);

    assert_eq!(1, test_view.match_text_cursor(1));
    assert_eq!(10, test_view.match_text_cursor(10));

    test_view.set_current_line(2);

    assert_eq!(1, test_view.match_text_cursor(4));
    assert_eq!(9, test_view.match_text_cursor(12));
}

#[test]
fn test_do_forward_search() {
    let text = String::from("This is a test
in which we try forward search
third line includes test
\t\tthis test should work with tabs as well
testing last line as well");
    let name = String::from("name");
    let actions = keyconfig::new();
    let colors = Colors::new();
    let mut test_view = Viewer::new("", "", name,
                                    actions,
                                    colors,
                                    false,
                                    false,
                                    DEFAULT_TAB_SPACES, TERM_HEIGHT, TERM_WIDTH);
    test_view.model.change_text_for_tests(text);

    // first result
    test_view.search_string = "test".chars().collect();
    test_view.do_forward_search();
    assert_eq!(1, test_view.cursor.line);
    assert_eq!(11, test_view.cursor.col);

    // next result
    test_view.do_forward_search();
    assert_eq!(3, test_view.cursor.line);
    assert_eq!(21, test_view.cursor.col);

    // third result
    test_view.do_forward_search();
    assert_eq!(4, test_view.cursor.line);
    assert_eq!(14, test_view.cursor.col);

    // last result
    test_view.do_forward_search();
    assert_eq!(5, test_view.cursor.line);
    assert_eq!(1, test_view.cursor.col);

    // no more results
    test_view.do_forward_search();
    assert_eq!(5, test_view.cursor.line);
    assert_eq!(1, test_view.cursor.col);
}

#[test]
fn test_do_backward_search() {
    let text = String::from("This is a test
in which we try forward search
third line includes test
\t\tthis test should work with tabs as well
testing last line as well");
    let name = String::from("name");
    let actions = keyconfig::new();
    let colors = Colors::new();
    let mut test_view = Viewer::new("", "", name,
                                    actions,
                                    colors,
                                    false,
                                    false,
                                    DEFAULT_TAB_SPACES, TERM_HEIGHT, TERM_WIDTH);
    test_view.model.change_text_for_tests(text);

    test_view.move_cursor_end_file();
    assert_eq!(5, test_view.cursor.line);
    assert_eq!(25, test_view.cursor.col);

    // first result
    test_view.search_string = "test".chars().collect();
    test_view.do_backward_search();
    assert_eq!(5, test_view.cursor.line);
    assert_eq!(1, test_view.cursor.col);

    // next result
    test_view.do_backward_search();
    assert_eq!(4, test_view.cursor.line);
    assert_eq!(14, test_view.cursor.col);

    // third result
    test_view.do_backward_search();
    assert_eq!(3, test_view.cursor.line);
    assert_eq!(21, test_view.cursor.col);

    // last result
    test_view.do_backward_search();
    assert_eq!(1, test_view.cursor.line);
    assert_eq!(11, test_view.cursor.col);

    // no more results
    test_view.do_backward_search();
    assert_eq!(1, test_view.cursor.line);
    assert_eq!(11, test_view.cursor.col);
}

#[test]
fn test_move_next_word() {
    let text = String::from("This is a test
\t\tfor move next word
third line");
    let name = String::from("name");
    let actions = keyconfig::new();
    let colors = Colors::new();
    let mut test_view = Viewer::new("", "", name,
                                    actions,
                                    colors,
                                    false,
                                    false,
                                    DEFAULT_TAB_SPACES, TERM_HEIGHT, TERM_WIDTH);
    test_view.model.change_text_for_tests(text);

    // first line
    test_view.move_next_word();
    assert_eq!(6, test_view.cursor.col);
    test_view.move_next_word();
    assert_eq!(9, test_view.cursor.col);
    test_view.move_next_word();
    assert_eq!(11, test_view.cursor.col);

    // second line
    test_view.move_next_word();
    assert_eq!(2, test_view.cursor.line);
    test_view.move_next_word();
    assert_eq!(9, test_view.cursor.col);
    test_view.move_next_word();
    assert_eq!(13, test_view.cursor.col);
    test_view.move_next_word();
    assert_eq!(18, test_view.cursor.col);
    test_view.move_next_word();
    assert_eq!(23, test_view.cursor.col);

    // last line
    test_view.move_next_word();
    assert_eq!(3, test_view.cursor.line);
    assert_eq!(1, test_view.cursor.col);
    test_view.move_next_word();
    assert_eq!(7, test_view.cursor.col);
}

#[test]
fn test_move_prev_word() {
    let text = String::from("This is a test
\t\tfor move next word
third line");
    let name = String::from("name");
    let actions = keyconfig::new();
    let colors = Colors::new();
    let mut test_view = Viewer::new("", "", name,
                                    actions,
                                    colors,
                                    false,
                                    false,
                                    DEFAULT_TAB_SPACES, TERM_HEIGHT, TERM_WIDTH);
    test_view.model.change_text_for_tests(text);

    test_view.move_cursor_end_file();
    assert_eq!(3, test_view.cursor.line);
    assert_eq!(10, test_view.cursor.col);

    // third line
    test_view.move_prev_word();
    assert_eq!(7, test_view.cursor.col);
    test_view.move_prev_word();
    assert_eq!(1, test_view.cursor.col);

    // second line
    test_view.move_prev_word();
    assert_eq!(2, test_view.cursor.line);
    assert_eq!(23, test_view.cursor.col);
    test_view.move_prev_word();
    assert_eq!(18, test_view.cursor.col);
    test_view.move_prev_word();
    assert_eq!(13, test_view.cursor.col);
    test_view.move_prev_word();
    assert_eq!(9, test_view.cursor.col);
    test_view.move_prev_word();
    test_view.move_prev_word();

    // first line
    test_view.move_prev_word();
    assert_eq!(1, test_view.cursor.line);
    assert_eq!(11, test_view.cursor.col);
    test_view.move_prev_word();
    assert_eq!(9, test_view.cursor.col);
    test_view.move_prev_word();
    assert_eq!(6, test_view.cursor.col);
    test_view.move_prev_word();
    assert_eq!(1, test_view.cursor.col);
}

#[test]
fn test_delete_end_of_line() {
    let text = String::from("This is a test
\t\tfor delete end of line");
    let name = String::from("name");
    let actions = keyconfig::new();
    let colors = Colors::new();
    let mut test_view = Viewer::new("", "", name,
                                    actions,
                                    colors,
                                    false,
                                    false,
                                    DEFAULT_TAB_SPACES, TERM_HEIGHT, TERM_WIDTH);
    test_view.model.change_text_for_tests(text);

    // Delete end of line after first word
    test_view.move_next_word();
    test_view.delete_end_of_line();

    assert_eq!(test_view.text(),
               "This i
\t\tfor delete end of line\n");
    assert_eq!(6, test_view.cur_line_len());
    // Cursor and text column are the same when the line doesn't have tabs
    assert_eq!(test_view.cursor.col, test_view.cur_line_len());
    assert_eq!(test_view.text_col, test_view.cur_line_len());

    // Switch to Edit mode
    // Delete end of second line after 'f'
    test_view.mode = Mode::Edit;
    test_view.move_cursor(Action::MoveDown);
    test_view.move_cursor_start_line();
    test_view.move_cursor_right();
    test_view.move_cursor_right();

    test_view.delete_end_of_line();
    assert_eq!(test_view.text(),
               "This i
\t\tf\n");
    // Text column + 1 because we are in Edit Mode
    assert_eq!(test_view.text_col + 1, test_view.cur_line_len());
}

#[test]
fn test_copy_paste() {
    let text = String::from("\t\t_test for copy and paste
middle line
last line_");
    let name = String::from("name");
    let actions = keyconfig::new();
    let colors = Colors::new();
    let mut test_view = Viewer::new("", "", name,
                                    actions,
                                    colors,
                                    false,
                                    false,
                                    DEFAULT_TAB_SPACES, TERM_HEIGHT, TERM_WIDTH);
    test_view.model.change_text_for_tests(text);

    test_view.mode = Mode::Edit;
    test_view.move_cursor_right();
    test_view.move_cursor_right();
    test_view.move_cursor_right();
    test_view.select_copy_start_marker();

    test_view.move_cursor_end_file();
    test_view.move_cursor_left();
    test_view.move_cursor_left();
    test_view.select_copy_end_marker();
    test_view.move_cursor_end_file();

    test_view.add_char('\n');
    test_view.paste();

    assert_eq!("\t\t_test for copy and paste
middle line
last line_
test for copy and paste
middle line
last line\n", test_view.text());
}

#[test]
fn test_add_char() {
    let text = String::from("New test text");
    let mut test_view = Viewer::new("", "", String::from("name"),
                                    keyconfig::new(),
                                    Colors::new(),
                                    false,
                                    false,
                                    DEFAULT_TAB_SPACES, TERM_HEIGHT, TERM_WIDTH);
    test_view.model.change_text_for_tests(text);
    test_view.switch_mode(Action::EditMode);

    assert_eq!("New test text\n", test_view.text());
    assert_eq!(14, test_view.cur_line_len());

    test_view.add_char('_');
    assert_eq!("_New test text\n", test_view.text());
    assert_eq!(15, test_view.cur_line_len());

    test_view.move_cursor_right();
    test_view.move_cursor_right();
    test_view.add_char('_');
    assert_eq!("_Ne_w test text\n", test_view.text());
    assert_eq!(16, test_view.cur_line_len());

    test_view.move_cursor_end_line();
    test_view.add_char('_');
    assert_eq!("_Ne_w test text_\n", test_view.text());
}

#[test]
fn test_add_tab() {
    let text = String::from("New test text");
    let mut test_view = Viewer::new("", "", String::from("name"),
                                    keyconfig::new(),
                                    Colors::new(),
                                    false,
                                    false,
                                    DEFAULT_TAB_SPACES, TERM_HEIGHT, TERM_WIDTH);
    test_view.model.change_text_for_tests(text);

    test_view.switch_mode(Action::EditMode);
    assert_eq!("New test text\n", test_view.text());
    assert_eq!(14, test_view.cur_line_len());

    test_view.add_tab_spaces();
    assert_eq!("    New test text\n", test_view.text());
    assert_eq!(18, test_view.cur_line_len());

    test_view.move_cursor_right();
    test_view.move_cursor_right();
    test_view.add_tab_spaces();
    assert_eq!("    Ne    w test text\n", test_view.text());
    assert_eq!(22, test_view.cur_line_len());

    test_view.move_cursor_end_line();
    test_view.add_tab_spaces();
    assert_eq!("    Ne    w test text    \n", test_view.text());
    assert_eq!(26, test_view.cur_line_len());
}
