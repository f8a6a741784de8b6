use repl_lib::Line;

#[test]
fn new_line_is_empty_with_cursor_zero() {
    let line = Line::new();
    assert_eq!(line.text().len(), 0);
    assert_eq!(line.cursor(), 0);
}

#[test]
fn insert_appends_at_cursor_and_advances() {
    let mut line = Line::new();
    line.insert_char('a');
    line.insert_char('b');
    assert_eq!(line.text(), &vec!['a', 'b']);
    assert_eq!(line.cursor(), 2);
}

#[test]
fn insert_in_middle() {
    let mut line = Line::new();
    line.insert_char('a');
    line.insert_char('b');
    line.move_left();
    line.insert_char('c');
    assert_eq!(line.text(), &vec!['a', 'c', 'b']);
    assert_eq!(line.cursor(), 2);
}

#[test]
fn backspace_removes_before_cursor() {
    let mut line = Line::new();
    line.insert_char('a');
    line.insert_char('b');
    line.backspace();
    assert_eq!(line.text(), &vec!['a']);
    assert_eq!(line.cursor(), 1);
}

#[test]
fn backspace_on_empty_is_noop() {
    let mut line = Line::new();
    line.backspace();
    assert_eq!(line.text().len(), 0);
    assert_eq!(line.cursor(), 0);
}

#[test]
fn backspace_at_start_is_noop() {
    let mut line = Line::new();
    line.insert_char('a');
    line.move_left();
    line.backspace();
    assert_eq!(line.text(), &vec!['a']);
    assert_eq!(line.cursor(), 0);
}

// Cursor stays within [0, text.len()] across a mixed sequence of inserts
// and backspaces.
#[test]
fn cursor_stays_in_bounds() {
    let mut line = Line::new();
    let bytes = [b'a', 0u8, b'b', 0, 0, b'c', 0, 0, 0, 0];
    for b in bytes {
        if b == 0 {
            line.backspace();
        } else {
            line.insert_char(b as char);
        }
        assert!(line.cursor() <= line.text().len());
    }
}

// Inserting n characters then issuing n backspaces returns the buffer to
// empty text with cursor zero.
#[test]
fn inserts_then_backspaces_return_to_empty() {
    let mut line = Line::new();
    let chars = ['x', 'y', 'z', '(', ')'];
    for c in chars {
        line.insert_char(c);
    }
    for _ in 0..chars.len() {
        line.backspace();
    }
    assert_eq!(line.text().len(), 0);
    assert_eq!(line.cursor(), 0);
}

#[test]
fn move_left_and_right_clamp_at_bounds() {
    let mut line = Line::new();
    line.move_left();
    assert_eq!(line.cursor(), 0);
    line.move_right();
    assert_eq!(line.cursor(), 0);
    line.insert_char('q');
    line.move_right();
    assert_eq!(line.cursor(), 1);
    line.move_left();
    assert_eq!(line.cursor(), 0);
    line.move_left();
    assert_eq!(line.cursor(), 0);
}

#[test]
fn set_cursor_to_start_and_end() {
    let mut line = Line::new();
    line.insert_char('a');
    line.insert_char('b');
    line.insert_char('c');
    line.set_cursor_to_start();
    assert_eq!(line.cursor(), 0);
    line.set_cursor_to_end();
    assert_eq!(line.cursor(), 3);
}

#[test]
fn text_copy_matches_text() {
    let mut line = Line::new();
    line.insert_char('h');
    line.insert_char('i');
    assert_eq!(line.text_copy(), vec!['h', 'i']);
}
