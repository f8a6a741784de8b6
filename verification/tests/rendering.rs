use repl_lib::complete::{AlwaysComplete, EchoProcessor};
use repl_lib::render::{push_dec, render_redraw};
use repl_lib::Repl;

fn chars(s: &str) -> Vec<char> {
    s.chars().collect()
}

#[test]
fn redraw_with_cursor_at_end_has_no_move() {
    let out = render_redraw(&chars("> "), &chars("ab"), 2);
    assert_eq!(out, chars("\r> ab\u{1b}[K"));
}

#[test]
fn redraw_with_cursor_inside_moves_left() {
    // Two characters between cursor and text end.
    let out = render_redraw(&chars("> "), &chars("abc"), 1);
    assert_eq!(out, chars("\r> abc\u{1b}[K\u{1b}[2D"));
}

#[test]
fn redraw_move_count_uses_decimal_digits() {
    let text: Vec<char> = std::iter::repeat('x').take(12).collect();
    let out = render_redraw(&chars(""), &text, 0);
    assert_eq!(out, chars("\rxxxxxxxxxxxx\u{1b}[K\u{1b}[12D"));
}

#[test]
fn redraw_of_empty_line() {
    let out = render_redraw(&chars("> "), &Vec::new(), 0);
    assert_eq!(out, chars("\r> \u{1b}[K"));
}

#[test]
fn decimal_digits_render_exactly() {
    let mut out: Vec<char> = Vec::new();
    push_dec(&mut out, 0);
    assert_eq!(out, chars("0"));
    let mut out: Vec<char> = Vec::new();
    push_dec(&mut out, 907);
    assert_eq!(out, chars("907"));
    let mut out: Vec<char> = Vec::new();
    push_dec(&mut out, 10);
    assert_eq!(out, chars("10"));
}

#[test]
fn engine_renders_its_current_line() {
    let mut repl =
        Repl::new(chars("> "), chars(""), chars(""), EchoProcessor {}, AlwaysComplete {});
    repl.process_byte(b'h').unwrap();
    repl.process_byte(b'i').unwrap();
    assert_eq!(repl.render_current(), chars("\r> hi\u{1b}[K"));
    repl.process_byte(0x01).unwrap();
    assert_eq!(repl.render_current(), chars("\r> hi\u{1b}[K\u{1b}[2D"));
}
