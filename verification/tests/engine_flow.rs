use repl_lib::complete::{AlwaysComplete, EchoProcessor, NonEmptyProcessor, ParenCompletion};
use repl_lib::{Error, Repl, Step};

const ESC: u8 = 0x1b;

fn chars(s: &str) -> Vec<char> {
    s.chars().collect()
}

fn echo_engine() -> Repl<EchoProcessor, AlwaysComplete> {
    Repl::new(chars("> "), chars("banner"), chars("welcome"), EchoProcessor {}, AlwaysComplete {})
}

fn paren_engine() -> Repl<EchoProcessor, ParenCompletion> {
    Repl::new(chars("> "), chars("banner"), chars("welcome"), EchoProcessor {}, ParenCompletion {})
}

// Predicate always-true, input bytes "hello\n": the engine returns "hello".
#[test]
fn hello_line_completes() {
    let mut repl = echo_engine();
    for b in b"hello" {
        assert_eq!(repl.process_byte(*b).unwrap(), Step::Redraw);
    }
    let step = repl.process_byte(b'\n').unwrap();
    assert_eq!(step, Step::Done(chars("hello")));
    // A fresh empty entry was appended and made current.
    assert_eq!(repl.lines_len(), 2);
    assert_eq!(repl.current_index(), 1);
    assert_eq!(repl.get_line(1).unwrap().text().len(), 0);
}

#[test]
fn carriage_return_also_completes() {
    let mut repl = echo_engine();
    repl.process_byte(b'o').unwrap();
    repl.process_byte(b'k').unwrap();
    assert_eq!(repl.process_byte(b'\r').unwrap(), Step::Done(chars("ok")));
}

// Unbalanced "(\n" defers completion: the newline is inserted literally and
// no line is emitted; "x)\n" then balances and the whole text is returned.
#[test]
fn paren_balance_defers_completion() {
    let mut repl = paren_engine();
    assert_eq!(repl.process_byte(b'(').unwrap(), Step::Redraw);
    let step = repl.process_byte(b'\n').unwrap();
    assert_eq!(step, Step::Quiet);
    assert_eq!(repl.get_line(0).unwrap().text(), &chars("(\n"));
    assert_eq!(repl.lines_len(), 1);
    repl.process_byte(b'x').unwrap();
    repl.process_byte(b')').unwrap();
    let step = repl.process_byte(b'\n').unwrap();
    assert_eq!(step, Step::Done(chars("(\nx)")));
}

// Up-arrow at the first history entry is a no-op: the index stays 0.
#[test]
fn up_arrow_at_first_entry_is_noop() {
    let mut repl = echo_engine();
    assert_eq!(repl.current_index(), 0);
    assert_eq!(repl.process_byte(ESC).unwrap(), Step::Quiet);
    assert_eq!(repl.process_byte(b'[').unwrap(), Step::Quiet);
    let step = repl.process_byte(b'A').unwrap();
    assert_eq!(step, Step::Quiet);
    assert_eq!(repl.current_index(), 0);
    assert_eq!(repl.lines_len(), 1);
}

// Down-arrow at the last entry appends a second empty entry and makes it
// current.
#[test]
fn down_arrow_at_last_entry_appends_fresh_line() {
    let mut repl = echo_engine();
    repl.process_byte(ESC).unwrap();
    repl.process_byte(b'[').unwrap();
    let step = repl.process_byte(b'B').unwrap();
    assert_eq!(step, Step::Redraw);
    assert_eq!(repl.lines_len(), 2);
    assert_eq!(repl.current_index(), 1);
    assert_eq!(repl.get_line(1).unwrap().text().len(), 0);
    // The repaint shows an empty prompt line.
    assert_eq!(repl.render_current(), chars("\r> \u{1b}[K"));
}

#[test]
fn up_then_down_moves_between_entries() {
    let mut repl = echo_engine();
    for b in b"one\n" {
        repl.process_byte(*b).unwrap();
    }
    assert_eq!(repl.current_index(), 1);
    repl.process_byte(ESC).unwrap();
    repl.process_byte(b'[').unwrap();
    assert_eq!(repl.process_byte(b'A').unwrap(), Step::Redraw);
    assert_eq!(repl.current_index(), 0);
    assert_eq!(repl.get_line(0).unwrap().text(), &chars("one"));
    repl.process_byte(ESC).unwrap();
    repl.process_byte(b'[').unwrap();
    assert_eq!(repl.process_byte(b'B').unwrap(), Step::Redraw);
    assert_eq!(repl.current_index(), 1);
}

// Text "ab" with the cursor at the end; left-arrow then 'c' puts the cursor
// at 1, inserts before 'b', and leaves "acb" with the cursor at 2.
#[test]
fn left_arrow_then_insert() {
    let mut repl = echo_engine();
    repl.process_byte(b'a').unwrap();
    repl.process_byte(b'b').unwrap();
    assert_eq!(repl.get_line(0).unwrap().cursor(), 2);
    repl.process_byte(ESC).unwrap();
    repl.process_byte(b'[').unwrap();
    assert_eq!(repl.process_byte(b'D').unwrap(), Step::Redraw);
    assert_eq!(repl.get_line(0).unwrap().cursor(), 1);
    assert_eq!(repl.process_byte(b'c').unwrap(), Step::Redraw);
    let line = repl.get_line(0).unwrap();
    assert_eq!(line.text(), &chars("acb"));
    assert_eq!(line.cursor(), 2);
}

#[test]
fn right_arrow_moves_cursor() {
    let mut repl = echo_engine();
    repl.process_byte(b'a').unwrap();
    repl.process_byte(0x01).unwrap();
    assert_eq!(repl.get_line(0).unwrap().cursor(), 0);
    repl.process_byte(ESC).unwrap();
    repl.process_byte(b'[').unwrap();
    assert_eq!(repl.process_byte(b'C').unwrap(), Step::Redraw);
    assert_eq!(repl.get_line(0).unwrap().cursor(), 1);
}

// A bare ESC followed by a byte other than '[' triggers nothing: state and
// buffer are untouched and the predicate never fires.
#[test]
fn esc_then_other_byte_changes_nothing() {
    let mut repl = echo_engine();
    repl.process_byte(b'a').unwrap();
    assert_eq!(repl.process_byte(ESC).unwrap(), Step::Quiet);
    assert_eq!(repl.process_byte(b'q').unwrap(), Step::Quiet);
    assert_eq!(repl.lines_len(), 1);
    assert_eq!(repl.get_line(0).unwrap().text(), &chars("a"));
    // The engine is back to normal input handling.
    assert_eq!(repl.process_byte(b'b').unwrap(), Step::Redraw);
    assert_eq!(repl.get_line(0).unwrap().text(), &chars("ab"));
}

#[test]
fn unknown_csi_final_byte_is_ignored() {
    let mut repl = echo_engine();
    repl.process_byte(b'a').unwrap();
    repl.process_byte(ESC).unwrap();
    repl.process_byte(b'[').unwrap();
    assert_eq!(repl.process_byte(b'Z').unwrap(), Step::Quiet);
    assert_eq!(repl.get_line(0).unwrap().text(), &chars("a"));
    assert_eq!(repl.current_index(), 0);
}

#[test]
fn backspace_byte_deletes_before_cursor() {
    let mut repl = echo_engine();
    repl.process_byte(b'a').unwrap();
    repl.process_byte(b'b').unwrap();
    assert_eq!(repl.process_byte(0x7f).unwrap(), Step::Redraw);
    assert_eq!(repl.get_line(0).unwrap().text(), &chars("a"));
}

#[test]
fn ctrl_a_and_ctrl_e_move_cursor() {
    let mut repl = echo_engine();
    repl.process_byte(b'a').unwrap();
    repl.process_byte(b'b').unwrap();
    assert_eq!(repl.process_byte(0x01).unwrap(), Step::Redraw);
    assert_eq!(repl.get_line(0).unwrap().cursor(), 0);
    assert_eq!(repl.process_byte(0x05).unwrap(), Step::Redraw);
    assert_eq!(repl.get_line(0).unwrap().cursor(), 2);
}

#[test]
fn other_control_bytes_are_ignored() {
    let mut repl = echo_engine();
    repl.process_byte(b'a').unwrap();
    assert_eq!(repl.process_byte(0x02).unwrap(), Step::Quiet);
    assert_eq!(repl.process_byte(0x1f).unwrap(), Step::Quiet);
    assert_eq!(repl.get_line(0).unwrap().text(), &chars("a"));
}

// A failing processor surfaces its message as a ProcessLine error and the
// history keeps the unprocessed line.
#[test]
fn processor_failure_becomes_process_line_error() {
    let mut repl: Repl<NonEmptyProcessor, AlwaysComplete> =
        Repl::new(chars("> "), chars(""), chars(""), NonEmptyProcessor {}, AlwaysComplete {});
    let r = repl.process_byte(b'\n');
    assert_eq!(r, Err(Error::ProcessLine(String::from("empty line"))));
    assert_eq!(repl.lines_len(), 1);
    assert_eq!(repl.current_index(), 0);
}

#[test]
fn nonempty_processor_echoes() {
    let mut repl: Repl<NonEmptyProcessor, AlwaysComplete> =
        Repl::new(chars("> "), chars(""), chars(""), NonEmptyProcessor {}, AlwaysComplete {});
    repl.process_byte(b'z').unwrap();
    assert_eq!(repl.process_byte(b'\n').unwrap(), Step::Done(chars("z")));
}

// A byte above 0x7f is not a control byte: it is inserted as the character
// with that code point.
#[test]
fn high_byte_inserts_as_character() {
    let mut repl = echo_engine();
    assert_eq!(repl.process_byte(0xe9).unwrap(), Step::Redraw);
    assert_eq!(repl.get_line(0).unwrap().text(), &vec!['\u{e9}']);
}

// After a completed line, typing goes into the fresh history entry.
#[test]
fn typing_continues_in_fresh_entry() {
    let mut repl = echo_engine();
    for b in b"one\n" {
        repl.process_byte(*b).unwrap();
    }
    repl.process_byte(b't').unwrap();
    assert_eq!(repl.get_line(0).unwrap().text(), &chars("one"));
    assert_eq!(repl.get_line(1).unwrap().text(), &chars("t"));
    assert_eq!(repl.current_index(), 1);
}

#[test]
fn getters_return_construction_values() {
    let repl = echo_engine();
    assert_eq!(repl.prompt(), &chars("> "));
    assert_eq!(repl.banner(), &chars("banner"));
    assert_eq!(repl.welcome_msg(), &chars("welcome"));
    assert!(repl.get_line(5).is_none());
}
