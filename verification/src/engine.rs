//! The edit engine: history of line buffers, current-line pointer, the byte
//! recognizer, and the dispatch that turns each incoming byte into a buffer
//! edit, a history move, a completed logical line, or nothing.
//!
//! The engine does no I/O. The caller feeds it one byte at a time through
//! [`Repl::process_byte`] and acts on the returned [`Step`]: repaint the
//! line, hand the completed text on, or do nothing.

use vstd::prelude::*;

use crate::behavior::LineCompletion;
use crate::behavior::LineProcessor;
use crate::errors::Error;
use crate::input::feed_model;
use crate::input::normal_machine_model;
use crate::input::CSI_BYTE;
use crate::input::ESC_BYTE;
use crate::input::InputEvent;
use crate::input::InputMachine;
use crate::input::MachineModel;
use crate::line::backspace_model;
use crate::line::empty_line_model;
use crate::line::insert_model;
use crate::line::move_left_model;
use crate::line::move_right_model;
use crate::line::Line;
use crate::line::LineModel;
use crate::render::redraw_chars;
use crate::render::render_redraw;

verus! {

/// Final byte of a CSI sequence: up arrow.
pub const UP_BYTE: u8 = 0x41;

/// Final byte of a CSI sequence: down arrow.
pub const DOWN_BYTE: u8 = 0x42;

/// Final byte of a CSI sequence: right arrow.
pub const RIGHT_BYTE: u8 = 0x43;

/// Final byte of a CSI sequence: left arrow.
pub const LEFT_BYTE: u8 = 0x44;

/// What the caller must do after feeding one byte to the engine.
#[derive(Debug, PartialEq, Eq)]
pub enum Step {
    /// Nothing visible changed; keep reading.
    Quiet,
    /// The current line changed; repaint it and flush, then keep reading.
    Redraw,
    /// A logical line completed; the payload is the processed text.
    Done(Vec<char>),
}

/// The interactive line editor engine, generic over the caller-supplied
/// line processor and completion predicate.
pub struct Repl<P: LineProcessor, C: LineCompletion> {
    lines: Vec<Line>,
    current_line: usize,
    machine: InputMachine,
    processor: P,
    completion: C,
    prompt: Vec<char>,
    banner: Vec<char>,
    welcome_msg: Vec<char>,
}

impl<P: LineProcessor, C: LineCompletion> Repl<P, C> {
    /// The history as a sequence of line models.
    pub closed spec fn lines_spec(&self) -> Seq<LineModel> {
        self.lines@.map_values(|l: Line| l@)
    }

    /// The index of the current history entry.
    pub closed spec fn current_spec(&self) -> nat {
        self.current_line as nat
    }

    /// The model of the byte recognizer.
    pub closed spec fn machine_spec(&self) -> MachineModel {
        self.machine@
    }

    /// The caller-supplied line processor.
    pub closed spec fn processor_spec(&self) -> P {
        self.processor
    }

    /// The caller-supplied completion predicate.
    pub closed spec fn completion_spec(&self) -> C {
        self.completion
    }

    /// The prompt characters.
    pub closed spec fn prompt_spec(&self) -> Seq<char> {
        self.prompt@
    }

    /// The banner characters.
    pub closed spec fn banner_spec(&self) -> Seq<char> {
        self.banner@
    }

    /// The welcome-message characters.
    pub closed spec fn welcome_spec(&self) -> Seq<char> {
        self.welcome_msg@
    }

    /// The model of the current line.
    pub open spec fn cur_model(&self) -> LineModel {
        self.lines_spec()[self.current_spec() as int]
    }

    /// The engine invariant: at least one history entry, the current index
    /// in bounds, every entry well formed, and the recognizer well formed.
    pub open spec fn wf(&self) -> bool {
        &&& self.lines_spec().len() >= 1
        &&& self.current_spec() < self.lines_spec().len()
        &&& (forall|i: int|
            0 <= i < self.lines_spec().len() ==> (#[trigger] self.lines_spec()[i]).wf())
        &&& self.machine_spec().wf()
    }

    /// The fields a byte never touches: prompt, banner, welcome message,
    /// and the two caller-supplied behaviors.
    pub open spec fn frame_post(pre: Self, post: Self) -> bool {
        &&& post.prompt_spec() == pre.prompt_spec()
        &&& post.banner_spec() == pre.banner_spec()
        &&& post.welcome_spec() == pre.welcome_spec()
        &&& post.processor_spec() == pre.processor_spec()
        &&& post.completion_spec() == pre.completion_spec()
    }

    /// What a recognized escape action (the final byte of a CSI sequence)
    /// does to the history and the current index. Up at the first entry and
    /// down within the history move the index only; down at the last entry
    /// appends a fresh empty entry and makes it current; right and left move
    /// the cursor of the current line; any other final byte does nothing.
    pub open spec fn escape_post(
        lines: Seq<LineModel>,
        cur: int,
        post: Self,
        f: u8,
        step: Step,
    ) -> bool {
        let t = lines[cur];
        if f == UP_BYTE {
            if cur > 0 {
                &&& post.lines_spec() == lines
                &&& post.current_spec() == cur - 1
                &&& step is Redraw
            } else {
                &&& post.lines_spec() == lines
                &&& post.current_spec() == cur
                &&& step is Quiet
            }
        } else if f == DOWN_BYTE {
            if cur + 1 < lines.len() {
                &&& post.lines_spec() == lines
                &&& post.current_spec() == cur + 1
                &&& step is Redraw
            } else {
                &&& post.lines_spec() == lines.push(empty_line_model())
                &&& post.current_spec() == lines.len()
                &&& step is Redraw
            }
        } else if f == RIGHT_BYTE {
            &&& post.lines_spec() == lines.update(cur, move_right_model(t))
            &&& post.current_spec() == cur
            &&& step is Redraw
        } else if f == LEFT_BYTE {
            &&& post.lines_spec() == lines.update(cur, move_left_model(t))
            &&& post.current_spec() == cur
            &&& step is Redraw
        } else {
            &&& post.lines_spec() == lines
            &&& post.current_spec() == cur
            &&& step is Quiet
        }
    }

    /// What an ordinary byte does. Newline or carriage return asks the
    /// completion predicate: on acceptance the processed text is emitted and
    /// a fresh empty entry becomes current, or the processor's error is
    /// surfaced as `ProcessLine` with the history unchanged; on rejection a
    /// literal newline is inserted and reading continues with no line
    /// emitted. Backspace, cursor-to-start, cursor-to-end edit the current
    /// line; other control bytes are ignored; a printable byte is inserted
    /// at the cursor.
    pub open spec fn plain_post(
        lines: Seq<LineModel>,
        cur: int,
        processor: P,
        completion: C,
        post: Self,
        b: u8,
        r: Result<Step, Error>,
    ) -> bool {
        let t = lines[cur];
        if b == 0x0a || b == 0x0d {
            if completion.complete_spec(t.text) {
                if processor.process_ok(t.text) {
                    &&& post.lines_spec() == lines.push(empty_line_model())
                    &&& post.current_spec() == lines.len()
                    &&& (r matches Ok(s) && s matches Step::Done(v) && v@ == processor.process_out(
                        t.text,
                    ))
                } else {
                    &&& post.lines_spec() == lines
                    &&& post.current_spec() == cur
                    &&& (r matches Err(e) && e matches Error::ProcessLine(msg) && msg@
                        == processor.process_err(t.text))
                }
            } else {
                &&& post.lines_spec() == lines.update(cur, insert_model(t, '\n'))
                &&& post.current_spec() == cur
                &&& (r matches Ok(s) && s is Quiet)
            }
        } else if b == 0x7f {
            &&& post.lines_spec() == lines.update(cur, backspace_model(t))
            &&& post.current_spec() == cur
            &&& (r matches Ok(s) && s is Redraw)
        } else if b == 0x01 {
            &&& post.lines_spec() == lines.update(cur, LineModel { text: t.text, cursor: 0 })
            &&& post.current_spec() == cur
            &&& (r matches Ok(s) && s is Redraw)
        } else if b == 0x05 {
            &&& post.lines_spec() == lines.update(
                cur,
                LineModel { text: t.text, cursor: t.text.len() },
            )
            &&& post.current_spec() == cur
            &&& (r matches Ok(s) && s is Redraw)
        } else if b < 0x20 {
            &&& post.lines_spec() == lines
            &&& post.current_spec() == cur
            &&& (r matches Ok(s) && s is Quiet)
        } else {
            &&& post.lines_spec() == lines.update(cur, insert_model(t, b as char))
            &&& post.current_spec() == cur
            &&& (r matches Ok(s) && s is Redraw)
        }
    }

    /// The full account of one byte: the recognizer takes the transition
    /// given by [`feed_model`], and the event it reports decides what
    /// happens to the history and what the caller is told.
    pub open spec fn byte_post(pre: Self, post: Self, c: u8, r: Result<Step, Error>) -> bool {
        let lines = pre.lines_spec();
        let cur = pre.current_spec() as int;
        let step1 = feed_model(pre.machine_spec(), c);
        &&& Self::frame_post(pre, post)
        &&& post.machine_spec() == step1.0
        &&& match step1.1 {
            InputEvent::Pending => {
                &&& post.lines_spec() == lines
                &&& post.current_spec() == cur
                &&& (r matches Ok(s) && s is Quiet)
            },
            InputEvent::Cancelled => {
                &&& post.lines_spec() == lines
                &&& post.current_spec() == cur
                &&& (r matches Ok(s) && s is Quiet)
            },
            InputEvent::EscapeAction(f) => r matches Ok(s) && Self::escape_post(
                lines,
                cur,
                post,
                f,
                s,
            ),
            InputEvent::Plain(b) => Self::plain_post(
                lines,
                cur,
                pre.processor_spec(),
                pre.completion_spec(),
                post,
                b,
                r,
            ),
        }
    }

    /// Creates an engine with a single empty history entry, the recognizer
    /// in its normal state, and the given prompt, banner, welcome message
    /// and behaviors.
    pub fn new(
        prompt: Vec<char>,
        banner: Vec<char>,
        welcome_msg: Vec<char>,
        process_line: P,
        line_is_terminated: C,
    ) -> (r: Self)
        ensures
            r.wf(),
            r.lines_spec() == seq![empty_line_model()],
            r.current_spec() == 0,
            r.machine_spec() == normal_machine_model(),
            r.prompt_spec() == prompt@,
            r.banner_spec() == banner@,
            r.welcome_spec() == welcome_msg@,
            r.processor_spec() == process_line,
            r.completion_spec() == line_is_terminated,
    {
        let mut lines: Vec<Line> = Vec::new();
        lines.push(Line::new());
        let r = Repl {
            lines,
            current_line: 0,
            machine: InputMachine::new(),
            processor: process_line,
            completion: line_is_terminated,
            prompt,
            banner,
            welcome_msg,
        };
        proof {
            assert(r.lines_spec() =~= seq![empty_line_model()]);
        }
        r
    }

    /// Returns the history entry at `index`, where there is one.
    pub fn get_line(&self, index: usize) -> (r: Option<&Line>)
        ensures
            index < self.lines_spec().len() ==> (r matches Some(l) && l@ == self.lines_spec()[index as int]),
            index >= self.lines_spec().len() ==> r is None,
    {
        if index < self.lines.len() {
            Some(&self.lines[index])
        } else {
            None
        }
    }

    /// Returns the index of the current history entry.
    pub fn current_index(&self) -> (r: usize)
        ensures
            r == self.current_spec(),
    {
        self.current_line
    }

    /// Returns how many entries the history holds.
    pub fn lines_len(&self) -> (r: usize)
        ensures
            r == self.lines_spec().len(),
    {
        self.lines.len()
    }

    /// Returns the prompt characters.
    pub fn prompt(&self) -> (r: &Vec<char>)
        ensures
            r@ == self.prompt_spec(),
    {
        &self.prompt
    }

    /// Returns the banner characters.
    pub fn banner(&self) -> (r: &Vec<char>)
        ensures
            r@ == self.banner_spec(),
    {
        &self.banner
    }

    /// Returns the welcome-message characters.
    pub fn welcome_msg(&self) -> (r: &Vec<char>)
        ensures
            r@ == self.welcome_spec(),
    {
        &self.welcome_msg
    }

    /// Builds the redraw sequence for the current line behind the prompt.
    pub fn render_current(&self) -> (out: Vec<char>)
        requires
            self.wf(),
        ensures
            out@ == redraw_chars(self.prompt_spec(), self.cur_model()),
    {
        let line = &self.lines[self.current_line];
        proof {
            assert(line@ == self.cur_model());
            assert(self.cur_model().wf());
            assert((LineModel { text: line@.text, cursor: line@.cursor }) =~= self.cur_model());
        }
        render_redraw(&self.prompt, line.text(), line.cursor())
    }

    /// Feeds one byte to the engine.
    pub fn process_byte(&mut self, c: u8) -> (r: Result<Step, Error>)
        requires
            old(self).wf(),
            old(self).cur_model().text.len() < usize::MAX,
            old(self).lines_spec().len() < usize::MAX,
        ensures
            final(self).wf(),
            Self::byte_post(*old(self), *final(self), c, r),
    {
        let ev = self.machine.feed(c);
        match ev {
            InputEvent::Pending => Ok(Step::Quiet),
            InputEvent::Cancelled => Ok(Step::Quiet),
            InputEvent::EscapeAction(f) => Ok(self.handle_escape_action(f)),
            InputEvent::Plain(b) => self.handle_plain(b),
        }
    }

    /// A bare ESC byte followed by any byte other than `'['` leaves the
    /// engine as it was: the recognizer returns to `Normal` with an empty
    /// accumulation buffer, the history and the current index are untouched,
    /// and neither byte emits a line or an error — so the completion
    /// predicate and the line processor are never reached on this path.
    pub proof fn lemma_escape_abort_engine(
        pre: Self,
        mid: Self,
        post: Self,
        c: u8,
        r1: Result<Step, Error>,
        r2: Result<Step, Error>,
    )
        requires
            pre.machine_spec().state is Normal,
            c != CSI_BYTE,
            Self::byte_post(pre, mid, ESC_BYTE, r1),
            Self::byte_post(mid, post, c, r2),
        ensures
            post.lines_spec() == pre.lines_spec(),
            post.current_spec() == pre.current_spec(),
            post.machine_spec().state is Normal,
            post.machine_spec().buffer.len() == 0,
            r1 matches Ok(s) && s is Quiet,
            r2 matches Ok(s) && s is Quiet,
    {
    }

    /// The history is append-only: no byte ever removes an entry, and no
    /// entry other than the current one is ever edited.
    pub proof fn lemma_history_append_only(pre: Self, post: Self, c: u8, r: Result<Step, Error>)
        requires
            pre.wf(),
            Self::byte_post(pre, post, c, r),
        ensures
            post.lines_spec().len() >= pre.lines_spec().len(),
            forall|i: int|
                0 <= i < pre.lines_spec().len() && i != pre.current_spec() as int
                    ==> post.lines_spec()[i] == pre.lines_spec()[i],
    {
        match feed_model(pre.machine_spec(), c).1 {
            InputEvent::Pending => {},
            InputEvent::Cancelled => {},
            InputEvent::EscapeAction(_) => {},
            InputEvent::Plain(_) => {},
        }
    }

    /// Applies a recognized escape action: history recall on up and down,
    /// cursor movement on right and left.
    fn handle_escape_action(&mut self, f: u8) -> (step: Step)
        requires
            old(self).wf(),
            old(self).lines_spec().len() < usize::MAX,
        ensures
            final(self).wf(),
            Self::frame_post(*old(self), *final(self)),
            final(self).machine_spec() == old(self).machine_spec(),
            Self::escape_post(
                old(self).lines_spec(),
                old(self).current_spec() as int,
                *final(self),
                f,
                step,
            ),
    {
        let ghost lines = old(self).lines_spec();
        let ghost cur = old(self).current_spec() as int;
        if f == UP_BYTE {
            if self.current_line > 0 {
                self.current_line = self.current_line - 1;
                Step::Redraw
            } else {
                Step::Quiet
            }
        } else if f == DOWN_BYTE {
            if self.current_line + 1 < self.lines.len() {
                self.current_line = self.current_line + 1;
            } else {
                self.lines.push(Line::new());
                self.current_line = self.lines.len() - 1;
                proof {
                    assert(self.lines_spec() =~= lines.push(empty_line_model()));
                }
            }
            Step::Redraw
        } else if f == RIGHT_BYTE {
            proof {
                assert(lines[cur] == self.lines@[cur]@);
                assert(lines[cur].wf());
            }
            let line = &mut self.lines[self.current_line];
            line.move_right();
            proof {
                assert(self.lines_spec() =~= lines.update(cur, move_right_model(lines[cur])));
            }
            Step::Redraw
        } else if f == LEFT_BYTE {
            proof {
                assert(lines[cur] == self.lines@[cur]@);
                assert(lines[cur].wf());
            }
            let line = &mut self.lines[self.current_line];
            line.move_left();
            proof {
                assert(self.lines_spec() =~= lines.update(cur, move_left_model(lines[cur])));
            }
            Step::Redraw
        } else {
            Step::Quiet
        }
    }

    /// Dispatches an ordinary byte: newline handling, edits of the current
    /// line, or nothing for an ignored control byte.
    fn handle_plain(&mut self, b: u8) -> (r: Result<Step, Error>)
        requires
            old(self).wf(),
            old(self).cur_model().text.len() < usize::MAX,
            old(self).lines_spec().len() < usize::MAX,
        ensures
            final(self).wf(),
            Self::frame_post(*old(self), *final(self)),
            final(self).machine_spec() == old(self).machine_spec(),
            Self::plain_post(
                old(self).lines_spec(),
                old(self).current_spec() as int,
                old(self).processor_spec(),
                old(self).completion_spec(),
                *final(self),
                b,
                r,
            ),
    {
        let ghost lines = old(self).lines_spec();
        let ghost cur = old(self).current_spec() as int;
        proof {
            assert(lines[cur] == self.lines@[cur]@);
            assert(lines[cur].wf());
        }
        if b == 0x0a || b == 0x0d {
            let is_done = self.completion.is_complete(self.lines[self.current_line].text());
            if is_done {
                let text_copy = self.lines[self.current_line].text_copy();
                match self.processor.process(text_copy) {
                    Ok(v) => {
                        self.lines.push(Line::new());
                        self.current_line = self.lines.len() - 1;
                        proof {
                            assert(self.lines_spec() =~= lines.push(empty_line_model()));
                        }
                        Ok(Step::Done(v))
                    },
                    Err(msg) => Err(Error::ProcessLine(msg)),
                }
            } else {
                let line = &mut self.lines[self.current_line];
                line.insert_char('\n');
                proof {
                    assert(self.lines_spec() =~= lines.update(cur, insert_model(lines[cur], '\n')));
                }
                Ok(Step::Quiet)
            }
        } else if b == 0x7f {
            let line = &mut self.lines[self.current_line];
            line.backspace();
            proof {
                assert(self.lines_spec() =~= lines.update(cur, backspace_model(lines[cur])));
            }
            Ok(Step::Redraw)
        } else if b == 0x01 {
            let line = &mut self.lines[self.current_line];
            line.set_cursor_to_start();
            proof {
                assert(self.lines_spec() =~= lines.update(
                    cur,
                    LineModel { text: lines[cur].text, cursor: 0 },
                ));
            }
            Ok(Step::Redraw)
        } else if b == 0x05 {
            let line = &mut self.lines[self.current_line];
            line.set_cursor_to_end();
            proof {
                assert(self.lines_spec() =~= lines.update(
                    cur,
                    LineModel { text: lines[cur].text, cursor: lines[cur].text.len() },
                ));
            }
            Ok(Step::Redraw)
        } else if b < 0x20 {
            Ok(Step::Quiet)
        } else {
            let line = &mut self.lines[self.current_line];
            line.insert_char(b as char);
            proof {
                assert(self.lines_spec() =~= lines.update(
                    cur,
                    insert_model(lines[cur], b as char),
                ));
            }
            Ok(Step::Redraw)
        }
    }
}

} // verus!
