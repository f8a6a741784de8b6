//! Byte-level recognizer for the minimal two-byte CSI escape form
//! `ESC '[' <final>`.
//!
//! Bytes arrive one at a time. A bare ESC enters the `Escape` state; only a
//! following `'['` continues into `EscapeSequence`, whose next byte is the
//! final byte of the sequence. Anything else after ESC is discarded
//! silently. The accumulation buffer is empty whenever the state is
//! `Normal`.

use vstd::prelude::*;

verus! {

/// The byte that starts an escape sequence.
pub const ESC_BYTE: u8 = 0x1b;

/// The byte that continues an escape sequence into a CSI form.
pub const CSI_BYTE: u8 = 0x5b;

/// Classification state for incoming bytes.
#[derive(Clone, Copy, Debug, PartialEq, Eq, Structural)]
pub enum InputType {
    Normal,
    Escape,
    EscapeSequence,
}

/// What one byte fed to the recognizer amounts to.
#[derive(Clone, Copy, Debug, PartialEq, Eq, Structural)]
pub enum InputEvent {
    /// The byte was consumed into a pending escape sequence.
    Pending,
    /// The byte aborted a pending escape; both bytes are discarded.
    Cancelled,
    /// The byte completed a two-byte CSI sequence; it is the final byte.
    EscapeAction(u8),
    /// An ordinary byte seen in the `Normal` state.
    Plain(u8),
}

/// Mathematical model of the recognizer: state plus accumulation buffer.
#[verifier::ext_equal]
pub struct MachineModel {
    pub state: InputType,
    pub buffer: Seq<u8>,
}

impl MachineModel {
    /// The buffer is empty outside a sequence and holds exactly the `'['`
    /// inside one.
    pub open spec fn wf(&self) -> bool {
        match self.state {
            InputType::Normal => self.buffer.len() == 0,
            InputType::Escape => self.buffer.len() == 0,
            InputType::EscapeSequence => self.buffer.len() == 1 && self.buffer[0] == CSI_BYTE,
        }
    }
}

/// The model of a freshly created recognizer.
pub open spec fn normal_machine_model() -> MachineModel {
    MachineModel { state: InputType::Normal, buffer: Seq::<u8>::empty() }
}

/// The transition relation of the recognizer, one byte at a time.
pub open spec fn feed_model(m: MachineModel, c: u8) -> (MachineModel, InputEvent) {
    match m.state {
        InputType::Normal => if c == ESC_BYTE {
            (MachineModel { state: InputType::Escape, buffer: m.buffer }, InputEvent::Pending)
        } else {
            (m, InputEvent::Plain(c))
        },
        InputType::Escape => if c == CSI_BYTE {
            (MachineModel { state: InputType::EscapeSequence, buffer: m.buffer.push(c) },
                InputEvent::Pending)
        } else {
            (normal_machine_model(), InputEvent::Cancelled)
        },
        InputType::EscapeSequence => (normal_machine_model(), InputEvent::EscapeAction(c)),
    }
}

/// The byte recognizer: classification state plus accumulation buffer.
pub struct InputMachine {
    state: InputType,
    escape_buffer: Vec<u8>,
}

impl View for InputMachine {
    type V = MachineModel;

    closed spec fn view(&self) -> MachineModel {
        MachineModel { state: self.state, buffer: self.escape_buffer@ }
    }
}

impl InputMachine {
    /// The structural invariant of the recognizer.
    pub open spec fn wf(&self) -> bool {
        self@.wf()
    }

    /// Creates a recognizer in the `Normal` state with an empty buffer.
    pub fn new() -> (r: InputMachine)
        ensures
            r.wf(),
            r@ == normal_machine_model(),
    {
        let r = InputMachine { state: InputType::Normal, escape_buffer: Vec::new() };
        proof {
            assert(r@ =~= normal_machine_model());
        }
        r
    }

    /// Feeds one byte to the recognizer and reports what it amounted to.
    pub fn feed(&mut self, c: u8) -> (ev: InputEvent)
        requires
            old(self).wf(),
        ensures
            final(self).wf(),
            final(self)@ == feed_model(old(self)@, c).0,
            ev == feed_model(old(self)@, c).1,
    {
        match self.state {
            InputType::Normal => {
                if c == ESC_BYTE {
                    self.state = InputType::Escape;
                    proof {
                        assert(self@.state is Escape);
                        assert(self@.buffer.len() == 0);
                    }
                    InputEvent::Pending
                } else {
                    proof {
                        assert(self@ == old(self)@);
                    }
                    InputEvent::Plain(c)
                }
            },
            InputType::Escape => {
                if c == CSI_BYTE {
                    self.escape_buffer.push(c);
                    self.state = InputType::EscapeSequence;
                    proof {
                        assert(self@ =~= feed_model(old(self)@, c).0);
                    }
                    InputEvent::Pending
                } else {
                    self.escape_buffer.clear();
                    self.state = InputType::Normal;
                    proof {
                        assert(self@ =~= normal_machine_model());
                    }
                    InputEvent::Cancelled
                }
            },
            InputType::EscapeSequence => {
                self.escape_buffer.clear();
                self.state = InputType::Normal;
                proof {
                    assert(self@ =~= normal_machine_model());
                }
                InputEvent::EscapeAction(c)
            },
        }
    }
}

/// An ESC followed by any byte other than `'['` leaves the recognizer in
/// `Normal` with an empty buffer, and neither byte yields an escape action
/// or an ordinary byte: both are discarded silently, so nothing downstream
/// of the recognizer ever acts on them.
pub proof fn lemma_escape_abort(m: MachineModel, c: u8)
    requires
        m.wf(),
        m.state is Normal,
        c != CSI_BYTE,
    ensures
        ({
            let (m1, ev1) = feed_model(m, ESC_BYTE);
            let (m2, ev2) = feed_model(m1, c);
            &&& ev1 == InputEvent::Pending
            &&& ev2 == InputEvent::Cancelled
            &&& m2.state is Normal
            &&& m2.buffer.len() == 0
            &&& m2.wf()
        }),
{
}

} // verus!
