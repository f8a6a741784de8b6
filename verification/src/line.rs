//! The editable line buffer: a sequence of characters plus a cursor offset.
//!
//! The structural invariant is that the cursor always lies in
//! `[0, text.len()]`; every operation below re-establishes it.

use vstd::prelude::*;

verus! {

/// Mathematical model of a [`Line`]: its characters and cursor offset.
#[verifier::ext_equal]
pub struct LineModel {
    pub text: Seq<char>,
    pub cursor: nat,
}

impl LineModel {
    /// The cursor is a valid offset into the text, the end included.
    pub open spec fn wf(&self) -> bool {
        self.cursor <= self.text.len()
    }
}

/// The model of a freshly created, empty line.
pub open spec fn empty_line_model() -> LineModel {
    LineModel { text: Seq::<char>::empty(), cursor: 0 }
}

/// What inserting `c` at the cursor does to a line model.
pub open spec fn insert_model(m: LineModel, c: char) -> LineModel {
    LineModel { text: m.text.insert(m.cursor as int, c), cursor: m.cursor + 1 }
}

/// What a backspace does to a line model: a no-op at offset zero, otherwise
/// the character before the cursor goes and the cursor moves back one.
pub open spec fn backspace_model(m: LineModel) -> LineModel {
    if m.cursor == 0 {
        m
    } else {
        LineModel { text: m.text.remove(m.cursor - 1), cursor: (m.cursor - 1) as nat }
    }
}

/// What moving the cursor one step left does: clamped at zero.
pub open spec fn move_left_model(m: LineModel) -> LineModel {
    if m.cursor == 0 {
        m
    } else {
        LineModel { text: m.text, cursor: (m.cursor - 1) as nat }
    }
}

/// What moving the cursor one step right does: clamped at the text end.
pub open spec fn move_right_model(m: LineModel) -> LineModel {
    if m.cursor < m.text.len() {
        LineModel { text: m.text, cursor: m.cursor + 1 }
    } else {
        m
    }
}

/// A single editable line of input with a cursor position.
pub struct Line {
    text: Vec<char>,
    cursor_pos: usize,
}

impl View for Line {
    type V = LineModel;

    closed spec fn view(&self) -> LineModel {
        LineModel { text: self.text@, cursor: self.cursor_pos as nat }
    }
}

impl Line {
    /// The structural invariant: the cursor is inside `[0, text.len()]`.
    pub open spec fn wf(&self) -> bool {
        self@.wf()
    }

    /// Creates a new empty line with the cursor at offset zero.
    pub fn new() -> (r: Line)
        ensures
            r.wf(),
            r@ == empty_line_model(),
    {
        let r = Line { text: Vec::new(), cursor_pos: 0 };
        proof {
            assert(r@ =~= empty_line_model());
        }
        r
    }

    /// Inserts a character at the current cursor position; the cursor
    /// advances past it.
    pub fn insert_char(&mut self, c: char)
        requires
            old(self).wf(),
            old(self)@.text.len() < usize::MAX,
        ensures
            final(self).wf(),
            final(self)@ == insert_model(old(self)@, c),
    {
        self.text.insert(self.cursor_pos, c);
        self.cursor_pos = self.cursor_pos + 1;
        proof {
            assert(self@ =~= insert_model(old(self)@, c));
        }
    }

    /// Removes the character immediately before the cursor; a no-op when the
    /// cursor is at offset zero.
    pub fn backspace(&mut self)
        requires
            old(self).wf(),
        ensures
            final(self).wf(),
            final(self)@ == backspace_model(old(self)@),
    {
        if self.cursor_pos > 0 {
            self.cursor_pos = self.cursor_pos - 1;
            self.text.remove(self.cursor_pos);
        }
        proof {
            assert(self@ =~= backspace_model(old(self)@));
        }
    }

    /// Moves the cursor one position to the left; a no-op at offset zero.
    pub fn move_left(&mut self)
        requires
            old(self).wf(),
        ensures
            final(self).wf(),
            final(self)@ == move_left_model(old(self)@),
    {
        if self.cursor_pos > 0 {
            self.cursor_pos = self.cursor_pos - 1;
        }
        proof {
            assert(self@ =~= move_left_model(old(self)@));
        }
    }

    /// Moves the cursor one position to the right; a no-op at the text end.
    pub fn move_right(&mut self)
        requires
            old(self).wf(),
        ensures
            final(self).wf(),
            final(self)@ == move_right_model(old(self)@),
    {
        if self.cursor_pos < self.text.len() {
            self.cursor_pos = self.cursor_pos + 1;
        }
        proof {
            assert(self@ =~= move_right_model(old(self)@));
        }
    }

    /// Moves the cursor to the start of the line.
    pub fn set_cursor_to_start(&mut self)
        requires
            old(self).wf(),
        ensures
            final(self).wf(),
            final(self)@ == (LineModel { text: old(self)@.text, cursor: 0 }),
    {
        self.cursor_pos = 0;
    }

    /// Moves the cursor to the end of the line.
    pub fn set_cursor_to_end(&mut self)
        requires
            old(self).wf(),
        ensures
            final(self).wf(),
            final(self)@ == (LineModel { text: old(self)@.text, cursor: old(self)@.text.len() }),
    {
        self.cursor_pos = self.text.len();
    }

    /// Returns the text content of the line.
    pub fn text(&self) -> (r: &Vec<char>)
        ensures
            r@ == self@.text,
    {
        &self.text
    }

    /// Returns a copy of the text content of the line.
    pub fn text_copy(&self) -> (r: Vec<char>)
        ensures
            r@ == self@.text,
    {
        let mut out: Vec<char> = Vec::new();
        proof {
            assert(out@ =~= self.text@.take(0));
        }
        let mut i: usize = 0;
        while i < self.text.len()
            invariant
                i <= self.text@.len(),
                out@ == self.text@.take(i as int),
            decreases self.text@.len() - i,
        {
            out.push(self.text[i]);
            i = i + 1;
            proof {
                assert(out@ =~= self.text@.take(i as int));
            }
        }
        proof {
            assert(self.text@.take(self.text@.len() as int) =~= self.text@);
        }
        out
    }

    /// Returns the cursor offset.
    pub fn cursor(&self) -> (r: usize)
        ensures
            r == self@.cursor,
    {
        self.cursor_pos
    }
}

/// A backspace exactly undoes an insertion at the cursor.
pub proof fn lemma_backspace_undoes_insert(m: LineModel, c: char)
    requires
        m.wf(),
    ensures
        backspace_model(insert_model(m, c)) == m,
{
    assert(insert_model(m, c).text.remove(m.cursor as int) =~= m.text);
    assert(backspace_model(insert_model(m, c)) =~= m);
}

/// Inserting each character of `cs` in turn, starting from `m`.
pub open spec fn insert_all_model(m: LineModel, cs: Seq<char>) -> LineModel
    decreases cs.len(),
{
    if cs.len() == 0 {
        m
    } else {
        insert_all_model(insert_model(m, cs[0]), cs.drop_first())
    }
}

/// Issuing `n` backspaces in turn, starting from `m`.
pub open spec fn backspace_n_model(m: LineModel, n: nat) -> LineModel
    decreases n,
{
    if n == 0 {
        m
    } else {
        backspace_n_model(backspace_model(m), (n - 1) as nat)
    }
}

/// Peeling the last backspace instead of the first.
proof fn lemma_backspace_n_snoc(m: LineModel, n: nat)
    ensures
        backspace_n_model(m, n + 1) == backspace_model(backspace_n_model(m, n)),
    decreases n,
{
    if n == 0 {
        assert(backspace_n_model(m, 1) == backspace_n_model(backspace_model(m), 0));
    } else {
        lemma_backspace_n_snoc(backspace_model(m), (n - 1) as nat);
        assert(backspace_n_model(m, n + 1) == backspace_n_model(backspace_model(m), (n - 1) as nat + 1));
        assert(backspace_n_model(m, n) == backspace_n_model(backspace_model(m), (n - 1) as nat));
    }
}

/// Insertion preserves well-formedness.
pub proof fn lemma_insert_model_wf(m: LineModel, c: char)
    requires
        m.wf(),
    ensures
        insert_model(m, c).wf(),
{
}

/// Inserting `n` characters and then issuing `n` backspaces returns any
/// well-formed line to exactly its starting state; from the empty line, back
/// to empty text with the cursor at zero.
pub proof fn lemma_inserts_then_backspaces(m: LineModel, cs: Seq<char>)
    requires
        m.wf(),
    ensures
        backspace_n_model(insert_all_model(m, cs), cs.len()) == m,
    decreases cs.len(),
{
    if cs.len() > 0 {
        let m1 = insert_model(m, cs[0]);
        lemma_insert_model_wf(m, cs[0]);
        lemma_inserts_then_backspaces(m1, cs.drop_first());
        let x = insert_all_model(m1, cs.drop_first());
        assert(insert_all_model(m, cs) == x);
        lemma_backspace_n_snoc(x, (cs.len() - 1) as nat);
        assert(backspace_n_model(x, cs.len()) == backspace_model(backspace_n_model(x, (cs.len() - 1) as nat)));
        lemma_backspace_undoes_insert(m, cs[0]);
    }
}

} // verus!
