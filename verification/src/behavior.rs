//! The two caller-supplied behaviors of the editor, as interfaces: a
//! completion predicate that decides when accumulated text is a finished
//! logical line, and a processor that turns a finished line into the value
//! handed back to the caller.
//!
//! Each method carries a contract that ties its result to a spec-level
//! account of the same behavior, so the engine's own contract can speak of
//! what the behaviors decided.

use vstd::prelude::*;

verus! {

/// Decides whether accumulated text constitutes a finished logical line.
pub trait LineCompletion: Sized {
    /// The mathematical account of the predicate.
    spec fn complete_spec(&self, text: Seq<char>) -> bool;

    /// Returns whether `text` is a finished logical line.
    fn is_complete(&self, text: &Vec<char>) -> (r: bool)
        ensures
            r == self.complete_spec(text@),
    ;
}

/// Turns a finished logical line into the value returned to the caller, or
/// an error message.
pub trait LineProcessor: Sized {
    /// On which lines processing succeeds.
    spec fn process_ok(&self, text: Seq<char>) -> bool;

    /// The processed text, where processing succeeds.
    spec fn process_out(&self, text: Seq<char>) -> Seq<char>;

    /// The error message, where processing fails.
    spec fn process_err(&self, text: Seq<char>) -> Seq<char>;

    /// Processes one finished line.
    fn process(&self, line: Vec<char>) -> (r: Result<Vec<char>, String>)
        ensures
            r is Ok <==> self.process_ok(line@),
            r is Ok ==> r->Ok_0@ == self.process_out(line@),
            r is Err ==> r->Err_0@ == self.process_err(line@),
    ;
}

} // verus!
