//! Concrete completion predicates and line processors.
//!
//! `line_is_finished` is the parenthesis-balance predicate: a line is
//! finished when, after trimming surrounding whitespace, its `'('` and `')'`
//! counts agree, or it neither starts with `'('` nor ends with `')'`.
//! `process_line` returns the finished line verbatim.

use vstd::prelude::*;
use vstd::string::StringExecFns;

use crate::behavior::LineCompletion;
use crate::behavior::LineProcessor;

verus! {

/// The whitespace characters trimmed from line ends before the balance
/// check: the code points with the Unicode White_Space property.
pub open spec fn is_line_ws(c: char) -> bool {
    ||| c == '\t'
    ||| c == '\n'
    ||| c == '\u{b}'
    ||| c == '\u{c}'
    ||| c == '\r'
    ||| c == ' '
    ||| c == '\u{85}'
    ||| c == '\u{a0}'
    ||| c == '\u{1680}'
    ||| ('\u{2000}' <= c && c <= '\u{200a}')
    ||| c == '\u{2028}'
    ||| c == '\u{2029}'
    ||| c == '\u{202f}'
    ||| c == '\u{205f}'
    ||| c == '\u{3000}'
}

/// `s` with leading whitespace removed.
pub open spec fn trim_front(s: Seq<char>) -> Seq<char>
    decreases s.len(),
{
    if s.len() > 0 && is_line_ws(s[0]) {
        trim_front(s.drop_first())
    } else {
        s
    }
}

/// `s` with trailing whitespace removed.
pub open spec fn trim_back(s: Seq<char>) -> Seq<char>
    decreases s.len(),
{
    if s.len() > 0 && is_line_ws(s[s.len() - 1]) {
        trim_back(s.drop_last())
    } else {
        s
    }
}

/// `s` with surrounding whitespace removed.
pub open spec fn trimmed(s: Seq<char>) -> Seq<char> {
    trim_back(trim_front(s))
}

/// How many characters of `s` equal `c`.
pub open spec fn count_matching(s: Seq<char>, c: char) -> nat
    decreases s.len(),
{
    if s.len() == 0 {
        0
    } else {
        count_matching(s.drop_last(), c) + (if s.last() == c { 1nat } else { 0nat })
    }
}

/// A line is finished when its trimmed text has balanced parenthesis counts,
/// or neither starts with `'('` nor ends with `')'`.
pub open spec fn line_finished_spec(s: Seq<char>) -> bool {
    let t = trimmed(s);
    ||| count_matching(t, '(') == count_matching(t, ')')
    ||| (!(t.len() > 0 && t[0] == '(') && !(t.len() > 0 && t[t.len() - 1] == ')'))
}

/// Whether `c` is whitespace for the purpose of trimming.
fn char_is_ws(c: char) -> (r: bool)
    ensures
        r == is_line_ws(c),
{
    c == '\t' || c == '\n' || c == '\u{b}' || c == '\u{c}' || c == '\r' || c == ' '
        || c == '\u{85}' || c == '\u{a0}' || c == '\u{1680}'
        || ('\u{2000}' <= c && c <= '\u{200a}') || c == '\u{2028}' || c == '\u{2029}'
        || c == '\u{202f}' || c == '\u{205f}' || c == '\u{3000}'
}

/// Returns whether `line` is a finished logical line under the
/// parenthesis-balance rule.
pub fn line_is_finished(line: &Vec<char>) -> (r: bool)
    ensures
        r == line_finished_spec(line@),
{
    let ghost s = line@;
    let n = line.len();

    let mut start: usize = 0;
    proof {
        assert(s.skip(0) =~= s);
    }
    while start < n && char_is_ws(line[start])
        invariant
            start <= n,
            n == s.len(),
            s == line@,
            trim_front(s) == trim_front(s.skip(start as int)),
        decreases n - start,
    {
        proof {
            let rest = s.skip(start as int);
            assert(rest.len() > 0);
            assert(rest[0] == s[start as int]);
            assert(rest.drop_first() =~= s.skip(start as int + 1));
        }
        start = start + 1;
    }
    proof {
        let rest = s.skip(start as int);
        if start < n {
            assert(rest[0] == s[start as int]);
        }
        assert(trim_front(s) == rest);
        assert(rest =~= s.subrange(start as int, n as int));
    }

    let mut end: usize = n;
    while end > start && char_is_ws(line[end - 1])
        invariant
            start <= end,
            end <= n,
            n == s.len(),
            s == line@,
            trim_back(s.subrange(start as int, n as int)) == trim_back(
                s.subrange(start as int, end as int),
            ),
        decreases end,
    {
        proof {
            let t = s.subrange(start as int, end as int);
            assert(t.len() > 0);
            assert(t.last() == s[end - 1]);
            assert(t.drop_last() =~= s.subrange(start as int, end as int - 1));
        }
        end = end - 1;
    }
    let ghost t = s.subrange(start as int, end as int);
    proof {
        if end > start {
            assert(t.last() == s[end - 1]);
        }
        assert(trim_back(t) == t);
        assert(trimmed(s) == t);
    }

    let mut open_count: usize = 0;
    let mut close_count: usize = 0;
    let mut i: usize = start;
    while i < end
        invariant
            start <= i,
            i <= end,
            end <= n,
            n == s.len(),
            s == line@,
            open_count <= i - start,
            close_count <= i - start,
            open_count == count_matching(s.subrange(start as int, i as int), '('),
            close_count == count_matching(s.subrange(start as int, i as int), ')'),
        decreases end - i,
    {
        proof {
            let a = s.subrange(start as int, i as int);
            let b = s.subrange(start as int, i as int + 1);
            assert(b.drop_last() =~= a);
            assert(b.last() == s[i as int]);
        }
        let ch = line[i];
        if ch == '(' {
            open_count = open_count + 1;
        } else if ch == ')' {
            close_count = close_count + 1;
        }
        i = i + 1;
    }

    let starts_paren = end > start && line[start] == '(';
    let ends_paren = end > start && line[end - 1] == ')';
    let r = open_count == close_count || (!starts_paren && !ends_paren);
    proof {
        assert(t.len() == end - start);
        if end > start {
            assert(t[0] == s[start as int]);
            assert(t[t.len() - 1] == s[end - 1]);
        }
    }
    r
}

/// Returns the finished line verbatim.
pub fn process_line(line: Vec<char>) -> (r: Result<Vec<char>, String>)
    ensures
        r == Result::<Vec<char>, String>::Ok(line),
{
    Ok(line)
}

/// The completion predicate of the multi-line editor: parenthesis balance.
pub struct ParenCompletion {}

impl LineCompletion for ParenCompletion {
    open spec fn complete_spec(&self, text: Seq<char>) -> bool {
        line_finished_spec(text)
    }

    fn is_complete(&self, text: &Vec<char>) -> (r: bool)
        ensures
            r == self.complete_spec(text@),
    {
        line_is_finished(text)
    }
}

/// The degenerate completion predicate that accepts every line at once.
pub struct AlwaysComplete {}

impl LineCompletion for AlwaysComplete {
    open spec fn complete_spec(&self, text: Seq<char>) -> bool {
        true
    }

    fn is_complete(&self, text: &Vec<char>) -> (r: bool)
        ensures
            r == self.complete_spec(text@),
    {
        true
    }
}

/// The processor that hands every finished line back unchanged.
pub struct EchoProcessor {}

impl LineProcessor for EchoProcessor {
    open spec fn process_ok(&self, text: Seq<char>) -> bool {
        true
    }

    open spec fn process_out(&self, text: Seq<char>) -> Seq<char> {
        text
    }

    open spec fn process_err(&self, text: Seq<char>) -> Seq<char> {
        Seq::<char>::empty()
    }

    fn process(&self, line: Vec<char>) -> (r: Result<Vec<char>, String>)
        ensures
            r is Ok <==> self.process_ok(line@),
            r is Ok ==> r->Ok_0@ == self.process_out(line@),
            r is Err ==> r->Err_0@ == self.process_err(line@),
    {
        process_line(line)
    }
}

/// The processor that refuses an empty line and echoes any other.
pub struct NonEmptyProcessor {}

impl LineProcessor for NonEmptyProcessor {
    open spec fn process_ok(&self, text: Seq<char>) -> bool {
        text.len() > 0
    }

    open spec fn process_out(&self, text: Seq<char>) -> Seq<char> {
        text
    }

    open spec fn process_err(&self, text: Seq<char>) -> Seq<char> {
        "empty line"@
    }

    fn process(&self, line: Vec<char>) -> (r: Result<Vec<char>, String>)
        ensures
            r is Ok <==> self.process_ok(line@),
            r is Ok ==> r->Ok_0@ == self.process_out(line@),
            r is Err ==> r->Err_0@ == self.process_err(line@),
    {
        if line.len() == 0 {
            Err(String::from_str("empty line"))
        } else {
            Ok(line)
        }
    }
}

} // verus!
