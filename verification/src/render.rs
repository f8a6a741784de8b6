//! The redraw protocol: the exact character sequence that repaints one line.
//!
//! A redraw is a carriage return, the prompt, the full line text, an
//! erase-to-end-of-line control sequence, and — when the cursor is not at
//! the end of the text — a cursor-left-by-N sequence, N being the number of
//! characters between the cursor and the text end.

use vstd::prelude::*;

use crate::line::LineModel;

verus! {

/// The decimal digit character for `d`.
pub open spec fn digit_char(d: nat) -> char {
    ((48 + d) as u8) as char
}

/// The decimal representation of `n`, most significant digit first, no
/// leading zeros (a single `'0'` for zero).
pub open spec fn dec_chars(n: nat) -> Seq<char>
    decreases n,
{
    if n < 10 {
        seq![digit_char(n)]
    } else {
        dec_chars(n / 10).push(digit_char(n % 10))
    }
}

/// The full character sequence of one redraw of `line` behind `prompt`.
pub open spec fn redraw_chars(prompt: Seq<char>, line: LineModel) -> Seq<char> {
    let base = seq!['\r'] + prompt + line.text + seq!['\u{1b}', '[', 'K'];
    if line.cursor < line.text.len() {
        base + seq!['\u{1b}', '['] + dec_chars((line.text.len() - line.cursor) as nat) + seq!['D']
    } else {
        base
    }
}

/// Appends the decimal representation of `n` to `out`.
pub fn push_dec(out: &mut Vec<char>, n: usize)
    ensures
        final(out)@ == old(out)@ + dec_chars(n as nat),
    decreases n,
{
    if n < 10 {
        out.push((48 + (n as u8)) as char);
        proof {
            assert(final(out)@ =~= old(out)@ + dec_chars(n as nat));
        }
    } else {
        push_dec(out, n / 10);
        out.push((48 + ((n % 10) as u8)) as char);
        proof {
            assert((48 + ((n % 10) as u8)) as char == digit_char((n % 10) as nat));
            assert(final(out)@ =~= old(out)@ + dec_chars(n as nat));
        }
    }
}

/// Appends every character of `src` to `out`.
pub fn push_all(out: &mut Vec<char>, src: &Vec<char>)
    ensures
        final(out)@ == old(out)@ + src@,
{
    let mut i: usize = 0;
    proof {
        assert(out@ =~= old(out)@ + src@.take(0));
    }
    while i < src.len()
        invariant
            i <= src@.len(),
            out@ == old(out)@ + src@.take(i as int),
        decreases src@.len() - i,
    {
        out.push(src[i]);
        i = i + 1;
        proof {
            assert(out@ =~= old(out)@ + src@.take(i as int));
        }
    }
    proof {
        assert(src@.take(src@.len() as int) =~= src@);
    }
}

/// Builds the redraw sequence for `line` behind `prompt`: carriage return,
/// prompt, text, erase-to-end, and a cursor-left move where the cursor is
/// not at the end of the text.
pub fn render_redraw(prompt: &Vec<char>, text: &Vec<char>, cursor: usize) -> (out: Vec<char>)
    requires
        cursor <= text@.len(),
    ensures
        out@ == redraw_chars(prompt@, LineModel { text: text@, cursor: cursor as nat }),
{
    let ghost m = LineModel { text: text@, cursor: cursor as nat };
    let mut out: Vec<char> = Vec::new();
    out.push('\r');
    push_all(&mut out, prompt);
    push_all(&mut out, text);
    out.push('\u{1b}');
    out.push('[');
    out.push('K');
    proof {
        assert(out@ =~= seq!['\r'] + prompt@ + text@ + seq!['\u{1b}', '[', 'K']);
    }
    if cursor < text.len() {
        out.push('\u{1b}');
        out.push('[');
        push_dec(&mut out, text.len() - cursor);
        out.push('D');
        proof {
            assert(out@ =~= (seq!['\r'] + prompt@ + text@ + seq!['\u{1b}', '[', 'K']) + seq![
                '\u{1b}',
                '[',
            ] + dec_chars((m.text.len() - m.cursor) as nat) + seq!['D']);
        }
    }
    out
}

} // verus!
