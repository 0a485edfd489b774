//! Decisions of an interactive session that reads moves one by one.
use vstd::prelude::*;
use crate::positions::{trimmed, trim_white_space};

verus! {

/// An answer to "try again?": `y` is yes, `n` is no, white space around
/// either is ignored, and anything else is no answer.
pub open spec fn answer_spec(s: Seq<char>) -> Option<bool> {
    let t = trimmed(s);
    if t == seq!['y'] {
        Some(true)
    } else if t == seq!['n'] {
        Some(false)
    } else {
        None
    }
}

/// Reads an answer to "try again?"; `None` means the question must be asked
/// again.
pub fn try_again_answer(answer: &str) -> (r: Option<bool>)
    ensures
        r == answer_spec(answer@),
{
    let t = trim_white_space(answer);
    if t.unicode_len() != 1 {
        return None;
    }
    let c = t.get_char(0);
    if c == 'y' {
        assert(t@ =~= seq!['y']);
        Some(true)
    } else if c == 'n' {
        assert(t@ =~= seq!['n']);
        Some(false)
    } else {
        None
    }
}

} // verus!
