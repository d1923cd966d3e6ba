//! The shape shared by every failure message: the offending input between
//! single quotes, followed by a fixed explanation.

use vstd::prelude::*;

verus! {

/// `subject` between single quotes, followed by `tail`.
pub open spec fn quoted(subject: Seq<char>, tail: Seq<char>) -> Seq<char> {
    seq!['\''] + subject + seq!['\''] + tail
}

/// A verdict with its message, if it carries one, taken as a sequence of
/// characters.
pub open spec fn verdict_view(verdict: Result<(), String>) -> Result<(), Seq<char>> {
    match verdict {
        Ok(_) => Ok(()),
        Err(message) => Err(message@),
    }
}

/// Builds the message `'<subject>'<tail>`; the subject is copied verbatim.
pub fn quote(subject: &str, tail: &str) -> (message: String)
    ensures
        message@ == quoted(subject@, tail@),
{
    let mut message = String::from_str("'");
    message.append(subject);
    message.append("'");
    message.append(tail);
    proof {
        reveal_strlit("'");
        assert("'"@ =~= seq!['\'']);
    }
    message
}

} // verus!
