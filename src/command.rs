use vstd::prelude::*;

verus! {

/// A command as the control input receives it: unchanged when it already ends
/// in a newline, otherwise with one newline appended.
pub open spec fn normalized(s: Seq<char>) -> Seq<char> {
    if s.len() > 0 && s.last() == '\n' {
        s
    } else {
        s.push('\n')
    }
}

/// Normalises an operator command for the line-oriented control input.
pub fn normalize_command(command: String) -> (r: String)
    ensures
        r@ == normalized(command@),
{
    let n = command.unicode_len();
    if n > 0 && command.get_char(n - 1) == '\n' {
        command
    } else {
        let mut out = command;
        proof {
            reveal_strlit("\n");
        }
        out.append("\n");
        out
    }
}

/// A normalised command ends in exactly the newline that normalisation owes:
/// normalising twice changes nothing, and a command with its newline already
/// written gives the same text as the same command without it.
pub proof fn lemma_normalized_once(s: Seq<char>)
    ensures
        normalized(normalized(s)) == normalized(s),
        normalized(s).len() > 0,
        normalized(s).last() == '\n',
        s.len() == 0 || s.last() != '\n' ==> normalized(s.push('\n')) == normalized(s),
{
}

} // verus!
