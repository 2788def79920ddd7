//! Small things done with text that the rest of the library shares.

use vstd::prelude::*;

verus! {

/// A new string holding what `text` says.
pub fn owned(text: &str) -> (string: String)
    ensures
        string@ == text@,
{
    let mut string = String::new();
    string.append(text);
    assert(string@ =~= text@);
    string
}

} // verus!
