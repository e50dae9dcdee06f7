//! Text that may cross the native boundary as a null-terminated string.

use vstd::prelude::*;

verus! {

/// A text value can be handed to the engine when no character of it is the
/// terminator `'\0'`.
pub open spec fn is_c_text(s: Seq<char>) -> bool {
    forall|i: int| 0 <= i < s.len() ==> s[i] != '\0'
}

/// Whether `s` can cross the native boundary unchanged.
pub fn check_c_text(s: &str) -> (r: bool)
    ensures
        r == is_c_text(s@),
{
    for c in it: s.chars()
        invariant
            it.seq() == s@,
            forall|j: int| 0 <= j < it.index() ==> s@[j] != '\0',
    {
        if c == '\0' {
            return false;
        }
    }
    true
}

} // verus!
