//! Validation of the two path strings of a clone request.
//!
//! The platform clone primitive takes NUL-terminated strings, so a path that
//! itself contains a NUL cannot be handed to it and must be rejected before
//! any system call is attempted.

use vstd::prelude::*;

verus! {

/// Whether the text contains an embedded NUL character (equivalently, whether
/// its UTF-8 encoding contains a zero byte: NUL is the only scalar whose
/// encoding involves one).
pub open spec fn contains_nul(s: Seq<char>) -> bool {
    exists|i: int| 0 <= i < s.len() && s[i] == '\0'
}

/// Scan a path for an embedded NUL character.
pub fn str_contains_nul(s: &str) -> (r: bool)
    ensures
        r == contains_nul(s@),
{
    for c in it: s.chars()
        invariant
            it.seq() == s@,
            forall|i: int| 0 <= i < it.index() ==> s@[i] != '\0',
    {
        if c == '\0' {
            assert(s@[it.index()] == '\0');
            return true;
        }
    }
    false
}

} // verus!
