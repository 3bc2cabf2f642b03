//! Reading stored preferences: an empty stored string means "not set".
use vstd::prelude::*;

verus! {

/// A stored string, or `None` when it is empty (the directories and the
/// portal restore token).
pub fn non_empty(s: String) -> (r: Option<String>)
    ensures
        r == (if s@.len() == 0 { None } else { Some(s) }),
{
    if s.as_str().unicode_len() == 0 {
        None
    } else {
        Some(s)
    }
}

} // verus!
