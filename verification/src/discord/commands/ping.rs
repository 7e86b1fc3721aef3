//! `/ping`.
use vstd::prelude::*;

verus! {

/// The answer to `/ping`.
pub fn reply() -> (text: String)
    ensures
        text@ == "Pong!"@,
{
    proof { reveal_strlit("Pong!"); }
    String::from_str("Pong!")
}

} // verus!
