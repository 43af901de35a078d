//! The random linear combination step of the folding scheme.
use vstd::prelude::*;

verus! {

/// The challenges of the combination; no challenge is drawn yet, so the
/// sequence is empty.
pub fn challenge<T>() -> (r: Vec<T>)
    ensures
        r@.len() == 0,
{
    Vec::new()
}

} // verus!
