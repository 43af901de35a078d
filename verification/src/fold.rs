//! The interface of values that live in a folding circuit.
use vstd::prelude::*;

verus! {

/// A value allocated as circuit variables: `value` reads back the plain
/// value it holds, and `equal` constrains it to equal another allocation.
pub trait CircuitVariable<T>: Sized {
    fn value(&self) -> T;

    fn equal(&self, rhs: Self);
}

} // verus!
