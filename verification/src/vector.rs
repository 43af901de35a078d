//! Vectors over a prime field (or of bits), with element-wise addition.
use crate::field::{FieldConfig, Fp};
use vstd::prelude::*;

verus! {

/// The residues held by a sequence of field elements.
pub open spec fn values<C: FieldConfig>(s: Seq<Fp<C>>) -> Seq<nat> {
    s.map_values(|x: Fp<C>| x@)
}

#[derive(Debug)]
pub struct Vector<T>(pub Vec<T>);

impl<T: Clone> Clone for Vector<T> {
    fn clone(&self) -> (r: Self)
        ensures
            r@.len() == self@.len(),
            forall|i: int| 0 <= i < self@.len() ==> cloned::<T>(self@[i], #[trigger] r@[i]),
    {
        Vector(self.0.clone())
    }
}

impl<T> View for Vector<T> {
    type V = Seq<T>;

    open spec fn view(&self) -> Seq<T> {
        self.0@
    }
}

impl<C: FieldConfig> Vector<Fp<C>> {
    /// Element-wise sum; both vectors have the same length.
    pub fn add(self, rhs: Self) -> (r: Self)
        requires
            self@.len() == rhs@.len(),
        ensures
            r@.len() == self@.len(),
            forall|k: int|
                0 <= k < r@.len() ==> #[trigger] r@[k]@ == (self@[k]@ + rhs@[k]@) % C::spec_modulus(),
    {
        let n = self.0.len();
        let mut out: Vec<Fp<C>> = Vec::with_capacity(n);
        let mut i: usize = 0;
        while i < n
            invariant
                n == self@.len(),
                n == rhs@.len(),
                i <= n,
                out@.len() == i,
                forall|k: int| 0 <= k < i ==> #[trigger] out@[k]@ == (self@[k]@ + rhs@[k]@) % C::spec_modulus(),
            decreases n - i,
        {
            out.push(self.0[i].add(&rhs.0[i]));
            i = i + 1;
        }
        Vector(out)
    }
}

} // verus!
