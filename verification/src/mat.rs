//! A plain nested-vector matrix.
use crate::matrix::concat_rows;
use vstd::prelude::*;

verus! {

pub struct Mat<T>(pub Vec<Vec<T>>);

impl<T> Mat<T> {
    /// The rows of the matrix.
    pub open spec fn rows_spec(&self) -> Seq<Seq<T>> {
        self.0@.map_values(|r: Vec<T>| r@)
    }

    /// References to all entries, row after row.
    pub fn flatten(&self) -> (r: Vec<&T>)
        ensures
            r@.map_values(|x: &T| *x) == concat_rows(self.rows_spec()),
    {
        let ghost e = self.rows_spec();
        let mut out: Vec<&T> = Vec::new();
        let mut i: usize = 0;
        while i < self.0.len()
            invariant
                e == self.rows_spec(),
                i <= self.0@.len(),
                out@.map_values(|x: &T| *x) == concat_rows(e.take(i as int)),
            decreases self.0@.len() - i,
        {
            let row = &self.0[i];
            let ghost before = out@.map_values(|x: &T| *x);
            let mut j: usize = 0;
            while j < row.len()
                invariant
                    row@ == e[i as int],
                    i < e.len(),
                    j <= row@.len(),
                    out@.map_values(|x: &T| *x) == before + row@.take(j as int),
                decreases row@.len() - j,
            {
                let ghost prev = out@;
                out.push(&row[j]);
                proof {
                    assert(row@.take(j + 1) == row@.take(j as int).push(row@[j as int]));
                    assert(out@.map_values(|x: &T| *x) =~= prev.map_values(|x: &T| *x).push(row@[j as int]));
                }
                j = j + 1;
            }
            proof {
                assert(row@.take(row@.len() as int) == row@);
                assert(e.take(i + 1).drop_last() == e.take(i as int));
                assert(e.take(i + 1).last() == e[i as int]);
            }
            i = i + 1;
        }
        proof {
            assert(e.take(e.len() as int) == e);
        }
        out
    }
}

} // verus!
