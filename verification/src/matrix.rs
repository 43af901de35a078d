//! Dense row-major matrices over a prime field, matrices of bits, and the
//! products between them.
use crate::field::{bit_of, FieldConfig, Fp};
use crate::sums::sum_range;
use crate::vector::{values, Vector};
use vstd::arithmetic::div_mod::*;
use vstd::arithmetic::power2::*;
use vstd::prelude::*;

verus! {

/// `sum_{j < n} a[j] * b[j]` over the integers.
pub open spec fn dot(a: Seq<nat>, b: Seq<nat>, n: nat) -> int
    decreases n,
{
    if n == 0 {
        0
    } else {
        dot(a, b, (n - 1) as nat) + a[n - 1] * b[n - 1]
    }
}

/// `dot` is the sum of the pointwise products.
pub proof fn lemma_dot_is_sum(a: Seq<nat>, b: Seq<nat>, n: nat)
    ensures
        dot(a, b, n) == sum_range(|j: int| (a[j] * b[j]) as int, 0, n as int),
    decreases n,
{
    if n > 0 {
        lemma_dot_is_sum(a, b, (n - 1) as nat);
    }
}

/// `v mod 2^n` is `sum_{k < n} 2^k * bit_k(v)`.
proof fn lemma_low_bits_sum(v: nat, n: nat)
    ensures
        v % pow2(n) == sum_range(|k: int| pow2(k as nat) * (if bit_of(v, k as nat) { 1int } else { 0int }), 0, n as int),
    decreases n,
{
    if n == 0 {
        lemma2_to64();
    } else {
        let m = (n - 1) as nat;
        lemma_low_bits_sum(v, m);
        lemma_pow2_unfold(n);
        lemma_pow2_pos(m);
        lemma_breakdown(v as int, pow2(m) as int, 2);
        lemma_mod_bound((v / pow2(m)) as int, 2);
    }
}

/// Splitting into bits loses nothing: a 64-bit value is
/// `sum_{k < 64} 2^k * bit_k(v)`, so the matrices of `bit_split` recompose
/// the given one.
pub proof fn lemma_bit_split_recompose(v: nat)
    requires
        v < pow2(64),
    ensures
        v == sum_range(|k: int| pow2(k as nat) * (if bit_of(v, k as nat) { 1int } else { 0int }), 0, 64),
{
    lemma_low_bits_sum(v, 64);
    lemma_small_mod(v, pow2(64));
}

/// Bits read as the residues `0` and `1`.
pub open spec fn bit_values(bs: Seq<bool>) -> Seq<nat> {
    bs.map_values(|b: bool| if b { 1nat } else { 0nat })
}

/// Every row of `rows` has length `n`.
pub open spec fn is_rectangular<T>(rows: Seq<Seq<T>>, n: nat) -> bool {
    forall|i: int| 0 <= i < rows.len() ==> (#[trigger] rows[i]).len() == n
}

/// The rows of `rows` written one after another.
pub open spec fn concat_rows<T>(rows: Seq<Seq<T>>) -> Seq<T>
    decreases rows.len(),
{
    if rows.len() == 0 {
        Seq::empty()
    } else {
        concat_rows(rows.drop_last()) + rows.last()
    }
}

/// The smaller of two lengths.
pub open spec fn min_len(a: nat, b: nat) -> nat {
    if a <= b { a } else { b }
}

/// `sum_j a[j] * b[j] mod p` over the common prefix of `a` and `b`,
/// accumulated from zero in index order.
pub fn inner_product<C: FieldConfig>(a: &Vec<Fp<C>>, b: &Vec<Fp<C>>) -> (r: Fp<C>)
    ensures
        r@ == dot(values(a@), values(b@), min_len(a@.len(), b@.len())) % (C::spec_modulus() as int),
{
    let ghost p = C::spec_modulus() as int;
    let n = if a.len() <= b.len() { a.len() } else { b.len() };
    let mut acc = Fp::<C>::zero();
    proof {
        C::lemma_modulus_range();
        lemma_small_mod(0, p as nat);
    }
    let mut j: usize = 0;
    while j < n
        invariant
            p == C::spec_modulus() as int,
            p >= 2,
            n == min_len(a@.len(), b@.len()),
            j <= n,
            acc@ == dot(values(a@), values(b@), j as nat) % p,
        decreases n - j,
    {
        let x = a[j];
        let y = b[j];
        let t = x.mul(&y);
        let ghost d = dot(values(a@), values(b@), j as nat);
        proof {
            assert(dot(values(a@), values(b@), (j + 1) as nat) == d + values(a@)[j as int] * values(b@)[j as int]);
            lemma_add_mod_noop(d, (x@ * y@) as int, p);
            lemma_mod_twice(d, p);
            lemma_mod_twice((x@ * y@) as int, p);
        }
        acc = acc.add(&t);
        j = j + 1;
    }
    acc
}

#[derive(Debug)]
pub struct Matrix<T>(pub Vec<Vector<T>>);

impl<T: Clone> Clone for Matrix<T> {
    fn clone(&self) -> (r: Self)
        ensures
            r.0@.len() == self.0@.len(),
            forall|i: int| 0 <= i < self.0@.len() ==> cloned::<Vector<T>>(self.0@[i], #[trigger] r.0@[i]),
    {
        Matrix(self.0.clone())
    }
}

/// A sparse matrix: for each row, its `(column, value)` entries.
#[derive(Clone, Debug)]
pub struct SparseMatrix<C: FieldConfig>(pub Vec<Vec<(usize, Fp<C>)>>);

impl<T> Matrix<T> {
    /// The entries, row by row.
    pub open spec fn entries(&self) -> Seq<Seq<T>> {
        self.0@.map_values(|r: Vector<T>| r@)
    }

    pub fn rows(self) -> (r: Vec<Vector<T>>)
        ensures
            r@ == self.0@,
    {
        self.0
    }
}

impl<T: Copy> Matrix<T> {
    /// The transpose of a matrix whose rows all have the same length;
    /// a matrix without rows stays without rows.
    pub fn transpose(self) -> (r: Self)
        requires
            self.0@.len() > 0 ==> is_rectangular(self.entries(), self.0@[0]@.len()),
        ensures
            self.0@.len() == 0 ==> r.0@.len() == 0,
            self.0@.len() > 0 ==> {
                &&& r.0@.len() == self.0@[0]@.len()
                &&& is_rectangular(r.entries(), self.0@.len() as nat)
                &&& forall|i: int, j: int|
                    0 <= i < self.0@.len() && 0 <= j < self.0@[0]@.len() ==> r.entries()[j][i]
                        == #[trigger] self.entries()[i][j]
            },
    {
        let n_rows = self.0.len();
        if n_rows == 0 {
            return Matrix(Vec::new());
        }
        let n_cols = self.0[0].0.len();
        let ghost e = self.entries();
        let mut out: Vec<Vector<T>> = Vec::with_capacity(n_cols);
        let mut j: usize = 0;
        while j < n_cols
            invariant
                n_rows == self.0@.len(),
                n_rows > 0,
                n_cols == self.0@[0]@.len(),
                e == self.entries(),
                is_rectangular(e, n_cols as nat),
                j <= n_cols,
                out@.len() == j,
                forall|c: int| 0 <= c < j ==> (#[trigger] out@[c])@.len() == n_rows,
                forall|c: int, i: int|
                    0 <= c < j && 0 <= i < n_rows ==> #[trigger] out@[c]@[i] == e[i][c],
            decreases n_cols - j,
        {
            let mut col: Vec<T> = Vec::with_capacity(n_rows);
            let mut i: usize = 0;
            while i < n_rows
                invariant
                    n_rows == self.0@.len(),
                    n_cols == self.0@[0]@.len(),
                    e == self.entries(),
                    is_rectangular(e, n_cols as nat),
                    j < n_cols,
                    i <= n_rows,
                    col@.len() == i,
                    forall|k: int| 0 <= k < i ==> #[trigger] col@[k] == e[k][j as int],
                decreases n_rows - i,
            {
                proof {
                    assert(e[i as int] == self.0@[i as int]@);
                    assert(e[i as int].len() == n_cols);
                }
                col.push(self.0[i].0[j]);
                i = i + 1;
            }
            out.push(Vector(col));
            j = j + 1;
        }
        let r = Matrix(out);
        proof {
            assert forall|c: int| 0 <= c < r.entries().len() implies (#[trigger] r.entries()[c]).len()
                == n_rows as nat by {
                assert(r.entries()[c] == out@[c]@);
            }
        }
        r
    }

    /// All entries, row after row.
    pub fn flatten(&self) -> (r: Vec<T>)
        ensures
            r@ == concat_rows(self.entries()),
    {
        let ghost e = self.entries();
        let mut out: Vec<T> = Vec::new();
        let mut i: usize = 0;
        while i < self.0.len()
            invariant
                e == self.entries(),
                i <= self.0@.len(),
                out@ == concat_rows(e.take(i as int)),
            decreases self.0@.len() - i,
        {
            let row = &self.0[i];
            let ghost before = out@;
            let mut j: usize = 0;
            while j < row.0.len()
                invariant
                    row@ == e[i as int],
                    i < e.len(),
                    j <= row@.len(),
                    out@ == before + row@.take(j as int),
                decreases row@.len() - j,
            {
                out.push(row.0[j]);
                proof {
                    assert(row@.take(j + 1) == row@.take(j as int).push(row@[j as int]));
                }
                j = j + 1;
            }
            proof {
                assert(row@.take(row@.len() as int) == row@);
                assert(e.take(i + 1).drop_last() == e.take(i as int));
                assert(e.take(i + 1).last() == e[i as int]);
            }
            i = i + 1;
        }
        proof {
            assert(e.take(e.len() as int) == e);
        }
        out
    }
}

impl<C: FieldConfig> Matrix<Fp<C>> {
    /// The residues of the entries, row by row.
    pub open spec fn residues(&self) -> Seq<Seq<nat>> {
        self.0@.map_values(|r: Vector<Fp<C>>| r@.map_values(|x: Fp<C>| x@))
    }

    /// Splits every entry into its 64 bits: matrix `k` of the result holds
    /// bit `k` of each entry.
    pub fn bit_split(self) -> (r: Vec<Matrix<bool>>)
        ensures
            r@.len() == 64,
            forall|k: int|
                0 <= k < 64 ==> (#[trigger] r@[k]).entries().len() == self.entries().len(),
            forall|k: int, i: int|
                0 <= k < 64 && 0 <= i < self.entries().len() ==> (#[trigger] r@[k].entries()[i]).len()
                    == self.entries()[i].len(),
            forall|k: int, i: int, j: int|
                0 <= k < 64 && 0 <= i < self.entries().len() && 0 <= j < self.entries()[i].len()
                    ==> #[trigger] r@[k].entries()[i][j] == bit_of(self.entries()[i][j]@, k as nat),
    {
        let ghost e = self.entries();
        let mut out: Vec<Matrix<bool>> = Vec::with_capacity(64);
        let mut k: usize = 0;
        while k < 64
            invariant
                e == self.entries(),
                k <= 64,
                out@.len() == k,
                forall|t: int| 0 <= t < k ==> (#[trigger] out@[t]).entries().len() == e.len(),
                forall|t: int, i: int|
                    0 <= t < k && 0 <= i < e.len() ==> (#[trigger] out@[t].entries()[i]).len()
                        == e[i].len(),
                forall|t: int, i: int, j: int|
                    0 <= t < k && 0 <= i < e.len() && 0 <= j < e[i].len()
                        ==> #[trigger] out@[t].entries()[i][j] == bit_of(e[i][j]@, t as nat),
            decreases 64 - k,
        {
            let mut rows: Vec<Vector<bool>> = Vec::with_capacity(self.0.len());
            let mut i: usize = 0;
            while i < self.0.len()
                invariant
                    e == self.entries(),
                    k < 64,
                    i <= e.len(),
                    rows@.len() == i,
                    forall|a: int| 0 <= a < i ==> (#[trigger] rows@[a])@.len() == e[a].len(),
                    forall|a: int, j: int|
                        0 <= a < i && 0 <= j < e[a].len() ==> #[trigger] rows@[a]@[j] == bit_of(
                            e[a][j]@,
                            k as nat,
                        ),
                decreases e.len() - i,
            {
                let row = &self.0[i];
                let mut bits: Vec<bool> = Vec::with_capacity(row.0.len());
                let mut j: usize = 0;
                while j < row.0.len()
                    invariant
                        row@ == e[i as int],
                        k < 64,
                        j <= row@.len(),
                        bits@.len() == j,
                        forall|t: int| 0 <= t < j ==> #[trigger] bits@[t] == bit_of(row@[t]@, k as nat),
                    decreases row@.len() - j,
                {
                    bits.push(row.0[j].get_bit(k));
                    j = j + 1;
                }
                rows.push(Vector(bits));
                i = i + 1;
            }
            let m = Matrix(rows);
            proof {
                assert forall|a: int| 0 <= a < e.len() implies #[trigger] m.entries()[a] == rows@[a]@ by {}
            }
            out.push(m);
            k = k + 1;
        }
        out
    }

    /// `self * z` for a bit vector `z`: row `i` of the result is the sum of
    /// the entries `self[i][j]` with `z[j]` set. The matrix has a row, its
    /// first row is as long as `z`, and every row reaches each set bit of `z`;
    /// a shorter later row is read only where `z` is clear.
    pub fn mul_bool_vector(self, rhs: &Vector<bool>) -> (r: Vector<Fp<C>>)
        requires
            self.0@.len() > 0,
            self.0@[0]@.len() == rhs@.len(),
            forall|i: int, j: int|
                0 <= i < self.0@.len() && 0 <= j < rhs@.len() && #[trigger] rhs@[j] ==> j < (
                #[trigger] self.0@[i]@).len(),
        ensures
            r@.len() == self.0@.len(),
            forall|i: int|
                0 <= i < r@.len() ==> #[trigger] r@[i]@ == dot(
                    values(self.0@[i]@),
                    bit_values(rhs@),
                    rhs@.len(),
                ) % (C::spec_modulus() as int),
    {
        let ghost p = C::spec_modulus() as int;
        let n_rows = self.0.len();
        let n_cols = rhs.0.len();
        let mut result: Vec<Fp<C>> = Vec::with_capacity(n_rows);
        let mut i: usize = 0;
        while i < n_rows
            invariant
                n_rows == self.0@.len(),
                i <= n_rows,
                result@.len() == i,
                forall|t: int| 0 <= t < i ==> #[trigger] result@[t]@ == 0,
            decreases n_rows - i,
        {
            result.push(Fp::zero());
            i = i + 1;
        }
        proof {
            C::lemma_modulus_range();
            assert forall|t: int| 0 <= t < n_rows implies #[trigger] result@[t]@ == dot(
                values(self.0@[t]@),
                bit_values(rhs@),
                0,
            ) % p by {
                lemma_small_mod(0, p as nat);
            }
        }
        let mut j: usize = 0;
        while j < n_cols
            invariant
                p == C::spec_modulus() as int,
                p >= 2,
                n_rows == self.0@.len(),
                n_cols == rhs@.len(),
                forall|t: int, u: int|
                    0 <= t < n_rows && 0 <= u < n_cols && #[trigger] rhs@[u] ==> u < (#[trigger] self.0@[t]@).len(),
                j <= n_cols,
                result@.len() == n_rows,
                forall|t: int|
                    0 <= t < n_rows ==> #[trigger] result@[t]@ == dot(
                        values(self.0@[t]@),
                        bit_values(rhs@),
                        j as nat,
                    ) % p,
            decreases n_cols - j,
        {
            let b = rhs.0[j];
            let mut k: usize = 0;
            while k < n_rows
                invariant
                    p == C::spec_modulus() as int,
                    p >= 2,
                    n_rows == self.0@.len(),
                    n_cols == rhs@.len(),
                    forall|t: int, u: int|
                    0 <= t < n_rows && 0 <= u < n_cols && #[trigger] rhs@[u] ==> u < (#[trigger] self.0@[t]@).len(),
                    j < n_cols,
                    b == rhs@[j as int],
                    k <= n_rows,
                    result@.len() == n_rows,
                    forall|t: int|
                        0 <= t < k ==> #[trigger] result@[t]@ == dot(
                            values(self.0@[t]@),
                            bit_values(rhs@),
                            (j + 1) as nat,
                        ) % p,
                    forall|t: int|
                        k <= t < n_rows ==> #[trigger] result@[t]@ == dot(
                            values(self.0@[t]@),
                            bit_values(rhs@),
                            j as nat,
                        ) % p,
                decreases n_rows - k,
            {
                let ghost vals = values(self.0@[k as int]@);
                proof {
                    assert(dot(vals, bit_values(rhs@), (j + 1) as nat) == dot(vals, bit_values(rhs@), j as nat)
                        + vals[j as int] * bit_values(rhs@)[j as int]);
                }
                if b {
                    let cur = result[k];
                    let x = self.0[k].0[j];
                    let _ = x.value();
                    let upd = cur.add(&x);
                    proof {
                        lemma_add_mod_noop(dot(vals, bit_values(rhs@), j as nat), vals[j as int] as int, p);
                        lemma_mod_twice(dot(vals, bit_values(rhs@), j as nat), p);
                        lemma_small_mod(vals[j as int], p as nat);
                    }
                    result.set(k, upd);
                }
                k = k + 1;
            }
            j = j + 1;
        }
        Vector(result)
    }

    /// `self * v`: entry `i` is the inner product of row `i` with `v`.
    pub fn mul_vector(&self, rhs: Vector<Fp<C>>) -> (r: Vector<Fp<C>>)
        requires
            self.0@.len() > 0 ==> self.0@[0]@.len() == rhs@.len(),
            self.0@.len() == 0 ==> rhs@.len() == 0,
        ensures
            r@.len() == self.0@.len(),
            forall|i: int|
                0 <= i < r@.len() ==> #[trigger] r@[i]@ == dot(
                    values(self.0@[i]@),
                    values(rhs@),
                    min_len(self.0@[i]@.len(), rhs@.len()),
                ) % (C::spec_modulus() as int),
    {
        let n_rows = self.0.len();
        let mut out: Vec<Fp<C>> = Vec::with_capacity(n_rows);
        let mut i: usize = 0;
        while i < n_rows
            invariant
                n_rows == self.0@.len(),
                i <= n_rows,
                out@.len() == i,
                forall|t: int|
                    0 <= t < i ==> #[trigger] out@[t]@ == dot(
                        values(self.0@[t]@),
                        values(rhs@),
                        min_len(self.0@[t]@.len(), rhs@.len()),
                    ) % (C::spec_modulus() as int),
            decreases n_rows - i,
        {
            out.push(inner_product(&self.0[i].0, &rhs.0));
            i = i + 1;
        }
        Vector(out)
    }

    /// Element-wise sum of two matrices of the same shape.
    pub fn add(self, rhs: Self) -> (r: Self)
        requires
            self.0@.len() == rhs.0@.len(),
            forall|i: int| 0 <= i < self.0@.len() ==> #[trigger] self.0@[i]@.len() == rhs.0@[i]@.len(),
        ensures
            r.0@.len() == self.0@.len(),
            forall|i: int| 0 <= i < r.0@.len() ==> #[trigger] r.0@[i]@.len() == self.0@[i]@.len(),
            forall|i: int, j: int|
                0 <= i < r.0@.len() && 0 <= j < r.0@[i]@.len() ==> #[trigger] r.0@[i]@[j]@ == (
                self.0@[i]@[j]@ + rhs.0@[i]@[j]@) % C::spec_modulus(),
    {
        let n = self.0.len();
        let mut out: Vec<Vector<Fp<C>>> = Vec::with_capacity(n);
        let mut i: usize = 0;
        while i < n
            invariant
                n == self.0@.len(),
                n == rhs.0@.len(),
                forall|t: int| 0 <= t < n ==> #[trigger] self.0@[t]@.len() == rhs.0@[t]@.len(),
                i <= n,
                out@.len() == i,
                forall|t: int| 0 <= t < i ==> #[trigger] out@[t]@.len() == self.0@[t]@.len(),
                forall|t: int, j: int|
                    0 <= t < i && 0 <= j < out@[t]@.len() ==> #[trigger] out@[t]@[j]@ == (
                    self.0@[t]@[j]@ + rhs.0@[t]@[j]@) % C::spec_modulus(),
            decreases n - i,
        {
            let ra = &self.0[i];
            let rb = &rhs.0[i];
            let m = ra.0.len();
            proof {
                assert(self.0@[i as int]@.len() == rhs.0@[i as int]@.len());
            }
            let mut row: Vec<Fp<C>> = Vec::with_capacity(m);
            let mut j: usize = 0;
            while j < m
                invariant
                    i < n,
                    n == self.0@.len(),
                    n == rhs.0@.len(),
                    ra@ == self.0@[i as int]@,
                    rb@ == rhs.0@[i as int]@,
                    m == ra@.len(),
                    m == rb@.len(),
                    j <= m,
                    row@.len() == j,
                    forall|t: int| 0 <= t < j ==> #[trigger] row@[t]@ == (ra@[t]@ + rb@[t]@) % C::spec_modulus(),
                decreases m - j,
            {
                row.push(ra.0[j].add(&rb.0[j]));
                j = j + 1;
            }
            out.push(Vector(row));
            i = i + 1;
        }
        Matrix(out)
    }
}

} // verus!
