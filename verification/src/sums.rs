//! Finite sums of integer-valued functions and the reindexing facts that the
//! ring products rely on.
use vstd::arithmetic::div_mod::*;
use vstd::prelude::*;

verus! {

/// `sum_{lo <= t < hi} f(t)`.
pub open spec fn sum_range(f: spec_fn(int) -> int, lo: int, hi: int) -> int
    decreases hi - lo,
{
    if hi <= lo {
        0
    } else {
        sum_range(f, lo, hi - 1) + f(hi - 1)
    }
}

/// `sum_{t < n} f(t)`.
pub open spec fn sum_to(f: spec_fn(int) -> int, n: int) -> int {
    sum_range(f, 0, n)
}

/// A sum over `[lo, hi)` splits at any `mid` in between.
pub proof fn lemma_sum_split(f: spec_fn(int) -> int, lo: int, mid: int, hi: int)
    requires
        lo <= mid <= hi,
    ensures
        sum_range(f, lo, hi) == sum_range(f, lo, mid) + sum_range(f, mid, hi),
    decreases hi - mid,
{
    if hi > mid {
        lemma_sum_split(f, lo, mid, hi - 1);
    }
}

/// Sums of functions that agree on the range are equal.
pub proof fn lemma_sum_ext(f: spec_fn(int) -> int, g: spec_fn(int) -> int, lo: int, hi: int)
    requires
        forall|t: int| lo <= t < hi ==> #[trigger] f(t) == g(t),
    ensures
        sum_range(f, lo, hi) == sum_range(g, lo, hi),
    decreases hi - lo,
{
    if hi > lo {
        lemma_sum_ext(f, g, lo, hi - 1);
    }
}

/// Summing in reverse order gives the same value.
pub proof fn lemma_sum_reverse(f: spec_fn(int) -> int, lo: int, hi: int)
    ensures
        sum_range(f, lo, hi) == sum_range(|t: int| f(lo + hi - 1 - t), lo, hi),
    decreases hi - lo,
{
    if hi > lo {
        let g = |t: int| f(lo + hi - 1 - t);
        // sum_{lo..hi} g = g(lo) + sum_{lo+1..hi} g
        lemma_sum_split(g, lo, lo + 1, hi);
        lemma_sum_split(g, lo, lo, lo + 1);
        // sum_{lo+1..hi} g = sum_{lo..hi-1} f by induction
        lemma_sum_reverse(f, lo, hi - 1);
        let h = |t: int| f(lo + (hi - 1) - 1 - t);
        lemma_sum_shift(h, lo, hi - 1, 1);
        lemma_sum_ext(|t: int| h(t - 1), g, lo + 1, hi);
    }
}

/// `sum_{lo <= t < hi} f(t) == sum_{lo + s <= t < hi + s} f(t - s)`.
pub proof fn lemma_sum_shift(f: spec_fn(int) -> int, lo: int, hi: int, s: int)
    ensures
        sum_range(f, lo, hi) == sum_range(|t: int| f(t - s), lo + s, hi + s),
    decreases hi - lo,
{
    if hi > lo {
        lemma_sum_shift(f, lo, hi - 1, s);
    }
}

/// Sums distribute over pointwise addition.
pub proof fn lemma_sum_add(f: spec_fn(int) -> int, g: spec_fn(int) -> int, lo: int, hi: int)
    ensures
        sum_range(|t: int| f(t) + g(t), lo, hi) == sum_range(f, lo, hi) + sum_range(g, lo, hi),
    decreases hi - lo,
{
    if hi > lo {
        lemma_sum_add(f, g, lo, hi - 1);
    }
}

/// Reindexing by `t -> (k - t) mod n` does not change a sum over `[0, n)`.
pub proof fn lemma_sum_negacyclic_reindex(f: spec_fn(int) -> int, n: int, k: int)
    requires
        0 <= k < n,
    ensures
        sum_range(f, 0, n) == sum_range(
            |j: int|
                if j <= k {
                    f(k - j)
                } else {
                    f(k - j + n)
                },
            0,
            n,
        ),
{
    let g = |j: int|
        if j <= k {
            f(k - j)
        } else {
            f(k - j + n)
        };
    lemma_sum_split(f, 0, k + 1, n);
    lemma_sum_split(g, 0, k + 1, n);
    lemma_sum_reverse(f, 0, k + 1);
    lemma_sum_ext(|t: int| f(0 + (k + 1) - 1 - t), g, 0, k + 1);
    lemma_sum_reverse(f, k + 1, n);
    lemma_sum_ext(|t: int| f((k + 1) + n - 1 - t), g, k + 1, n);
}

/// A constant factor moves into a sum.
pub proof fn lemma_sum_scale(c: int, f: spec_fn(int) -> int, lo: int, hi: int)
    ensures
        c * sum_range(f, lo, hi) == sum_range(|t: int| c * f(t), lo, hi),
    decreases hi - lo,
{
    if hi > lo {
        lemma_sum_scale(c, f, lo, hi - 1);
        vstd::arithmetic::mul::lemma_mul_is_distributive_add(c, sum_range(f, lo, hi - 1), f(hi - 1));
    }
}

/// Sums distribute over pointwise subtraction.
pub proof fn lemma_sum_sub(f: spec_fn(int) -> int, g: spec_fn(int) -> int, lo: int, hi: int)
    ensures
        sum_range(|t: int| f(t) - g(t), lo, hi) == sum_range(f, lo, hi) - sum_range(g, lo, hi),
    decreases hi - lo,
{
    if hi > lo {
        lemma_sum_sub(f, g, lo, hi - 1);
    }
}

/// A sum whose terms vanish except at `j` equals the term at `j`.
pub proof fn lemma_sum_single(f: spec_fn(int) -> int, lo: int, hi: int, j: int)
    requires
        lo <= j < hi,
        forall|t: int| lo <= t < hi && t != j ==> #[trigger] f(t) == 0,
    ensures
        sum_range(f, lo, hi) == f(j),
    decreases hi - lo,
{
    if hi - 1 == j {
        lemma_sum_zero(f, lo, j);
    } else {
        lemma_sum_single(f, lo, hi - 1, j);
    }
}

/// A sum of zeros is zero.
pub proof fn lemma_sum_zero(f: spec_fn(int) -> int, lo: int, hi: int)
    requires
        forall|t: int| lo <= t < hi ==> #[trigger] f(t) == 0,
    ensures
        sum_range(f, lo, hi) == 0,
    decreases hi - lo,
{
    if hi > lo {
        lemma_sum_zero(f, lo, hi - 1);
    }
}

/// `s -> sum_{t < m} f(s, t)`.
pub open spec fn row_sums(f: spec_fn(int, int) -> int, m: int) -> spec_fn(int) -> int {
    |s: int| sum_range(|t: int| f(s, t), 0, m)
}

/// `t -> sum_{s < n} f(s, t)`.
pub open spec fn col_sums(f: spec_fn(int, int) -> int, n: int) -> spec_fn(int) -> int {
    |t: int| sum_range(|s: int| f(s, t), 0, n)
}

/// The two orders of a finite double sum agree.
pub proof fn lemma_sum_swap(f: spec_fn(int, int) -> int, n: int, m: int)
    requires
        0 <= n,
        0 <= m,
    ensures
        sum_range(row_sums(f, m), 0, n) == sum_range(col_sums(f, n), 0, m),
    decreases n,
{
    if n > 0 {
        lemma_sum_swap(f, n - 1, m);
        let g = col_sums(f, n - 1);
        let h = |t: int| f(n - 1, t);
        let whole = col_sums(f, n);
        let outer = row_sums(f, m);
        let gh = |t: int| g(t) + h(t);
        lemma_sum_add(g, h, 0, m);
        assert forall|t: int| 0 <= t < m implies #[trigger] gh(t) == whole(t) by {
            assert(whole(t) == sum_range(|s: int| f(s, t), 0, n - 1) + f(n - 1, t));
        }
        lemma_sum_ext(gh, whole, 0, m);
        assert(outer(n - 1) == sum_range(h, 0, m)) by {
            lemma_sum_ext(|t: int| f(n - 1, t), h, 0, m);
        }
        assert(sum_range(outer, 0, n) == sum_range(outer, 0, n - 1) + outer(n - 1));
    } else {
        assert forall|t: int| 0 <= t < m implies #[trigger] col_sums(f, 0)(t) == 0 by {}
        lemma_sum_zero(col_sums(f, 0), 0, m);
    }
}

/// Termwise congruent sums are congruent modulo `p`.
pub proof fn lemma_sum_congruent(f: spec_fn(int) -> int, g: spec_fn(int) -> int, lo: int, hi: int, p: int)
    requires
        p > 0,
        forall|t: int| lo <= t < hi ==> #[trigger] f(t) % p == g(t) % p,
    ensures
        sum_range(f, lo, hi) % p == sum_range(g, lo, hi) % p,
    decreases hi - lo,
{
    if hi > lo {
        lemma_sum_congruent(f, g, lo, hi - 1, p);
        lemma_add_mod_noop(sum_range(f, lo, hi - 1), f(hi - 1), p);
        lemma_add_mod_noop(sum_range(g, lo, hi - 1), g(hi - 1), p);
    }
}

} // verus!
