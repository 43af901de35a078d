//! Multiplication by `X` in `Z[X] / (X^54 + X^27 + 1)` as a linear map on
//! coefficient vectors, and the facts about it that make rotation matrices
//! commute: `rot(a) * v` is the ring product `a * v`, and ring products
//! commute.
use crate::commit::GL_D;
use crate::sums::{
    col_sums, lemma_sum_add, lemma_sum_ext, lemma_sum_scale, lemma_sum_single, lemma_sum_sub, lemma_sum_swap,
    lemma_sum_zero, row_sums, sum_range,
};
use vstd::arithmetic::mul::*;
use vstd::prelude::*;

verus! {

/// `X * v` over the integers: shift up and fold `X^54 = -X^27 - 1`.
pub open spec fn tx(v: Seq<int>) -> Seq<int> {
    Seq::new(
        GL_D as nat,
        |i: int|
            (if i > 0 {
                v[i - 1]
            } else {
                0
            }) - (if i == 0 || i == 27 {
                v[GL_D - 1]
            } else {
                0
            }),
    )
}

/// `X^k * v` over the integers.
pub open spec fn txp(v: Seq<int>, k: int) -> Seq<int>
    decreases k,
{
    if k <= 0 {
        v
    } else {
        tx(txp(v, k - 1))
    }
}

/// The coefficient vector of `X^t` for `t < 54`.
pub open spec fn unit(t: int) -> Seq<int> {
    Seq::new(GL_D as nat, |i: int| if i == t { 1int } else { 0int })
}

/// The coefficient vector of `X^k` for any `k`.
pub open spec fn basis(k: int) -> Seq<int> {
    txp(unit(0), k)
}

/// Entry `i` of `rot(x) * v` over the integers: `sum_t (X^t x)[i] * v[t]`.
pub open spec fn lin(x: Seq<int>, v: Seq<int>, i: int) -> int {
    sum_range(|t: int| txp(x, t)[i] * v[t], 0, GL_D as int)
}

/// The vector `rot(x) * v`.
pub open spec fn rotv(x: Seq<int>, v: Seq<int>) -> Seq<int> {
    Seq::new(GL_D as nat, |i: int| lin(x, v, i))
}

/// `X^k x` has 54 coefficients.
pub proof fn lemma_txp_len(v: Seq<int>, k: int)
    requires
        v.len() == GL_D,
    ensures
        txp(v, k).len() == GL_D,
    decreases k,
{
    if k > 0 {
        lemma_txp_len(v, k - 1);
    }
}

/// `X^t` needs no folding below degree 54.
proof fn lemma_basis_small(t: int)
    requires
        0 <= t < GL_D,
    ensures
        basis(t) == unit(t),
    decreases t,
{
    if t > 0 {
        lemma_basis_small(t - 1);
        assert(tx(unit(t - 1)) =~= unit(t));
    }
}

/// `(X^k w)[i] = sum_t w[t] * (X^(k + t))[i]`.
pub proof fn lemma_txp_expand(w: Seq<int>, k: int, i: int)
    requires
        w.len() == GL_D,
        0 <= k,
        0 <= i < GL_D,
    ensures
        txp(w, k)[i] == sum_range(|t: int| w[t] * basis(k + t)[i], 0, GL_D as int),
    decreases k,
{
    let f = |t: int| w[t] * basis(k + t)[i];
    if k == 0 {
        assert forall|t: int| 0 <= t < GL_D && t != i implies #[trigger] f(t) == 0 by {
            lemma_basis_small(t);
        }
        lemma_basis_small(i);
        lemma_sum_single(f, 0, GL_D as int, i);
    } else {
        let a = |t: int| w[t] * (if i > 0 { basis(k - 1 + t)[i - 1] } else { 0 });
        let b = |t: int| w[t] * (if i == 0 || i == 27 { basis(k - 1 + t)[GL_D - 1] } else { 0 });
        assert forall|t: int| 0 <= t < GL_D implies #[trigger] f(t) == (|t: int| a(t) - b(t))(t) by {
            assert(basis(k + t) == tx(basis(k - 1 + t)));
            lemma_mul_is_distributive_sub(
                w[t],
                if i > 0 { basis(k - 1 + t)[i - 1] } else { 0 },
                if i == 0 || i == 27 { basis(k - 1 + t)[GL_D - 1] } else { 0 },
            );
        }
        lemma_sum_ext(f, |t: int| a(t) - b(t), 0, GL_D as int);
        lemma_sum_sub(a, b, 0, GL_D as int);
        lemma_txp_expand(w, k - 1, GL_D - 1);
        if i > 0 {
            lemma_txp_expand(w, k - 1, i - 1);
            lemma_sum_ext(a, |t: int| w[t] * basis(k - 1 + t)[i - 1], 0, GL_D as int);
        } else {
            lemma_sum_zero(a, 0, GL_D as int);
        }
        if i == 0 || i == 27 {
            lemma_sum_ext(b, |t: int| w[t] * basis(k - 1 + t)[GL_D - 1], 0, GL_D as int);
        } else {
            lemma_sum_zero(b, 0, GL_D as int);
        }
    }
}

/// `X^b (X^a v) = X^(a + b) v`.
pub proof fn lemma_txp_compose(v: Seq<int>, a: int, b: int)
    requires
        0 <= a,
        0 <= b,
    ensures
        txp(txp(v, a), b) == txp(v, a + b),
    decreases b,
{
    if b > 0 {
        lemma_txp_compose(v, a, b - 1);
    }
}

/// `rot(x) * v == rot(v) * x`: the ring product is commutative.
pub proof fn lemma_lin_sym(x: Seq<int>, v: Seq<int>, i: int)
    requires
        x.len() == GL_D,
        v.len() == GL_D,
        0 <= i < GL_D,
    ensures
        lin(x, v, i) == lin(v, x, i),
{
    let n = GL_D as int;
    let f = |s: int, t: int| x[s] * v[t] * basis(s + t)[i];
    let lx = |t: int| txp(x, t)[i] * v[t];
    let lv = |s: int| txp(v, s)[i] * x[s];
    // lin(x, v, i) = sum_t sum_s f(s, t)
    assert forall|t: int| 0 <= t < n implies #[trigger] lx(t) == col_sums(f, n)(t) by {
        lemma_txp_expand(x, t, i);
        let g = |s: int| x[s] * basis(t + s)[i];
        let vg = |s: int| v[t] * g(s);
        let ft = |s: int| f(s, t);
        lemma_sum_scale(v[t], g, 0, n);
        assert forall|s: int| 0 <= s < n implies #[trigger] vg(s) == ft(s) by {
            assert(t + s == s + t);
            lemma_mul_is_commutative(v[t], x[s] * basis(s + t)[i]);
            lemma_mul_is_associative(x[s], basis(s + t)[i], v[t]);
            lemma_mul_is_associative(x[s], v[t], basis(s + t)[i]);
            lemma_mul_is_commutative(v[t], basis(s + t)[i]);
        }
        lemma_sum_ext(vg, ft, 0, n);
        lemma_mul_is_commutative(txp(x, t)[i], v[t]);
    }
    lemma_sum_ext(lx, col_sums(f, n), 0, n);
    // lin(v, x, i) = sum_s sum_t f(s, t)
    assert forall|s: int| 0 <= s < n implies #[trigger] lv(s) == row_sums(f, n)(s) by {
        lemma_txp_expand(v, s, i);
        let g = |t: int| v[t] * basis(s + t)[i];
        let xg = |t: int| x[s] * g(t);
        let fs = |t: int| f(s, t);
        lemma_sum_scale(x[s], g, 0, n);
        assert forall|t: int| 0 <= t < n implies #[trigger] xg(t) == fs(t) by {
            lemma_mul_is_associative(x[s], v[t], basis(s + t)[i]);
        }
        lemma_sum_ext(xg, fs, 0, n);
        lemma_mul_is_commutative(txp(v, s)[i], x[s]);
    }
    lemma_sum_ext(lv, row_sums(f, n), 0, n);
    lemma_sum_swap(f, n, n);
}

/// `(X^s (rot(a) b))[i] = sum_u a[u] * (X^(u + s) b)[i]`.
proof fn lemma_txp_of_rotv(a: Seq<int>, b: Seq<int>, s: int, i: int)
    requires
        a.len() == GL_D,
        b.len() == GL_D,
        0 <= s,
        0 <= i < GL_D,
    ensures
        txp(rotv(a, b), s)[i] == sum_range(|u: int| a[u] * txp(b, u + s)[i], 0, GL_D as int),
{
    let n = GL_D as int;
    let w = rotv(a, b);
    let f = |t: int, u: int| a[u] * txp(b, u)[t] * basis(s + t)[i];
    let lhs_terms = |t: int| w[t] * basis(s + t)[i];
    let rhs_terms = |u: int| a[u] * txp(b, u + s)[i];
    lemma_txp_expand(w, s, i);
    assert forall|t: int| 0 <= t < n implies #[trigger] lhs_terms(t) == row_sums(f, n)(t) by {
        lemma_lin_sym(a, b, t);
        let g = |u: int| txp(b, u)[t] * a[u];
        let c = basis(s + t)[i];
        lemma_sum_scale(c, g, 0, n);
        let cg = |u: int| c * g(u);
        let ft = |u: int| f(t, u);
        assert forall|u: int| 0 <= u < n implies #[trigger] cg(u) == ft(u) by {
            lemma_mul_is_commutative(c, txp(b, u)[t] * a[u]);
            lemma_mul_is_commutative(txp(b, u)[t], a[u]);
            lemma_mul_is_associative(a[u], txp(b, u)[t], c);
        }
        lemma_sum_ext(cg, ft, 0, n);
        lemma_mul_is_commutative(w[t], c);
    }
    lemma_sum_ext(lhs_terms, row_sums(f, n), 0, n);
    lemma_sum_swap(f, n, n);
    assert forall|u: int| 0 <= u < n implies #[trigger] col_sums(f, n)(u) == rhs_terms(u) by {
        let tb = txp(b, u);
        lemma_txp_len(b, u);
        lemma_txp_expand(tb, s, i);
        lemma_txp_compose(b, u, s);
        let g = |t: int| tb[t] * basis(s + t)[i];
        lemma_sum_scale(a[u], g, 0, n);
        let ag = |t: int| a[u] * g(t);
        let fu = |t: int| f(t, u);
        assert forall|t: int| 0 <= t < n implies #[trigger] ag(t) == fu(t) by {
            lemma_mul_is_associative(a[u], tb[t], basis(s + t)[i]);
        }
        lemma_sum_ext(ag, fu, 0, n);
    }
    lemma_sum_ext(col_sums(f, n), rhs_terms, 0, n);
}

/// Rotation matrices commute: `rot(r) (rot(a) b) == rot(a) (rot(r) b)`.
pub proof fn lemma_rot_commute(r: Seq<int>, a: Seq<int>, b: Seq<int>, i: int)
    requires
        r.len() == GL_D,
        a.len() == GL_D,
        b.len() == GL_D,
        0 <= i < GL_D,
    ensures
        lin(r, rotv(a, b), i) == lin(a, rotv(r, b), i),
{
    let n = GL_D as int;
    let h = |s: int, u: int| r[s] * a[u] * txp(b, u + s)[i];
    let wa = rotv(a, b);
    let wr = rotv(r, b);
    // lin(r, rot(a) b, i) = sum_s sum_u h(s, u)
    lemma_lin_sym(r, wa, i);
    let left = |s: int| txp(wa, s)[i] * r[s];
    assert forall|s: int| 0 <= s < n implies #[trigger] left(s) == row_sums(h, n)(s) by {
        lemma_txp_of_rotv(a, b, s, i);
        let g = |u: int| a[u] * txp(b, u + s)[i];
        lemma_sum_scale(r[s], g, 0, n);
        let rg = |u: int| r[s] * g(u);
        let hs = |u: int| h(s, u);
        assert forall|u: int| 0 <= u < n implies #[trigger] rg(u) == hs(u) by {
            lemma_mul_is_associative(r[s], a[u], txp(b, u + s)[i]);
        }
        lemma_sum_ext(rg, hs, 0, n);
        lemma_mul_is_commutative(txp(wa, s)[i], r[s]);
    }
    lemma_sum_ext(left, row_sums(h, n), 0, n);
    // lin(a, rot(r) b, i) = sum_u sum_s h(s, u)
    lemma_lin_sym(a, wr, i);
    let right = |u: int| txp(wr, u)[i] * a[u];
    assert forall|u: int| 0 <= u < n implies #[trigger] right(u) == col_sums(h, n)(u) by {
        lemma_txp_of_rotv(r, b, u, i);
        let g = |s: int| r[s] * txp(b, s + u)[i];
        lemma_sum_scale(a[u], g, 0, n);
        let ag = |s: int| a[u] * g(s);
        let hu = |s: int| h(s, u);
        assert forall|s: int| 0 <= s < n implies #[trigger] ag(s) == hu(s) by {
            assert(s + u == u + s);
            lemma_mul_is_associative(a[u], r[s], txp(b, s + u)[i]);
            lemma_mul_is_commutative(a[u], r[s]);
            lemma_mul_is_associative(r[s], a[u], txp(b, s + u)[i]);
        }
        lemma_sum_ext(ag, hu, 0, n);
        lemma_mul_is_commutative(txp(wr, u)[i], a[u]);
    }
    lemma_sum_ext(right, col_sums(h, n), 0, n);
    lemma_sum_swap(h, n, n);
}

/// `rot(x) (v + w) == rot(x) v + rot(x) w`.
pub proof fn lemma_lin_add(x: Seq<int>, v: Seq<int>, w: Seq<int>, i: int)
    ensures
        lin(x, Seq::new(GL_D as nat, |t: int| v[t] + w[t]), i) == lin(x, v, i) + lin(x, w, i),
{
    let n = GL_D as int;
    let vw = Seq::new(GL_D as nat, |t: int| v[t] + w[t]);
    let f = |t: int| txp(x, t)[i] * v[t];
    let g = |t: int| txp(x, t)[i] * w[t];
    let fg = |t: int| f(t) + g(t);
    let h = |t: int| txp(x, t)[i] * vw[t];
    lemma_sum_add(f, g, 0, n);
    assert forall|t: int| 0 <= t < n implies #[trigger] h(t) == fg(t) by {
        lemma_mul_is_distributive_add(txp(x, t)[i], v[t], w[t]);
    }
    lemma_sum_ext(h, fg, 0, n);
}

/// `rot(x) v` only depends on `v` modulo `p`.
pub proof fn lemma_lin_congruent(x: Seq<int>, v: Seq<int>, w: Seq<int>, i: int, p: int)
    requires
        p > 0,
        forall|t: int| 0 <= t < GL_D ==> #[trigger] (v[t] % p) == w[t] % p,
    ensures
        lin(x, v, i) % p == lin(x, w, i) % p,
{
    let f = |t: int| txp(x, t)[i] * v[t];
    let g = |t: int| txp(x, t)[i] * w[t];
    assert forall|t: int| 0 <= t < GL_D implies #[trigger] f(t) % p == g(t) % p by {
        vstd::arithmetic::div_mod::lemma_mul_mod_noop_right(txp(x, t)[i], v[t], p);
        vstd::arithmetic::div_mod::lemma_mul_mod_noop_right(txp(x, t)[i], w[t], p);
    }
    crate::sums::lemma_sum_congruent(f, g, 0, GL_D as int, p);
}

/// The vector `sum_{j < n} vs(j)`.
pub open spec fn vec_sum(vs: spec_fn(int) -> Seq<int>, n: int) -> Seq<int> {
    Seq::new(GL_D as nat, |t: int| sum_range(|j: int| vs(j)[t], 0, n))
}

/// `rot(x) (sum_j v_j) == sum_j rot(x) v_j`.
pub proof fn lemma_lin_sum(x: Seq<int>, vs: spec_fn(int) -> Seq<int>, n: int, i: int)
    requires
        0 <= n,
    ensures
        lin(x, vec_sum(vs, n), i) == sum_range(|j: int| lin(x, vs(j), i), 0, n),
{
    let m = GL_D as int;
    let f = |t: int, j: int| txp(x, t)[i] * vs(j)[t];
    let terms = |t: int| txp(x, t)[i] * vec_sum(vs, n)[t];
    assert forall|t: int| 0 <= t < m implies #[trigger] terms(t) == row_sums(f, n)(t) by {
        let g = |j: int| vs(j)[t];
        lemma_sum_scale(txp(x, t)[i], g, 0, n);
        let cg = |j: int| txp(x, t)[i] * g(j);
        let ft = |j: int| f(t, j);
        lemma_sum_ext(cg, ft, 0, n);
    }
    lemma_sum_ext(terms, row_sums(f, n), 0, m);
    lemma_sum_swap(f, m, n);
    let per = |j: int| lin(x, vs(j), i);
    assert forall|j: int| 0 <= j < n implies #[trigger] col_sums(f, m)(j) == per(j) by {
        let fj = |t: int| f(t, j);
        let lj = |t: int| txp(x, t)[i] * vs(j)[t];
        lemma_sum_ext(fj, lj, 0, m);
    }
    lemma_sum_ext(col_sums(f, m), per, 0, n);
}

} // verus!
