//! The Goldilocks matrix commitment over `F[X] / (X^54 + X^27 + 1)`: a
//! witness matrix of bits is committed by the rotation matrices of columns
//! sampled from a public seed.
use crate::field::{bit_of, FieldConfig, Fp, GLFq, GLFqConfig};
use crate::companion::{
    lemma_lin_add, lemma_lin_congruent, lemma_lin_sum, lemma_lin_sym, lemma_rot_commute, lin, rotv, txp, vec_sum,
};
use crate::matrix_commitment::coeff_of_draw;
use crate::matrix::{bit_values, dot, lemma_dot_is_sum, min_len, Matrix};
use crate::sums::{lemma_sum_add, lemma_sum_congruent, lemma_sum_ext, sum_range};
use crate::rng::{
    draw_i32, is_i32_chain, is_i32_stream, sampling_message, sampling_seed, seed_digest, seeded_generator, sha256,
    std_rng_from_seed,
};
use ark_std::rand::rngs::StdRng;
use vstd::utf8::encode_utf8;
use crate::vector::{values, Vector};
use core::marker::PhantomData;
use vstd::arithmetic::div_mod::*;
use vstd::prelude::*;

verus! {

/// Parameters of a commitment over a field: the ring degree and the number
/// of commitment rows.
pub trait CommitmentParams {
    fn degree() -> (d: usize)
        ensures
            d > 0,
    ;

    fn kappa() -> usize;
}

/// Ring degree of the Goldilocks commitment.
pub const GL_D: usize = 54;

/// Number of rows of the Goldilocks commitment.
pub const GL_KAPPA: usize = 16;

impl CommitmentParams for GLFqConfig {
    fn degree() -> (d: usize)
        ensures
            d == GL_D,
    {
        GL_D
    }

    fn kappa() -> (k: usize)
        ensures
            k == GL_KAPPA,
    {
        GL_KAPPA
    }
}

/// `X * v` in `F[X] / (X^54 + X^27 + 1)`: shift up by one and fold the top
/// coefficient back with `X^54 = -X^27 - 1`.
pub open spec fn times_x(p: nat, v: Seq<nat>) -> Seq<nat> {
    Seq::new(
        GL_D as nat,
        |i: int|
            (((if i > 0 {
                v[i - 1] as int
            } else {
                0
            }) + (if i == 0 || i == 27 {
                -(v[GL_D - 1] as int)
            } else {
                0
            })) % (p as int)) as nat,
    )
}

/// `X^j * a` in `F[X] / (X^54 + X^27 + 1)`.
pub open spec fn times_x_pow(p: nat, a: Seq<nat>, j: nat) -> Seq<nat>
    decreases j,
{
    if j == 0 {
        a
    } else {
        times_x(p, times_x_pow(p, a, (j - 1) as nat))
    }
}

/// The residues `-1, 0, 1, 2` that a challenge coefficient takes.
pub open spec fn is_small_coeff(p: nat, c: nat) -> bool {
    c == (p - 1) as nat || c == 0 || c == 1 || c == 2nat % p
}

/// `row` is `sum_{j < n} rot(cols[j]) * z[j]` (mod `p`).
pub open spec fn is_bit_commitment_row(cols: Seq<Seq<nat>>, z: Seq<Seq<bool>>, row: Seq<nat>, p: nat) -> bool {
    &&& cols.len() == z.len()
    &&& forall|j: int, i: int| 0 <= j < cols.len() && 0 <= i < GL_D ==> 0 < (#[trigger] cols[j][i]) < p
    &&& forall|j: int| 0 <= j < cols.len() ==> (#[trigger] cols[j]).len() == GL_D
    &&& row.len() == GL_D
    &&& forall|i: int|
        0 <= i < GL_D ==> #[trigger] row[i] == column_sum(cols, z, i, z.len() as int, p) % (p as int)
}

/// Entry `i` of `sum_{j < n} rot(cols[j]) * z[j]` over the integers, where
/// row `i` of `rot(c)` holds coefficient `i` of `X^t * c` at column `t`.
pub open spec fn column_sum(cols: Seq<Seq<nat>>, z: Seq<Seq<bool>>, i: int, n: int, p: nat) -> int
    decreases n,
{
    if n <= 0 {
        0
    } else {
        column_sum(cols, z, i, n - 1, p) + dot(
            rot_row(p, cols[n - 1], i),
            bit_values(z[n - 1]),
            GL_D as nat,
        )
    }
}

/// Entry `i` of `sum_{j < n} rot(cols[j]) * z[j]` over the integers, for a
/// witness `z` of field elements.
pub open spec fn field_column_sum(cols: Seq<Seq<nat>>, z: Seq<Seq<nat>>, i: int, n: int, p: nat) -> int
    decreases n,
{
    if n <= 0 {
        0
    } else {
        field_column_sum(cols, z, i, n - 1, p) + dot(
            rot_row(p, cols[n - 1], i),
            z[n - 1],
            GL_D as nat,
        )
    }
}

/// `row` is `sum_{j < n} rot(cols[j]) * z[j]` (mod `p`) for a field witness.
pub open spec fn is_field_commitment_row(cols: Seq<Seq<nat>>, z: Seq<Seq<nat>>, row: Seq<nat>, p: nat) -> bool {
    &&& cols.len() == z.len()
    &&& forall|j: int, i: int| 0 <= j < cols.len() && 0 <= i < GL_D ==> 0 < (#[trigger] cols[j][i]) < p
    &&& forall|j: int| 0 <= j < cols.len() ==> (#[trigger] cols[j]).len() == GL_D
    &&& row.len() == GL_D
    &&& forall|i: int|
        0 <= i < GL_D ==> #[trigger] row[i] == field_column_sum(cols, z, i, z.len() as int, p) % (p as int)
}

/// `row` is a commitment row of the field witness `z` for some admissible columns.
pub open spec fn is_committed_field_row(z: Seq<Seq<nat>>, row: Seq<nat>, p: nat) -> bool {
    exists|cols: Seq<Seq<nat>>| #[trigger] is_field_commitment_row(cols, z, row, p)
}

/// Row `j` of `rot(c)` read as a sequence: `t -> (X^t * c)[j]`.
pub open spec fn rot_row(p: nat, c: Seq<nat>, j: int) -> Seq<nat> {
    Seq::new(GL_D as nat, |t: int| times_x_pow(p, c, t as nat)[j])
}

/// `row` is a commitment row of the bit matrix `z` for some admissible columns.
pub open spec fn is_committed_bit_row(z: Seq<Seq<bool>>, row: Seq<nat>, p: nat) -> bool {
    exists|cols: Seq<Seq<nat>>| #[trigger] is_bit_commitment_row(cols, z, row, p)
}

/// A dot product against a vector of zeros vanishes.
proof fn lemma_dot_zero(a: Seq<nat>, b: Seq<nat>, n: nat)
    requires
        forall|k: int| 0 <= k < n ==> #[trigger] b[k] == 0,
    ensures
        dot(a, b, n) == 0,
    decreases n,
{
    if n > 0 {
        lemma_dot_zero(a, b, (n - 1) as nat);
        assert(b[n - 1] == 0);
        assert(a[n - 1] * b[n - 1] == 0);
    }
}

/// Rows without a set bit add nothing to a commitment: with the same
/// columns, the sum over the first `m` rows of `z2` equals the sum over the
/// first `n` rows of `z` when the two agree below `n` and rows `n..m` of
/// `z2` are all zero. In particular an all-zero witness commits to zero.
pub proof fn lemma_zero_rows_add_nothing(
    cols: Seq<Seq<nat>>,
    z: Seq<Seq<bool>>,
    z2: Seq<Seq<bool>>,
    i: int,
    n: int,
    m: int,
    p: nat,
)
    requires
        0 <= n <= m,
        n <= z.len(),
        m <= z2.len(),
        forall|j: int| 0 <= j < n ==> #[trigger] z2[j] == z[j],
        forall|j: int| n <= j < m ==> (#[trigger] z2[j]).len() == GL_D,
        forall|j: int, k: int| n <= j < m && 0 <= k < GL_D ==> !(#[trigger] z2[j][k]),
    ensures
        column_sum(cols, z2, i, m, p) == column_sum(cols, z, i, n, p),
    decreases m,
{
    if m > n {
        lemma_zero_rows_add_nothing(cols, z, z2, i, n, m - 1, p);
        let bits = bit_values(z2[m - 1]);
        assert forall|k: int| 0 <= k < GL_D implies #[trigger] bits[k] == 0 by {
            assert(!z2[m - 1][k]);
        }
        lemma_dot_zero(rot_row(p, cols[m - 1], i), bits, GL_D as nat);
    } else {
        lemma_column_sum_prefix_eq(cols, z, z2, i, n, p);
    }
}

/// `column_sum` over `n` rows reads only the first `n` rows of `z`.
proof fn lemma_column_sum_prefix_eq(cols: Seq<Seq<nat>>, z: Seq<Seq<bool>>, z2: Seq<Seq<bool>>, i: int, n: int, p: nat)
    requires
        forall|j: int| 0 <= j < n ==> #[trigger] z2[j] == z[j],
    ensures
        column_sum(cols, z2, i, n, p) == column_sum(cols, z, i, n, p),
    decreases n,
{
    if n > 0 {
        lemma_column_sum_prefix_eq(cols, z, z2, i, n - 1, p);
        assert(z2[n - 1] == z[n - 1]);
    }
}

/// A matrix commitment whose public matrix is derived from `seed`.
pub struct CommitmentScheme<C: FieldConfig> {
    seed: String,
    _marker: PhantomData<C>,
}

impl<C: FieldConfig> CommitmentScheme<C> {
    pub fn new(seed: String) -> (r: Self)
        ensures
            r.seed() == seed@,
    {
        CommitmentScheme { seed, _marker: PhantomData }
    }

    /// The seed of the public matrix.
    pub closed spec fn seed(&self) -> Seq<char> {
        self.seed@
    }
}

/// Committing to a matrix of bits.
pub trait Commit<F> {
    /// The bit matrices that this scheme commits to.
    spec fn is_admissible(z: &Matrix<bool>) -> bool;

    fn commit(&self, z: &Matrix<bool>) -> Matrix<F>
        requires
            Self::is_admissible(z),
    ;
}

impl Commit<GLFq> for CommitmentScheme<GLFqConfig> {
    /// Every row of `z` holds `54` bits.
    open spec fn is_admissible(z: &Matrix<bool>) -> bool {
        forall|j: int| 0 <= j < z.0@.len() ==> (#[trigger] z.0@[j])@.len() == GL_D
    }

    /// Row `r` of the commitment is `sum_j rot(A[r][j]) * z[j]` for columns
    /// `A[r][j]` drawn with `reject_sampling(seed, r, j)`.
    fn commit(&self, z: &Matrix<bool>) -> (res: Matrix<GLFq>)
        ensures
            res.0@.len() == GL_KAPPA,
            forall|r: int|
                0 <= r < GL_KAPPA ==> is_committed_bit_row(
                    z.entries(),
                    values((#[trigger] res.0@[r])@),
                    GLFqConfig::spec_modulus(),
                ),
            forall|r: int|
                0 <= r < GL_KAPPA ==> is_seeded_bit_row(self.seed(), r as nat, z.entries(), values((#[trigger] res.0@[r])@)),
    {
        let ghost p = GLFqConfig::spec_modulus();
        let ghost ze = z.entries();
        let kappa = GL_KAPPA;
        let mut rows: Vec<Vector<GLFq>> = Vec::with_capacity(kappa);
        let mut r: usize = 0;
        while r < kappa
            invariant
                kappa == GL_KAPPA,
                p == GLFqConfig::spec_modulus(),
                ze == z.entries(),
                forall|j: int| 0 <= j < z.0@.len() ==> (#[trigger] z.0@[j])@.len() == GL_D,
                r <= kappa,
                rows@.len() == r,
                forall|s: int| 0 <= s < r ==> is_committed_bit_row(ze, values((#[trigger] rows@[s])@), p),
                forall|s: int| 0 <= s < r ==> is_seeded_bit_row(self.seed(), s as nat, ze, values((#[trigger] rows@[s])@)),
            decreases kappa - r,
        {
            let acc = self.commit_row(z, r);
            let ghost old_rows = rows@;
            rows.push(acc);
            proof {
                assert forall|s: int| 0 <= s < r + 1 implies is_committed_bit_row(ze, values((#[trigger] rows@[s])@), p)
                    && is_seeded_bit_row(self.seed(), s as nat, ze, values(rows@[s]@)) by {
                    if s < r {
                        assert(rows@[s] == old_rows[s]);
                    }
                }
            }
            r = r + 1;
        }
        Matrix(rows)
    }
}

/// `cols` are the first `n` columns of row `r` of the public matrix of
/// `seed`: column `j` is the sampled column `(r, j)`.
pub open spec fn is_seeded_columns(seed: Seq<char>, r: nat, n: nat, cols: Seq<Vector<GLFq>>) -> bool {
    &&& cols.len() == n
    &&& forall|j: int| 0 <= j < n ==> #[trigger] is_sampled_column::<GLFqConfig, 54>(seed, r, j as nat, cols[j])
}

/// `row` is row `r` of the commitment of the bit matrix `z` under the public
/// matrix of `seed`: `sum_j rot(A[r][j]) * z[j]` (mod `p`), where `A[r][j]` is
/// the sampled column `(r, j)`.
pub open spec fn is_seeded_bit_row(seed: Seq<char>, r: nat, z: Seq<Seq<bool>>, row: Seq<nat>) -> bool {
    exists|cols: Seq<Vector<GLFq>>|
        #[trigger] is_seeded_columns(seed, r, z.len(), cols) && row.len() == GL_D && forall|i: int|
            0 <= i < GL_D ==> #[trigger] row[i] == column_sum(column_values(cols), z, i, z.len() as int, GLFqConfig::spec_modulus())
                % (GLFqConfig::spec_modulus() as int)
}

/// Law: row `r` of the bit-matrix commitment sums `rot(A[r][j]) * z[j]` over
/// the sampled columns `(r, j)` of the public matrix of the scheme's seed.
pub proof fn lemma_commit_row_uses_its_row(scheme: &CommitmentScheme<GLFqConfig>, z: &Matrix<bool>, r: usize, res: Vector<GLFq>)
    requires
        call_ensures(CommitmentScheme::<GLFqConfig>::commit_row, (scheme, z, r), res),
    ensures
        is_seeded_bit_row(scheme.seed(), r as nat, z.entries(), values(res@)),
{
}

/// `row` is row `r` of the commitment of the field witness `z` under the
/// public matrix of `seed`: `sum_j rot(A[r][j]) * z[j]` (mod `p`), where
/// `A[r][j]` is the sampled column `(r, j)`.
pub open spec fn is_seeded_field_row(seed: Seq<char>, r: nat, z: Seq<Seq<nat>>, row: Seq<nat>) -> bool {
    exists|cols: Seq<Vector<GLFq>>|
        #[trigger] is_seeded_columns(seed, r, z.len(), cols) && row.len() == GL_D && forall|i: int|
            0 <= i < GL_D ==> #[trigger] row[i] == field_column_sum(column_values(cols), z, i, z.len() as int, GLFqConfig::spec_modulus())
                % (GLFqConfig::spec_modulus() as int)
}

/// The coefficient sequences of a list of columns.
pub open spec fn column_values(cols: Seq<Vector<GLFq>>) -> Seq<Seq<nat>> {
    Seq::new(cols.len(), |j: int| values(cols[j]@))
}

/// `sum_j rot(cols[j]) * z[j]` for given columns: entry `i` is
/// `column_sum(cols, z, i, n) mod p` over the `n` rows of `z`.
pub fn commit_with_columns(cols: &Vec<Vector<GLFq>>, z: &Matrix<bool>) -> (res: Vector<GLFq>)
    requires
        cols@.len() == z.0@.len(),
        forall|j: int| 0 <= j < cols@.len() ==> (#[trigger] cols@[j])@.len() == GL_D,
        forall|j: int| 0 <= j < z.0@.len() ==> (#[trigger] z.0@[j])@.len() == GL_D,
    ensures
        res@.len() == GL_D,
        forall|i: int|
            0 <= i < GL_D ==> (#[trigger] res@[i])@ == column_sum(
                column_values(cols@),
                z.entries(),
                i,
                z.0@.len() as int,
                GLFqConfig::spec_modulus(),
            ) % (GLFqConfig::spec_modulus() as int),
{
    let ghost p = GLFqConfig::spec_modulus();
    let ghost ze = z.entries();
    let ghost cv = column_values(cols@);
    let d = GL_D;
    let n = z.0.len();
    let mut acc_v: Vec<GLFq> = Vec::with_capacity(d);
    let mut t: usize = 0;
    while t < d
        invariant
            d == GL_D,
            t <= d,
            acc_v@.len() == t,
            forall|k: int| 0 <= k < t ==> (#[trigger] acc_v@[k])@ == 0,
        decreases d - t,
    {
        acc_v.push(Fp::zero());
        t = t + 1;
    }
    let mut acc = Vector(acc_v);
    proof {
        assert forall|i: int| 0 <= i < GL_D implies (#[trigger] acc@[i])@ == column_sum(cv, ze, i, 0, p) % (p as int) by {
            lemma_small_mod(0, p);
        }
    }
    let mut c: usize = 0;
    while c < n
        invariant
            d == GL_D,
            p == GLFqConfig::spec_modulus(),
            ze == z.entries(),
            cv == column_values(cols@),
            n == z.0@.len(),
            cols@.len() == n,
            forall|j: int| 0 <= j < cols@.len() ==> (#[trigger] cols@[j])@.len() == GL_D,
            forall|j: int| 0 <= j < z.0@.len() ==> (#[trigger] z.0@[j])@.len() == GL_D,
            c <= n,
            acc@.len() == GL_D,
            forall|i: int| 0 <= i < GL_D ==> (#[trigger] acc@[i])@ == column_sum(cv, ze, i, c as int, p) % (p as int),
        decreases n - c,
    {
        let a_ij = &cols[c];
        let x_j = &z.0[c];
        let rot = a_ij.rot();
        proof {
            assert(ze[c as int] == x_j@);
            assert(cv[c as int] == values(a_ij@));
        }
        let prod = rot.mul_bool_vector(x_j);
        proof {
            assert forall|i: int| 0 <= i < GL_D implies values(#[trigger] rot.0@[i]@) == rot_row(p, values(a_ij@), i) by {
                assert(values(rot.0@[i]@) =~= rot_row(p, values(a_ij@), i));
            }
        }
        acc = acc.add(prod);
        proof {
            assert forall|i: int| 0 <= i < GL_D implies (#[trigger] acc@[i])@ == column_sum(cv, ze, i, c + 1, p) % (p as int) by {
                let s = column_sum(cv, ze, i, c as int, p);
                let e = dot(rot_row(p, values(a_ij@), i), bit_values(x_j@), GL_D as nat);
                assert(column_sum(cv, ze, i, c + 1, p) == s + e);
                lemma_add_mod_noop(s, e, p as int);
            }
        }
        c = c + 1;
    }
    acc
}

impl CommitmentScheme<GLFqConfig> {
    /// Row `r` of the commitment of the bit matrix `z`:
    /// `sum_j rot(A[r][j]) * z[j]` for columns `A[r][j]` drawn with
    /// `reject_sampling(seed, r, j)`, summed by `commit_with_columns`.
    pub fn commit_row(&self, z: &Matrix<bool>, r: usize) -> (res: Vector<GLFq>)
        requires
            forall|j: int| 0 <= j < z.0@.len() ==> (#[trigger] z.0@[j])@.len() == GL_D,
        ensures
            is_committed_bit_row(z.entries(), values(res@), GLFqConfig::spec_modulus()),
            is_seeded_bit_row(self.seed(), r as nat, z.entries(), values(res@)),
    {
        let ghost p = GLFqConfig::spec_modulus();
        let seed = self.seed.as_str();
        let n = z.0.len();
        let mut columns: Vec<Vector<GLFq>> = Vec::with_capacity(n);
        let mut c: usize = 0;
        while c < n
            invariant
                n == z.0@.len(),
                c <= n,
                columns@.len() == c,
                forall|j: int| 0 <= j < c ==> (#[trigger] columns@[j])@.len() == GL_D,
                forall|j: int, i: int| 0 <= j < c && 0 <= i < GL_D ==> 0 < (#[trigger] columns@[j]@[i])@ < GLFqConfig::spec_modulus(),
                seed@ == self.seed(),
                forall|j: int| 0 <= j < c ==> #[trigger] is_sampled_column::<GLFqConfig, 54>(self.seed(), r as nat, j as nat, columns@[j]),
            decreases n - c,
        {
            columns.push(reject_sampling::<GLFqConfig, 54>(seed, r, c));
            c = c + 1;
        }
        let res = commit_with_columns(&columns, z);
        proof {
            let cv = column_values(columns@);
            assert forall|j: int, i: int| 0 <= j < cv.len() && 0 <= i < GL_D implies 0 < (#[trigger] cv[j][i]) < p by {
                assert(cv[j][i] == columns@[j]@[i]@);
            }
            assert(is_bit_commitment_row(cv, z.entries(), values(res@), p));
            assert(is_seeded_columns(self.seed(), r as nat, z.entries().len(), columns@));
        }
        res
    }

    /// The commitment of a witness of field elements: row `r` is
    /// `sum_j rot(A[r][j]) * z[j]` with the same columns as `commit`.
    pub fn commit_test(&self, z: &Matrix<GLFq>) -> (res: Matrix<GLFq>)
        requires
            forall|j: int| 0 <= j < z.0@.len() ==> (#[trigger] z.0@[j])@.len() == GL_D,
        ensures
            res.0@.len() == GL_KAPPA,
            forall|r: int|
                0 <= r < GL_KAPPA ==> is_committed_field_row(
                    z.residues(),
                    values((#[trigger] res.0@[r])@),
                    GLFqConfig::spec_modulus(),
                ),
            forall|r: int|
                0 <= r < GL_KAPPA ==> is_seeded_field_row(self.seed(), r as nat, z.residues(), values((#[trigger] res.0@[r])@)),
    {
        let ghost p = GLFqConfig::spec_modulus();
        let ghost ze = z.residues();
        let seed = self.seed.as_str();
        let kappa = GL_KAPPA;
        let d = GL_D;
        let cols = z.0.len();
        let mut rows: Vec<Vector<GLFq>> = Vec::with_capacity(kappa);
        let mut r: usize = 0;
        while r < kappa
            invariant
                kappa == GL_KAPPA,
                d == GL_D,
                p == GLFqConfig::spec_modulus(),
                ze == z.residues(),
                cols == z.0@.len(),
                forall|j: int| 0 <= j < z.0@.len() ==> (#[trigger] z.0@[j])@.len() == GL_D,
                r <= kappa,
                rows@.len() == r,
                forall|s: int| 0 <= s < r ==> is_committed_field_row(ze, values((#[trigger] rows@[s])@), p),
                forall|s: int| 0 <= s < r ==> is_seeded_field_row(self.seed(), s as nat, ze, values((#[trigger] rows@[s])@)),
                seed@ == self.seed(),
            decreases kappa - r,
        {
            let mut acc_v: Vec<GLFq> = Vec::with_capacity(d);
            let mut t: usize = 0;
            while t < d
                invariant
                    d == GL_D,
                    t <= d,
                    acc_v@.len() == t,
                    forall|k: int| 0 <= k < t ==> (#[trigger] acc_v@[k])@ == 0,
                decreases d - t,
            {
                acc_v.push(Fp::zero());
                t = t + 1;
            }
            let mut acc = Vector(acc_v);
            let ghost mut sampled: Seq<Seq<nat>> = Seq::empty();
            let ghost mut sampled_cols: Seq<Vector<GLFq>> = Seq::empty();
            proof {
                assert forall|i: int| 0 <= i < GL_D implies (#[trigger] acc@[i])@ == field_column_sum(sampled, ze, i, 0, p) % (p as int) by {
                    lemma_small_mod(0, p);
                }
            }
            let mut c: usize = 0;
            while c < cols
                invariant
                    d == GL_D,
                    p == GLFqConfig::spec_modulus(),
                    ze == z.residues(),
                    cols == z.0@.len(),
                    forall|j: int| 0 <= j < z.0@.len() ==> (#[trigger] z.0@[j])@.len() == GL_D,
                    c <= cols,
                    sampled.len() == c,
                    forall|j: int, i: int| 0 <= j < sampled.len() && 0 <= i < GL_D ==> 0 < (#[trigger] sampled[j][i]) < p,
                    forall|j: int| 0 <= j < sampled.len() ==> (#[trigger] sampled[j]).len() == GL_D,
                    acc@.len() == GL_D,
                    forall|i: int| 0 <= i < GL_D ==> (#[trigger] acc@[i])@ == field_column_sum(sampled, ze, i, c as int, p) % (p as int),
                    seed@ == self.seed(),
                    sampled_cols.len() == c,
                    sampled == column_values(sampled_cols),
                    forall|j: int| 0 <= j < c ==> #[trigger] is_sampled_column::<GLFqConfig, 54>(self.seed(), r as nat, j as nat, sampled_cols[j]),
                decreases cols - c,
            {
                let a_ij = reject_sampling::<GLFqConfig, 54>(seed, r, c);
                let x_j = z.0[c].clone();
                let rot = a_ij.rot();
                let ghost old_sampled = sampled;
                proof {
                    let old_cols = sampled_cols;
                    sampled = sampled.push(values(a_ij@));
                    sampled_cols = sampled_cols.push(a_ij);
                    assert(sampled =~= column_values(sampled_cols));
                    assert forall|j: int| 0 <= j < c + 1 implies #[trigger] is_sampled_column::<GLFqConfig, 54>(
                        self.seed(),
                        r as nat,
                        j as nat,
                        sampled_cols[j],
                    ) by {
                        if j < c {
                            assert(sampled_cols[j] == old_cols[j]);
                        }
                    }
                    assert forall|k: int| 0 <= k < x_j@.len() implies #[trigger] x_j@[k] == z.0@[c as int]@[k] by {
                        assert(cloned::<GLFq>(z.0@[c as int]@[k], x_j@[k]));
                    }
                    assert(x_j@ =~= z.0@[c as int]@);
                    assert(ze[c as int] == values(x_j@));
                }
                let prod = rot.mul_vector(x_j);
                proof {
                    assert forall|i: int| 0 <= i < GL_D implies #[trigger] field_column_sum(old_sampled, ze, i, c as int, p)
                        == field_column_sum(sampled, ze, i, c as int, p) by {
                        lemma_field_column_sum_prefix(old_sampled, sampled, ze, i, c as int, p);
                    }
                    assert forall|i: int| 0 <= i < GL_D implies values(#[trigger] rot.0@[i]@) == rot_row(p, values(a_ij@), i) by {
                        assert(values(rot.0@[i]@) =~= rot_row(p, values(a_ij@), i));
                    }
                }
                acc = acc.add(prod);
                proof {
                    assert forall|i: int| 0 <= i < GL_D implies (#[trigger] acc@[i])@ == field_column_sum(sampled, ze, i, c + 1, p) % (p as int) by {
                        let s = field_column_sum(sampled, ze, i, c as int, p);
                        let e = dot(rot_row(p, values(a_ij@), i), ze[c as int], GL_D as nat);
                        assert(sampled[c as int] == values(a_ij@));
                        assert(field_column_sum(sampled, ze, i, c + 1, p) == s + e);
                        assert(min_len(GL_D as nat, GL_D as nat) == GL_D);
                        lemma_add_mod_noop(s, e, p as int);
                    }
                }
                c = c + 1;
            }
            proof {
                assert(is_field_commitment_row(sampled, ze, values(acc@), p));
                assert(is_seeded_columns(self.seed(), r as nat, ze.len(), sampled_cols));
                assert(is_seeded_field_row(self.seed(), r as nat, ze, values(acc@)));
            }
            let ghost old_rows = rows@;
            rows.push(acc);
            proof {
                assert forall|s: int| 0 <= s < r + 1 implies is_committed_field_row(ze, values((#[trigger] rows@[s])@), p)
                    && is_seeded_field_row(self.seed(), s as nat, ze, values(rows@[s]@)) by {
                    if s < r {
                        assert(rows@[s] == old_rows[s]);
                    } else {
                        assert(is_field_commitment_row(sampled, ze, values(rows@[s]@), p));
                    }
                }
            }
            r = r + 1;
        }
        Matrix(rows)
    }
}

/// `field_column_sum` only reads the first `n` columns.
proof fn lemma_field_column_sum_prefix(a: Seq<Seq<nat>>, b: Seq<Seq<nat>>, z: Seq<Seq<nat>>, i: int, n: int, p: nat)
    requires
        0 <= n <= a.len(),
        n <= b.len(),
        forall|j: int| 0 <= j < n ==> a[j] == b[j],
    ensures
        field_column_sum(a, z, i, n, p) == field_column_sum(b, z, i, n, p),
    decreases n,
{
    if n > 0 {
        lemma_field_column_sum_prefix(a, b, z, i, n - 1, p);
        assert(a[n - 1] == b[n - 1]);
    }
}

/// The column the generator seeded with `digest` yields: `D` nonzero field
/// elements, drawn one after another from that generator.
pub fn column_from_digest<C: FieldConfig, const D: usize>(digest: [u8; 32]) -> (r: Vector<Fp<C>>)
    ensures
        r@.len() == D,
        forall|i: int| 0 <= i < D ==> 0 < (#[trigger] r@[i])@ < C::spec_modulus(),
{
    let mut rng = std_rng_from_seed(digest);
    let mut column_vec: Vec<Fp<C>> = Vec::with_capacity(D);
    let mut i: usize = 0;
    while i < D
        invariant
            i <= D,
            column_vec@.len() == i,
            forall|k: int| 0 <= k < i ==> 0 < (#[trigger] column_vec@[k])@ < C::spec_modulus(),
        decreases D - i,
    {
        column_vec.push(Fp::random_nonzero(&mut rng));
        i = i + 1;
    }
    Vector(column_vec)
}

/// `c` is what `column_from_digest` yields on the SHA-256 digest of
/// `(seed, row, column)`: the column `(row, column)` of the public matrix of
/// `seed`.
pub open spec fn is_sampled_column<C: FieldConfig, const D: usize>(
    seed: Seq<char>,
    row: nat,
    column: nat,
    c: Vector<Fp<C>>,
) -> bool {
    exists|d: [u8; 32]|
        d@ == sha256(sampling_message(encode_utf8(seed), row, column)) && #[trigger] call_ensures(
            column_from_digest::<C, D>,
            (d,),
            c,
        )
}

/// The column `(row_idx, column_idx)` of the public matrix: `D` nonzero
/// field elements drawn from a generator seeded with
/// `sampling_seed(seed, row_idx, column_idx)`.
pub fn reject_sampling<C: FieldConfig, const D: usize>(seed: &str, row_idx: usize, column_idx: usize) -> (r: Vector<Fp<C>>)
    ensures
        r@.len() == D,
        forall|i: int| 0 <= i < D ==> 0 < (#[trigger] r@[i])@ < C::spec_modulus(),
        is_sampled_column::<C, D>(seed@, row_idx as nat, column_idx as nat, r),
{
    let digest = sampling_seed(seed, row_idx, column_idx);
    let r = column_from_digest::<C, D>(digest);
    proof {
        assert(call_ensures(column_from_digest::<C, D>, (digest,), r));
    }
    r
}

/// Law: the column `(row, column)` that `reject_sampling` returns is the one
/// the generator seeded with the digest of exactly that `(seed, row, column)`
/// yields; a column of another row or column index is not substituted.
pub proof fn lemma_reject_sampling_uses_its_digest<C: FieldConfig, const D: usize>(
    seed: &str,
    row: usize,
    column: usize,
    r: Vector<Fp<C>>,
)
    requires
        call_ensures(reject_sampling::<C, D>, (seed, row, column), r),
    ensures
        is_sampled_column::<C, D>(seed@, row as nat, column as nat, r),
{
}

/// The challenge coefficient a draw in `0..4` selects:
/// `0 -> -1`, `1 -> 0`, `2 -> 1`, `3 -> 2`.
pub fn challenge_coeff(draw: i32) -> (c: GLFq)
    requires
        0 <= draw < 4,
    ensures
        c@ == coeff_of_draw(GLFqConfig::spec_modulus(), draw as int),
        is_small_coeff(GLFqConfig::spec_modulus(), c@),
{
    let ghost p = GLFqConfig::spec_modulus();
    proof {
        lemma_mod_add_multiples_vanish(-1, p as int);
        lemma_small_mod((p - 1) as nat, p);
        lemma_small_mod(1, p);
    }
    if draw == 0 {
        Fp::one().neg()
    } else if draw == 1 {
        Fp::zero()
    } else if draw == 2 {
        Fp::one()
    } else {
        Fp::new(2)
    }
}

impl Vector<GLFq> {
    /// The rotation matrix of `self` in `F[X] / (X^54 + X^27 + 1)`: column
    /// `j` holds the coefficients of `X^j * self`.
    pub fn rot(&self) -> (r: Matrix<GLFq>)
        requires
            self@.len() == GL_D,
        ensures
            r.0@.len() == GL_D,
            forall|i: int| 0 <= i < GL_D ==> (#[trigger] r.0@[i])@.len() == GL_D,
            forall|i: int, j: int|
                0 <= i < GL_D && 0 <= j < GL_D ==> (#[trigger] r.0@[i]@[j])@ == times_x_pow(
                    GLFqConfig::spec_modulus(),
                    values(self@),
                    j as nat,
                )[i],
            forall|i: int|
                0 <= i < GL_D ==> values(#[trigger] r.0@[i]@) == rot_row(GLFqConfig::spec_modulus(), values(self@), i),
    {
        let d = GL_D;
        let ghost p = GLFqConfig::spec_modulus();
        let ghost a = values(self@);
        let mut minus_c: Vec<GLFq> = Vec::with_capacity(d);
        let mut i: usize = 0;
        while i < d
            invariant
                d == GL_D,
                i <= d,
                minus_c@.len() == i,
                forall|k: int| 0 <= k < i ==> (#[trigger] minus_c@[k])@ == (if k == 0 || k == 27 { (p - 1) as nat } else { 0nat }),
                p == GLFqConfig::spec_modulus(),
            decreases d - i,
        {
            if i == 0 || i == 27 {
                let m = Fp::one().neg();
                proof {
                    assert(m@ == (p - 1) as nat) by {
                        lemma_mod_add_multiples_vanish(-1, p as int);
                        lemma_small_mod((p - 1) as nat, p);
                    }
                }
                minus_c.push(m);
            } else {
                minus_c.push(Fp::zero());
            }
            i = i + 1;
        }
        // the columns v0, F v0, F^2 v0, ..., F^{d-1} v0
        let mut col: Vec<GLFq> = self.0.clone();
        proof {
            assert(values(col@) == times_x_pow(p, a, 0));
        }
        let mut cols: Vec<Vec<GLFq>> = Vec::with_capacity(d);
        let mut j: usize = 0;
        while j < d
            invariant
                d == GL_D,
                p == GLFqConfig::spec_modulus(),
                a == values(self@),
                minus_c@.len() == d,
                forall|k: int| 0 <= k < d ==> (#[trigger] minus_c@[k])@ == (if k == 0 || k == 27 { (p - 1) as nat } else { 0nat }),
                j <= d,
                col@.len() == d,
                values(col@) == times_x_pow(p, a, j as nat),
                cols@.len() == j,
                forall|t: int| 0 <= t < j ==> (#[trigger] cols@[t])@.len() == d,
                forall|t: int| 0 <= t < j ==> values(#[trigger] cols@[t]@) == times_x_pow(p, a, t as nat),
            decreases d - j,
        {
            let next = apply_f(&col, &minus_c);
            cols.push(col);
            col = next;
            j = j + 1;
        }
        // Matrix rows: entry (i, j) is entry i of column j.
        let mut rows: Vec<Vector<GLFq>> = Vec::with_capacity(d);
        let mut i: usize = 0;
        while i < d
            invariant
                d == GL_D,
                p == GLFqConfig::spec_modulus(),
                a == values(self@),
                cols@.len() == d,
                forall|t: int| 0 <= t < d ==> (#[trigger] cols@[t])@.len() == d,
                forall|t: int| 0 <= t < d ==> values(#[trigger] cols@[t]@) == times_x_pow(p, a, t as nat),
                i <= d,
                rows@.len() == i,
                forall|s: int| 0 <= s < i ==> (#[trigger] rows@[s])@.len() == d,
                forall|s: int, t: int|
                    0 <= s < i && 0 <= t < d ==> (#[trigger] rows@[s]@[t])@ == times_x_pow(p, a, t as nat)[s],
            decreases d - i,
        {
            let mut row: Vec<GLFq> = Vec::with_capacity(d);
            let mut j: usize = 0;
            while j < d
                invariant
                    d == GL_D,
                    p == GLFqConfig::spec_modulus(),
                    a == values(self@),
                    cols@.len() == d,
                    forall|t: int| 0 <= t < d ==> (#[trigger] cols@[t])@.len() == d,
                    forall|t: int| 0 <= t < d ==> values(#[trigger] cols@[t]@) == times_x_pow(p, a, t as nat),
                    i < d,
                    j <= d,
                    row@.len() == j,
                    forall|t: int| 0 <= t < j ==> (#[trigger] row@[t])@ == times_x_pow(p, a, t as nat)[i as int],
                decreases d - j,
            {
                proof {
                    assert(values(cols@[j as int]@)[i as int] == cols@[j as int]@[i as int]@);
                }
                row.push(cols[j][i]);
                j = j + 1;
            }
            rows.push(Vector(row));
            i = i + 1;
        }
        proof {
            assert forall|s: int| 0 <= s < d implies values(#[trigger] rows@[s]@) == rot_row(p, a, s) by {
                assert(values(rows@[s]@) =~= rot_row(p, a, s));
            }
        }
        Matrix(rows)
    }

    /// A challenge ring element: 54 coefficients drawn from `{-1, 0, 1, 2}`
    /// by a generator seeded with the SHA-256 digest of `seed`.
    pub fn challenge(seed: &str) -> (r: Vector<GLFq>)
        ensures
            r@.len() == GL_D,
            forall|i: int| 0 <= i < GL_D ==> is_small_coeff(GLFqConfig::spec_modulus(), (#[trigger] r@[i])@),
            is_seeded_challenge(seed@, values(r@)),
    {
        let d = GL_D;
        let ghost p = GLFqConfig::spec_modulus();
        let digest = seed_digest(seed);
        let mut rng = seeded_generator(digest);
        let ghost mut states: Seq<StdRng> = seq![rng];
        let ghost mut draws: Seq<i32> = Seq::empty();
        let mut column_vec: Vec<GLFq> = Vec::with_capacity(d);
        let mut i: usize = 0;
        while i < d
            invariant
                d == GL_D,
                p == GLFqConfig::spec_modulus(),
                i <= d,
                column_vec@.len() == i,
                forall|k: int| 0 <= k < i ==> is_small_coeff(p, (#[trigger] column_vec@[k])@),
                draws.len() == i,
                states.len() == i + 1,
                states[i as int] == rng,
                call_ensures(seeded_generator, (digest,), states[0]),
                forall|k: int|
                    #![trigger draws[k]]
                    0 <= k < i ==> call_ensures(draw_i32, (states[k], 0i32, 4i32), (draws[k], states[k + 1])),
                forall|k: int| 0 <= k < i ==> (#[trigger] column_vec@[k])@ == coeff_of_draw(p, draws[k] as int),
            decreases d - i,
        {
            let (draw, next) = draw_i32(rng, 0, 4);
            proof {
                let old_states = states;
                let old_draws = draws;
                draws = draws.push(draw);
                states = states.push(next);
                assert forall|k: int|
                    #![trigger draws[k]]
                    0 <= k < i + 1 implies call_ensures(draw_i32, (states[k], 0i32, 4i32), (draws[k], states[k + 1])) by {
                    if k < i {
                        assert(states[k] == old_states[k] && states[k + 1] == old_states[k + 1] && draws[k] == old_draws[k]);
                    }
                }
            }
            rng = next;
            let coeff = challenge_coeff(draw);
            column_vec.push(coeff);
            i = i + 1;
        }
        proof {
            assert(is_i32_chain(digest, 0, 4, draws, states));
            assert(is_i32_stream(digest, 0, 4, draws));
            assert(values(column_vec@).len() == GL_D);
            assert forall|k: int| 0 <= k < GL_D implies #[trigger] values(column_vec@)[k] == coeff_of_draw(
                p,
                draws[k] as int,
            ) by {
                assert(values(column_vec@)[k] == column_vec@[k]@);
            }
            assert(is_seeded_challenge(seed@, values(column_vec@)));
        }
        Vector(column_vec)
    }
}

/// `c` is the challenge of `seed`: coefficient `i` is `coeff_of_draw` of the
/// `i`-th of `54` successive draws from `0..4` of one generator seeded with
/// the SHA-256 digest of `seed`.
pub open spec fn is_seeded_challenge(seed: Seq<char>, c: Seq<nat>) -> bool {
    exists|d: [u8; 32], draws: Seq<i32>|
        #![trigger is_i32_stream(d, 0i32, 4i32, draws)]
        d@ == sha256(encode_utf8(seed)) && draws.len() == GL_D && is_i32_stream(d, 0i32, 4i32, draws) && c.len() == GL_D
            && forall|i: int| 0 <= i < GL_D ==> #[trigger] c[i] == coeff_of_draw(GLFqConfig::spec_modulus(), draws[i] as int)
}

/// Law: the coefficients of `challenge(seed)` come from successive draws of
/// a single generator seeded with the digest of `seed`, each mapped by
/// `coeff_of_draw`.
pub proof fn lemma_challenge_is_seeded_stream(seed: &str, r: Vector<GLFq>)
    requires
        call_ensures(Vector::<GLFq>::challenge, (seed,), r),
    ensures
        is_seeded_challenge(seed@, values(r@)),
{
}

/// `F v = X * v`: shift up by one and add `v[d-1] * minus_c`.
fn apply_f(v: &Vec<GLFq>, minus_c: &Vec<GLFq>) -> (r: Vec<GLFq>)
    requires
        v@.len() == GL_D,
        minus_c@.len() == GL_D,
        forall|k: int|
            0 <= k < GL_D ==> (#[trigger] minus_c@[k])@ == (if k == 0 || k == 27 {
                (GLFqConfig::spec_modulus() - 1) as nat
            } else {
                0nat
            }),
    ensures
        r@.len() == GL_D,
        values(r@) == times_x(GLFqConfig::spec_modulus(), values(v@)),
{
    let ghost p = GLFqConfig::spec_modulus();
    let d = v.len();
    let last = v[d - 1];
    let _ = last.value();
    let mut res: Vec<GLFq> = Vec::with_capacity(d);
    let mut i: usize = 0;
    while i < d
        invariant
            d == GL_D,
            v@.len() == d,
            minus_c@.len() == d,
            p == GLFqConfig::spec_modulus(),
            last == v@[d - 1],
            last@ < p,
            forall|k: int|
                0 <= k < d ==> (#[trigger] minus_c@[k])@ == (if k == 0 || k == 27 { (p - 1) as nat } else { 0nat }),
            i <= d,
            res@.len() == i,
            forall|k: int| 0 <= k < i ==> (#[trigger] res@[k])@ == times_x(p, values(v@))[k],
        decreases d - i,
    {
        let shifted = if i > 0 { v[i - 1] } else { Fp::zero() };
        let _ = shifted.value();
        let t = last.mul(&minus_c[i]);
        let e = shifted.add(&t);
        proof {
            let s = if i > 0 { v@[i - 1]@ as int } else { 0 };
            assert(shifted@ == s);
            let f = if i == 0 || i == 27 { -(last@ as int) } else { 0 };
            lemma_add_mod_noop(s, (last@ * minus_c@[i as int]@) as int, p as int);
            lemma_add_mod_noop(s, f, p as int);
            lemma_small_mod(shifted@, p);
            if i == 0 || i == 27 {
                lemma_mul_mod_noop_right(last@ as int, -1, p as int);
                lemma_mod_add_multiples_vanish(-1, p as int);
                lemma_small_mod((p - 1) as nat, p);
                assert((last@ as int) * (-1) == -(last@ as int));
                lemma_mod_twice(-(last@ as int), p as int);
            } else {
                lemma_small_mod(0, p);
            }
            assert(e@ == times_x(p, values(v@))[i as int]);
        }
        res.push(e);
        i = i + 1;
    }
    proof {
        assert(values(res@) =~= times_x(p, values(v@)));
    }
    res
}

/// The bits of each row read as the residues `0` and `1`.
pub open spec fn bits_as_residues(z: Seq<Seq<bool>>) -> Seq<Seq<nat>> {
    Seq::new(z.len(), |j: int| bit_values(z[j]))
}

/// Committing to a matrix of bits is committing to its `0`/`1` residues:
/// `commit` and `commit_test` agree on bit matrices.
pub proof fn lemma_bit_commitment_is_field_commitment(
    cols: Seq<Seq<nat>>,
    z: Seq<Seq<bool>>,
    i: int,
    n: int,
    p: nat,
)
    requires
        0 <= n <= z.len(),
    ensures
        column_sum(cols, z, i, n, p) == field_column_sum(cols, bits_as_residues(z), i, n, p),
    decreases n,
{
    if n > 0 {
        lemma_bit_commitment_is_field_commitment(cols, z, i, n - 1, p);
    }
}

/// The residues of `s` read as integers.
pub open spec fn to_ints(s: Seq<nat>) -> Seq<int> {
    Seq::new(s.len(), |i: int| s[i] as int)
}

/// `R v` for the rotation matrix `R = rot(r)`, reduced modulo `p`.
pub open spec fn rot_apply(p: nat, r: Seq<nat>, v: Seq<nat>) -> Seq<nat> {
    Seq::new(GL_D as nat, |i: int| (dot(rot_row(p, r, i), v, GL_D as nat) % (p as int)) as nat)
}

/// The commitment row `sum_j rot(cols[j]) z[j]` of a field witness, reduced
/// modulo `p`.
pub open spec fn commitment_vector(p: nat, cols: Seq<Seq<nat>>, z: Seq<Seq<nat>>) -> Seq<nat> {
    Seq::new(GL_D as nat, |i: int| (field_column_sum(cols, z, i, z.len() as int, p) % (p as int)) as nat)
}

/// The witness `a_j + R b_j` (modulo `p`) for `R = rot(r)`.
pub open spec fn combine(p: nat, a: Seq<Seq<nat>>, b: Seq<Seq<nat>>, r: Seq<nat>) -> Seq<Seq<nat>> {
    Seq::new(
        a.len(),
        |j: int| Seq::new(GL_D as nat, |t: int| (a[j][t] + rot_apply(p, r, b[j])[t]) % p),
    )
}

/// `X^j a` reduced modulo `p` agrees with `X^j a` over the integers.
proof fn lemma_times_x_pow_congruent(p: nat, a: Seq<nat>, j: nat, i: int)
    requires
        p > 0,
        a.len() == GL_D,
        0 <= i < GL_D,
    ensures
        (times_x_pow(p, a, j)[i] as int) % (p as int) == txp(to_ints(a), j as int)[i] % (p as int),
    decreases j,
{
    let pi = p as int;
    if j > 0 {
        let u = times_x_pow(p, a, (j - 1) as nat);
        let v = txp(to_ints(a), j - 1);
        lemma_times_x_pow_congruent(p, a, (j - 1) as nat, GL_D - 1);
        if i > 0 {
            lemma_times_x_pow_congruent(p, a, (j - 1) as nat, i - 1);
        }
        assert(u.len() == GL_D);
        let u1 = if i > 0 { u[i - 1] as int } else { 0 };
        let v1 = if i > 0 { v[i - 1] } else { 0 };
        let u2 = if i == 0 || i == 27 { u[GL_D - 1] as int } else { 0 };
        let v2 = if i == 0 || i == 27 { v[GL_D - 1] } else { 0 };
        assert(u1 % pi == v1 % pi);
        assert(u2 % pi == v2 % pi);
        lemma_sub_mod_noop(u1, u2, pi);
        lemma_sub_mod_noop(v1, v2, pi);
        assert(times_x(p, u)[i] as int == (u1 - u2) % pi);
        assert(txp(to_ints(a), j as int) == crate::companion::tx(v));
        lemma_mod_twice(u1 - u2, pi);
    }
}

/// `rot(x) v` reduced modulo `p` agrees with `rot(x) v` over the integers.
proof fn lemma_dot_rot_row(p: nat, x: Seq<nat>, v: Seq<nat>, i: int)
    requires
        p > 0,
        x.len() == GL_D,
        v.len() == GL_D,
        0 <= i < GL_D,
    ensures
        dot(rot_row(p, x, i), v, GL_D as nat) % (p as int) == lin(to_ints(x), to_ints(v), i) % (p as int),
{
    let pi = p as int;
    let row = rot_row(p, x, i);
    lemma_dot_is_sum(row, v, GL_D as nat);
    let f = |t: int| (row[t] * v[t]) as int;
    let g = |t: int| txp(to_ints(x), t)[i] * to_ints(v)[t];
    assert forall|t: int| 0 <= t < GL_D implies #[trigger] f(t) % pi == g(t) % pi by {
        lemma_times_x_pow_congruent(p, x, t as nat, i);
        lemma_mul_mod_noop_left(row[t] as int, v[t] as int, pi);
        lemma_mul_mod_noop_left(txp(to_ints(x), t)[i], v[t] as int, pi);
    }
    lemma_sum_congruent(f, g, 0, GL_D as int, pi);
}

/// `field_column_sum` is the sum of the per-column products.
proof fn lemma_field_column_sum_is_sum(cols: Seq<Seq<nat>>, z: Seq<Seq<nat>>, i: int, n: int, p: nat)
    requires
        0 <= n,
    ensures
        field_column_sum(cols, z, i, n, p) == sum_range(
            |j: int| dot(rot_row(p, cols[j], i), z[j], GL_D as nat),
            0,
            n,
        ),
    decreases n,
{
    if n > 0 {
        lemma_field_column_sum_is_sum(cols, z, i, n - 1, p);
    }
}

/// The commitment is linear under challenge rotations: for any public
/// columns, `com(a) + R com(b) == com(a + R b)` with `R = rot(r)`, where
/// `a + R b` is taken column by column.
pub proof fn lemma_commitment_linearity(
    p: nat,
    cols: Seq<Seq<nat>>,
    a: Seq<Seq<nat>>,
    b: Seq<Seq<nat>>,
    r: Seq<nat>,
    i: int,
)
    requires
        p > 0,
        0 <= i < GL_D,
        r.len() == GL_D,
        cols.len() == a.len(),
        a.len() == b.len(),
        forall|j: int|
            0 <= j < cols.len() ==> (#[trigger] cols[j]).len() == GL_D && a[j].len() == GL_D
                && b[j].len() == GL_D,
    ensures
        (commitment_vector(p, cols, a)[i] + rot_apply(p, r, commitment_vector(p, cols, b))[i]) % p
            == commitment_vector(p, cols, combine(p, a, b, r))[i],
{
    let pi = p as int;
    let n = a.len() as int;
    let ri = to_ints(r);
    let c = combine(p, a, b, r);
    let cb = commitment_vector(p, cols, b);
    // integer images of the per-column products
    let pa = |j: int| lin(to_ints(cols[j]), to_ints(a[j]), i);
    let wb = |j: int| rotv(to_ints(cols[j]), to_ints(b[j]));
    let rb = |j: int| rotv(ri, to_ints(b[j]));
    let pc = |j: int| lin(to_ints(cols[j]), rb(j), i);
    // com(a)[i] == sum_j pa(j)  (mod p)
    lemma_field_column_sum_is_sum(cols, a, i, n, p);
    let da = |j: int| dot(rot_row(p, cols[j], i), a[j], GL_D as nat);
    assert forall|j: int| 0 <= j < n implies #[trigger] da(j) % pi == pa(j) % pi by {
        lemma_dot_rot_row(p, cols[j], a[j], i);
    }
    lemma_sum_congruent(da, pa, 0, n, pi);
    // R com(b) == sum_j rot(r) (rot(cols_j) b_j) == sum_j rot(cols_j) (rot(r) b_j)  (mod p)
    lemma_dot_rot_row(p, r, cb, i);
    let vb = vec_sum(wb, n);
    assert forall|t: int| 0 <= t < GL_D implies #[trigger] (to_ints(cb)[t] % pi) == vb[t] % pi by {
        lemma_field_column_sum_is_sum(cols, b, t, n, p);
        let db = |j: int| dot(rot_row(p, cols[j], t), b[j], GL_D as nat);
        let lb = |j: int| wb(j)[t];
        assert forall|j: int| 0 <= j < n implies #[trigger] db(j) % pi == lb(j) % pi by {
            lemma_dot_rot_row(p, cols[j], b[j], t);
        }
        lemma_sum_congruent(db, lb, 0, n, pi);
        lemma_mod_twice(field_column_sum(cols, b, t, n, p), pi);
    }
    lemma_lin_congruent(ri, to_ints(cb), vb, i, pi);
    lemma_lin_sum(ri, wb, n, i);
    let lr = |j: int| lin(ri, wb(j), i);
    assert forall|j: int| 0 <= j < n implies #[trigger] lr(j) == pc(j) by {
        lemma_rot_commute(ri, to_ints(cols[j]), to_ints(b[j]), i);
    }
    lemma_sum_ext(lr, pc, 0, n);
    // com(c)[i] == sum_j (pa(j) + pc(j))  (mod p)
    lemma_field_column_sum_is_sum(cols, c, i, n, p);
    let dc = |j: int| dot(rot_row(p, cols[j], i), c[j], GL_D as nat);
    let pac = |j: int| pa(j) + pc(j);
    assert forall|j: int| 0 <= j < n implies #[trigger] dc(j) % pi == pac(j) % pi by {
        lemma_dot_rot_row(p, cols[j], c[j], i);
        let cj = to_ints(c[j]);
        let sum_v = Seq::new(GL_D as nat, |t: int| to_ints(a[j])[t] + rb(j)[t]);
        assert forall|t: int| 0 <= t < GL_D implies #[trigger] (cj[t] % pi) == sum_v[t] % pi by {
            lemma_dot_rot_row(p, r, b[j], t);
            let ra = rot_apply(p, r, b[j])[t] as int;
            assert(ra == dot(rot_row(p, r, t), b[j], GL_D as nat) % pi);
            lemma_mod_twice(dot(rot_row(p, r, t), b[j], GL_D as nat), pi);
            lemma_add_mod_noop(a[j][t] as int, ra, pi);
            lemma_add_mod_noop(a[j][t] as int, rb(j)[t], pi);
            lemma_mod_twice(a[j][t] as int + ra, pi);
        }
        lemma_lin_congruent(to_ints(cols[j]), cj, sum_v, i, pi);
        lemma_lin_add(to_ints(cols[j]), to_ints(a[j]), rb(j), i);
    }
    lemma_sum_congruent(dc, pac, 0, n, pi);
    lemma_sum_add(pa, pc, 0, n);
    // put the pieces together
    let sa = sum_range(pa, 0, n);
    let sc = sum_range(pc, 0, n);
    let fa = field_column_sum(cols, a, i, n, p);
    let rcb = dot(rot_row(p, r, i), cb, GL_D as nat);
    assert(commitment_vector(p, cols, a)[i] as int == fa % pi);
    assert(rot_apply(p, r, cb)[i] as int == rcb % pi);
    lemma_add_mod_noop(fa, rcb, pi);
    lemma_add_mod_noop(sa, sc, pi);
    assert(c.len() == n);
}

/// The ring product is commutative: `rot(a) b == rot(b) a`, the coefficients
/// of `A(X) B(X)` modulo `X^54 + X^27 + 1` and `p`.
pub proof fn lemma_rot_apply_comm(p: nat, a: Seq<nat>, b: Seq<nat>)
    requires
        p > 0,
        a.len() == GL_D,
        b.len() == GL_D,
    ensures
        rot_apply(p, a, b) == rot_apply(p, b, a),
{
    assert forall|i: int| 0 <= i < GL_D implies #[trigger] rot_apply(p, a, b)[i] == rot_apply(p, b, a)[i] by {
        lemma_dot_rot_row(p, a, b, i);
        lemma_dot_rot_row(p, b, a, i);
        lemma_lin_sym(to_ints(a), to_ints(b), i);
    }
    assert(rot_apply(p, a, b) =~= rot_apply(p, b, a));
}

/// Rotation matrices commute on every vector:
/// `rot(a) (rot(b) v) == rot(b) (rot(a) v)` modulo `p`.
pub proof fn lemma_rot_apply_commute(p: nat, a: Seq<nat>, b: Seq<nat>, v: Seq<nat>)
    requires
        p > 0,
        a.len() == GL_D,
        b.len() == GL_D,
        v.len() == GL_D,
    ensures
        rot_apply(p, a, rot_apply(p, b, v)) == rot_apply(p, b, rot_apply(p, a, v)),
{
    let pi = p as int;
    let (ai, bi, vi) = (to_ints(a), to_ints(b), to_ints(v));
    let bv = rot_apply(p, b, v);
    let av = rot_apply(p, a, v);
    assert forall|t: int| 0 <= t < GL_D implies #[trigger] (to_ints(bv)[t] % pi) == rotv(bi, vi)[t] % pi by {
        lemma_dot_rot_row(p, b, v, t);
        lemma_mod_twice(dot(rot_row(p, b, t), v, GL_D as nat), pi);
    }
    assert forall|t: int| 0 <= t < GL_D implies #[trigger] (to_ints(av)[t] % pi) == rotv(ai, vi)[t] % pi by {
        lemma_dot_rot_row(p, a, v, t);
        lemma_mod_twice(dot(rot_row(p, a, t), v, GL_D as nat), pi);
    }
    assert forall|i: int| 0 <= i < GL_D implies #[trigger] rot_apply(p, a, bv)[i] == rot_apply(p, b, av)[i] by {
        lemma_dot_rot_row(p, a, bv, i);
        lemma_dot_rot_row(p, b, av, i);
        lemma_lin_congruent(ai, to_ints(bv), rotv(bi, vi), i, pi);
        lemma_lin_congruent(bi, to_ints(av), rotv(ai, vi), i, pi);
        lemma_rot_commute(ai, bi, vi, i);
    }
    assert(rot_apply(p, a, bv) =~= rot_apply(p, b, av));
}

/// `rot(a) * v` computed with `Vector::rot` and `Matrix::mul_vector` is
/// `rot_apply(p, a, v)`: the coefficients of `A(X) V(X)` modulo
/// `X^54 + X^27 + 1`, which are also those of `rot(v) * a`. With
/// `lemma_rot_apply_commute`, products of rotation matrices with vectors
/// commute: `rot(a) (rot(b) v) == rot(b) (rot(a) v)`.
pub proof fn lemma_rot_mul_vector(m: Matrix<GLFq>, a: Seq<nat>, v: Seq<nat>, out: Seq<nat>)
    requires
        a.len() == GL_D,
        v.len() == GL_D,
        m.0@.len() == GL_D,
        forall|i: int| 0 <= i < GL_D ==> values(#[trigger] m.0@[i]@) == rot_row(GLFqConfig::spec_modulus(), a, i),
        out.len() == GL_D,
        forall|i: int|
            0 <= i < GL_D ==> #[trigger] out[i] == dot(values(m.0@[i]@), v, min_len(m.0@[i]@.len(), v.len()))
                % (GLFqConfig::spec_modulus() as int),
    ensures
        out == rot_apply(GLFqConfig::spec_modulus(), a, v),
        out == rot_apply(GLFqConfig::spec_modulus(), v, a),
{
    let p = GLFqConfig::spec_modulus();
    assert forall|i: int| 0 <= i < GL_D implies #[trigger] out[i] == rot_apply(p, a, v)[i] by {
        assert(values(m.0@[i]@).len() == m.0@[i]@.len());
        assert(m.0@[i]@.len() == GL_D);
    }
    assert(out =~= rot_apply(p, a, v));
    lemma_rot_apply_comm(p, a, v);
}

impl Vector<bool> {
    /// The low `54` bits of `v`.
    pub fn from(v: &GLFq) -> (r: Self)
        ensures
            r@.len() == GL_D,
            forall|i: int| 0 <= i < GL_D ==> r@[i] == bit_of(v@, i as nat),
    {
        let d = GL_D;
        let mut coeffs: Vec<bool> = Vec::with_capacity(d);
        let mut i: usize = 0;
        while i < d
            invariant
                d == GL_D,
                i <= d,
                coeffs@.len() == i,
                forall|k: int| 0 <= k < i ==> coeffs@[k] == bit_of(v@, k as nat),
            decreases d - i,
        {
            coeffs.push(v.get_bit(i));
            i = i + 1;
        }
        Vector(coeffs)
    }
}

impl Matrix<bool> {
    /// Row `i` holds the low `54` bits of `m[i]`.
    pub fn from(m: &[GLFq]) -> (r: Self)
        ensures
            r.0@.len() == m@.len(),
            forall|i: int| 0 <= i < m@.len() ==> (#[trigger] r.0@[i])@.len() == GL_D,
            forall|i: int, j: int|
                0 <= i < m@.len() && 0 <= j < GL_D ==> (#[trigger] r.0@[i]@[j]) == bit_of(m@[i]@, j as nat),
    {
        let mut rows: Vec<Vector<bool>> = Vec::with_capacity(m.len());
        let mut i: usize = 0;
        while i < m.len()
            invariant
                i <= m@.len(),
                rows@.len() == i,
                forall|s: int| 0 <= s < i ==> (#[trigger] rows@[s])@.len() == GL_D,
                forall|s: int, j: int|
                    0 <= s < i && 0 <= j < GL_D ==> (#[trigger] rows@[s]@[j]) == bit_of(m@[s]@, j as nat),
            decreases m@.len() - i,
        {
            rows.push(Vector::<bool>::from(&m[i]));
            i = i + 1;
        }
        Matrix(rows)
    }
}

} // verus!
