# matrix_commitment_scheme

A lattice-based matrix commitment and the algebra around it, written in
Verus. The library's functions carry contracts that Verus proves; where a
result comes from the seeded random generator, the contract states what
holds of every draw (ranges, nonzero coefficients, the shape of a
commitment) rather than which value is drawn.

Layout of `src/`:

- `field.rs` — prime fields `Z/pZ` with 64-bit moduli (Goldilocks and
  "almost Goldilocks"), held as canonical residues; inversion by the extended
  Euclidean algorithm, `None` exactly for zero.
- `prime.rs`, `certificates.rs` — primality of both moduli, proved from
  Lucas certificates (a generator of order `p - 1`), and the fact that `3` is
  not a square modulo the almost Goldilocks prime.
- `fq2.rs` — the quadratic extension `F[u]/(u^2 - 3)` with its ring laws
  (associativity, commutativity, distributivity, powers); inversion fails
  exactly when the norm `a^2 - 3b^2` vanishes, which over the almost
  Goldilocks field happens only at zero.
- `rq.rs`, `matrix_commitment.rs` — the ring `F[X]/(X^64 + 1)`, its
  negacyclic rotation matrices and the commitment `sum_j A_j * bits(z_j)`;
  the identity `rot(a) * cf(b) == cf(a * b)` is proved.
- `commit.rs`, `companion.rs` — the Goldilocks commitment over
  `F[X]/(X^54 + X^27 + 1)`; rotation matrices are proved to commute, and for
  any fixed public columns the commitment is proved linear under challenge
  rotations; `commit_with_columns` computes a commitment row exactly for
  given columns. The columns themselves are drawn from a generator seeded with a
  SHA-256 digest of the seed, row and column; which columns that yields is
  not stated, so equality of two commitments made with the same seed is
  checked by the tests, not proved.
- `matrix.rs`, `vector.rs`, `mat.rs` — dense matrices and vectors.
- `mle.rs` — multilinear extensions, proved to interpolate on the hypercube.
- `reduction/` — the transcript, sumcheck helpers and `r_hat`. The folding
  reductions themselves (the CCS reduction, the sumcheck driver, the
  decomposition and the random linear combination) build constraints over
  circuit variables and are not part of this library.
- `rng.rs` — the trusted boundary: the seeded generator of `rand` (through
  `ark_std`), SHA-256 of `sha2`, and std's string hashing.
- `sums.rs` — finite sums and their reindexing lemmas.

`app/main.rs` is a small demonstration program; `tests/` holds the tests.
