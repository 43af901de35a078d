//! A lattice-based matrix commitment scheme and the folding toolkit around it:
//! prime fields below `2^64`, their quadratic extension, cyclotomic ring
//! elements, matrices, multilinear extensions and sumcheck helpers.

pub mod certificates;
pub mod commit;
pub mod companion;
pub mod field;
pub mod fold;
pub mod fq2;
pub mod mat;
pub mod matrix;
pub mod matrix_commitment;
pub mod mle;
pub mod prime;
pub mod reduction;
pub mod rng;
pub mod rq;
pub mod sums;
pub mod vector;

pub use matrix_commitment::MatrixCommitmentScheme;
pub use rq::Rq;

use vstd::prelude::*;

verus! {

/// Degree of the cyclotomic ring `F[X] / (X^D + 1)`.
pub const D: usize = 64;

/// Number of rows of the commitment matrix.
pub const KAPPA: usize = 13;

/// Witness length.
pub const M: usize = 1000;

/// Number of constraints, equal to the witness length.
pub const N: usize = 1000;

/// Number of folded instances.
pub const K: usize = 11;

/// Number of matrices in the CCS relation.
pub const T: usize = 3;

/// `log2(D)`.
pub const LOG_D: usize = 6;

/// `floor(log2(D * N))`.
pub const LOG_DN: usize = 15;

/// `floor(log2(N))`.
pub const LOG_N: usize = 9;

} // verus!
