//! Algebraic core for Rank-1 Constraint Systems (R1CS): arithmetic over a
//! prime field, fixed-dimension vectors and matrices, and the constraint
//! satisfaction checks that zero-knowledge proof pipelines build upon.

pub mod finite_field;
pub mod linear_algebra;
pub mod r1cs;

use vstd::prelude::*;

verus! {

/// How an operation of this crate can be misused. A witness that merely
/// fails to satisfy a constraint system is *not* an error: the checks report
/// that as `Ok(false)`. These variants mark malformed input instead.
#[derive(Clone, Copy, Debug, PartialEq, Eq, Structural)]
pub enum AlgebraError {
    /// A vector or matrix was built from a sequence whose length disagrees
    /// with its fixed dimension.
    DimensionMismatch,
    /// A satisfaction check was handed a witness whose constant slot is not
    /// the multiplicative identity, or a constraint index out of range.
    PreconditionViolation,
}

} // verus!
