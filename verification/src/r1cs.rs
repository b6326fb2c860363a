//! The Rank-1 Constraint System: three matrices of one shape — left, right
//! and output — encoding quadratic constraints over a witness vector, with
//! whole-system and per-constraint satisfaction checks.
//!
//! Constraint `k` demands `(left[k]·w) * (right[k]·w) == output[k]·w`: a
//! product of two linear combinations equal to a third. A witness that is
//! well formed but fails a constraint yields `Ok(false)`; a witness whose
//! constant slot is not the multiplicative identity, or a constraint index
//! out of range, is a precondition violation and yields an error.

use vstd::prelude::*;

use crate::finite_field::{fp_mul, Fp};
use crate::linear_algebra::{
    dot_spec, hadamard_spec, matrix_vector_spec, Matrix, Vector,
};
use crate::AlgebraError;

verus! {

/// Constraint `k` of the system `(l, r, o)` holds of witness `w` when the
/// product of the dot products of rows `l[k]` and `r[k]` with `w` equals the
/// dot product of row `o[k]` with `w`.
pub open spec fn constraint_satisfied_spec(
    l: Seq<Seq<nat>>,
    r: Seq<Seq<nat>>,
    o: Seq<Seq<nat>>,
    w: Seq<nat>,
    k: int,
) -> bool {
    fp_mul(dot_spec(l[k], w), dot_spec(r[k], w)) == dot_spec(o[k], w)
}

/// The whole system holds of `w` when every one of its constraints does.
pub open spec fn system_satisfied_spec(
    l: Seq<Seq<nat>>,
    r: Seq<Seq<nat>>,
    o: Seq<Seq<nat>>,
    w: Seq<nat>,
) -> bool {
    forall|k: int| 0 <= k < l.len() ==> constraint_satisfied_spec(l, r, o, w, k)
}

/// A Rank-1 Constraint System of `CONSTRAINT_NUM` quadratic constraints over
/// a witness of length `WITNESS_SIZE`.
pub struct R1CS<const WITNESS_SIZE: usize, const CONSTRAINT_NUM: usize> {
    left_matrix: Matrix<WITNESS_SIZE, CONSTRAINT_NUM>,
    right_matrix: Matrix<WITNESS_SIZE, CONSTRAINT_NUM>,
    output_matrix: Matrix<WITNESS_SIZE, CONSTRAINT_NUM>,
}

impl<const WITNESS_SIZE: usize, const CONSTRAINT_NUM: usize> R1CS<WITNESS_SIZE, CONSTRAINT_NUM> {
    /// The left matrix, as rows of mathematical values.
    pub closed spec fn left(self) -> Seq<Seq<nat>> {
        self.left_matrix@
    }

    /// The right matrix, as rows of mathematical values.
    pub closed spec fn right(self) -> Seq<Seq<nat>> {
        self.right_matrix@
    }

    /// The output matrix, as rows of mathematical values.
    pub closed spec fn output(self) -> Seq<Seq<nat>> {
        self.output_matrix@
    }

    /// Stores the three matrices verbatim. All three share the shape
    /// `(WITNESS_SIZE, CONSTRAINT_NUM)` by their types, so no runtime shape
    /// check is needed.
    pub fn new(
        left_matrix: Matrix<WITNESS_SIZE, CONSTRAINT_NUM>,
        right_matrix: Matrix<WITNESS_SIZE, CONSTRAINT_NUM>,
        output_matrix: Matrix<WITNESS_SIZE, CONSTRAINT_NUM>,
    ) -> (r: Self)
        ensures
            r.left() == left_matrix@,
            r.right() == right_matrix@,
            r.output() == output_matrix@,
    {
        R1CS { left_matrix, right_matrix, output_matrix }
    }

    /// Whether the witness satisfies every constraint of the system. A
    /// witness whose constant slot (index 0) is not the multiplicative
    /// identity is malformed: that is an error, not `Ok(false)`.
    pub fn is_satisfied(&self, witness: &Vector<WITNESS_SIZE>) -> (res: Result<
        bool,
        AlgebraError,
    >)
        requires
            WITNESS_SIZE >= 1,
        ensures
            witness@[0] == 1 ==> res == Ok::<bool, AlgebraError>(
                system_satisfied_spec(self.left(), self.right(), self.output(), witness@),
            ),
            witness@[0] != 1 ==> res == Err::<bool, AlgebraError>(
                AlgebraError::PreconditionViolation,
            ),
    {
        if !witness.get(0).equals(Fp::one()) {
            return Err(AlgebraError::PreconditionViolation);
        }
        let lz = self.left_matrix.vector_product(witness);
        let rz = self.right_matrix.vector_product(witness);
        let oz = self.output_matrix.vector_product(witness);
        let hp = lz.hadamard_product(&rz);
        let res = hp == oz;
        proof {
            let l = self.left();
            let r = self.right();
            let o = self.output();
            let w = witness@;
            let lhs = hadamard_spec(matrix_vector_spec(l, w), matrix_vector_spec(r, w));
            let rhs = matrix_vector_spec(o, w);
            if system_satisfied_spec(l, r, o, w) {
                assert forall|k: int| 0 <= k < lhs.len() implies lhs[k] == rhs[k] by {
                    assert(constraint_satisfied_spec(l, r, o, w, k));
                }
                assert(lhs =~= rhs);
            } else {
                let k = choose|k: int|
                    0 <= k < l.len() && !constraint_satisfied_spec(l, r, o, w, k);
                assert(lhs[k] != rhs[k]);
            }
        }
        Ok(res)
    }

    /// Whether the witness satisfies the single constraint `constraint_id`,
    /// evaluated without materializing the full product vectors. The same
    /// precondition on the witness's constant slot applies, and a
    /// constraint index out of range is equally an error.
    pub fn is_constraint_satisfied(
        &self,
        witness: &Vector<WITNESS_SIZE>,
        constraint_id: usize,
    ) -> (res: Result<bool, AlgebraError>)
        requires
            WITNESS_SIZE >= 1,
        ensures
            witness@[0] == 1 && constraint_id < CONSTRAINT_NUM ==> res == Ok::<
                bool,
                AlgebraError,
            >(
                constraint_satisfied_spec(
                    self.left(),
                    self.right(),
                    self.output(),
                    witness@,
                    constraint_id as int,
                ),
            ),
            witness@[0] != 1 || constraint_id >= CONSTRAINT_NUM ==> res == Err::<
                bool,
                AlgebraError,
            >(AlgebraError::PreconditionViolation),
    {
        if !witness.get(0).equals(Fp::one()) {
            return Err(AlgebraError::PreconditionViolation);
        }
        if constraint_id >= CONSTRAINT_NUM {
            return Err(AlgebraError::PreconditionViolation);
        }
        let a = self.left_matrix.row(constraint_id).dot(witness);
        let b = self.right_matrix.row(constraint_id).dot(witness);
        let c = self.output_matrix.row(constraint_id).dot(witness);
        Ok(a.mul(b).equals(c))
    }
}

/// Law: a system is satisfied exactly when every one of its constraints is.
/// The whole-system check agrees with the conjunction, over all constraint
/// indices, of the per-constraint check.
pub proof fn lemma_satisfied_iff_constraints(
    l: Seq<Seq<nat>>,
    r: Seq<Seq<nat>>,
    o: Seq<Seq<nat>>,
    w: Seq<nat>,
)
    ensures
        system_satisfied_spec(l, r, o, w) <==> (forall|k: int|
            0 <= k < l.len() ==> constraint_satisfied_spec(l, r, o, w, k)),
{
}

} // verus!
