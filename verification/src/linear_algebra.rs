//! Fixed-dimension vectors and matrices over the prime field, with the dot
//! product, Hadamard (element-wise) product and matrix-vector product that
//! an R1CS evaluates its constraints with.
//!
//! Dimensions are type-level constants: a `Vector<N>` always holds exactly
//! `N` elements and a `Matrix<N, M>` exactly `M` rows of length `N`, so two
//! containers of different shapes cannot meet in one operation.

use vstd::prelude::*;

use crate::finite_field::{fp_add, fp_mul, Fp};
use crate::AlgebraError;

verus! {

/// The dot product of the first `n` entries of `a` and `b`, folded from the
/// additive identity in index order.
pub open spec fn dot_prefix(a: Seq<nat>, b: Seq<nat>, n: int) -> nat
    decreases n,
{
    if n <= 0 {
        0
    } else {
        fp_add(dot_prefix(a, b, n - 1), fp_mul(a[n - 1], b[n - 1]))
    }
}

/// The dot product of two equal-length sequences: the sum of the
/// element-wise products, collapsed to one scalar.
pub open spec fn dot_spec(a: Seq<nat>, b: Seq<nat>) -> nat {
    dot_prefix(a, b, a.len() as int)
}

/// The Hadamard product of two equal-length sequences: element-wise
/// multiplication, keeping the shape.
pub open spec fn hadamard_spec(a: Seq<nat>, b: Seq<nat>) -> Seq<nat> {
    Seq::new(a.len(), |i: int| fp_mul(a[i], b[i]))
}

/// The all-zero sequence of length `n`.
pub open spec fn zeros_spec(n: nat) -> Seq<nat> {
    Seq::new(n, |i: int| 0nat)
}

/// The matrix whose every entry is the additive identity, as `m` rows of
/// length `n`.
pub open spec fn zero_matrix_spec(n: nat, m: nat) -> Seq<Seq<nat>> {
    Seq::new(m, |i: int| zeros_spec(n))
}

/// The row-wise Hadamard product of two matrices of one shape.
pub open spec fn matrix_hadamard_spec(a: Seq<Seq<nat>>, b: Seq<Seq<nat>>) -> Seq<Seq<nat>> {
    Seq::new(a.len(), |i: int| hadamard_spec(a[i], b[i]))
}

/// The matrix-vector product: one dot product per row.
pub open spec fn matrix_vector_spec(m: Seq<Seq<nat>>, v: Seq<nat>) -> Seq<nat> {
    Seq::new(m.len(), |i: int| dot_spec(m[i], v))
}

/// The `j`-th column of a matrix, collected in row order.
pub open spec fn column_spec(m: Seq<Seq<nat>>, j: int) -> Seq<nat> {
    Seq::new(m.len(), |i: int| m[i][j])
}

/// An ordered sequence of exactly `N` field elements.
#[derive(Debug)]
pub struct Vector<const N: usize> {
    elems: Vec<Fp>,
}

impl<const N: usize> View for Vector<N> {
    type V = Seq<nat>;

    closed spec fn view(&self) -> Seq<nat> {
        self.elems@.map_values(|f: Fp| f@)
    }
}

impl<const N: usize> Vector<N> {
    #[verifier::type_invariant]
    spec fn shape_ok(self) -> bool {
        self.elems@.len() == N
    }

    /// Constructs a vector from exactly `N` field elements; a sequence of
    /// any other length is a dimension mismatch.
    pub fn new(elements: Vec<Fp>) -> (r: Result<Vector<N>, AlgebraError>)
        ensures
            elements@.len() == N ==> (r matches Ok(v) && v@ == elements@.map_values(
                |f: Fp| f@,
            ) && v@.len() == N),
            elements@.len() != N ==> r == Err::<Vector<N>, AlgebraError>(
                AlgebraError::DimensionMismatch,
            ),
    {
        if elements.len() != N {
            Err(AlgebraError::DimensionMismatch)
        } else {
            Ok(Vector { elems: elements })
        }
    }

    /// Returns the element at index `i`.
    pub fn get(&self, i: usize) -> (r: Fp)
        requires
            i < N,
        ensures
            r@ == self@[i as int],
            self@.len() == N,
    {
        proof {
            use_type_invariant(self);
        }
        self.elems[i]
    }

    /// The dot product of two vectors of one length: the scalar
    /// `Σ self[i] * other[i]`, accumulated from the additive identity.
    pub fn dot(&self, other: &Vector<N>) -> (r: Fp)
        ensures
            r@ == dot_spec(self@, other@),
            self@.len() == N,
            other@.len() == N,
    {
        proof {
            use_type_invariant(self);
            use_type_invariant(other);
        }
        let mut res = Fp::zero();
        let mut i: usize = 0;
        while i < N
            invariant
                i <= N,
                res@ == dot_prefix(self@, other@, i as int),
            decreases N - i,
        {
            res = res.add(self.get(i).mul(other.get(i)));
            i = i + 1;
        }
        res
    }

    /// The Hadamard product of two vectors of one length: the vector of
    /// element-wise products. Unlike the dot product it keeps the shape.
    pub fn hadamard_product(&self, other: &Vector<N>) -> (r: Vector<N>)
        ensures
            r@ == hadamard_spec(self@, other@),
            r@.len() == N,
            self@.len() == N,
            other@.len() == N,
    {
        proof {
            use_type_invariant(self);
            use_type_invariant(other);
        }
        let mut out: Vec<Fp> = Vec::new();
        let mut i: usize = 0;
        while i < N
            invariant
                i <= N,
                out@.len() == i,
                forall|j: int| 0 <= j < i ==> out@[j]@ == fp_mul(self@[j], other@[j]),
            decreases N - i,
        {
            out.push(self.get(i).mul(other.get(i)));
            i = i + 1;
        }
        let r = Vector { elems: out };
        proof {
            assert(r@ =~= hadamard_spec(self@, other@));
        }
        r
    }
}

/// Exactly `M` row vectors of length `N`. Entry `(i, j)` is the `j`-th
/// element of row `i`.
#[derive(Debug)]
pub struct Matrix<const N: usize, const M: usize> {
    rows: Vec<Vector<N>>,
}

impl<const N: usize, const M: usize> View for Matrix<N, M> {
    type V = Seq<Seq<nat>>;

    closed spec fn view(&self) -> Seq<Seq<nat>> {
        self.rows@.map_values(|r: Vector<N>| r@)
    }
}

impl<const N: usize, const M: usize> Matrix<N, M> {
    #[verifier::type_invariant]
    spec fn shape_ok(self) -> bool {
        self.rows@.len() == M
    }

    /// The matrix whose every entry is the additive identity.
    pub fn zero() -> (r: Matrix<N, M>)
        ensures
            r@ == zero_matrix_spec(N as nat, M as nat),
    {
        let mut rows: Vec<Vector<N>> = Vec::new();
        let mut i: usize = 0;
        while i < M
            invariant
                i <= M,
                rows@.len() == i,
                forall|k: int| 0 <= k < i ==> (#[trigger] rows@[k])@ == zeros_spec(N as nat),
            decreases M - i,
        {
            let mut elems: Vec<Fp> = Vec::new();
            let mut j: usize = 0;
            while j < N
                invariant
                    j <= N,
                    elems@.len() == j,
                    forall|k: int| 0 <= k < j ==> (#[trigger] elems@[k])@ == 0,
                decreases N - j,
            {
                elems.push(Fp::zero());
                j = j + 1;
            }
            let row = Vector { elems };
            proof {
                assert(row@ =~= zeros_spec(N as nat));
            }
            rows.push(row);
            i = i + 1;
        }
        let r = Matrix { rows };
        proof {
            assert(r@ =~= zero_matrix_spec(N as nat, M as nat));
        }
        r
    }

    /// Constructs a matrix from exactly `M` row vectors; a sequence of any
    /// other length is a dimension mismatch. Each row's own length is `N`
    /// already, by its type.
    pub fn new(rows: Vec<Vector<N>>) -> (r: Result<Matrix<N, M>, AlgebraError>)
        ensures
            rows@.len() == M ==> (r matches Ok(m) && m@ == rows@.map_values(
                |row: Vector<N>| row@,
            ) && m@.len() == M),
            rows@.len() != M ==> r == Err::<Matrix<N, M>, AlgebraError>(
                AlgebraError::DimensionMismatch,
            ),
    {
        if rows.len() != M {
            Err(AlgebraError::DimensionMismatch)
        } else {
            Ok(Matrix { rows })
        }
    }

    /// Returns the `i`-th row.
    pub fn row(&self, i: usize) -> (r: &Vector<N>)
        requires
            i < M,
        ensures
            r@ == self@[i as int],
            r@.len() == N,
            self@.len() == M,
    {
        proof {
            use_type_invariant(self);
        }
        let r = &self.rows[i];
        proof {
            use_type_invariant(r);
        }
        r
    }

    /// Returns the `j`-th column, collected from every row in row order.
    pub fn column(&self, j: usize) -> (r: Vector<M>)
        requires
            j < N,
        ensures
            r@ == column_spec(self@, j as int),
            r@.len() == M,
            self@.len() == M,
    {
        proof {
            use_type_invariant(self);
        }
        let mut out: Vec<Fp> = Vec::new();
        let mut i: usize = 0;
        while i < M
            invariant
                i <= M,
                j < N,
                out@.len() == i,
                forall|k: int| 0 <= k < i ==> (#[trigger] out@[k])@ == self@[k][j as int],
            decreases M - i,
        {
            out.push(self.row(i).get(j));
            i = i + 1;
        }
        let r = Vector { elems: out };
        proof {
            assert(r@ =~= column_spec(self@, j as int));
        }
        r
    }

    /// Returns the `(i, j)` entry.
    pub fn get(&self, i: usize, j: usize) -> (r: Fp)
        requires
            i < M,
            j < N,
        ensures
            r@ == self@[i as int][j as int],
            self@.len() == M,
    {
        self.row(i).get(j)
    }

    /// The Hadamard product of two matrices of one shape: the matrix of
    /// element-wise products, row by row.
    pub fn hadamard_product(&self, other: &Matrix<N, M>) -> (r: Matrix<N, M>)
        ensures
            r@ == matrix_hadamard_spec(self@, other@),
            r@.len() == M,
            self@.len() == M,
            other@.len() == M,
    {
        proof {
            use_type_invariant(self);
            use_type_invariant(other);
        }
        let mut rows: Vec<Vector<N>> = Vec::new();
        let mut i: usize = 0;
        while i < M
            invariant
                i <= M,
                rows@.len() == i,
                forall|k: int| 0 <= k < i ==> (#[trigger] rows@[k])@ == hadamard_spec(
                    self@[k],
                    other@[k],
                ),
            decreases M - i,
        {
            rows.push(self.row(i).hadamard_product(other.row(i)));
            i = i + 1;
        }
        let r = Matrix { rows };
        proof {
            assert(r@ =~= matrix_hadamard_spec(self@, other@));
        }
        r
    }

    /// The matrix-vector product `A·v`: one dot product per row, evaluating
    /// an `M×N` constraint matrix against an `N`-length witness to one value
    /// per constraint.
    pub fn vector_product(&self, other: &Vector<N>) -> (r: Vector<M>)
        ensures
            r@ == matrix_vector_spec(self@, other@),
            r@.len() == M,
            self@.len() == M,
            other@.len() == N,
    {
        proof {
            use_type_invariant(self);
            use_type_invariant(other);
        }
        let mut out: Vec<Fp> = Vec::new();
        let mut i: usize = 0;
        while i < M
            invariant
                i <= M,
                out@.len() == i,
                forall|k: int| 0 <= k < i ==> (#[trigger] out@[k])@ == dot_spec(self@[k], other@),
            decreases M - i,
        {
            out.push(self.row(i).dot(other));
            i = i + 1;
        }
        let r = Vector { elems: out };
        proof {
            assert(r@ =~= matrix_vector_spec(self@, other@));
        }
        r
    }
}

impl<const N: usize> PartialEq for Vector<N> {
    /// Two vectors are equal exactly when their element values agree at
    /// every index.
    fn eq(&self, other: &Vector<N>) -> (r: bool) {
        proof {
            use_type_invariant(self);
            use_type_invariant(other);
        }
        let mut i: usize = 0;
        while i < N
            invariant
                i <= N,
                self.elems@.len() == N,
                other.elems@.len() == N,
                forall|j: int| 0 <= j < i ==> self@[j] == other@[j],
            decreases N - i,
        {
            if !self.elems[i].equals(other.elems[i]) {
                proof {
                    assert(self@[i as int] != other@[i as int]);
                }
                return false;
            }
            i = i + 1;
        }
        proof {
            assert(self@ =~= other@);
        }
        true
    }
}

impl<const N: usize> vstd::std_specs::cmp::PartialEqSpecImpl for Vector<N> {
    open spec fn obeys_eq_spec() -> bool {
        true
    }

    open spec fn eq_spec(&self, other: &Vector<N>) -> bool {
        self@ == other@
    }
}

impl<const N: usize, const M: usize> PartialEq for Matrix<N, M> {
    /// Two matrices are equal exactly when their entries agree everywhere.
    fn eq(&self, other: &Matrix<N, M>) -> (r: bool) {
        proof {
            use_type_invariant(self);
            use_type_invariant(other);
        }
        let mut i: usize = 0;
        while i < M
            invariant
                i <= M,
                self.rows@.len() == M,
                other.rows@.len() == M,
                forall|j: int| 0 <= j < i ==> self@[j] == other@[j],
            decreases M - i,
        {
            let ra = &self.rows[i];
            let rb = &other.rows[i];
            if !ra.eq(rb) {
                proof {
                    assert(self@[i as int] != other@[i as int]);
                }
                return false;
            }
            i = i + 1;
        }
        proof {
            assert(self@ =~= other@);
        }
        true
    }
}

impl<const N: usize, const M: usize> vstd::std_specs::cmp::PartialEqSpecImpl for Matrix<N, M> {
    open spec fn obeys_eq_spec() -> bool {
        true
    }

    open spec fn eq_spec(&self, other: &Matrix<N, M>) -> bool {
        self@ == other@
    }
}

proof fn lemma_dot_prefix_commutative(a: Seq<nat>, b: Seq<nat>, n: int)
    ensures
        dot_prefix(a, b, n) == dot_prefix(b, a, n),
    decreases n,
{
    if n > 0 {
        lemma_dot_prefix_commutative(a, b, n - 1);
    }
}

/// Law: the dot product is commutative. For equal-length `a` and `b`,
/// `a·b == b·a`.
pub proof fn lemma_dot_commutative(a: Seq<nat>, b: Seq<nat>)
    requires
        a.len() == b.len(),
    ensures
        dot_spec(a, b) == dot_spec(b, a),
{
    lemma_dot_prefix_commutative(a, b, a.len() as int);
}

/// Law: the Hadamard product is commutative. For equal-length `a` and `b`,
/// the element-wise products agree at every index.
pub proof fn lemma_hadamard_commutative(a: Seq<nat>, b: Seq<nat>)
    requires
        a.len() == b.len(),
    ensures
        hadamard_spec(a, b) == hadamard_spec(b, a),
{
    assert(hadamard_spec(a, b) =~= hadamard_spec(b, a));
}

/// Law: the Hadamard product of any vector with the all-zero vector of its
/// length is the all-zero vector.
pub proof fn lemma_hadamard_zero(a: Seq<nat>)
    ensures
        hadamard_spec(a, zeros_spec(a.len())) == zeros_spec(a.len()),
{
    assert(hadamard_spec(a, zeros_spec(a.len())) =~= zeros_spec(a.len()));
}

/// Law: every entry of a matrix-vector product is the dot product of the
/// corresponding row with the vector.
pub proof fn lemma_vector_product_entry(m: Seq<Seq<nat>>, v: Seq<nat>, i: int)
    requires
        0 <= i < m.len(),
    ensures
        matrix_vector_spec(m, v)[i] == dot_spec(m[i], v),
{
}

proof fn lemma_dot_prefix_zero_left(z: Seq<nat>, v: Seq<nat>, n: int)
    requires
        forall|i: int| 0 <= i < n ==> z[i] == 0,
    ensures
        dot_prefix(z, v, n) == 0,
    decreases n,
{
    if n > 0 {
        lemma_dot_prefix_zero_left(z, v, n - 1);
    }
}

/// Law: the all-zero matrix times any vector of the matching length is the
/// all-zero vector.
pub proof fn lemma_zero_matrix_vector_product(n: nat, m: nat, v: Seq<nat>)
    requires
        v.len() == n,
    ensures
        matrix_vector_spec(zero_matrix_spec(n, m), v) == zeros_spec(m),
{
    let zm = zero_matrix_spec(n, m);
    assert forall|i: int| 0 <= i < m implies matrix_vector_spec(zm, v)[i] == 0 by {
        lemma_dot_prefix_zero_left(zeros_spec(n), v, n as int);
    }
    assert(matrix_vector_spec(zm, v) =~= zeros_spec(m));
}

} // verus!
