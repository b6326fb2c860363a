//! Checks of a toy R1CS for the circuit
//! `C(x1, x2, x3) = x1*x2*x3 + (1-x1)(x2+x3)` for `x2, x3` in the field and
//! `x1` in `{0, 1}`.

use r1cs::finite_field::Fp;
use r1cs::linear_algebra::{Matrix, Vector};
use r1cs::r1cs::R1CS;
use r1cs::AlgebraError;

const WITNESS_SIZE: usize = 7;
const CONSTRAINT_NUM: usize = 4;

fn create_toy_r1cs() -> R1CS<WITNESS_SIZE, CONSTRAINT_NUM> {
    let zero = Fp::from_u64(0);
    let one = Fp::from_u64(1);

    let left_matrix = Matrix::new(vec![
        Vector::new(vec![zero, zero, one, zero, zero, zero, zero]).unwrap(),
        Vector::new(vec![zero, zero, zero, one, zero, zero, zero]).unwrap(),
        Vector::new(vec![zero, zero, one, zero, zero, zero, zero]).unwrap(),
        Vector::new(vec![one, zero, one.neg(), zero, zero, zero, zero]).unwrap(),
    ])
    .unwrap();
    let right_matrix = Matrix::new(vec![
        Vector::new(vec![zero, zero, one, zero, zero, zero, zero]).unwrap(),
        Vector::new(vec![zero, zero, zero, zero, one, zero, zero]).unwrap(),
        Vector::new(vec![zero, zero, zero, zero, zero, one, zero]).unwrap(),
        Vector::new(vec![zero, zero, zero, one, one, zero, zero]).unwrap(),
    ])
    .unwrap();
    let output_matrix = Matrix::new(vec![
        Vector::new(vec![zero, zero, one, zero, zero, zero, zero]).unwrap(),
        Vector::new(vec![zero, zero, zero, zero, zero, one, zero]).unwrap(),
        Vector::new(vec![zero, zero, zero, zero, zero, zero, one]).unwrap(),
        Vector::new(vec![zero, one, zero, zero, zero, zero, one.neg()]).unwrap(),
    ])
    .unwrap();

    R1CS::new(left_matrix, right_matrix, output_matrix)
}

#[test]
fn test_toy_r1cs_valid_witness_1() {
    let toy_r1cs = create_toy_r1cs();

    let valid_witness = Vector::new(vec![
        Fp::from_u64(1),
        Fp::from_u64(12),
        Fp::from_u64(1),
        Fp::from_u64(3),
        Fp::from_u64(4),
        Fp::from_u64(12),
        Fp::from_u64(12),
    ])
    .unwrap();

    assert!(
        toy_r1cs.is_satisfied(&valid_witness).unwrap(),
        "valid witness failed!"
    );
}

#[test]
fn test_toy_r1cs_valid_witness_2() {
    let toy_r1cs = create_toy_r1cs();

    let valid_witness = Vector::new(vec![
        Fp::from_u64(1),
        Fp::from_u64(7),
        Fp::from_u64(0),
        Fp::from_u64(3),
        Fp::from_u64(4),
        Fp::from_u64(12),
        Fp::from_u64(0),
    ])
    .unwrap();

    assert!(
        toy_r1cs.is_satisfied(&valid_witness).unwrap(),
        "valid witness failed!"
    );
}

#[test]
fn test_toy_r1cs_invalid_witness() {
    let toy_r1cs = create_toy_r1cs();

    let invalid_witness = Vector::new(vec![
        Fp::from_u64(1),
        Fp::from_u64(12),
        Fp::from_u64(0),
        Fp::from_u64(3),
        Fp::from_u64(4),
        Fp::from_u64(12),
        Fp::from_u64(12),
    ])
    .unwrap();

    assert!(
        !toy_r1cs.is_satisfied(&invalid_witness).unwrap(),
        "invalid witness passed!"
    );
}

#[test]
fn test_toy_r1cs_constraints() {
    let toy_r1cs = create_toy_r1cs();

    let invalid_witness = Vector::new(vec![
        Fp::from_u64(1),
        Fp::from_u64(12),
        Fp::from_u64(0),
        Fp::from_u64(3),
        Fp::from_u64(4),
        Fp::from_u64(12),
        Fp::from_u64(12),
    ])
    .unwrap();

    // Here, the first two constraints should be satisfied
    // while the last two should not be satisfied
    assert!(
        toy_r1cs
            .is_constraint_satisfied(&invalid_witness, 0)
            .unwrap(),
        "correct constraint is not satisfied!"
    );
    assert!(
        toy_r1cs
            .is_constraint_satisfied(&invalid_witness, 1)
            .unwrap(),
        "correct constraint is not satisfied!"
    );
    assert!(
        !toy_r1cs
            .is_constraint_satisfied(&invalid_witness, 2)
            .unwrap(),
        "incorrect constraint is satisfied!"
    );
    assert!(
        !toy_r1cs
            .is_constraint_satisfied(&invalid_witness, 3)
            .unwrap(),
        "incorrect constraint is satisfied!"
    );
}

#[test]
fn test_satisfied_agrees_with_constraint_conjunction() {
    let toy_r1cs = create_toy_r1cs();

    let valid_witness = Vector::new(vec![
        Fp::from_u64(1),
        Fp::from_u64(12),
        Fp::from_u64(1),
        Fp::from_u64(3),
        Fp::from_u64(4),
        Fp::from_u64(12),
        Fp::from_u64(12),
    ])
    .unwrap();
    let invalid_witness = Vector::new(vec![
        Fp::from_u64(1),
        Fp::from_u64(12),
        Fp::from_u64(0),
        Fp::from_u64(3),
        Fp::from_u64(4),
        Fp::from_u64(12),
        Fp::from_u64(12),
    ])
    .unwrap();

    let mut all_valid = true;
    let mut k: usize = 0;
    while k < CONSTRAINT_NUM {
        all_valid = all_valid && toy_r1cs.is_constraint_satisfied(&valid_witness, k).unwrap();
        k += 1;
    }
    assert_eq!(toy_r1cs.is_satisfied(&valid_witness).unwrap(), all_valid);

    let mut all_invalid = true;
    let mut j: usize = 0;
    while j < CONSTRAINT_NUM {
        all_invalid =
            all_invalid && toy_r1cs.is_constraint_satisfied(&invalid_witness, j).unwrap();
        j += 1;
    }
    assert_eq!(toy_r1cs.is_satisfied(&invalid_witness).unwrap(), all_invalid);
}

#[test]
fn test_is_satisfied_rejects_witness_without_identity_slot() {
    let toy_r1cs = create_toy_r1cs();

    let malformed_witness = Vector::new(vec![
        Fp::from_u64(0),
        Fp::from_u64(12),
        Fp::from_u64(1),
        Fp::from_u64(3),
        Fp::from_u64(4),
        Fp::from_u64(12),
        Fp::from_u64(12),
    ])
    .unwrap();

    assert_eq!(
        toy_r1cs.is_satisfied(&malformed_witness).unwrap_err(),
        AlgebraError::PreconditionViolation
    );
    assert_eq!(
        toy_r1cs
            .is_constraint_satisfied(&malformed_witness, 0)
            .unwrap_err(),
        AlgebraError::PreconditionViolation
    );
}

#[test]
fn test_is_constraint_satisfied_rejects_bad_constraint_id() {
    let toy_r1cs = create_toy_r1cs();

    let valid_witness = Vector::new(vec![
        Fp::from_u64(1),
        Fp::from_u64(12),
        Fp::from_u64(1),
        Fp::from_u64(3),
        Fp::from_u64(4),
        Fp::from_u64(12),
        Fp::from_u64(12),
    ])
    .unwrap();

    assert_eq!(
        toy_r1cs
            .is_constraint_satisfied(&valid_witness, CONSTRAINT_NUM)
            .unwrap_err(),
        AlgebraError::PreconditionViolation
    );
}

#[test]
fn test_cube_relation_random_witness() {
    // The cube-root system x^3 = y: r1 == x * x and r2 == r1 * x - y, with
    // witness (1, x, y, r1, r2). A random x must always satisfy it.
    let zero = Fp::zero();
    let one = Fp::one();

    let left_matrix: Matrix<5, 2> = Matrix::new(vec![
        Vector::new(vec![zero, one, zero, zero, zero]).unwrap(),
        Vector::new(vec![zero, one, zero, zero, zero]).unwrap(),
    ])
    .unwrap();
    let right_matrix: Matrix<5, 2> = Matrix::new(vec![
        Vector::new(vec![zero, one, zero, zero, zero]).unwrap(),
        Vector::new(vec![zero, zero, zero, one, zero]).unwrap(),
    ])
    .unwrap();
    let output_matrix: Matrix<5, 2> = Matrix::new(vec![
        Vector::new(vec![zero, zero, zero, one, zero]).unwrap(),
        Vector::new(vec![zero, zero, one, zero, one]).unwrap(),
    ])
    .unwrap();
    let cube_root_r1cs = R1CS::new(left_matrix, right_matrix, output_matrix);

    let x = Fp::sample_random();
    let y = x.mul(x).mul(x);
    let r1 = x.mul(x);
    let r2 = r1.mul(x).sub(y);
    let witness: Vector<5> = Vector::new(vec![one, x, y, r1, r2]).unwrap();

    assert!(cube_root_r1cs.is_satisfied(&witness).unwrap());
}
