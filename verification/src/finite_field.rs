//! The scalar type of the crate: a prime field of a fixed modulus.
//!
//! Every vector, matrix and R1CS operation computes exclusively through the
//! operations of this module, never through native integer overflow
//! semantics. The representation keeps each element reduced, so equality of
//! representations coincides with equality in the field.

use vstd::prelude::*;

verus! {

/// The field modulus: the Mersenne prime `2^61 - 1`.
pub const FIELD_MODULUS: u64 = 0x1fff_ffff_ffff_ffff;

/// Addition in the field, on mathematical values.
pub open spec fn fp_add(a: nat, b: nat) -> nat {
    (a + b) % (FIELD_MODULUS as nat)
}

/// Multiplication in the field, on mathematical values.
pub open spec fn fp_mul(a: nat, b: nat) -> nat {
    (a * b) % (FIELD_MODULUS as nat)
}

/// Additive inverse in the field, on mathematical values.
pub open spec fn fp_neg(a: nat) -> nat {
    if a % (FIELD_MODULUS as nat) == 0 {
        0
    } else {
        (FIELD_MODULUS as nat - a % (FIELD_MODULUS as nat)) as nat
    }
}

/// Subtraction in the field: addition of the additive inverse.
pub open spec fn fp_sub(a: nat, b: nat) -> nat {
    fp_add(a, fp_neg(b))
}

/// An element of the prime field, kept reduced modulo `FIELD_MODULUS`.
#[derive(Clone, Copy, Debug, PartialEq, Eq, Structural)]
pub struct Fp {
    v: u64,
}

impl View for Fp {
    type V = nat;

    closed spec fn view(&self) -> nat {
        self.v as nat
    }
}

impl Fp {
    #[verifier::type_invariant]
    spec fn in_field(self) -> bool {
        self.v < FIELD_MODULUS
    }

    /// Builds the field element congruent to `x`.
    pub fn from_u64(x: u64) -> (r: Fp)
        ensures
            r@ == (x as nat) % (FIELD_MODULUS as nat),
    {
        Fp { v: x % FIELD_MODULUS }
    }

    /// The additive identity.
    pub fn zero() -> (r: Fp)
        ensures
            r@ == 0,
    {
        Fp { v: 0 }
    }

    /// The multiplicative identity.
    pub fn one() -> (r: Fp)
        ensures
            r@ == 1,
    {
        Fp { v: 1 }
    }

    /// Field addition.
    pub fn add(self, other: Fp) -> (r: Fp)
        ensures
            r@ == fp_add(self@, other@),
    {
        proof {
            use_type_invariant(&self);
            use_type_invariant(&other);
        }
        Fp { v: (self.v + other.v) % FIELD_MODULUS }
    }

    /// Field multiplication.
    pub fn mul(self, other: Fp) -> (r: Fp)
        ensures
            r@ == fp_mul(self@, other@),
    {
        proof {
            use_type_invariant(&self);
            use_type_invariant(&other);
            assert((self.v as int) * (other.v as int) < (FIELD_MODULUS as int)
                * (FIELD_MODULUS as int)) by (nonlinear_arith)
                requires
                    self.v < FIELD_MODULUS,
                    other.v < FIELD_MODULUS,
            ;
        }
        let prod: u128 = (self.v as u128) * (other.v as u128);
        Fp { v: (prod % (FIELD_MODULUS as u128)) as u64 }
    }

    /// Additive inverse.
    pub fn neg(self) -> (r: Fp)
        ensures
            r@ == fp_neg(self@),
    {
        proof {
            use_type_invariant(&self);
        }
        if self.v == 0 {
            Fp { v: 0 }
        } else {
            Fp { v: FIELD_MODULUS - self.v }
        }
    }

    /// Field equality: two elements are equal exactly when their
    /// mathematical values are.
    pub fn equals(self, other: Fp) -> (r: bool)
        ensures
            r == (self@ == other@),
    {
        self.v == other.v
    }

    /// Field subtraction.
    pub fn sub(self, other: Fp) -> (r: Fp)
        ensures
            r@ == fp_sub(self@, other@),
    {
        self.add(other.neg())
    }

    /// Draws a random field element. Nothing is stated about which one:
    /// callers must be correct for every outcome.
    pub fn sample_random() -> (r: Fp) {
        let x = random_u64();
        Fp { v: x % FIELD_MODULUS }
    }
}

/// Relies on `rand::random`: returns a machine-chosen `u64`; nothing is
/// assumed about which one.
#[verifier::external_body]
fn random_u64() -> u64 {
    rand::random::<u64>()
}

} // verus!
