//! Single-precision numbers, held by their bit patterns.

use vstd::prelude::*;
use vstd::arithmetic::power2::{
    lemma_pow2_pos, lemma_pow2_strictly_increases, lemma_pow2_unfold, pow2,
};

verus! {

/// The bit that holds the sign of a binary32 number.
pub const SIGN_BIT: u32 = 0x8000_0000;

/// The bit pattern of positive infinity: every larger magnitude is a NaN.
pub const INFINITY_BITS: u32 = 0x7F80_0000;

/// The bit pattern of `0.0`.
pub const ZERO_BITS: u32 = 0;

/// The bit pattern of `1.0`.
pub const ONE_BITS: u32 = 0x3F80_0000;

/// The absolute value that a magnitude stands for, counted in units of
/// `2^-149`, the smallest positive number of the format. The magnitude holds
/// an exponent `e` above a fraction `f` of 23 bits: it stands for `f` units
/// where `e` is zero, and for `(2^23 + f) * 2^(e - 1)` units otherwise.
pub open spec fn scaled(magnitude: nat) -> int {
    let e = magnitude / 0x80_0000;
    let f = magnitude % 0x80_0000;
    if e == 0 {
        f as int
    } else {
        (0x80_0000 + f) * pow2((e - 1) as nat) as int
    }
}

/// An IEEE 754 binary32 number, held by its bit pattern.
///
/// Equality of two scalars is equality of their bits: `0.0` and `-0.0` differ,
/// and a NaN equals itself.
#[derive(Clone, Copy, Debug, PartialEq, Eq, Structural)]
pub struct Scalar {
    pub bits: u32,
}

impl Scalar {
    /// Whether the sign bit is set.
    pub open spec fn sign(self) -> bool {
        self.bits >= SIGN_BIT
    }

    /// The bits below the sign bit. Among numbers that are not NaN, a larger
    /// magnitude is a larger absolute value.
    pub open spec fn magnitude(self) -> nat {
        (self.bits % SIGN_BIT) as nat
    }

    /// Whether the scalar is a NaN.
    pub open spec fn nan(self) -> bool {
        self.magnitude() > INFINITY_BITS
    }

    /// Whether the scalar is greater than zero: its sign is clear, it is not a
    /// zero and not a NaN. Positive infinity is positive.
    pub open spec fn positive(self) -> bool {
        !self.sign() && 0 < self.magnitude() <= INFINITY_BITS
    }

    /// Whether the scalar is a number that is not infinite: its exponent is
    /// not the largest.
    pub open spec fn finite(self) -> bool {
        self.magnitude() < INFINITY_BITS
    }

    /// The value of a finite scalar, counted in units of `2^-149`: what its
    /// magnitude stands for, with its sign.
    pub open spec fn units(self) -> int {
        if self.sign() {
            -scaled(self.magnitude())
        } else {
            scaled(self.magnitude())
        }
    }

    /// The place of the scalar in the order of the numbers: the magnitude
    /// with the sign. Both zeros have the key zero.
    pub open spec fn key(self) -> int {
        if self.sign() {
            -(self.magnitude() as int)
        } else {
            self.magnitude() as int
        }
    }

    /// Whether the scalar is greater than another one: neither is a NaN, and
    /// its key is the greater one.
    pub open spec fn greater(self, other: Scalar) -> bool {
        !self.nan() && !other.nan() && self.key() > other.key()
    }

    /// The scalar with the sign bit flipped and the magnitude kept.
    pub open spec fn negated(self) -> Scalar {
        Scalar {
            bits: if self.sign() {
                (self.bits - SIGN_BIT) as u32
            } else {
                (self.bits + SIGN_BIT) as u32
            },
        }
    }

    /// The scalar of a bit pattern.
    pub fn from_bits(bits: u32) -> (r: Scalar)
        ensures
            r.bits == bits,
    {
        Scalar { bits }
    }

    /// The bit pattern of the scalar.
    pub fn to_bits(self) -> (r: u32)
        ensures
            r == self.bits,
    {
        self.bits
    }

    /// The number `0.0`.
    pub fn zero() -> (r: Scalar)
        ensures
            r == (Scalar { bits: ZERO_BITS }),
    {
        Scalar { bits: ZERO_BITS }
    }

    /// The number `1.0`.
    pub fn one() -> (r: Scalar)
        ensures
            r == (Scalar { bits: ONE_BITS }),
    {
        Scalar { bits: ONE_BITS }
    }

    /// Whether the scalar is a NaN.
    pub fn is_nan(self) -> (r: bool)
        ensures
            r == self.nan(),
    {
        self.bits % SIGN_BIT > INFINITY_BITS
    }

    /// Whether the scalar is greater than zero.
    pub fn is_positive(self) -> (r: bool)
        ensures
            r == self.positive(),
    {
        0 < self.bits && self.bits <= INFINITY_BITS
    }

    /// The key of the scalar.
    fn signed_magnitude(self) -> (k: i64)
        ensures
            k == self.key(),
    {
        let magnitude: i64 = (self.bits % SIGN_BIT) as i64;
        if self.bits >= SIGN_BIT {
            -magnitude
        } else {
            magnitude
        }
    }

    /// Whether the scalar is greater than another one, as numbers compare:
    /// a NaN is not greater than anything and nothing is greater than a NaN,
    /// and the two zeros are equal.
    pub fn gt(self, other: Scalar) -> (r: bool)
        ensures
            r == self.greater(other),
    {
        !self.is_nan() && !other.is_nan() && self.signed_magnitude() > other.signed_magnitude()
    }

    /// Negation, which in binary32 flips the sign bit and nothing else.
    pub fn neg(self) -> (r: Scalar)
        ensures
            r == self.negated(),
    {
        let bits: u32 = self.bits;
        let flipped: u32 = bits ^ SIGN_BIT;
        assert(flipped == if bits >= 0x8000_0000u32 {
            (bits - 0x8000_0000u32) as u32
        } else {
            (bits + 0x8000_0000u32) as u32
        }) by (bit_vector)
            requires
                flipped == bits ^ 0x8000_0000u32,
        ;
        Scalar { bits: flipped }
    }
}

/// Negating twice gives the scalar back. Negation keeps the magnitude, flips
/// the sign, and turns the value of a number into its opposite.
pub proof fn lemma_neg_involutive(x: Scalar)
    ensures
        x.negated().negated() == x,
        x.negated().magnitude() == x.magnitude(),
        x.negated().sign() == !x.sign(),
        x.negated().units() == -x.units(),
{
}

/// A larger magnitude stands for a larger absolute value.
pub proof fn lemma_scaled_increases(m1: nat, m2: nat)
    requires
        m1 < m2,
    ensures
        0 <= scaled(m1) < scaled(m2),
{
    let b: int = 0x80_0000;
    let (e1, f1) = (m1 / 0x80_0000, m1 % 0x80_0000);
    let (e2, f2) = (m2 / 0x80_0000, m2 % 0x80_0000);
    let p1 = pow2((e1 - 1) as nat) as int;
    let p2 = pow2((e2 - 1) as nat) as int;
    lemma_pow2_pos((e1 - 1) as nat);
    lemma_pow2_pos((e2 - 1) as nat);
    assert(0 <= scaled(m1)) by (nonlinear_arith)
        requires
            scaled(m1) == f1 || scaled(m1) == (b + f1) * p1,
            0 <= f1,
            0 < b,
            0 < p1,
    ;
    if e1 == e2 {
        if e1 != 0 {
            assert((b + f1) * p1 < (b + f2) * p1) by (nonlinear_arith)
                requires
                    f1 < f2,
                    0 < p1,
            ;
        }
    } else {
        // Below the exponent of the second, everything is less than its
        // smallest magnitude.
        let below: int = b * p2;
        assert(scaled(m1) < below) by {
            if e1 == 0 {
                assert(b * 1 <= b * p2) by (nonlinear_arith)
                    requires
                        1 <= p2,
                        0 < b,
                ;
            } else {
                lemma_pow2_unfold(e1);
                if e1 < e2 - 1 {
                    lemma_pow2_strictly_increases(e1, (e2 - 1) as nat);
                }
                assert((b + f1) * p1 < b * p2) by (nonlinear_arith)
                    requires
                        f1 < b,
                        0 < p1,
                        2 * p1 <= p2,
                ;
            }
        }
        assert(below <= (b + f2) * p2) by (nonlinear_arith)
            requires
                below == b * p2,
                0 <= f2,
                0 < p2,
        ;
    }
}

/// The order of the keys is the order of the values: of two scalars, the one
/// with the greater key has the greater value, and equal keys are equal
/// values.
pub proof fn lemma_key_orders_units(a: Scalar, b: Scalar)
    ensures
        a.key() > b.key() <==> a.units() > b.units(),
        a.key() == b.key() <==> a.units() == b.units(),
{
    let (m, n) = (a.magnitude(), b.magnitude());
    if m < n {
        lemma_scaled_increases(m, n);
    }
    if n < m {
        lemma_scaled_increases(n, m);
    }
    if 0 < m {
        lemma_scaled_increases(0, m);
    }
    if 0 < n {
        lemma_scaled_increases(0, n);
    }
}

/// A scalar is positive exactly when it is greater than zero.
pub proof fn lemma_positive_is_greater_than_zero(x: Scalar)
    ensures
        x.positive() <==> x.greater(Scalar { bits: ZERO_BITS }),
        x.positive() <==> x.greater(Scalar { bits: SIGN_BIT }),
{
}

/// The sign of the value is what the bits say: zero for the two zeros,
/// above zero for a scalar that is positive, below zero for one that is
/// negative.
pub proof fn lemma_units_sign(x: Scalar)
    requires
        !x.nan(),
    ensures
        x.magnitude() == 0 <==> x.units() == 0,
        x.positive() <==> x.units() > 0,
        x.sign() && x.magnitude() != 0 <==> x.units() < 0,
{
    lemma_key_orders_units(x, Scalar { bits: ZERO_BITS });
}

} // verus!
