//! IEEE 754 binary32 numbers, carried by their bit patterns.
//!
//! The order of two numbers is decided here, on the bit patterns, and proved
//! to be the order of the numbers that the patterns encode. Sums and products
//! are computed in software by `rustc_apfloat`; their results are named, not
//! modelled.

use rustc_apfloat::ieee::Single;
use rustc_apfloat::Float;
use vstd::arithmetic::power2::{
    lemma_pow2_pos, lemma_pow2_strictly_increases, lemma_pow2_unfold, pow2,
};
use vstd::prelude::*;

verus! {

/// Bit pattern of positive infinity. Every magnitude above it is a NaN.
pub const INFINITY_BITS: u32 = 0x7F80_0000;

/// The sign bit of a binary32 bit pattern.
pub const SIGN_BIT: u32 = 0x8000_0000;

/// Number of values of the fraction field: two to the 23.
pub const FRACTION_RANGE: u32 = 0x80_0000;

/// The size of the number whose exponent field is `exponent` and whose
/// fraction field is `fraction`, in units of two to the -149: the fraction
/// alone for a subnormal number, else the fraction with its leading one,
/// doubled once for each step of the exponent above one.
pub open spec fn field_size(exponent: nat, fraction: int) -> int {
    if exponent == 0 {
        fraction
    } else {
        (FRACTION_RANGE + fraction) * pow2((exponent - 1) as nat)
    }
}

/// The bit pattern that `rustc_apfloat` gives for the binary32 sum of the
/// numbers with bit patterns `a` and `b`, rounding to nearest, ties to even.
pub uninterp spec fn binary32_sum(a: u32, b: u32) -> u32;

/// The bit pattern that `rustc_apfloat` gives for the binary32 product of the
/// numbers with bit patterns `a` and `b`, rounding to nearest, ties to even.
pub uninterp spec fn binary32_product(a: u32, b: u32) -> u32;

/// Adds two binary32 numbers with `rustc_apfloat`: `Float::from_bits` on each
/// bit pattern, `Add::add` of `ieee::Single`, then `Float::to_bits`.
///
/// The contract claims only that the result is a function of the two bit
/// patterns. What the function is has not been proved here.
#[verifier::external_body]
pub(crate) fn sum_bits(a: u32, b: u32) -> (r: u32)
    ensures
        r == binary32_sum(a, b),
{
    let x = Single::from_bits(u128::from(a));
    let y = Single::from_bits(u128::from(b));
    (x + y).value.to_bits() as u32
}

/// Multiplies two binary32 numbers with `rustc_apfloat`: `Float::from_bits` on
/// each bit pattern, `Mul::mul` of `ieee::Single`, then `Float::to_bits`.
///
/// The contract claims only that the result is a function of the two bit
/// patterns. What the function is has not been proved here.
#[verifier::external_body]
pub(crate) fn product_bits(a: u32, b: u32) -> (r: u32)
    ensures
        r == binary32_product(a, b),
{
    let x = Single::from_bits(u128::from(a));
    let y = Single::from_bits(u128::from(b));
    (x * y).value.to_bits() as u32
}

/// A binary32 number. Two scalars are equal when their bit patterns are, so
/// `-0` and `+0` differ and a NaN equals itself; the numeric order is `lt`.
#[derive(Clone, Copy, Debug, PartialEq, Eq, Structural)]
pub struct Scalar {
    pub bits: u32,
}

impl Scalar {
    /// The pattern without its sign bit.
    pub open spec fn magnitude(self) -> int {
        if self.bits >= SIGN_BIT {
            self.bits - SIGN_BIT
        } else {
            self.bits as int
        }
    }

    /// Whether the sign bit is set.
    pub open spec fn is_negative(self) -> bool {
        self.bits >= SIGN_BIT
    }

    /// The exponent field of the pattern.
    pub open spec fn exponent(self) -> nat {
        (self.magnitude() / (FRACTION_RANGE as int)) as nat
    }

    /// The fraction field of the pattern.
    pub open spec fn fraction(self) -> int {
        self.magnitude() % (FRACTION_RANGE as int)
    }

    /// The number that the pattern encodes, in units of two to the -149, so
    /// that it is an integer. An infinity counts as the number that its
    /// pattern would encode if its exponent were an ordinary one, which lies
    /// beyond every finite number. Of a NaN the value means nothing.
    pub open spec fn value(self) -> int {
        if self.is_negative() {
            -field_size(self.exponent(), self.fraction())
        } else {
            field_size(self.exponent(), self.fraction())
        }
    }

    /// Whether the pattern encodes a NaN.
    pub open spec fn is_nan_spec(self) -> bool {
        self.magnitude() > INFINITY_BITS
    }

    /// The pattern read as sign and magnitude, with both zeros at 0. It
    /// orders the patterns as `value` does, and is cheap to compute.
    pub open spec fn rank(self) -> int {
        if self.is_negative() {
            -self.magnitude()
        } else {
            self.magnitude()
        }
    }

    /// IEEE 754 `<`: whether both sides are numbers and the first is below
    /// the second.
    pub open spec fn lt_spec(self, other: Scalar) -> bool {
        !self.is_nan_spec() && !other.is_nan_spec() && self.value() < other.value()
    }

    /// The number with the opposite sign bit.
    pub open spec fn neg_spec(self) -> Scalar {
        if self.bits >= SIGN_BIT {
            Scalar { bits: (self.bits - SIGN_BIT) as u32 }
        } else {
            Scalar { bits: (self.bits + SIGN_BIT) as u32 }
        }
    }

    /// The rounded sum.
    pub open spec fn plus_spec(self, other: Scalar) -> Scalar {
        Scalar { bits: binary32_sum(self.bits, other.bits) }
    }

    /// The rounded product.
    pub open spec fn times_spec(self, other: Scalar) -> Scalar {
        Scalar { bits: binary32_product(self.bits, other.bits) }
    }

    /// `self` brought into `[low, high]`: `low` for a NaN or a number below
    /// `low`, `high` for a number above `high`, else `self`.
    pub open spec fn clamp_spec(self, low: Scalar, high: Scalar) -> Scalar {
        if self.is_nan_spec() || self.lt_spec(low) {
            low
        } else if high.lt_spec(self) {
            high
        } else {
            self
        }
    }

    /// Whether `self` is a number in the closed range `[low, high]`.
    pub open spec fn within(self, low: Scalar, high: Scalar) -> bool {
        !self.is_nan_spec() && !self.lt_spec(low) && !high.lt_spec(self)
    }

    /// The number with this bit pattern.
    pub fn from_bits(bits: u32) -> (s: Scalar)
        ensures
            s.bits == bits,
    {
        Scalar { bits }
    }

    /// The bit pattern of the number.
    pub fn to_bits(self) -> (bits: u32)
        ensures
            bits == self.bits,
    {
        self.bits
    }

    fn magnitude_bits(self) -> (m: u32)
        ensures
            m == self.magnitude(),
    {
        if self.bits >= SIGN_BIT {
            self.bits - SIGN_BIT
        } else {
            self.bits
        }
    }

    /// Whether this is a NaN.
    pub fn is_nan(self) -> (r: bool)
        ensures
            r == self.is_nan_spec(),
    {
        self.magnitude_bits() > INFINITY_BITS
    }

    /// Whether both are numbers and `self` is below `other`.
    pub fn lt(self, other: Scalar) -> (r: bool)
        ensures
            r == self.lt_spec(other),
    {
        if self.is_nan() || other.is_nan() {
            return false;
        }
        proof {
            rank_orders_values(self, other);
        }
        let a: u32 = self.magnitude_bits();
        let b: u32 = other.magnitude_bits();
        if self.bits >= SIGN_BIT {
            if other.bits >= SIGN_BIT {
                b < a
            } else {
                a > 0 || b > 0
            }
        } else {
            other.bits < SIGN_BIT && a < b
        }
    }

    /// The number with the opposite sign: it mirrors the number about zero
    /// and keeps a NaN a NaN.
    pub fn neg(self) -> (r: Scalar)
        ensures
            r == self.neg_spec(),
            r.value() == -self.value(),
            r.is_nan_spec() == self.is_nan_spec(),
    {
        proof {
            neg_mirrors_value(self);
        }
        if self.bits >= SIGN_BIT {
            Scalar { bits: self.bits - SIGN_BIT }
        } else {
            Scalar { bits: self.bits + SIGN_BIT }
        }
    }

    /// The sum of the two numbers, rounded to nearest, ties to even.
    pub fn plus(self, other: Scalar) -> (r: Scalar)
        ensures
            r == self.plus_spec(other),
    {
        Scalar { bits: sum_bits(self.bits, other.bits) }
    }

    /// The product of the two numbers, rounded to nearest, ties to even.
    pub fn times(self, other: Scalar) -> (r: Scalar)
        ensures
            r == self.times_spec(other),
    {
        Scalar { bits: product_bits(self.bits, other.bits) }
    }

    /// Brings `self` into `[low, high]`; a NaN becomes `low`.
    pub fn clamp(self, low: Scalar, high: Scalar) -> (r: Scalar)
        ensures
            r == self.clamp_spec(low, high),
    {
        if self.is_nan() || self.lt(low) {
            low
        } else if high.lt(self) {
            high
        } else {
            self
        }
    }
}

/// A clamped value lies in the range it was clamped to, whenever that range
/// is one: both ends numbers, the lower not above the upper.
pub proof fn clamp_lands_within(x: Scalar, low: Scalar, high: Scalar)
    requires
        !low.is_nan_spec(),
        !high.is_nan_spec(),
        !high.lt_spec(low),
    ensures
        x.clamp_spec(low, high).within(low, high),
        x.within(low, high) ==> x.clamp_spec(low, high) == x,
{
}

/// A greater exponent field, or the same with a greater fraction field, gives
/// a greater size.
proof fn field_size_grows(e1: nat, f1: int, e2: nat, f2: int)
    requires
        0 <= f1 < FRACTION_RANGE,
        0 <= f2 < FRACTION_RANGE,
        e1 < e2 || (e1 == e2 && f1 < f2),
    ensures
        0 <= field_size(e1, f1) < field_size(e2, f2),
{
    let range = FRACTION_RANGE as int;
    if e2 == 0 {
    } else {
        let above = pow2((e2 - 1) as nat) as int;
        lemma_pow2_pos((e2 - 1) as nat);
        if e1 == e2 {
            assert((range + f1) * above < (range + f2) * above) by (nonlinear_arith)
                requires
                    f1 < f2,
                    above > 0,
            ;
            assert(0 <= (range + f1) * above) by (nonlinear_arith)
                requires
                    0 <= f1,
                    above > 0,
                    range > 0,
            ;
        } else if e1 == 0 {
            assert(range <= (range + f2) * above) by (nonlinear_arith)
                requires
                    0 <= f2,
                    above >= 1,
                    range > 0,
            ;
        } else {
            let below = pow2((e1 - 1) as nat) as int;
            lemma_pow2_pos((e1 - 1) as nat);
            lemma_pow2_unfold(e1);
            if e1 < e2 - 1 {
                lemma_pow2_strictly_increases(e1, (e2 - 1) as nat);
            }
            assert(2 * below <= above);
            assert(0 <= (range + f1) * below < (range + f2) * above) by (nonlinear_arith)
                requires
                    0 <= f1 < range,
                    0 <= f2,
                    below > 0,
                    2 * below <= above,
            ;
        }
    }
}

/// Rank and value order the patterns alike, and patterns of equal rank encode
/// equal numbers. So `lt_spec` can be decided on ranks.
pub proof fn rank_orders_values(a: Scalar, b: Scalar)
    ensures
        a.rank() < b.rank() <==> a.value() < b.value(),
        a.rank() == b.rank() <==> a.value() == b.value(),
        a.lt_spec(b) <==> !a.is_nan_spec() && !b.is_nan_spec() && a.rank() < b.rank(),
{
    let zero = Scalar { bits: 0 };
    size_follows_magnitude(a, b);
    size_follows_magnitude(b, a);
    size_follows_magnitude(zero, a);
    size_follows_magnitude(zero, b);
}

/// Of two patterns, the one with the greater magnitude encodes the number of
/// greater size.
proof fn size_follows_magnitude(a: Scalar, b: Scalar)
    ensures
        a.magnitude() < b.magnitude() ==> field_size(a.exponent(), a.fraction()) < field_size(
            b.exponent(),
            b.fraction(),
        ),
        a.magnitude() == b.magnitude() ==> field_size(a.exponent(), a.fraction()) == field_size(
            b.exponent(),
            b.fraction(),
        ),
        0 <= field_size(a.exponent(), a.fraction()),
{
    if a.magnitude() < b.magnitude() {
        field_size_grows(a.exponent(), a.fraction(), b.exponent(), b.fraction());
    } else if a.exponent() > 0 {
        lemma_pow2_pos((a.exponent() - 1) as nat);
        let p = pow2((a.exponent() - 1) as nat) as int;
        let f = a.fraction();
        assert(0 <= (FRACTION_RANGE + f) * p) by (nonlinear_arith)
            requires
                0 <= f,
                p > 0,
        ;
    }
}

/// Negation mirrors the number about zero and keeps a NaN a NaN.
pub proof fn neg_mirrors_value(a: Scalar)
    ensures
        a.neg_spec().value() == -a.value(),
        a.neg_spec().is_nan_spec() == a.is_nan_spec(),
        a.neg_spec().neg_spec() == a,
{
}

} // verus!
