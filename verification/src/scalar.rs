//! Floating-point numbers as the library carries them: by their bits, never computed with, only
//! held against fixed bounds.

use vstd::arithmetic::power2::*;
use vstd::prelude::*;

verus! {

/// A double-precision number (IEEE 754 binary64), carried as its bit pattern.
#[derive(Debug, Clone, Copy, PartialEq, Eq, Structural)]
pub struct Scalar {
    pub bits: u64,
}

/// The number of bit patterns that share an exponent: 2 to the power 52.
pub const MANTISSAS: u64 = 0x10_0000_0000_0000;

/// The bit pattern of positive infinity: every pattern up to it is a number at or above zero.
pub const INFINITY_BITS: u64 = 0x7FF0_0000_0000_0000;

/// The value of the number with these bits in units of 2 to the power -1074, the distance
/// between zero and the smallest number above it. For bits without the sign bit.
pub open spec fn magnitude(bits: u64) -> nat
    recommends
        bits <= INFINITY_BITS,
{
    let exponent = (bits / MANTISSAS) as nat;
    let mantissa = (bits % MANTISSAS) as nat;
    if exponent == 0 {
        mantissa
    } else {
        (MANTISSAS as nat + mantissa) * pow2((exponent - 1) as nat)
    }
}

impl Scalar {
    /// Zero.
    pub open spec fn spec_zero() -> Scalar {
        Scalar { bits: 0 }
    }

    /// Whether this is a number at or above positive zero: not a NaN, and without a sign.
    pub open spec fn is_measure(self) -> bool {
        self.bits <= INFINITY_BITS
    }

    /// The comparison `self >= bound` of the numbers, for a bound above zero, given by its bits.
    pub open spec fn spec_at_least(self, bound: u64) -> bool {
        self.is_measure() && magnitude(self.bits) >= magnitude(bound)
    }

    /// The comparison `self <= bound` of the numbers, for a number at or above zero and a bound
    /// given by its bits.
    pub open spec fn spec_at_most(self, bound: u64) -> bool {
        magnitude(self.bits) <= magnitude(bound)
    }

    /// Whether this number is at or above every bound above zero that `other` is at or above.
    pub open spec fn reaches(self, other: Scalar) -> bool {
        other.is_measure() && other.bits > 0 ==> self.is_measure() && magnitude(self.bits)
            >= magnitude(other.bits)
    }

    /// Zero.
    pub fn zero() -> (r: Scalar)
        ensures
            r == Scalar::spec_zero(),
    {
        Scalar { bits: 0 }
    }

    /// Whether the number is at or above a bound that is above zero, given by its bits.
    ///
    /// Negative numbers are not, and neither is a NaN.
    pub fn at_least(self, bound: u64) -> (r: bool)
        requires
            bound <= INFINITY_BITS,
            bound > 0,
        ensures
            r == self.spec_at_least(bound),
    {
        proof {
            if self.is_measure() {
                law_magnitude_orders(self.bits, bound);
            }
        }
        self.bits <= INFINITY_BITS && self.bits >= bound
    }

    /// Whether a number at or above zero is at or below a bound, given by its bits.
    pub fn at_most(self, bound: u64) -> (r: bool)
        requires
            self.is_measure(),
            bound <= INFINITY_BITS,
        ensures
            r == self.spec_at_most(bound),
    {
        proof {
            law_magnitude_orders(self.bits, bound);
        }
        self.bits <= bound
    }
}

/// How far two numbers are apart.
pub open spec fn distance(a: nat, b: nat) -> int {
    if a < b {
        b - a
    } else {
        a - b
    }
}

/// Whether `x` is what `exact` is rounded to, where `exact` is counted in parts of which `parts` make
/// up the smallest number above zero: no number is nearer and, of two that are equally near, `x` is
/// the one with an even bit pattern. Beyond the largest number there is infinity, which stands where
/// the next number would.
pub open spec fn rounds_to(exact: nat, parts: nat, x: Scalar) -> bool {
    &&& x.is_measure()
    &&& forall|y: Scalar| #[trigger]
        y.is_measure() ==> distance(magnitude(x.bits) * parts, exact) <= distance(
            magnitude(y.bits) * parts,
            exact,
        )
    &&& forall|y: Scalar| #[trigger]
        y.is_measure() && y != x && distance(magnitude(x.bits) * parts, exact) == distance(
            magnitude(y.bits) * parts,
            exact,
        ) ==> x.bits % 2 == 0
}

/// Whether `x` is the product of `a` and a finite number `b` above zero, as IEEE 754 has it:
/// infinite where `a` is, and else the exact product, rounded.
pub open spec fn is_product(a: Scalar, b: Scalar, x: Scalar) -> bool {
    if a.bits == INFINITY_BITS {
        x.bits == INFINITY_BITS
    } else {
        rounds_to(magnitude(a.bits) * magnitude(b.bits), pow2(1074), x)
    }
}

/// Rounding keeps the order of numbers.
pub proof fn law_rounding_keeps_order(
    low: nat,
    high: nat,
    parts: nat,
    x: Scalar,
    y: Scalar,
)
    requires
        parts > 0,
        low <= high,
        rounds_to(low, parts, x),
        rounds_to(high, parts, y),
    ensures
        magnitude(x.bits) <= magnitude(y.bits),
{
    if magnitude(x.bits) > magnitude(y.bits) {
        law_magnitude_orders(x.bits, y.bits);
        let (mx, my) = (magnitude(x.bits), magnitude(y.bits));
        assert(mx * parts > my * parts) by (nonlinear_arith)
            requires
                mx > my,
                parts > 0,
        ;
        assert(x.is_measure() && y.is_measure());
        assert(low == high);
        assert(x.bits % 2 == 0 && y.bits % 2 == 0);
        let z = Scalar { bits: (y.bits + 1) as u64 };
        assert(z.is_measure());
        law_magnitude_orders(y.bits, z.bits);
        law_magnitude_orders(z.bits, x.bits);
        let mz = magnitude(z.bits);
        assert(mx * parts > mz * parts > my * parts) by (nonlinear_arith)
            requires
                mx > mz > my,
                parts > 0,
        ;
    }
}

/// A product rises with its second factor.
pub proof fn law_products_rise(a: Scalar, low: Scalar, high: Scalar, x: Scalar, y: Scalar)
    requires
        magnitude(low.bits) <= magnitude(high.bits),
        is_product(a, low, x),
        is_product(a, high, y),
    ensures
        magnitude(x.bits) <= magnitude(y.bits),
        x.is_measure() && y.is_measure(),
{
    if a.bits != INFINITY_BITS {
        let (m, l, h) = (magnitude(a.bits), magnitude(low.bits), magnitude(high.bits));
        assert(m * l <= m * h) by (nonlinear_arith)
            requires
                l <= h,
        ;
        lemma_pow2_pos(1074);
        law_rounding_keeps_order(m * l, m * h, pow2(1074), x, y);
    }
}

/// Below the sign bit, a larger bit pattern is a larger number.
proof fn lemma_magnitude_increases(a: u64, b: u64)
    requires
        a < b <= INFINITY_BITS,
    ensures
        magnitude(a) < magnitude(b),
{
    let ea = (a / MANTISSAS) as nat;
    let eb = (b / MANTISSAS) as nat;
    let ma = (a % MANTISSAS) as nat;
    let mb = (b % MANTISSAS) as nat;
    let k = MANTISSAS as nat;
    assert(ea <= eb);
    if eb == 0 {
    } else if ea == eb {
        let p = pow2((ea - 1) as nat);
        lemma_pow2_pos((ea - 1) as nat);
        assert((k + ma) * p < (k + mb) * p) by (nonlinear_arith)
            requires
                ma < mb,
                p > 0,
        ;
    } else {
        let p = pow2((eb - 1) as nat);
        lemma_pow2_pos((eb - 1) as nat);
        assert(k * p <= (k + mb) * p) by (nonlinear_arith);
        if ea == 0 {
            assert(k <= k * p) by (nonlinear_arith)
                requires
                    p > 0,
            ;
        } else {
            let q = pow2((ea - 1) as nat);
            lemma_pow2_pos((ea - 1) as nat);
            lemma_pow2_unfold(ea);
            if ea < eb - 1 {
                lemma_pow2_strictly_increases(ea, (eb - 1) as nat);
            }
            assert(2 * q <= p);
            assert((k + ma) * q < k * (2 * q)) by (nonlinear_arith)
                requires
                    ma < k,
                    q > 0,
            ;
            assert(k * (2 * q) <= k * p) by (nonlinear_arith)
                requires
                    2 * q <= p,
            ;
        }
    }
}

/// Numbers at or above zero are ordered as their bit patterns are.
pub proof fn law_magnitude_orders(a: u64, b: u64)
    requires
        a <= INFINITY_BITS,
        b <= INFINITY_BITS,
    ensures
        magnitude(a) < magnitude(b) <==> a < b,
        magnitude(a) == magnitude(b) <==> a == b,
{
    if a < b {
        lemma_magnitude_increases(a, b);
    } else if b < a {
        lemma_magnitude_increases(b, a);
    }
}

/// Numbers at or above zero compare as their bit patterns do, up to that of infinity; a NaN and
/// anything below zero is not at or above a bound above zero.
pub proof fn law_comparisons_go_by_bits(x: Scalar, bound: u64)
    requires
        0 < bound <= 0x7FF0_0000_0000_0000,
    ensures
        x.spec_at_least(bound) <==> bound <= x.bits <= 0x7FF0_0000_0000_0000,
        x.bits <= 0x7FF0_0000_0000_0000 ==> (x.spec_at_most(bound) <==> x.bits <= bound),
        Scalar::spec_zero().bits == 0,
{
    if x.bits <= INFINITY_BITS {
        law_magnitude_orders(x.bits, bound);
    }
}

} // verus!
