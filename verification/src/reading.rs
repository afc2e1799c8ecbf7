//! Measured values as binary64 numbers, held by their bit patterns.
//!
//! A `Reading` carries the 64 bits of an IEEE 754 double: one sign bit,
//! eleven exponent bits and fifty-two fraction bits. Every number such a
//! pattern can stand for is a whole multiple of 2^-1074, so the model of a
//! reading is the integer `scaled()`: the number times 2^1074. Ranges are
//! stated over that integer and decided on the bits.

use vstd::prelude::*;
use vstd::arithmetic::power2::{lemma2_to64, lemma_pow2_adds, lemma_pow2_pos, lemma_pow2_strictly_increases, pow2};

verus! {

/// The bit that holds the sign.
pub const SIGN_BIT: u64 = 0x8000_0000_0000_0000;

/// The number of fraction patterns under one exponent: 2^52.
pub const FRACTION_SPAN: u64 = 0x0010_0000_0000_0000;

/// The pattern of positive infinity: the largest magnitude that is a number.
pub const INFINITY_BITS: u64 = 0x7FF0_0000_0000_0000;

/// The integer that stands for the number one: 2^1074.
pub open spec fn unit() -> int {
    pow2(1074) as int
}

/// The number with magnitude pattern `magnitude` (the bits without the
/// sign), times 2^1074.
///
/// With exponent field 0 the fraction counts multiples of 2^-1074. Above
/// that, a hidden leading bit joins the fraction and each step of the
/// exponent doubles the number. The pattern of infinity gets the integer
/// that the next exponent would give, beyond every finite one.
pub open spec fn scale_of(magnitude: int) -> int {
    let exponent = magnitude / (FRACTION_SPAN as int);
    let fraction = magnitude % (FRACTION_SPAN as int);
    if exponent <= 0 {
        fraction
    } else {
        (FRACTION_SPAN + fraction) * pow2((exponent - 1) as nat)
    }
}

/// A binary64 number, held by its bit pattern. Two readings are equal
/// when their bits are; `le` compares them as numbers.
#[derive(Clone, Copy, Debug, PartialEq, Eq, Structural)]
pub struct Reading {
    pub bits: u64,
}

impl Reading {
    /// Whether the sign bit is set.
    pub open spec fn negative(self) -> bool {
        self.bits >= SIGN_BIT
    }

    /// The bits without the sign.
    pub open spec fn magnitude(self) -> int {
        if self.bits >= SIGN_BIT {
            self.bits - SIGN_BIT
        } else {
            self.bits as int
        }
    }

    /// Whether the pattern stands for no number at all: the exponent field
    /// is all ones and the fraction is not zero.
    pub open spec fn nan(self) -> bool {
        self.magnitude() / (FRACTION_SPAN as int) == 2047 && self.magnitude() % (FRACTION_SPAN as int) != 0
    }

    /// The number times 2^1074, for a pattern that is not `nan()`.
    /// Both zeros give 0.
    pub open spec fn scaled(self) -> int {
        if self.negative() {
            -scale_of(self.magnitude())
        } else {
            scale_of(self.magnitude())
        }
    }

    /// `self <= other` as numbers: false when either is not a number.
    pub open spec fn le_spec(self, other: Reading) -> bool {
        !self.nan() && !other.nan() && self.scaled() <= other.scaled()
    }

    /// Whether the number lies between the whole numbers `low` and `high`,
    /// both ends included.
    pub open spec fn between(self, low: int, high: int) -> bool {
        !self.nan() && low * unit() <= self.scaled() <= high * unit()
    }

    /// Whether the number is at least the whole number `low`.
    pub open spec fn at_least(self, low: int) -> bool {
        !self.nan() && low * unit() <= self.scaled()
    }

    /// The reading with the given bit pattern.
    pub fn from_bits(bits: u64) -> (r: Reading)
        ensures
            r.bits == bits,
    {
        Reading { bits }
    }

    /// The bit pattern of the reading.
    pub fn to_bits(&self) -> (bits: u64)
        ensures
            bits == self.bits,
    {
        self.bits
    }

    /// The bits without the sign.
    fn magnitude_bits(&self) -> (m: u64)
        ensures
            m == self.magnitude(),
            m < SIGN_BIT,
    {
        if self.bits >= SIGN_BIT {
            self.bits - SIGN_BIT
        } else {
            self.bits
        }
    }

    /// Whether the pattern stands for no number.
    pub fn is_nan(&self) -> (r: bool)
        ensures
            r == self.nan(),
    {
        self.magnitude_bits() > INFINITY_BITS
    }

    /// Whether the number lies between `low` and `high`, both ends
    /// included.
    pub fn within(&self, low: &Reading, high: &Reading) -> (r: bool)
        ensures
            r == (low.le_spec(*self) && self.le_spec(*high)),
    {
        low.le(self) && self.le(high)
    }

    /// Whether `self <= other` as numbers.
    pub fn le(&self, other: &Reading) -> (r: bool)
        ensures
            r == self.le_spec(*other),
    {
        if self.is_nan() || other.is_nan() {
            return false;
        }
        let a: u64 = self.magnitude_bits();
        let b: u64 = other.magnitude_bits();
        proof {
            lemma_scale_of_order(a as int, b as int);
            lemma_scale_of_order(b as int, a as int);
            lemma_scale_of_order(0, a as int);
            lemma_scale_of_order(0, b as int);
        }
        if self.bits >= SIGN_BIT {
            if other.bits >= SIGN_BIT {
                b <= a
            } else {
                true
            }
        } else {
            if other.bits >= SIGN_BIT {
                a == 0 && b == 0
            } else {
                a <= b
            }
        }
    }
}

/// The scaled number under exponent field `e` lies below 2^52 * 2^e, and
/// from `e = 1` on it is at least half of that.
proof fn lemma_scale_of_bounds(magnitude: int)
    requires
        0 <= magnitude,
    ensures
        0 <= scale_of(magnitude),
        scale_of(magnitude) < FRACTION_SPAN * pow2((magnitude / (FRACTION_SPAN as int)) as nat),
        magnitude / (FRACTION_SPAN as int) >= 1 ==> FRACTION_SPAN * pow2(
            (magnitude / (FRACTION_SPAN as int)) as nat,
        ) <= 2 * scale_of(magnitude),
{
    let exponent = magnitude / (FRACTION_SPAN as int);
    let fraction = magnitude % (FRACTION_SPAN as int);
    let span = FRACTION_SPAN as int;
    lemma2_to64();
    if exponent <= 0 {
        assert(pow2(0) == 1);
    } else {
        let p = pow2((exponent - 1) as nat) as int;
        lemma_pow2_pos((exponent - 1) as nat);
        lemma_pow2_adds(1, (exponent - 1) as nat);
        assert(pow2(exponent as nat) == 2 * p);
        assert(span * p <= (span + fraction) * p) by (nonlinear_arith)
            requires
                0 <= fraction,
                0 < p,
                0 < span,
        ;
        assert((span + fraction) * p < (2 * span) * p) by (nonlinear_arith)
            requires
                fraction < span,
                0 < p,
        ;
        assert((2 * span) * p == span * (2 * p)) by (nonlinear_arith);
    }
}

/// The scaled number grows with the magnitude pattern, strictly.
pub proof fn lemma_scale_of_order(a: int, b: int)
    requires
        0 <= a,
        0 <= b,
    ensures
        a <= b <==> scale_of(a) <= scale_of(b),
        a == b <==> scale_of(a) == scale_of(b),
{
    if a < b {
        lemma_scale_of_grows(a, b);
    } else if b < a {
        lemma_scale_of_grows(b, a);
    }
}

/// A smaller magnitude pattern gives a smaller scaled number.
proof fn lemma_scale_of_grows(a: int, b: int)
    requires
        0 <= a < b,
    ensures
        scale_of(a) < scale_of(b),
{
    let span = FRACTION_SPAN as int;
    let ea = a / span;
    let eb = b / span;
    let fa = a % span;
    let fb = b % span;
    assert(ea <= eb);
    if ea == eb {
        assert(fa < fb);
        if ea > 0 {
            let p = pow2((ea - 1) as nat) as int;
            lemma_pow2_pos((ea - 1) as nat);
            assert((span + fa) * p < (span + fb) * p) by (nonlinear_arith)
                requires
                    fa < fb,
                    0 < p,
            ;
        }
    } else {
        lemma_scale_of_bounds(a);
        lemma_scale_of_bounds(b);
        let pa = pow2(ea as nat) as int;
        let pb = pow2(eb as nat) as int;
        if ea + 1 < eb {
            lemma_pow2_strictly_increases((ea + 1) as nat, eb as nat);
        }
        lemma_pow2_adds(1, ea as nat);
        lemma2_to64();
        assert(2 * pa <= pb);
        assert(span * (2 * pa) <= span * pb) by (nonlinear_arith)
            requires
                2 * pa <= pb,
                0 < span,
        ;
        assert(span * (2 * pa) == 2 * (span * pa)) by (nonlinear_arith);
    }
}

/// A pattern whose leading bit and fraction make up `n` times a power of
/// two stands for the whole number `n`.
pub proof fn lemma_scale_of_whole(magnitude: int, n: int)
    requires
        0 <= magnitude,
        1 <= magnitude / (FRACTION_SPAN as int) <= 1075,
        FRACTION_SPAN + magnitude % (FRACTION_SPAN as int) == n * pow2(
            (1075 - magnitude / (FRACTION_SPAN as int)) as nat,
        ),
    ensures
        scale_of(magnitude) == n * unit(),
{
    let exponent = magnitude / (FRACTION_SPAN as int);
    let down = pow2((1075 - exponent) as nat) as int;
    let up = pow2((exponent - 1) as nat) as int;
    lemma_pow2_adds((1075 - exponent) as nat, (exponent - 1) as nat);
    assert(down * up == unit());
    assert((n * down) * up == n * (down * up)) by (nonlinear_arith);
}

} // verus!
