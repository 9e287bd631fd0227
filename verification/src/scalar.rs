//! Binary64 numbers by bit pattern: classification, order, sign and integer
//! part.
//!
//! A pattern is a sign bit, eleven bits of exponent and 52 bits of fraction.
//! Without the sign, the patterns up to that of infinity stand for the
//! magnitudes in rising order, and the patterns above it are NaNs. What is
//! computed here on patterns is shown in `value` to be the order and the
//! integer part of the numbers themselves.
use vstd::prelude::*;
use vstd::arithmetic::div_mod::{
    lemma_div_is_ordered,
    lemma_div_multiples_vanish,
    lemma_multiply_divide_lt,
};
use vstd::arithmetic::power2::{
    lemma2_to64,
    lemma2_to64_rest,
    lemma_pow2_adds,
    lemma_pow2_pos,
    lemma_pow2_strictly_increases,
    pow2,
};
use vstd::bits::lemma_u64_shr_is_div;

verus! {

/// The pattern in which only the sign bit is set.
pub const SIGN_BIT: u64 = 0x8000_0000_0000_0000;

/// The pattern of positive infinity. A larger magnitude is not a number.
pub const INFINITY_BITS: u64 = 0x7ff0_0000_0000_0000;

/// The pattern of 1.
pub const ONE_BITS: u64 = 0x3ff0_0000_0000_0000;

/// 2^52: the number of patterns that share one exponent and one sign.
pub const FRACTION_SPAN: u64 = 0x10_0000_0000_0000;

/// The exponent field of the numbers from 1 to below 2.
pub const EXPONENT_BIAS: u64 = 1023;

/// A binary64 number, held by its bit pattern.
///
/// `==` on scalars compares patterns; `same` is numeric equality, under which
/// the two zeros are equal and a NaN equals nothing.
#[derive(Clone, Copy, Debug, PartialEq, Eq, Structural)]
pub struct Scalar {
    pub bits: u64,
}

impl Scalar {
    /// The pattern without its sign bit.
    pub open spec fn magnitude(self) -> int {
        if self.bits >= SIGN_BIT {
            self.bits - SIGN_BIT
        } else {
            self.bits as int
        }
    }

    /// Whether the sign bit is set (true of -0 and of some NaNs too).
    pub open spec fn sign_negative(self) -> bool {
        self.bits >= SIGN_BIT
    }

    /// Whether the pattern stands for no number.
    pub open spec fn is_nan_spec(self) -> bool {
        self.magnitude() > INFINITY_BITS
    }

    /// Position on the number line: for two numbers that are not NaN, the one
    /// with the smaller rank is the smaller number, and equal ranks mean equal
    /// numbers. Both zeros have rank 0.
    pub open spec fn rank(self) -> int {
        if self.sign_negative() {
            -self.magnitude()
        } else {
            self.magnitude()
        }
    }

    /// `self < other`: both are numbers, and `self` is the smaller.
    pub open spec fn lt_spec(self, other: Scalar) -> bool {
        !self.is_nan_spec() && !other.is_nan_spec() && self.rank() < other.rank()
    }

    /// `self <= other`: both are numbers, and `self` is not the larger.
    pub open spec fn le_spec(self, other: Scalar) -> bool {
        !self.is_nan_spec() && !other.is_nan_spec() && self.rank() <= other.rank()
    }

    /// `self == other` as numbers: both are numbers, and they are equal.
    pub open spec fn same_spec(self, other: Scalar) -> bool {
        !self.is_nan_spec() && !other.is_nan_spec() && self.rank() == other.rank()
    }

    /// The scalar with the given pattern.
    pub fn from_bits(bits: u64) -> (s: Scalar)
        ensures
            s.bits == bits,
    {
        Scalar { bits }
    }

    /// The pattern of the scalar.
    pub fn to_bits(self) -> (bits: u64)
        ensures
            bits == self.bits,
    {
        self.bits
    }

    /// The pattern without its sign bit.
    fn magnitude_bits(self) -> (m: u64)
        ensures
            m == self.magnitude(),
    {
        if self.bits >= SIGN_BIT {
            self.bits - SIGN_BIT
        } else {
            self.bits
        }
    }

    /// Whether the scalar is a NaN.
    #[verifier::when_used_as_spec(is_nan_spec)]
    pub fn is_nan(self) -> (b: bool)
        ensures
            b == self.is_nan_spec(),
    {
        self.magnitude_bits() > INFINITY_BITS
    }

    /// `self < other` as binary64 compares.
    #[verifier::when_used_as_spec(lt_spec)]
    pub fn lt(self, other: Scalar) -> (b: bool)
        ensures
            b == self.lt_spec(other),
    {
        if self.is_nan() || other.is_nan() {
            return false;
        }
        let a: u64 = self.magnitude_bits();
        let b: u64 = other.magnitude_bits();
        if self.bits >= SIGN_BIT {
            if other.bits >= SIGN_BIT {
                b < a
            } else {
                a != 0 || b != 0
            }
        } else {
            if other.bits >= SIGN_BIT {
                false
            } else {
                a < b
            }
        }
    }

    /// `self <= other` as binary64 compares.
    #[verifier::when_used_as_spec(le_spec)]
    pub fn le(self, other: Scalar) -> (b: bool)
        ensures
            b == self.le_spec(other),
    {
        if self.is_nan() || other.is_nan() {
            return false;
        }
        !other.lt(self)
    }

    /// `self > other` as binary64 compares.
    pub fn gt(self, other: Scalar) -> (b: bool)
        ensures
            b == other.lt_spec(self),
    {
        other.lt(self)
    }

    /// `self >= other` as binary64 compares.
    pub fn ge(self, other: Scalar) -> (b: bool)
        ensures
            b == other.le_spec(self),
    {
        other.le(self)
    }

    /// `self == other` as binary64 compares: by value, not by pattern.
    #[verifier::when_used_as_spec(same_spec)]
    pub fn same(self, other: Scalar) -> (b: bool)
        ensures
            b == self.same_spec(other),
    {
        self.le(other) && other.le(self)
    }

    /// The pattern with its sign bit flipped.
    pub open spec fn neg_spec(self) -> Scalar {
        if self.bits >= SIGN_BIT {
            Scalar { bits: (self.bits - SIGN_BIT) as u64 }
        } else {
            Scalar { bits: (self.bits + SIGN_BIT) as u64 }
        }
    }

    /// The number with the opposite sign: the sign bit flipped, the rest kept.
    #[verifier::when_used_as_spec(neg_spec)]
    pub fn neg(self) -> (r: Scalar)
        ensures
            r == self.neg_spec(),
            r.magnitude() == self.magnitude(),
            r.sign_negative() != self.sign_negative(),
    {
        if self.bits >= SIGN_BIT {
            Scalar { bits: self.bits - SIGN_BIT }
        } else {
            Scalar { bits: self.bits + SIGN_BIT }
        }
    }

    /// The pattern with its sign bit cleared.
    pub open spec fn abs_spec(self) -> Scalar {
        Scalar { bits: self.magnitude() as u64 }
    }

    /// The number with the sign bit cleared.
    #[verifier::when_used_as_spec(abs_spec)]
    pub fn abs(self) -> (r: Scalar)
        ensures
            r == self.abs_spec(),
            r.magnitude() == self.magnitude(),
            !r.sign_negative(),
    {
        Scalar { bits: self.magnitude_bits() }
    }

    /// The smaller of two numbers, a NaN being passed over.
    pub open spec fn min_spec(self, other: Scalar) -> Scalar {
        if self.is_nan_spec() {
            other
        } else if other.is_nan_spec() {
            self
        } else if other.lt_spec(self) {
            other
        } else {
            self
        }
    }

    /// The smaller of two numbers. A NaN is passed over for the other
    /// number; of two equal numbers, and so of the two zeros, `self` is
    /// returned.
    #[verifier::when_used_as_spec(min_spec)]
    pub fn min(self, other: Scalar) -> (r: Scalar)
        ensures
            r == self.min_spec(other),
    {
        if self.is_nan() {
            other
        } else if other.is_nan() {
            self
        } else if other.lt(self) {
            other
        } else {
            self
        }
    }

    /// Positive zero.
    pub fn zero() -> (r: Scalar)
        ensures
            r.bits == 0,
    {
        Scalar { bits: 0 }
    }

    /// The number 1.
    pub fn one() -> (r: Scalar)
        ensures
            r.bits == ONE_BITS,
    {
        Scalar { bits: ONE_BITS }
    }

    /// Positive infinity.
    pub fn infinity() -> (r: Scalar)
        ensures
            r.bits == INFINITY_BITS,
    {
        Scalar { bits: INFINITY_BITS }
    }
}

/// Negation reverses the order and keeps NaN a NaN.
pub proof fn law_neg_reverses_order(a: Scalar, b: Scalar)
    ensures
        a.neg_spec().neg_spec() == a,
        a.neg_spec().is_nan_spec() == a.is_nan_spec(),
        a.neg_spec().rank() == -a.rank(),
        a.lt_spec(b) == b.neg_spec().lt_spec(a.neg_spec()),
{
}

/// On numbers the order is strict and total: of `a < b`, `a == b`, `b < a`
/// exactly one holds unless one of the two is a NaN, in which case none does;
/// and `<` is transitive.
pub proof fn law_order(a: Scalar, b: Scalar, c: Scalar)
    ensures
        !(a.lt_spec(b) && b.lt_spec(a)),
        !(a.lt_spec(b) && a.same_spec(b)),
        a.le_spec(b) == (a.lt_spec(b) || a.same_spec(b)),
        !a.is_nan_spec() && !b.is_nan_spec() ==> a.lt_spec(b) || a.same_spec(b) || b.lt_spec(a),
        a.is_nan_spec() || b.is_nan_spec() ==> !a.lt_spec(b) && !a.same_spec(b) && !b.lt_spec(a),
        a.lt_spec(b) && b.lt_spec(c) ==> a.lt_spec(c),
        a.le_spec(b) && b.le_spec(c) ==> a.le_spec(c),
{
}

impl Scalar {
    /// The eleven bits after the sign. In a number from `2^k` to below
    /// `2^(k+1)` they hold `k + 1023`.
    pub open spec fn exponent_field(self) -> int {
        self.magnitude() / (FRACTION_SPAN as int)
    }

    /// The low 52 bits. A number with exponent field `e` from 1 to 2046 is
    /// `(2^52 + fraction) * 2^(e - 1075)` in magnitude.
    pub open spec fn fraction_field(self) -> int {
        self.magnitude() % (FRACTION_SPAN as int)
    }

    /// The integer part of the magnitude of a number from 1 to below 2^53,
    /// that is with an exponent field from 1023 to 1075.
    pub open spec fn whole(self) -> int {
        (FRACTION_SPAN + self.fraction_field()) / (pow2((1075 - self.exponent_field()) as nat) as int)
    }

    /// The number cut to an integer and kept within `u32`: 0 for a NaN, for a
    /// negative number and below 1; the largest `u32` from 2^32 on, which is
    /// exponent field 1055; else the integer part.
    pub open spec fn to_u32_spec(self) -> int {
        if self.is_nan_spec() || self.sign_negative() || self.exponent_field() < EXPONENT_BIAS {
            0
        } else if self.exponent_field() >= EXPONENT_BIAS + 32 {
            0xffff_ffff
        } else {
            self.whole()
        }
    }

    /// The number cut to an integer and kept within `u8`: 0 for a NaN, for a
    /// negative number and below 1; 255 from 256 on, which is exponent field
    /// 1031; else the integer part.
    pub open spec fn to_byte_spec(self) -> int {
        if self.is_nan_spec() || self.sign_negative() || self.exponent_field() < EXPONENT_BIAS {
            0
        } else if self.exponent_field() >= EXPONENT_BIAS + 8 {
            255
        } else {
            self.whole()
        }
    }

    /// The integer part lies between the powers of two that the exponent
    /// field names.
    pub proof fn lemma_whole_bounds(self)
        requires
            EXPONENT_BIAS <= self.exponent_field() <= 1075,
        ensures
            pow2((self.exponent_field() - 1023) as nat) <= self.whole(),
            self.whole() < pow2((self.exponent_field() - 1022) as nat),
    {
        let e = self.exponent_field();
        let x = FRACTION_SPAN + self.fraction_field();
        let d = pow2((1075 - e) as nat) as int;
        let lo = pow2((e - 1023) as nat) as int;
        let hi = pow2((e - 1022) as nat) as int;
        lemma_pow2_pos((1075 - e) as nat);
        lemma2_to64_rest();
        lemma_pow2_adds((1075 - e) as nat, (e - 1023) as nat);
        lemma_pow2_adds((1075 - e) as nat, (e - 1022) as nat);
        assert(d * lo == pow2(52));
        assert(d * hi == pow2(53));
        assert(lo <= x / d) by {
            lemma_div_multiples_vanish(lo, d);
            lemma_div_is_ordered(d * lo, x, d);
        }
        assert(x / d < hi) by {
            lemma_multiply_divide_lt(x, d, hi);
        }
    }

    /// The number as `as u32` converts it: cut to an integer, and kept within
    /// the range of `u32`.
    pub fn to_u32(self) -> (n: u32)
        ensures
            n == self.to_u32_spec(),
    {
        if self.is_nan() || self.bits >= SIGN_BIT {
            return 0;
        }
        let e: u64 = self.bits / FRACTION_SPAN;
        let m: u64 = self.bits % FRACTION_SPAN;
        if e < EXPONENT_BIAS {
            0
        } else if e >= EXPONENT_BIAS + 32 {
            u32::MAX
        } else {
            let shift: u64 = 1075 - e;
            let q: u64 = (FRACTION_SPAN + m) >> shift;
            proof {
                lemma_u64_shr_is_div((FRACTION_SPAN + m) as u64, shift);
                self.lemma_whole_bounds();
                lemma2_to64();
                if e < 1054 {
                    lemma_pow2_strictly_increases((e - 1022) as nat, 32);
                }
            }
            q as u32
        }
    }

    /// The number as `as u8` converts it: cut to an integer, and kept within
    /// the range of `u8`.
    pub fn to_byte(self) -> (n: u8)
        ensures
            n == self.to_byte_spec(),
    {
        let wide: u32 = self.to_u32();
        proof {
            let e = self.exponent_field();
            if !self.is_nan_spec() && !self.sign_negative() && EXPONENT_BIAS <= e < EXPONENT_BIAS + 32 {
                self.lemma_whole_bounds();
                lemma2_to64();
                if e >= 1031 {
                    if e > 1031 {
                        lemma_pow2_strictly_increases(8, (e - 1023) as nat);
                    }
                } else if e < 1030 {
                    lemma_pow2_strictly_increases((e - 1022) as nat, 8);
                }
            }
        }
        if wide > 255 {
            255
        } else {
            wide as u8
        }
    }
}

/// Cutting to an integer keeps the order: the larger number is not given the
/// smaller byte, nor the smaller `u32`.
pub proof fn law_truncation_monotonic(a: Scalar, b: Scalar)
    requires
        a.le_spec(b),
    ensures
        a.to_byte_spec() <= b.to_byte_spec(),
        a.to_u32_spec() <= b.to_u32_spec(),
        0 <= a.to_byte_spec() <= 255,
        0 <= a.to_u32_spec() <= 0xffff_ffff,
{
    lemma2_to64();
    let ea = a.exponent_field();
    let eb = b.exponent_field();
    if !a.sign_negative() && EXPONENT_BIAS <= ea {
        assert(!b.sign_negative());
        assert(a.magnitude() <= b.magnitude());
        assert(ea <= eb);
        assert(ea == eb ==> a.fraction_field() <= b.fraction_field());
        if ea < EXPONENT_BIAS + 32 {
            a.lemma_whole_bounds();
            if ea < 1054 {
                lemma_pow2_strictly_increases((ea - 1022) as nat, 32);
            }
            if ea < 1030 {
                lemma_pow2_strictly_increases((ea - 1022) as nat, 8);
            }
            if eb < EXPONENT_BIAS + 32 {
                b.lemma_whole_bounds();
                if ea == eb {
                    lemma_pow2_pos((1075 - ea) as nat);
                    lemma_div_is_ordered(
                        FRACTION_SPAN + a.fraction_field(),
                        FRACTION_SPAN + b.fraction_field(),
                        pow2((1075 - ea) as nat) as int,
                    );
                } else if ea + 1 < eb {
                    lemma_pow2_strictly_increases((ea - 1022) as nat, (eb - 1023) as nat);
                }
            }
        }
    } else if !b.sign_negative() && EXPONENT_BIAS <= eb < EXPONENT_BIAS + 32 {
        b.lemma_whole_bounds();
    }
}

} // verus!
