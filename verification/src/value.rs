//! The numbers that the patterns stand for, and the proof that order and
//! integer part, which `Scalar` computes on patterns, are those of the
//! numbers.
//!
//! Every finite binary64 number is a multiple of `2^-1074`. So a number is
//! modelled here by the integer that it is `2^1074` times of: order, sign and
//! integer part of the number are read off that integer exactly.
use vstd::prelude::*;
use vstd::arithmetic::div_mod::{
    lemma_basic_div,
    lemma_div_is_ordered,
    lemma_div_multiples_vanish,
    lemma_div_multiples_vanish_quotient,
};
use vstd::arithmetic::mul::{lemma_mul_inequality, lemma_mul_is_commutative, lemma_mul_strict_inequality};
use vstd::arithmetic::power2::{
    lemma2_to64,
    lemma2_to64_rest,
    lemma_pow2_adds,
    lemma_pow2_pos,
    lemma_pow2_strictly_increases,
    lemma_pow2_unfold,
    pow2,
};
use crate::scalar::{Scalar, EXPONENT_BIAS, FRACTION_SPAN};

verus! {

/// `2^1074`, by which every number is scaled to an integer.
pub open spec fn scale() -> int {
    pow2(1074) as int
}

/// A number cut to an integer and kept from 0 to `max`.
pub open spec fn clipped(x: int, max: int) -> int {
    if x < 0 {
        0
    } else if x > max {
        max
    } else {
        x
    }
}

impl Scalar {
    /// The magnitude of the number, times `2^1074`. With exponent field 0 the
    /// number is `fraction * 2^-1074`; with exponent field `e` from 1 on it
    /// is `(2^52 + fraction) * 2^(e - 1075)`. Infinity, with the largest
    /// exponent field and fraction 0, counts as `2^1024`, above every finite
    /// number. Of a NaN this says nothing.
    pub open spec fn scaled_magnitude(self) -> int {
        if self.exponent_field() == 0 {
            self.fraction_field()
        } else {
            (FRACTION_SPAN + self.fraction_field()) * pow2((self.exponent_field() - 1) as nat)
        }
    }

    /// The number, times `2^1074`.
    pub open spec fn scaled(self) -> int {
        if self.sign_negative() {
            -self.scaled_magnitude()
        } else {
            self.scaled_magnitude()
        }
    }

    /// Of two patterns without sign, the larger stands for the larger
    /// number.
    pub proof fn lemma_scaled_magnitude_increases(self, other: Scalar)
        requires
            self.magnitude() < other.magnitude(),
        ensures
            0 <= self.scaled_magnitude() < other.scaled_magnitude(),
    {
        let ea = self.exponent_field();
        let eb = other.exponent_field();
        let xa = FRACTION_SPAN + self.fraction_field();
        let xb = FRACTION_SPAN + other.fraction_field();
        assert(ea <= eb);
        assert(ea == eb ==> xa < xb);
        if eb > 0 {
            let pb = pow2((eb - 1) as nat) as int;
            lemma_pow2_pos((eb - 1) as nat);
            if ea == eb {
                lemma_mul_strict_inequality(xa, xb, pb);
                lemma_mul_inequality(0, xa, pb);
            } else {
                // below the next power of two, which the other reaches
                assert(FRACTION_SPAN * pb <= xb * pb) by {
                    lemma_mul_inequality(FRACTION_SPAN as int, xb, pb);
                }
                if ea == 0 {
                    assert(FRACTION_SPAN * 1 <= FRACTION_SPAN * pb) by (nonlinear_arith)
                        requires
                            1 <= pb,
                    ;
                } else {
                    let pa = pow2((ea - 1) as nat) as int;
                    lemma_pow2_pos((ea - 1) as nat);
                    lemma_pow2_unfold(ea as nat);
                    if ea < eb - 1 {
                        lemma_pow2_strictly_increases(ea as nat, (eb - 1) as nat);
                    }
                    assert(2 * pa <= pb);
                    lemma_mul_strict_inequality(xa, 2 * FRACTION_SPAN, pa);
                    lemma_mul_inequality(0, xa, pa);
                    assert((2 * FRACTION_SPAN) * pa == FRACTION_SPAN * (2 * pa)) by (nonlinear_arith);
                    assert(FRACTION_SPAN * (2 * pa) <= FRACTION_SPAN * pb) by (nonlinear_arith)
                        requires
                            2 * pa <= pb,
                    ;
                }
            }
        }
    }
}

/// The order that `Scalar` computes on patterns is the order of the numbers:
/// for two scalars that are not NaN, `lt_spec`, `le_spec` and `same_spec`
/// hold exactly when the one number is below, not above, or equal to the
/// other. Negation gives the opposite number, and `abs_spec` its magnitude.
pub proof fn law_order_is_the_order_of_numbers(a: Scalar, b: Scalar)
    requires
        !a.is_nan_spec(),
        !b.is_nan_spec(),
    ensures
        a.lt_spec(b) <==> a.scaled() < b.scaled(),
        a.le_spec(b) <==> a.scaled() <= b.scaled(),
        a.same_spec(b) <==> a.scaled() == b.scaled(),
        a.neg_spec().scaled() == -a.scaled(),
        a.abs_spec().scaled() == a.scaled_magnitude(),
        a.scaled_magnitude() >= 0,
        a.min_spec(b).scaled() == if b.scaled() < a.scaled() {
            b.scaled()
        } else {
            a.scaled()
        },
{
    if a.magnitude() < b.magnitude() {
        a.lemma_scaled_magnitude_increases(b);
    } else if b.magnitude() < a.magnitude() {
        b.lemma_scaled_magnitude_increases(a);
    } else {
        assert(a.scaled_magnitude() == b.scaled_magnitude());
    }
    let zero = Scalar { bits: 0 };
    assert(zero.scaled_magnitude() == 0);
    if 0 < a.magnitude() {
        zero.lemma_scaled_magnitude_increases(a);
    } else {
        assert(a.scaled_magnitude() == 0);
    }
    if 0 < b.magnitude() {
        zero.lemma_scaled_magnitude_increases(b);
    } else {
        assert(b.scaled_magnitude() == 0);
    }
    assert(a.neg_spec().magnitude() == a.magnitude());
    assert(a.abs_spec().magnitude() == a.magnitude());
}

/// The integer that `Scalar` cuts a pattern to is the integer part of the
/// number, kept within the range of the type: `to_u32_spec` within `u32`,
/// `to_byte_spec` within a byte.
pub proof fn law_truncation_is_the_integer_part(a: Scalar)
    requires
        !a.is_nan_spec(),
    ensures
        a.to_u32_spec() == if a.scaled() <= 0 {
            0
        } else {
            clipped(a.scaled() / scale(), 0xffff_ffff)
        },
        a.to_byte_spec() == if a.scaled() <= 0 {
            0
        } else {
            clipped(a.scaled() / scale(), 255)
        },
{
    let e = a.exponent_field();
    let x = FRACTION_SPAN + a.fraction_field();
    lemma2_to64();
    lemma2_to64_rest();
    lemma_pow2_pos(1074);
    let zero = Scalar { bits: 0 };
    assert(zero.scaled_magnitude() == 0);
    if 0 < a.magnitude() {
        zero.lemma_scaled_magnitude_increases(a);
    }
    if !a.sign_negative() && 0 < a.magnitude() {
        let v = a.scaled();
        if e == 0 {
            lemma_pow2_strictly_increases(52, 1074);
            lemma_basic_div(v, scale());
        } else {
            let p = pow2((e - 1) as nat) as int;
            lemma_pow2_pos((e - 1) as nat);
            if e < EXPONENT_BIAS {
                // below 1: less than 2^53 * 2^(e - 1), which is 2^1074 at most
                lemma_pow2_adds(53, (e - 1) as nat);
                if 52 + e < 1074 {
                    lemma_pow2_strictly_increases((52 + e) as nat, 1074);
                }
                lemma_mul_strict_inequality(x, pow2(53) as int, p);
                lemma_basic_div(v, scale());
            } else if e <= 1075 {
                let d = pow2((1075 - e) as nat) as int;
                lemma_pow2_pos((1075 - e) as nat);
                lemma_pow2_adds((e - 1) as nat, (1075 - e) as nat);
                lemma_div_multiples_vanish_quotient(p, x, d);
                lemma_mul_is_commutative(p, x);
                assert(a.whole() == v / scale());
                a.lemma_whole_bounds();
                if e < 1054 {
                    lemma_pow2_strictly_increases((e - 1022) as nat, 32);
                }
                if e < 1030 {
                    lemma_pow2_strictly_increases((e - 1022) as nat, 8);
                }
                if e > 1055 {
                    lemma_pow2_strictly_increases(32, (e - 1023) as nat);
                }
                if e > 1031 {
                    lemma_pow2_strictly_increases(8, (e - 1023) as nat);
                }
            } else {
                // from 2^53 on: at least 2^52 * 2^(e - 1), which is 2^32 * 2^1074 and more
                lemma_pow2_adds(52, (e - 1) as nat);
                lemma_pow2_adds(32, 1074);
                lemma_pow2_strictly_increases(1106, (51 + e) as nat);
                lemma_mul_inequality(pow2(52) as int, x, p);
                lemma_div_multiples_vanish(pow2(32) as int, scale());
                lemma_mul_is_commutative(pow2(32) as int, scale());
                lemma_div_is_ordered(pow2(32) * scale(), v, scale());
            }
        }
    }
}

} // verus!
