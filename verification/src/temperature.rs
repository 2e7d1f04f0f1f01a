//! Temperature readings and their narrowing to whole degrees.
//!
//! A reading travels as the bit pattern of an IEEE 754 double precision
//! number: one sign bit, eleven exponent bits, fifty-two fraction bits.

use vstd::arithmetic::power2::{
    lemma2_to64, lemma2_to64_rest, lemma_pow2_pos, lemma_pow2_strictly_increases, pow2,
};
use vstd::bits::lemma_u64_shr_is_div;
use vstd::prelude::*;

verus! {

/// A temperature reading, held as the bit pattern of a double precision number.
#[derive(Clone, Copy, Debug)]
pub struct Temperature {
    pub bits: u64,
}

/// Two to the power fifty-two: the weight of the implicit leading bit.
pub open spec fn hidden_bit() -> int {
    0x10_0000_0000_0000
}

impl Temperature {
    /// Whether the sign bit is set.
    pub open spec fn negative(self) -> bool {
        self.bits >= 0x8000_0000_0000_0000
    }

    /// The biased exponent field, between 0 and 2047.
    pub open spec fn exponent(self) -> int {
        (self.bits as int / hidden_bit()) % 2048
    }

    /// The fraction field, below two to the power fifty-two.
    pub open spec fn fraction(self) -> int {
        self.bits as int % hidden_bit()
    }

    /// Whether the reading is not a number.
    pub open spec fn is_nan(self) -> bool {
        self.exponent() == 2047 && self.fraction() != 0
    }

    /// Whether the reading is an infinity.
    pub open spec fn is_infinite(self) -> bool {
        self.exponent() == 2047 && self.fraction() == 0
    }

    /// The integer significand: the fraction, with the implicit leading bit for
    /// a normal number.
    pub open spec fn significand(self) -> int {
        if self.exponent() == 0 {
            self.fraction()
        } else {
            hidden_bit() + self.fraction()
        }
    }

    /// The power of two by which the significand is scaled up.
    pub open spec fn scale_up(self) -> nat {
        if self.exponent() > 1075 {
            (self.exponent() - 1075) as nat
        } else {
            0
        }
    }

    /// The power of two by which the significand is scaled down.
    pub open spec fn scale_down(self) -> nat {
        if self.exponent() == 0 {
            1074
        } else if self.exponent() < 1075 {
            (1075 - self.exponent()) as nat
        } else {
            0
        }
    }

    /// The whole part of the magnitude of a finite reading, whose magnitude is
    /// `significand * 2^scale_up / 2^scale_down`.
    pub open spec fn whole_magnitude(self) -> int {
        (self.significand() * pow2(self.scale_up())) / (pow2(self.scale_down()) as int)
    }

    /// The reading narrowed to whole degrees: the fractional part is dropped,
    /// so the result lies between zero and the reading. A reading beyond the
    /// 32-bit range, an infinity included, is clamped to the nearest bound, and
    /// a reading that is not a number gives zero.
    pub open spec fn truncated(self) -> int {
        if self.is_nan() {
            0
        } else if self.is_infinite() {
            if self.negative() {
                i32::MIN as int
            } else {
                i32::MAX as int
            }
        } else if self.negative() {
            if self.whole_magnitude() >= 0x8000_0000 {
                i32::MIN as int
            } else {
                -self.whole_magnitude()
            }
        } else {
            if self.whole_magnitude() >= 0x7fff_ffff {
                i32::MAX as int
            } else {
                self.whole_magnitude()
            }
        }
    }

    /// Wraps the bit pattern of a double precision number.
    pub fn from_bits(bits: u64) -> (t: Temperature)
        ensures
            t.bits == bits,
    {
        Temperature { bits }
    }

    /// Narrows the reading to whole degrees, dropping the fractional part.
    pub fn truncate(self) -> (degrees: i32)
        ensures
            degrees == self.truncated(),
    {
        let bits = self.bits;
        let negative = bits >> 63 == 1;
        let exponent: u64 = (bits >> 52) & 0x7ff;
        let fraction: u64 = bits & 0xf_ffff_ffff_ffff;
        proof {
            lemma_fields(bits);
        }
        if exponent == 2047 {
            if fraction != 0 {
                0
            } else if negative {
                i32::MIN
            } else {
                i32::MAX
            }
        } else if exponent < 1023 {
            proof {
                self.lemma_below_one();
            }
            0
        } else if exponent >= 1054 {
            proof {
                self.lemma_beyond_range();
            }
            if negative {
                i32::MIN
            } else {
                i32::MAX
            }
        } else {
            let shift: u64 = 1075 - exponent;
            let significand: u64 = fraction | 0x10_0000_0000_0000;
            let whole: u64 = significand >> shift;
            proof {
                assert(significand == fraction + 0x10_0000_0000_0000) by (bit_vector)
                    requires
                        significand == fraction | 0x10_0000_0000_0000,
                        fraction < 0x10_0000_0000_0000,
                ;
                assert(whole < 0x8000_0000) by (bit_vector)
                    requires
                        whole == significand >> shift,
                        significand < 0x20_0000_0000_0000,
                        22 <= shift <= 52,
                ;
                lemma_u64_shr_is_div(significand, shift);
                lemma2_to64();
                assert(significand as int * 1 == significand as int);
            }
            if negative {
                -(whole as i32)
            } else {
                whole as i32
            }
        }
    }

    /// The whole part of the magnitude is its floor: it does not exceed the
    /// magnitude and falls short of it by less than one.
    pub proof fn lemma_whole_magnitude_is_floor(self)
        ensures
            0 <= self.whole_magnitude(),
            self.whole_magnitude() * pow2(self.scale_down()) <= self.significand() * pow2(
                self.scale_up(),
            ),
            self.significand() * pow2(self.scale_up()) < (self.whole_magnitude() + 1) * pow2(
                self.scale_down(),
            ),
    {
        let x = self.significand() * pow2(self.scale_up());
        let d = pow2(self.scale_down()) as int;
        lemma_pow2_pos(self.scale_up());
        lemma_pow2_pos(self.scale_down());
        assert(0 <= self.significand());
        assert(0 <= x) by (nonlinear_arith)
            requires
                x == self.significand() * pow2(self.scale_up()),
                0 <= self.significand(),
                0 < pow2(self.scale_up()),
        ;
        assert(0 <= x / d && (x / d) * d <= x < (x / d + 1) * d) by (nonlinear_arith)
            requires
                0 <= x,
                0 < d,
        ;
    }

    /// Truncation goes toward zero: the result lies between zero and the
    /// reading, on the side of the reading, and is never further from zero
    /// than the whole part of the magnitude.
    pub proof fn lemma_truncation_toward_zero(self)
        requires
            !self.is_nan(),
            !self.is_infinite(),
        ensures
            i32::MIN <= self.truncated() <= i32::MAX,
            self.negative() ==> -self.whole_magnitude() <= self.truncated() <= 0,
            !self.negative() ==> 0 <= self.truncated() <= self.whole_magnitude(),
            self.whole_magnitude() < 0x8000_0000 ==> self.truncated() == if self.negative() {
                -self.whole_magnitude()
            } else {
                self.whole_magnitude()
            },
    {
        self.lemma_whole_magnitude_is_floor();
    }

    /// Within the 32-bit range, a reading and its negation truncate to
    /// opposite numbers.
    pub proof fn lemma_truncation_symmetric(self, other: Temperature)
        requires
            self.exponent() == other.exponent(),
            self.fraction() == other.fraction(),
            self.negative() != other.negative(),
            self.exponent() < 1054,
        ensures
            self.truncated() == -other.truncated(),
    {
        if self.exponent() < 1023 {
            self.lemma_below_one();
            other.lemma_below_one();
        } else {
            self.lemma_within_range();
        }
    }

    /// A reading with a biased exponent under 1054 has a magnitude below two
    /// to the power thirty-one.
    proof fn lemma_within_range(self)
        requires
            1023 <= self.exponent() < 1054,
        ensures
            self.whole_magnitude() < 0x8000_0000,
    {
        lemma2_to64();
        let x = self.significand();
        let down = self.scale_down();
        assert(22 <= down <= 52);
        if down > 22 {
            lemma_pow2_strictly_increases(22, down);
        }
        let d = pow2(down) as int;
        assert(d >= 0x40_0000);
        assert(x < 0x20_0000_0000_0000);
        assert(x * 1 == x);
        assert(x / d < 0x8000_0000) by (nonlinear_arith)
            requires
                0 <= x < 0x20_0000_0000_0000,
                d >= 0x40_0000,
        ;
    }

    /// A finite reading with a biased exponent under 1023 has a magnitude below one.
    proof fn lemma_below_one(self)
        requires
            self.exponent() < 1023,
        ensures
            self.whole_magnitude() == 0,
    {
        lemma2_to64();
        lemma2_to64_rest();
        let down = self.scale_down();
        assert(down >= 53);
        if down > 53 {
            lemma_pow2_strictly_increases(53, down);
        }
        let divisor = pow2(down) as int;
        let x = self.significand();
        assert(0 <= x < divisor);
        assert(x * 1 == x);
        assert(x / divisor == 0) by (nonlinear_arith)
            requires
                0 <= x < divisor,
        ;
    }

    /// A finite reading with a biased exponent of 1054 or more has a magnitude
    /// of at least two to the power thirty-one.
    proof fn lemma_beyond_range(self)
        requires
            1054 <= self.exponent() < 2047,
        ensures
            self.whole_magnitude() >= 0x8000_0000,
    {
        lemma2_to64();
        let x = self.significand();
        assert(x >= 0x10_0000_0000_0000);
        let up = pow2(self.scale_up()) as int;
        let down = pow2(self.scale_down()) as int;
        lemma_pow2_pos(self.scale_up());
        lemma_pow2_pos(self.scale_down());
        if self.scale_down() < 21 {
            lemma_pow2_strictly_increases(self.scale_down(), 21);
        }
        assert(1 <= down <= 0x20_0000);
        assert((x * up) / down >= 0x8000_0000) by (nonlinear_arith)
            requires
                x >= 0x10_0000_0000_0000,
                up >= 1,
                1 <= down <= 0x20_0000,
        ;
    }
}

/// The shifts and masks that take a bit pattern apart agree with the
/// arithmetic reading of its three fields.
proof fn lemma_fields(bits: u64)
    ensures
        (bits >> 63 == 1) == (bits >= 0x8000_0000_0000_0000),
        ((bits >> 52) & 0x7ff) as int == (bits as int / hidden_bit()) % 2048,
        (bits & 0xf_ffff_ffff_ffff) as int == bits as int % hidden_bit(),
        (bits & 0xf_ffff_ffff_ffff) < 0x10_0000_0000_0000,
{
    assert((bits >> 63 == 1) == (bits >= 0x8000_0000_0000_0000)) by (bit_vector);
    assert((bits >> 52) & 0x7ff == (bits / 0x10_0000_0000_0000) % 2048) by (bit_vector);
    assert(bits & 0xf_ffff_ffff_ffff == bits % 0x10_0000_0000_0000) by (bit_vector);
    assert((bits & 0xf_ffff_ffff_ffff) < 0x10_0000_0000_0000) by (bit_vector);
}

} // verus!
