//! Signed fixed-point sample types.
//!
//! Each type wraps a two's-complement integer holding `F` fractional bits:
//! `Q15` is the 1.15 format in an `i16`, `Q31` the 1.31 format in an `i32`,
//! and `Q7` the 1.7 format in an `i8`.  Every bit pattern is a valid value,
//! so construction from raw bits never fails and is lossless.  The
//! saturating operation family clamps to the extreme representable value on
//! overflow instead of wrapping.
//!
//! Contracts describe a value by its raw bit pattern as a mathematical
//! integer: a format with limit `lim` (`0x8000` for Q15) represents the
//! fraction `bits / lim` with `bits` in `[-lim, lim - 1]`.

use vstd::prelude::*;

verus! {

/// Clamps `x` to the range `[-lim, lim - 1]` representable with limit `lim`.
pub open spec fn saturate(lim: int, x: int) -> int {
    if x < -lim {
        -lim
    } else if x > lim - 1 {
        lim - 1
    } else {
        x
    }
}

/// Raw result of the saturating fixed-point product of `a` and `b`:
/// the full product rescaled by `lim` (rounding toward negative infinity),
/// then clamped to the representable range.
pub open spec fn sat_mul(lim: int, a: int, b: int) -> int {
    saturate(lim, (a * b) / lim)
}

/// Raw result of the saturating absolute value: `|-lim|` is clamped to
/// `lim - 1`, every other magnitude is exact.
pub open spec fn sat_abs(lim: int, x: int) -> int {
    saturate(lim, if x < 0 {
        -x
    } else {
        x
    })
}

/// Division by `d` rounding toward negative infinity, computed through
/// unsigned division so that the quotient matches the mathematical
/// (Euclidean) quotient for a positive divisor.
pub(crate) fn floor_div_i64(x: i64, d: u64) -> (r: i64)
    requires
        1 <= d <= 0x1_0000_0000,
        x > i64::MIN,
    ensures
        r as int == x as int / d as int,
        x >= 0 ==> 0 <= r <= x,
        x < 0 ==> x <= r <= 0,
{
    if x >= 0 {
        let q: u64 = (x as u64) / d;
        proof {
            vstd::arithmetic::div_mod::lemma_div_nonincreasing(x as int, d as int);
            vstd::arithmetic::div_mod::lemma_div_pos_is_pos(x as int, d as int);
        }
        q as i64
    } else {
        let m: u64 = (-x) as u64;
        let q: u64 = m / d;
        let rem: u64 = m % d;
        proof {
            assert(m == -(x as int));
            assert(q as int == m as int / d as int);
            vstd::arithmetic::div_mod::lemma_fundamental_div_mod(m as int, d as int);
            assert((q as int) * (d as int) == (d as int) * (q as int)) by (nonlinear_arith);
            assert(x as int == -((q as int) * (d as int) + rem as int));
            assert(q as int <= (q as int) * (d as int)) by (nonlinear_arith)
                requires
                    d as int >= 1,
                    q as int >= 0,
            ;
            if rem == 0 {
                assert(x as int == (d as int) * (-(q as int))) by (nonlinear_arith)
                    requires
                        x as int == -((q as int) * (d as int)),
                ;
                vstd::arithmetic::div_mod::lemma_div_multiples_vanish(-(q as int), d as int);
            } else {
                assert(x as int == (d as int) * (-(q as int) - 1) + (d as int
                    - rem as int)) by (nonlinear_arith)
                    requires
                        x as int == -((q as int) * (d as int) + rem as int),
                ;
                assert(0 <= (d as int - rem as int) && (d as int - rem as int) < d as int);
                vstd::arithmetic::div_mod::lemma_fundamental_div_mod_converse(
                    x as int,
                    d as int,
                    -(q as int) - 1,
                    d as int - rem as int,
                );
            }
            assert(q <= m) by {
                vstd::arithmetic::div_mod::lemma_div_nonincreasing(m as int, d as int);
            }
        }
        if rem == 0 {
            -(q as i64)
        } else {
            -(q as i64) - 1
        }
    }
}

/// A Q1.15 fixed-point value: 1 sign bit and 15 fractional bits in an `i16`.
#[derive(Clone, Copy, Debug, PartialEq, Eq, Structural)]
pub struct Q15 {
    bits: i16,
}

impl View for Q15 {
    type V = int;

    closed spec fn view(&self) -> int {
        self.bits as int
    }
}

impl Q15 {
    /// Reinterprets a raw bit pattern; every pattern is a valid value.
    pub fn from_bits(bits: i16) -> (r: Q15)
        ensures
            r@ == bits as int,
    {
        Q15 { bits }
    }

    /// Returns the raw bit pattern; the inverse of `from_bits`.
    pub fn to_bits(self) -> (r: i16)
        ensures
            r as int == self@,
    {
        self.bits
    }

    /// Addition clamping to the extreme representable value on overflow.
    pub fn saturating_add(self, rhs: Q15) -> (r: Q15)
        ensures
            r@ == saturate(0x8000, self@ + rhs@),
    {
        let s: i32 = self.bits as i32 + rhs.bits as i32;
        let c: i32 = if s < -0x8000 {
            -0x8000
        } else if s > 0x7fff {
            0x7fff
        } else {
            s
        };
        Q15 { bits: c as i16 }
    }

    /// Subtraction clamping to the extreme representable value on overflow.
    pub fn saturating_sub(self, rhs: Q15) -> (r: Q15)
        ensures
            r@ == saturate(0x8000, self@ - rhs@),
    {
        let s: i32 = self.bits as i32 - rhs.bits as i32;
        let c: i32 = if s < -0x8000 {
            -0x8000
        } else if s > 0x7fff {
            0x7fff
        } else {
            s
        };
        Q15 { bits: c as i16 }
    }

    /// Fractional multiplication: the exact product is rescaled (rounding
    /// toward negative infinity) and clamped; only `-1.0 * -1.0` saturates.
    pub fn saturating_mul(self, rhs: Q15) -> (r: Q15)
        ensures
            r@ == sat_mul(0x8000, self@, rhs@),
    {
        proof {
            assert(-0x4000_0000 <= (self.bits as int) * (rhs.bits as int) <= 0x4000_0000)
                by (nonlinear_arith)
                requires
                    -0x8000 <= self.bits as int <= 0x7fff,
                    -0x8000 <= rhs.bits as int <= 0x7fff,
            ;
        }
        let p: i64 = (self.bits as i64) * (rhs.bits as i64);
        let q: i64 = floor_div_i64(p, 0x8000);
        let c: i64 = if q < -0x8000 {
            -0x8000
        } else if q > 0x7fff {
            0x7fff
        } else {
            q
        };
        Q15 { bits: c as i16 }
    }

    /// Absolute value; `-1.0` clamps to the largest representable value.
    pub fn saturating_abs(self) -> (r: Q15)
        ensures
            r@ == sat_abs(0x8000, self@),
    {
        let s: i32 = self.bits as i32;
        let a: i32 = if s < 0 {
            -s
        } else {
            s
        };
        let c: i32 = if a > 0x7fff {
            0x7fff
        } else {
            a
        };
        Q15 { bits: c as i16 }
    }
}

/// A Q1.31 fixed-point value: 1 sign bit and 31 fractional bits in an `i32`.
#[derive(Clone, Copy, Debug, PartialEq, Eq, Structural)]
pub struct Q31 {
    bits: i32,
}

impl View for Q31 {
    type V = int;

    closed spec fn view(&self) -> int {
        self.bits as int
    }
}

impl Q31 {
    /// Reinterprets a raw bit pattern; every pattern is a valid value.
    pub fn from_bits(bits: i32) -> (r: Q31)
        ensures
            r@ == bits as int,
    {
        Q31 { bits }
    }

    /// Returns the raw bit pattern; the inverse of `from_bits`.
    pub fn to_bits(self) -> (r: i32)
        ensures
            r as int == self@,
    {
        self.bits
    }

    /// Addition clamping to the extreme representable value on overflow.
    pub fn saturating_add(self, rhs: Q31) -> (r: Q31)
        ensures
            r@ == saturate(0x8000_0000, self@ + rhs@),
    {
        let s: i64 = self.bits as i64 + rhs.bits as i64;
        let c: i64 = if s < -0x8000_0000 {
            -0x8000_0000
        } else if s > 0x7fff_ffff {
            0x7fff_ffff
        } else {
            s
        };
        Q31 { bits: c as i32 }
    }

    /// Subtraction clamping to the extreme representable value on overflow.
    pub fn saturating_sub(self, rhs: Q31) -> (r: Q31)
        ensures
            r@ == saturate(0x8000_0000, self@ - rhs@),
    {
        let s: i64 = self.bits as i64 - rhs.bits as i64;
        let c: i64 = if s < -0x8000_0000 {
            -0x8000_0000
        } else if s > 0x7fff_ffff {
            0x7fff_ffff
        } else {
            s
        };
        Q31 { bits: c as i32 }
    }

    /// Fractional multiplication: the exact product is rescaled (rounding
    /// toward negative infinity) and clamped; only `-1.0 * -1.0` saturates.
    pub fn saturating_mul(self, rhs: Q31) -> (r: Q31)
        ensures
            r@ == sat_mul(0x8000_0000, self@, rhs@),
    {
        proof {
            assert(-0x4000_0000_0000_0000 <= (self.bits as int) * (rhs.bits as int)
                <= 0x4000_0000_0000_0000) by (nonlinear_arith)
                requires
                    -0x8000_0000 <= self.bits as int <= 0x7fff_ffff,
                    -0x8000_0000 <= rhs.bits as int <= 0x7fff_ffff,
            ;
        }
        let p: i64 = (self.bits as i64) * (rhs.bits as i64);
        let q: i64 = floor_div_i64(p, 0x8000_0000);
        let c: i64 = if q < -0x8000_0000 {
            -0x8000_0000
        } else if q > 0x7fff_ffff {
            0x7fff_ffff
        } else {
            q
        };
        Q31 { bits: c as i32 }
    }

    /// Absolute value; `-1.0` clamps to the largest representable value.
    pub fn saturating_abs(self) -> (r: Q31)
        ensures
            r@ == sat_abs(0x8000_0000, self@),
    {
        let s: i64 = self.bits as i64;
        let a: i64 = if s < 0 {
            -s
        } else {
            s
        };
        let c: i64 = if a > 0x7fff_ffff {
            0x7fff_ffff
        } else {
            a
        };
        Q31 { bits: c as i32 }
    }
}

/// A Q1.7 fixed-point value: 1 sign bit and 7 fractional bits in an `i8`.
#[derive(Clone, Copy, Debug, PartialEq, Eq, Structural)]
pub struct Q7 {
    bits: i8,
}

impl View for Q7 {
    type V = int;

    closed spec fn view(&self) -> int {
        self.bits as int
    }
}

impl Q7 {
    /// Reinterprets a raw bit pattern; every pattern is a valid value.
    pub fn from_bits(bits: i8) -> (r: Q7)
        ensures
            r@ == bits as int,
    {
        Q7 { bits }
    }

    /// Returns the raw bit pattern; the inverse of `from_bits`.
    pub fn to_bits(self) -> (r: i8)
        ensures
            r as int == self@,
    {
        self.bits
    }

    /// Addition clamping to the extreme representable value on overflow.
    pub fn saturating_add(self, rhs: Q7) -> (r: Q7)
        ensures
            r@ == saturate(0x80, self@ + rhs@),
    {
        let s: i32 = self.bits as i32 + rhs.bits as i32;
        let c: i32 = if s < -0x80 {
            -0x80
        } else if s > 0x7f {
            0x7f
        } else {
            s
        };
        Q7 { bits: c as i8 }
    }

    /// Fractional multiplication: the exact product is rescaled (rounding
    /// toward negative infinity) and clamped; only `-1.0 * -1.0` saturates.
    pub fn saturating_mul(self, rhs: Q7) -> (r: Q7)
        ensures
            r@ == sat_mul(0x80, self@, rhs@),
    {
        proof {
            assert(-0x4000 <= (self.bits as int) * (rhs.bits as int) <= 0x4000)
                by (nonlinear_arith)
                requires
                    -0x80 <= self.bits as int <= 0x7f,
                    -0x80 <= rhs.bits as int <= 0x7f,
            ;
        }
        let p: i64 = (self.bits as i64) * (rhs.bits as i64);
        let q: i64 = floor_div_i64(p, 0x80);
        let c: i64 = if q < -0x80 {
            -0x80
        } else if q > 0x7f {
            0x7f
        } else {
            q
        };
        Q7 { bits: c as i8 }
    }

    /// Absolute value; `-1.0` clamps to the largest representable value.
    pub fn saturating_abs(self) -> (r: Q7)
        ensures
            r@ == sat_abs(0x80, self@),
    {
        let s: i32 = self.bits as i32;
        let a: i32 = if s < 0 {
            -s
        } else {
            s
        };
        let c: i32 = if a > 0x7f {
            0x7f
        } else {
            a
        };
        Q7 { bits: c as i8 }
    }
}

/// A 16.48 fixed-point accumulator in an `i64`, wide enough to hold a
/// Q1.31 dot product without rescaling losses.
#[derive(Clone, Copy, Debug, PartialEq, Eq, Structural)]
pub struct I16F48 {
    bits: i64,
}

impl View for I16F48 {
    type V = int;

    closed spec fn view(&self) -> int {
        self.bits as int
    }
}

impl I16F48 {
    /// Reinterprets a raw bit pattern; every pattern is a valid value.
    pub fn from_bits(bits: i64) -> (r: I16F48)
        ensures
            r@ == bits as int,
    {
        I16F48 { bits }
    }

    /// Returns the raw bit pattern; the inverse of `from_bits`.
    pub fn to_bits(self) -> (r: i64)
        ensures
            r as int == self@,
    {
        self.bits
    }
}

/// A 34.30 fixed-point accumulator in an `i64`, wide enough to hold a
/// Q1.15 dot product of any practical length without overflow.
#[derive(Clone, Copy, Debug, PartialEq, Eq, Structural)]
pub struct I34F30 {
    bits: i64,
}

impl View for I34F30 {
    type V = int;

    closed spec fn view(&self) -> int {
        self.bits as int
    }
}

impl I34F30 {
    /// Reinterprets a raw bit pattern; every pattern is a valid value.
    pub fn from_bits(bits: i64) -> (r: I34F30)
        ensures
            r@ == bits as int,
    {
        I34F30 { bits }
    }

    /// Returns the raw bit pattern; the inverse of `from_bits`.
    pub fn to_bits(self) -> (r: i64)
        ensures
            r as int == self@,
    {
        self.bits
    }
}

/// An 18.14 fixed-point accumulator in an `i32`, holding a Q1.7 dot
/// product.
#[derive(Clone, Copy, Debug, PartialEq, Eq, Structural)]
pub struct I18F14 {
    bits: i32,
}

impl View for I18F14 {
    type V = int;

    closed spec fn view(&self) -> int {
        self.bits as int
    }
}

impl I18F14 {
    /// Reinterprets a raw bit pattern; every pattern is a valid value.
    pub fn from_bits(bits: i32) -> (r: I18F14)
        ensures
            r@ == bits as int,
    {
        I18F14 { bits }
    }

    /// Returns the raw bit pattern; the inverse of `from_bits`.
    pub fn to_bits(self) -> (r: i32)
        ensures
            r as int == self@,
    {
        self.bits
    }
}

/// Saturation law for addition in a format with limit `lim` (so for Q1.15
/// with `lim == 0x8000` and Q1.31 with `lim == 0x8000_0000`, the results
/// of `saturating_add`): whenever the exact sum of two representable
/// values leaves the representable range, the saturating sum is the
/// extreme representable value with the matching sign, and it never
/// wraps; sums in range are returned exactly.
pub proof fn lemma_add_saturates(lim: int, a: int, b: int)
    requires
        lim >= 1,
        -lim <= a <= lim - 1,
        -lim <= b <= lim - 1,
    ensures
        a + b > lim - 1 ==> saturate(lim, a + b) == lim - 1,
        a + b < -lim ==> saturate(lim, a + b) == -lim,
        -lim <= a + b <= lim - 1 ==> saturate(lim, a + b) == a + b,
{
}

/// Saturation law for multiplication in a format with limit `lim` (the
/// results of `saturating_mul` on Q1.15 and Q1.31): whenever the exact
/// rescaled product of two representable values leaves the representable
/// range, the result is the extreme representable value with the matching
/// sign, never a wrapped value; products in range are returned exactly.
/// Only `-1.0 * -1.0` can overflow, so only the positive extreme occurs.
pub proof fn lemma_mul_saturates(lim: int, a: int, b: int)
    requires
        lim >= 1,
        -lim <= a <= lim - 1,
        -lim <= b <= lim - 1,
    ensures
        (a * b) / lim > lim - 1 ==> sat_mul(lim, a, b) == lim - 1,
        (a * b) / lim < -lim ==> sat_mul(lim, a, b) == -lim,
        -lim <= (a * b) / lim <= lim - 1 ==> sat_mul(lim, a, b) == (a * b) / lim,
        (a * b) / lim < -lim ==> false,
{
    assert((a * b) / lim >= -lim) by (nonlinear_arith)
        requires
            lim >= 1,
            -lim <= a <= lim - 1,
            -lim <= b <= lim - 1,
    ;
}

/// Every Q1.15 value is within the representable range of its format.
pub proof fn lemma_q15_view_range(q: Q15)
    ensures
        -0x8000 <= q@ <= 0x7fff,
{
}

/// Every Q1.31 value is within the representable range of its format.
pub proof fn lemma_q31_view_range(q: Q31)
    ensures
        -0x8000_0000 <= q@ <= 0x7fff_ffff,
{
}

/// Every Q1.7 value is within the representable range of its format.
pub proof fn lemma_q7_view_range(q: Q7)
    ensures
        -0x80 <= q@ <= 0x7f,
{
}

} // verus!
