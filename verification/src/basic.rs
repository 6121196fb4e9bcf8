//! Basic elementwise vector operations on fixed-point samples.
//!
//! Each operation validates the shared length contract before touching
//! memory, then runs a single pass with no cross-index dependency, so a
//! caller may alias source and destination storage freely at the level
//! of whole buffers.

use vstd::prelude::*;

use crate::check_length;
use crate::fixedpoint::sat_abs;
use crate::fixedpoint::sat_mul;
use crate::fixedpoint::saturate;
use crate::fixedpoint::floor_div_i64;
use crate::fixedpoint::Q15;
use crate::fixedpoint::Q31;
use crate::fixedpoint::Q7;
use crate::fixedpoint::I16F48;
use crate::fixedpoint::I18F14;
use crate::fixedpoint::I34F30;
use crate::transform::q15_bits_view;
use crate::transform::q31_bits_view;

verus! {

/// The integer view of a buffer of Q1.7 scalar samples.
pub open spec fn q7_bits_view(s: Seq<Q7>) -> Seq<int> {
    Seq::new(s.len(), |i: int| s[i]@)
}

/// The exact dot product of the first `k` sample pairs: the sum of the
/// raw products, which a wide accumulator holds without rescaling.
pub open spec fn dot_sum(a: Seq<int>, b: Seq<int>, k: int) -> int
    decreases k,
{
    if k <= 0 {
        0
    } else {
        dot_sum(a, b, k - 1) + a[k - 1] * b[k - 1]
    }
}

/// Reduction of an exact integer into the two's-complement range of a
/// 64-bit accumulator, one period at most.
pub open spec fn wrap_i64(x: int) -> int {
    if x > i64::MAX {
        x - 0x1_0000_0000_0000_0000
    } else if x < i64::MIN {
        x + 0x1_0000_0000_0000_0000
    } else {
        x
    }
}

/// Reduction of an exact integer into the two's-complement range of a
/// 32-bit accumulator, one period at most.
pub open spec fn wrap_i32(x: int) -> int {
    if x > i32::MAX {
        x - 0x1_0000_0000
    } else if x < i32::MIN {
        x + 0x1_0000_0000
    } else {
        x
    }
}

/// The Q1.31 dot product accumulated in 16.48 format: each raw product
/// is rescaled by 14 bits, and the 64-bit accumulation wraps if a very
/// long vector overflows it.
pub open spec fn dot_q31_sum(a: Seq<int>, b: Seq<int>, k: int) -> int
    decreases k,
{
    if k <= 0 {
        0
    } else {
        wrap_i64(dot_q31_sum(a, b, k - 1) + (a[k - 1] * b[k - 1]) / 0x4000)
    }
}

/// The Q1.7 dot product accumulated in 18.14 format: raw products are
/// accumulated unscaled, and the 32-bit accumulation wraps if a very
/// long vector overflows it.
pub open spec fn dot_q7_sum(a: Seq<int>, b: Seq<int>, k: int) -> int
    decreases k,
{
    if k <= 0 {
        0
    } else {
        wrap_i32(dot_q7_sum(a, b, k - 1) + a[k - 1] * b[k - 1])
    }
}

/// Calculates the absolute value of multiple values.
///
/// This is functionally equivalent to performing `dst[i] = abs(src[i])`
/// for all values of i in range; `-1.0` clamps to the largest
/// representable value.
pub fn abs_q15(src: &Vec<Q15>, dst: &mut Vec<Q15>)
    requires
        old(dst)@.len() == src@.len(),
        src@.len() <= u32::MAX,
    ensures
        final(dst)@.len() == src@.len(),
        forall|i: int|
            0 <= i < src@.len() ==> (#[trigger] final(dst)@[i])@ == sat_abs(0x8000, src@[i]@),
{
    let _length: u32 = check_length((src.len(), dst.len()));
    let n: usize = src.len();
    let mut i: usize = 0;
    while i < n
        invariant
            n == src@.len(),
            dst@.len() == n,
            i <= n,
            forall|k: int| 0 <= k < i ==> (#[trigger] dst@[k])@ == sat_abs(0x8000, src@[k]@),
        decreases n - i,
    {
        let v: Q15 = src[i];
        dst.set(i, v.saturating_abs());
        i = i + 1;
    }
}

/// Calculates the absolute value of multiple values.
///
/// This is functionally equivalent to performing `dst[i] = abs(src[i])`
/// for all values of i in range; `-1.0` clamps to the largest
/// representable value.
pub fn abs_q31(src: &Vec<Q31>, dst: &mut Vec<Q31>)
    requires
        old(dst)@.len() == src@.len(),
        src@.len() <= u32::MAX,
    ensures
        final(dst)@.len() == src@.len(),
        forall|i: int|
            0 <= i < src@.len() ==> (#[trigger] final(dst)@[i])@ == sat_abs(0x8000_0000, src@[i]@),
{
    let _length: u32 = check_length((src.len(), dst.len()));
    let n: usize = src.len();
    let mut i: usize = 0;
    while i < n
        invariant
            n == src@.len(),
            dst@.len() == n,
            i <= n,
            forall|k: int| 0 <= k < i ==> (#[trigger] dst@[k])@ == sat_abs(0x8000_0000, src@[k]@),
        decreases n - i,
    {
        let v: Q31 = src[i];
        dst.set(i, v.saturating_abs());
        i = i + 1;
    }
}

/// Calculates the absolute value of multiple values.
///
/// This is functionally equivalent to performing `dst[i] = abs(src[i])`
/// for all values of i in range; `-1.0` clamps to the largest
/// representable value.
pub fn abs_q7(src: &Vec<Q7>, dst: &mut Vec<Q7>)
    requires
        old(dst)@.len() == src@.len(),
        src@.len() <= u32::MAX,
    ensures
        final(dst)@.len() == src@.len(),
        forall|i: int|
            0 <= i < src@.len() ==> (#[trigger] final(dst)@[i])@ == sat_abs(0x80, src@[i]@),
{
    let _length: u32 = check_length((src.len(), dst.len()));
    let n: usize = src.len();
    let mut i: usize = 0;
    while i < n
        invariant
            n == src@.len(),
            dst@.len() == n,
            i <= n,
            forall|k: int| 0 <= k < i ==> (#[trigger] dst@[k])@ == sat_abs(0x80, src@[k]@),
        decreases n - i,
    {
        let v: Q7 = src[i];
        dst.set(i, v.saturating_abs());
        i = i + 1;
    }
}

/// Calculates the absolute value of multiple values in place.
///
/// This is functionally equivalent to performing
/// `values[i] = abs(values[i])` for all values of i in range.
pub fn abs_in_place_q15(values: &mut Vec<Q15>)
    requires
        old(values)@.len() <= u32::MAX,
    ensures
        final(values)@.len() == old(values)@.len(),
        forall|i: int|
            0 <= i < old(values)@.len() ==> (#[trigger] final(values)@[i])@ == sat_abs(
                0x8000,
                old(values)@[i]@,
            ),
{
    let _length: u32 = check_length(values.len());
    let n: usize = values.len();
    let mut i: usize = 0;
    while i < n
        invariant
            values@.len() == n,
            n == old(values)@.len(),
            i <= n,
            forall|k: int| i <= k < n ==> #[trigger] values@[k] == old(values)@[k],
            forall|k: int|
                0 <= k < i ==> (#[trigger] values@[k])@ == sat_abs(0x8000, old(values)@[k]@),
        decreases n - i,
    {
        let v: Q15 = values[i];
        values.set(i, v.saturating_abs());
        i = i + 1;
    }
}

/// Calculates the absolute value of multiple values in place.
///
/// This is functionally equivalent to performing
/// `values[i] = abs(values[i])` for all values of i in range.
pub fn abs_in_place_q31(values: &mut Vec<Q31>)
    requires
        old(values)@.len() <= u32::MAX,
    ensures
        final(values)@.len() == old(values)@.len(),
        forall|i: int|
            0 <= i < old(values)@.len() ==> (#[trigger] final(values)@[i])@ == sat_abs(
                0x8000_0000,
                old(values)@[i]@,
            ),
{
    let _length: u32 = check_length(values.len());
    let n: usize = values.len();
    let mut i: usize = 0;
    while i < n
        invariant
            values@.len() == n,
            n == old(values)@.len(),
            i <= n,
            forall|k: int| i <= k < n ==> #[trigger] values@[k] == old(values)@[k],
            forall|k: int|
                0 <= k < i ==> (#[trigger] values@[k])@ == sat_abs(0x8000_0000, old(values)@[k]@),
        decreases n - i,
    {
        let v: Q31 = values[i];
        values.set(i, v.saturating_abs());
        i = i + 1;
    }
}

/// Calculates the absolute value of multiple values in place.
///
/// This is functionally equivalent to performing
/// `values[i] = abs(values[i])` for all values of i in range.
pub fn abs_in_place_q7(values: &mut Vec<Q7>)
    requires
        old(values)@.len() <= u32::MAX,
    ensures
        final(values)@.len() == old(values)@.len(),
        forall|i: int|
            0 <= i < old(values)@.len() ==> (#[trigger] final(values)@[i])@ == sat_abs(
                0x80,
                old(values)@[i]@,
            ),
{
    let _length: u32 = check_length(values.len());
    let n: usize = values.len();
    let mut i: usize = 0;
    while i < n
        invariant
            values@.len() == n,
            n == old(values)@.len(),
            i <= n,
            forall|k: int| i <= k < n ==> #[trigger] values@[k] == old(values)@[k],
            forall|k: int|
                0 <= k < i ==> (#[trigger] values@[k])@ == sat_abs(0x80, old(values)@[k]@),
        decreases n - i,
    {
        let v: Q7 = values[i];
        values.set(i, v.saturating_abs());
        i = i + 1;
    }
}

/// Adds multiple values.
///
/// This is functionally equivalent to performing
/// `dst[i] = src1[i] + src2[i]` for all values of i in range, clamping
/// each sum to the representable range.
pub fn add_q15(src1: &Vec<Q15>, src2: &Vec<Q15>, dst: &mut Vec<Q15>)
    requires
        src1@.len() == src2@.len(),
        old(dst)@.len() == src1@.len(),
        src1@.len() <= u32::MAX,
    ensures
        final(dst)@.len() == src1@.len(),
        forall|i: int|
            0 <= i < src1@.len() ==> (#[trigger] final(dst)@[i])@ == saturate(
                0x8000,
                src1@[i]@ + src2@[i]@,
            ),
{
    let _length: u32 = check_length((src1.len(), src2.len(), dst.len()));
    let n: usize = src1.len();
    let mut i: usize = 0;
    while i < n
        invariant
            n == src1@.len(),
            src2@.len() == n,
            dst@.len() == n,
            i <= n,
            forall|k: int|
                0 <= k < i ==> (#[trigger] dst@[k])@ == saturate(0x8000, src1@[k]@ + src2@[k]@),
        decreases n - i,
    {
        let a: Q15 = src1[i];
        let b: Q15 = src2[i];
        dst.set(i, a.saturating_add(b));
        i = i + 1;
    }
}

/// Adds multiple values.
///
/// This is functionally equivalent to performing
/// `dst[i] = src1[i] + src2[i]` for all values of i in range, clamping
/// each sum to the representable range.
pub fn add_q31(src1: &Vec<Q31>, src2: &Vec<Q31>, dst: &mut Vec<Q31>)
    requires
        src1@.len() == src2@.len(),
        old(dst)@.len() == src1@.len(),
        src1@.len() <= u32::MAX,
    ensures
        final(dst)@.len() == src1@.len(),
        forall|i: int|
            0 <= i < src1@.len() ==> (#[trigger] final(dst)@[i])@ == saturate(
                0x8000_0000,
                src1@[i]@ + src2@[i]@,
            ),
{
    let _length: u32 = check_length((src1.len(), src2.len(), dst.len()));
    let n: usize = src1.len();
    let mut i: usize = 0;
    while i < n
        invariant
            n == src1@.len(),
            src2@.len() == n,
            dst@.len() == n,
            i <= n,
            forall|k: int|
                0 <= k < i ==> (#[trigger] dst@[k])@ == saturate(
                    0x8000_0000,
                    src1@[k]@ + src2@[k]@,
                ),
        decreases n - i,
    {
        let a: Q31 = src1[i];
        let b: Q31 = src2[i];
        dst.set(i, a.saturating_add(b));
        i = i + 1;
    }
}

/// Adds multiple values.
///
/// This is functionally equivalent to performing
/// `dst[i] = src1[i] + src2[i]` for all values of i in range, clamping
/// each sum to the representable range.
pub fn add_q7(src1: &Vec<Q7>, src2: &Vec<Q7>, dst: &mut Vec<Q7>)
    requires
        src1@.len() == src2@.len(),
        old(dst)@.len() == src1@.len(),
        src1@.len() <= u32::MAX,
    ensures
        final(dst)@.len() == src1@.len(),
        forall|i: int|
            0 <= i < src1@.len() ==> (#[trigger] final(dst)@[i])@ == saturate(
                0x80,
                src1@[i]@ + src2@[i]@,
            ),
{
    let _length: u32 = check_length((src1.len(), src2.len(), dst.len()));
    let n: usize = src1.len();
    let mut i: usize = 0;
    while i < n
        invariant
            n == src1@.len(),
            src2@.len() == n,
            dst@.len() == n,
            i <= n,
            forall|k: int|
                0 <= k < i ==> (#[trigger] dst@[k])@ == saturate(0x80, src1@[k]@ + src2@[k]@),
        decreases n - i,
    {
        let a: Q7 = src1[i];
        let b: Q7 = src2[i];
        dst.set(i, a.saturating_add(b));
        i = i + 1;
    }
}

/// Multiplies multiple values.
///
/// This is similar to performing `dst[i] = src1[i] * src2[i]` for all
/// values of i in range.  This function saturates on overflow.
pub fn multiply_q15(src1: &Vec<Q15>, src2: &Vec<Q15>, dst: &mut Vec<Q15>)
    requires
        src1@.len() == src2@.len(),
        old(dst)@.len() == src1@.len(),
        src1@.len() <= u32::MAX,
    ensures
        final(dst)@.len() == src1@.len(),
        forall|i: int|
            0 <= i < src1@.len() ==> (#[trigger] final(dst)@[i])@ == sat_mul(
                0x8000,
                src1@[i]@,
                src2@[i]@,
            ),
{
    let _length: u32 = check_length((src1.len(), src2.len(), dst.len()));
    let n: usize = src1.len();
    let mut i: usize = 0;
    while i < n
        invariant
            n == src1@.len(),
            src2@.len() == n,
            dst@.len() == n,
            i <= n,
            forall|k: int|
                0 <= k < i ==> (#[trigger] dst@[k])@ == sat_mul(0x8000, src1@[k]@, src2@[k]@),
        decreases n - i,
    {
        let a: Q15 = src1[i];
        let b: Q15 = src2[i];
        dst.set(i, a.saturating_mul(b));
        i = i + 1;
    }
}

/// Multiplies multiple values.
///
/// This is similar to performing `dst[i] = src1[i] * src2[i]` for all
/// values of i in range.  This function saturates on overflow.
pub fn multiply_q31(src1: &Vec<Q31>, src2: &Vec<Q31>, dst: &mut Vec<Q31>)
    requires
        src1@.len() == src2@.len(),
        old(dst)@.len() == src1@.len(),
        src1@.len() <= u32::MAX,
    ensures
        final(dst)@.len() == src1@.len(),
        forall|i: int|
            0 <= i < src1@.len() ==> (#[trigger] final(dst)@[i])@ == sat_mul(
                0x8000_0000,
                src1@[i]@,
                src2@[i]@,
            ),
{
    let _length: u32 = check_length((src1.len(), src2.len(), dst.len()));
    let n: usize = src1.len();
    let mut i: usize = 0;
    while i < n
        invariant
            n == src1@.len(),
            src2@.len() == n,
            dst@.len() == n,
            i <= n,
            forall|k: int|
                0 <= k < i ==> (#[trigger] dst@[k])@ == sat_mul(0x8000_0000, src1@[k]@, src2@[k]@),
        decreases n - i,
    {
        let a: Q31 = src1[i];
        let b: Q31 = src2[i];
        dst.set(i, a.saturating_mul(b));
        i = i + 1;
    }
}

/// Multiplies multiple values.
///
/// This is similar to performing `dst[i] = src1[i] * src2[i]` for all
/// values of i in range.  This function saturates on overflow.
pub fn multiply_q7(src1: &Vec<Q7>, src2: &Vec<Q7>, dst: &mut Vec<Q7>)
    requires
        src1@.len() == src2@.len(),
        old(dst)@.len() == src1@.len(),
        src1@.len() <= u32::MAX,
    ensures
        final(dst)@.len() == src1@.len(),
        forall|i: int|
            0 <= i < src1@.len() ==> (#[trigger] final(dst)@[i])@ == sat_mul(
                0x80,
                src1@[i]@,
                src2@[i]@,
            ),
{
    let _length: u32 = check_length((src1.len(), src2.len(), dst.len()));
    let n: usize = src1.len();
    let mut i: usize = 0;
    while i < n
        invariant
            n == src1@.len(),
            src2@.len() == n,
            dst@.len() == n,
            i <= n,
            forall|k: int|
                0 <= k < i ==> (#[trigger] dst@[k])@ == sat_mul(0x80, src1@[k]@, src2@[k]@),
        decreases n - i,
    {
        let a: Q7 = src1[i];
        let b: Q7 = src2[i];
        dst.set(i, a.saturating_mul(b));
        i = i + 1;
    }
}

/// Calculates the dot product of two vectors.
///
/// The returned value is the exact sum of `src1[i] * src2[i]` over all
/// values of i in range, in 34.30 format: the accumulator is wide
/// enough that no practical length can overflow it.
pub fn dot_product_q15(src1: &Vec<Q15>, src2: &Vec<Q15>) -> (r: I34F30)
    requires
        src1@.len() == src2@.len(),
        src1@.len() <= u32::MAX,
    ensures
        r@ == dot_sum(q15_bits_view(src1@), q15_bits_view(src2@), src1@.len() as int),
{
    let _length: u32 = check_length((src1.len(), src2.len()));
    let n: usize = src1.len();
    let ghost a = q15_bits_view(src1@);
    let ghost b = q15_bits_view(src2@);
    let mut acc: i64 = 0;
    let mut i: usize = 0;
    while i < n
        invariant
            n == src1@.len(),
            src2@.len() == n,
            n <= u32::MAX,
            a == q15_bits_view(src1@),
            b == q15_bits_view(src2@),
            i <= n,
            acc as int == dot_sum(a, b, i as int),
            -0x4000_0000 * (i as int) <= acc as int <= 0x4000_0000 * (i as int),
        decreases n - i,
    {
        let x: Q15 = src1[i];
        let y: Q15 = src2[i];
        proof {
            assert(a[i as int] == src1@[i as int]@ && b[i as int] == src2@[i as int]@);
            crate::fixedpoint::lemma_q15_view_range(x);
            crate::fixedpoint::lemma_q15_view_range(y);
            assert(-0x4000_0000 <= x@ * y@ <= 0x4000_0000) by (nonlinear_arith)
                requires
                    -0x8000 <= x@ <= 0x7fff,
                    -0x8000 <= y@ <= 0x7fff,
            ;
            assert(0x4000_0000 * (i as int) + 0x4000_0000 == 0x4000_0000 * (i as int + 1))
                by (nonlinear_arith);
            assert(-0x4000_0000 * (i as int) - 0x4000_0000 == -0x4000_0000 * (i as int + 1))
                by (nonlinear_arith);
            assert(0x4000_0000 * (i as int + 1) <= 0x4000_0000 * 0x1_0000_0000)
                by (nonlinear_arith)
                requires
                    i as int + 1 <= 0x1_0000_0000,
            ;
            assert(-0x4000_0000 * (i as int + 1) >= -0x4000_0000 * 0x1_0000_0000)
                by (nonlinear_arith)
                requires
                    i as int + 1 <= 0x1_0000_0000,
            ;
        }
        let p: i64 = (x.to_bits() as i64) * (y.to_bits() as i64);
        acc = acc + p;
        i = i + 1;
    }
    I34F30::from_bits(acc)
}

/// Calculates the dot product of two vectors.
///
/// The returned value is the sum of `src1[i] * src2[i]` over all values
/// of i in range, in 16.48 format: each raw product is rescaled by 14
/// bits before the 64-bit accumulation, which wraps if a very long
/// vector overflows it.
pub fn dot_product_q31(src1: &Vec<Q31>, src2: &Vec<Q31>) -> (r: I16F48)
    requires
        src1@.len() == src2@.len(),
        src1@.len() <= u32::MAX,
    ensures
        r@ == dot_q31_sum(q31_bits_view(src1@), q31_bits_view(src2@), src1@.len() as int),
{
    let _length: u32 = check_length((src1.len(), src2.len()));
    let n: usize = src1.len();
    let ghost a = q31_bits_view(src1@);
    let ghost b = q31_bits_view(src2@);
    let mut acc: i64 = 0;
    let mut i: usize = 0;
    while i < n
        invariant
            n == src1@.len(),
            src2@.len() == n,
            a == q31_bits_view(src1@),
            b == q31_bits_view(src2@),
            i <= n,
            acc as int == dot_q31_sum(a, b, i as int),
        decreases n - i,
    {
        let x: Q31 = src1[i];
        let y: Q31 = src2[i];
        proof {
            assert(a[i as int] == src1@[i as int]@ && b[i as int] == src2@[i as int]@);
            crate::fixedpoint::lemma_q31_view_range(x);
            crate::fixedpoint::lemma_q31_view_range(y);
            assert(-0x4000_0000_0000_0000 <= x@ * y@ <= 0x4000_0000_0000_0000)
                by (nonlinear_arith)
                requires
                    -0x8000_0000 <= x@ <= 0x7fff_ffff,
                    -0x8000_0000 <= y@ <= 0x7fff_ffff,
            ;
        }
        let p: i64 = (x.to_bits() as i64) * (y.to_bits() as i64);
        let term: i64 = floor_div_i64(p, 0x4000);
        acc = acc.wrapping_add(term);
        i = i + 1;
    }
    I16F48::from_bits(acc)
}

/// Calculates the dot product of two vectors.
///
/// The returned value is the sum of `src1[i] * src2[i]` over all values
/// of i in range, in 18.14 format: raw products are accumulated
/// unscaled, and the 32-bit accumulation wraps if a very long vector
/// overflows it.
pub fn dot_product_q7(src1: &Vec<Q7>, src2: &Vec<Q7>) -> (r: I18F14)
    requires
        src1@.len() == src2@.len(),
        src1@.len() <= u32::MAX,
    ensures
        r@ == dot_q7_sum(q7_bits_view(src1@), q7_bits_view(src2@), src1@.len() as int),
{
    let _length: u32 = check_length((src1.len(), src2.len()));
    let n: usize = src1.len();
    let ghost a = q7_bits_view(src1@);
    let ghost b = q7_bits_view(src2@);
    let mut acc: i32 = 0;
    let mut i: usize = 0;
    while i < n
        invariant
            n == src1@.len(),
            src2@.len() == n,
            a == q7_bits_view(src1@),
            b == q7_bits_view(src2@),
            i <= n,
            acc as int == dot_q7_sum(a, b, i as int),
        decreases n - i,
    {
        let x: Q7 = src1[i];
        let y: Q7 = src2[i];
        proof {
            assert(a[i as int] == src1@[i as int]@ && b[i as int] == src2@[i as int]@);
            crate::fixedpoint::lemma_q7_view_range(x);
            crate::fixedpoint::lemma_q7_view_range(y);
            assert(-0x4000 <= x@ * y@ <= 0x4000) by (nonlinear_arith)
                requires
                    -0x80 <= x@ <= 0x7f,
                    -0x80 <= y@ <= 0x7f,
            ;
        }
        let p: i32 = (x.to_bits() as i32) * (y.to_bits() as i32);
        acc = acc.wrapping_add(p);
        i = i + 1;
    }
    I18F14::from_bits(acc)
}

} // verus!
