//! Checks of the elementwise vector operations and dot products.

use cmsis_dsp::basic::abs_in_place_q15;
use cmsis_dsp::basic::abs_q15;
use cmsis_dsp::basic::abs_q31;
use cmsis_dsp::basic::abs_q7;
use cmsis_dsp::basic::add_q15;
use cmsis_dsp::basic::add_q31;
use cmsis_dsp::basic::add_q7;
use cmsis_dsp::basic::dot_product_q15;
use cmsis_dsp::basic::dot_product_q31;
use cmsis_dsp::basic::dot_product_q7;
use cmsis_dsp::basic::multiply_q15;
use cmsis_dsp::basic::multiply_q31;
use cmsis_dsp::basic::multiply_q7;
use cmsis_dsp::check_length;
use cmsis_dsp::fixedpoint::Q15;
use cmsis_dsp::fixedpoint::Q31;
use cmsis_dsp::fixedpoint::Q7;

fn q15_vec(bits: &[i16]) -> Vec<Q15> {
    bits.iter().map(|&b| Q15::from_bits(b)).collect()
}

fn q31_vec(bits: &[i32]) -> Vec<Q31> {
    bits.iter().map(|&b| Q31::from_bits(b)).collect()
}

fn q7_vec(bits: &[i8]) -> Vec<Q7> {
    bits.iter().map(|&b| Q7::from_bits(b)).collect()
}

#[test]
fn abs_q15_elementwise() {
    let src = q15_vec(&[-32768, -100, 0, 50, 32767]);
    let mut dst = q15_vec(&[0; 5]);
    abs_q15(&src, &mut dst);
    let out: Vec<i16> = dst.iter().map(|q| q.to_bits()).collect();
    assert_eq!(out, vec![32767, 100, 0, 50, 32767]);
}

#[test]
fn abs_in_place_q15_elementwise() {
    let mut values = q15_vec(&[-32768, -7, 9]);
    abs_in_place_q15(&mut values);
    let out: Vec<i16> = values.iter().map(|q| q.to_bits()).collect();
    assert_eq!(out, vec![32767, 7, 9]);
}

#[test]
fn abs_q31_elementwise() {
    let src = q31_vec(&[i32::MIN, -100, 0, 50]);
    let mut dst = q31_vec(&[0; 4]);
    abs_q31(&src, &mut dst);
    let out: Vec<i32> = dst.iter().map(|q| q.to_bits()).collect();
    assert_eq!(out, vec![i32::MAX, 100, 0, 50]);
}

#[test]
fn abs_q7_elementwise() {
    let src = q7_vec(&[-128, -3, 4]);
    let mut dst = q7_vec(&[0; 3]);
    abs_q7(&src, &mut dst);
    let out: Vec<i8> = dst.iter().map(|q| q.to_bits()).collect();
    assert_eq!(out, vec![127, 3, 4]);
}

#[test]
fn add_q15_saturates_elementwise() {
    let a = q15_vec(&[30000, -30000, 100]);
    let b = q15_vec(&[5000, -5000, 200]);
    let mut dst = q15_vec(&[0; 3]);
    add_q15(&a, &b, &mut dst);
    let out: Vec<i16> = dst.iter().map(|q| q.to_bits()).collect();
    assert_eq!(out, vec![32767, -32768, 300]);
}

#[test]
fn add_q31_saturates_elementwise() {
    let a = q31_vec(&[2_000_000_000, -2_000_000_000, 1]);
    let b = q31_vec(&[2_000_000_000, -2_000_000_000, 2]);
    let mut dst = q31_vec(&[0; 3]);
    add_q31(&a, &b, &mut dst);
    let out: Vec<i32> = dst.iter().map(|q| q.to_bits()).collect();
    assert_eq!(out, vec![i32::MAX, i32::MIN, 3]);
}

#[test]
fn add_q7_saturates_elementwise() {
    let a = q7_vec(&[100, -100, 1]);
    let b = q7_vec(&[100, -100, 2]);
    let mut dst = q7_vec(&[0; 3]);
    add_q7(&a, &b, &mut dst);
    let out: Vec<i8> = dst.iter().map(|q| q.to_bits()).collect();
    assert_eq!(out, vec![127, -128, 3]);
}

#[test]
fn multiply_q15_elementwise() {
    let a = q15_vec(&[-32768, 16384, 16384]);
    let b = q15_vec(&[-32768, -16384, 16384]);
    let mut dst = q15_vec(&[0; 3]);
    multiply_q15(&a, &b, &mut dst);
    let out: Vec<i16> = dst.iter().map(|q| q.to_bits()).collect();
    assert_eq!(out, vec![32767, -8192, 8192]);
}

#[test]
fn multiply_q31_elementwise() {
    let a = q31_vec(&[i32::MIN, 0x4000_0000]);
    let b = q31_vec(&[i32::MIN, 0x4000_0000]);
    let mut dst = q31_vec(&[0; 2]);
    multiply_q31(&a, &b, &mut dst);
    let out: Vec<i32> = dst.iter().map(|q| q.to_bits()).collect();
    assert_eq!(out, vec![i32::MAX, 0x2000_0000]);
}

#[test]
fn multiply_q7_elementwise() {
    let a = q7_vec(&[-128, 64]);
    let b = q7_vec(&[-128, 64]);
    let mut dst = q7_vec(&[0; 2]);
    multiply_q7(&a, &b, &mut dst);
    let out: Vec<i8> = dst.iter().map(|q| q.to_bits()).collect();
    assert_eq!(out, vec![127, 32]);
}

#[test]
fn dot_product_q15_exact_sum() {
    let a = q15_vec(&[16384, -32768, 1000]);
    let b = q15_vec(&[16384, 16384, -2000]);
    let r = dot_product_q15(&a, &b);
    let expected: i64 = 16384 * 16384 + (-32768i64 * 16384) + (1000 * -2000);
    assert_eq!(r.to_bits(), expected);
}

#[test]
fn dot_product_q31_rescaled_sum() {
    let a = q31_vec(&[0x4000_0000, i32::MIN]);
    let b = q31_vec(&[0x4000_0000, 0x4000_0000]);
    let r = dot_product_q31(&a, &b);
    let expected: i64 = (1i64 << 46) - (1i64 << 47);
    assert_eq!(r.to_bits(), expected);
}

#[test]
fn dot_product_q7_exact_sum() {
    let a = q7_vec(&[64, -128]);
    let b = q7_vec(&[64, 64]);
    let r = dot_product_q7(&a, &b);
    assert_eq!(r.to_bits(), 64 * 64 - 128 * 64);
}

#[test]
fn check_length_returns_common_length() {
    assert_eq!(check_length(5usize), 5);
    assert_eq!(check_length((3usize, 3usize)), 3);
    assert_eq!(check_length((2usize, 2usize, 2usize)), 2);
}

#[test]
fn empty_buffers_are_accepted() {
    let src: Vec<Q15> = Vec::new();
    let mut dst: Vec<Q15> = Vec::new();
    abs_q15(&src, &mut dst);
    assert!(dst.is_empty());
    add_q15(&src, &src, &mut dst);
    assert!(dst.is_empty());
    multiply_q15(&src, &src, &mut dst);
    assert!(dst.is_empty());
    assert_eq!(dot_product_q15(&src, &src).to_bits(), 0);
    assert_eq!(check_length((0usize, 0usize)), 0);
}
