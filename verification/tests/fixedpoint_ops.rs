//! Checks of the fixed-point sample types: bit-pattern round trips and
//! the saturating arithmetic, including every overflow direction.

use cmsis_dsp::fixedpoint::Q15;
use cmsis_dsp::fixedpoint::Q31;
use cmsis_dsp::fixedpoint::Q7;

#[test]
fn q15_bits_round_trip() {
    for bits in [i16::MIN, -1, 0, 1, i16::MAX, 12345, -12345] {
        assert_eq!(Q15::from_bits(bits).to_bits(), bits);
    }
}

#[test]
fn q31_bits_round_trip() {
    for bits in [i32::MIN, -1, 0, 1, i32::MAX, 123456789, -123456789] {
        assert_eq!(Q31::from_bits(bits).to_bits(), bits);
    }
}

#[test]
fn q7_bits_round_trip() {
    for bits in [i8::MIN, -1, 0, 1, i8::MAX, 77, -77] {
        assert_eq!(Q7::from_bits(bits).to_bits(), bits);
    }
}

#[test]
fn q15_add_saturates_positive() {
    let r = Q15::from_bits(30000).saturating_add(Q15::from_bits(5000));
    assert_eq!(r.to_bits(), 32767);
}

#[test]
fn q15_add_saturates_negative() {
    let r = Q15::from_bits(-30000).saturating_add(Q15::from_bits(-5000));
    assert_eq!(r.to_bits(), -32768);
}

#[test]
fn q15_add_exact_in_range() {
    let r = Q15::from_bits(100).saturating_add(Q15::from_bits(200));
    assert_eq!(r.to_bits(), 300);
}

#[test]
fn q15_sub_saturates() {
    let r = Q15::from_bits(30000).saturating_sub(Q15::from_bits(-5000));
    assert_eq!(r.to_bits(), 32767);
    let r = Q15::from_bits(-30000).saturating_sub(Q15::from_bits(5000));
    assert_eq!(r.to_bits(), -32768);
}

#[test]
fn q15_mul_saturates_only_at_minus_one_squared() {
    let minus_one = Q15::from_bits(-32768);
    assert_eq!(minus_one.saturating_mul(minus_one).to_bits(), 32767);
    let r = Q15::from_bits(-32768).saturating_mul(Q15::from_bits(32767));
    assert_eq!(r.to_bits(), -32767);
}

#[test]
fn q15_mul_exact_in_range() {
    let half = Q15::from_bits(16384);
    assert_eq!(half.saturating_mul(half).to_bits(), 8192);
}

#[test]
fn q15_abs_clamps_minimum() {
    assert_eq!(Q15::from_bits(-32768).saturating_abs().to_bits(), 32767);
    assert_eq!(Q15::from_bits(-5).saturating_abs().to_bits(), 5);
    assert_eq!(Q15::from_bits(7).saturating_abs().to_bits(), 7);
}

#[test]
fn q31_add_saturates_positive() {
    let r = Q31::from_bits(2_000_000_000).saturating_add(Q31::from_bits(400_000_000));
    assert_eq!(r.to_bits(), i32::MAX);
}

#[test]
fn q31_add_saturates_negative() {
    let r = Q31::from_bits(-2_000_000_000).saturating_add(Q31::from_bits(-400_000_000));
    assert_eq!(r.to_bits(), i32::MIN);
}

#[test]
fn q31_mul_saturates_only_at_minus_one_squared() {
    let minus_one = Q31::from_bits(i32::MIN);
    assert_eq!(minus_one.saturating_mul(minus_one).to_bits(), i32::MAX);
    let r = minus_one.saturating_mul(Q31::from_bits(i32::MAX));
    assert_eq!(r.to_bits(), -i32::MAX);
}

#[test]
fn q31_mul_exact_in_range() {
    let half = Q31::from_bits(0x4000_0000);
    assert_eq!(half.saturating_mul(half).to_bits(), 0x2000_0000);
}

#[test]
fn q31_abs_clamps_minimum() {
    assert_eq!(Q31::from_bits(i32::MIN).saturating_abs().to_bits(), i32::MAX);
    assert_eq!(Q31::from_bits(-123).saturating_abs().to_bits(), 123);
}

#[test]
fn q7_saturating_ops() {
    assert_eq!(Q7::from_bits(100).saturating_add(Q7::from_bits(100)).to_bits(), 127);
    assert_eq!(Q7::from_bits(-100).saturating_add(Q7::from_bits(-100)).to_bits(), -128);
    let minus_one = Q7::from_bits(-128);
    assert_eq!(minus_one.saturating_mul(minus_one).to_bits(), 127);
    assert_eq!(Q7::from_bits(-128).saturating_abs().to_bits(), 127);
    assert_eq!(Q7::from_bits(64).saturating_mul(Q7::from_bits(64)).to_bits(), 32);
}

#[test]
fn q15_saturating_ops_match_fixed_crate() {
    let samples: [i16; 9] = [i16::MIN, -12345, -256, -1, 0, 1, 255, 12345, i16::MAX];
    for &a in &samples {
        for &b in &samples {
            let ours = Q15::from_bits(a).saturating_add(Q15::from_bits(b)).to_bits();
            let theirs = fixed::types::I1F15::from_bits(a)
                .saturating_add(fixed::types::I1F15::from_bits(b))
                .to_bits();
            assert_eq!(ours, theirs, "add {a} {b}");
            let ours = Q15::from_bits(a).saturating_mul(Q15::from_bits(b)).to_bits();
            let theirs = fixed::types::I1F15::from_bits(a)
                .saturating_mul(fixed::types::I1F15::from_bits(b))
                .to_bits();
            assert_eq!(ours, theirs, "mul {a} {b}");
        }
    }
}

#[test]
fn q31_saturating_ops_match_fixed_crate() {
    let samples: [i32; 9] = [
        i32::MIN,
        -1_234_567_890,
        -65536,
        -1,
        0,
        1,
        65535,
        1_234_567_890,
        i32::MAX,
    ];
    for &a in &samples {
        for &b in &samples {
            let ours = Q31::from_bits(a).saturating_add(Q31::from_bits(b)).to_bits();
            let theirs = fixed::types::I1F31::from_bits(a)
                .saturating_add(fixed::types::I1F31::from_bits(b))
                .to_bits();
            assert_eq!(ours, theirs, "add {a} {b}");
            let ours = Q31::from_bits(a).saturating_mul(Q31::from_bits(b)).to_bits();
            let theirs = fixed::types::I1F31::from_bits(a)
                .saturating_mul(fixed::types::I1F31::from_bits(b))
                .to_bits();
            assert_eq!(ours, theirs, "mul {a} {b}");
        }
    }
}
