//! End-to-end checks of the real transform engines on concrete data.

use cmsis_dsp::fixedpoint::Q15;
use cmsis_dsp::fixedpoint::Q31;
use cmsis_dsp::transform::ComplexQ15;
use cmsis_dsp::transform::Direction;
use cmsis_dsp::transform::OutputOrder;
use cmsis_dsp::transform::Q15Fft;
use cmsis_dsp::transform::Q15RealFft;
use cmsis_dsp::transform::Q31RealFft;

const RAMP: [i16; 32] = [0, 1024, 2048, 3072, 4096, 5120, 6144, 7168, 8192, 9216, 10240, 11264, 12288, 13312, 14336, 15360, 16384, 17408, 18432, 19456, 20480, 21504, 22528, 23552, 24576, 25600, 26624, 27648, 28672, 29696, 30720, 31744];
const RAMP_SPECTRUM: [i16; 32] = [15872, -512, -513, 5197, -513, 2573, -513, 1687, -513, 1235, -513, 957, -513, 766, -513, 623, -512, 511, -512, 419, -512, 341, -512, 273, -512, 212, -512, 154, -512, 101, -513, 50];
const RAMP_ROUND_TRIP: [i16; 32] = [-1, 32, 63, 95, 128, 159, 191, 223, 256, 287, 319, 351, 383, 415, 447, 479, 511, 543, 575, 606, 639, 670, 702, 735, 766, 798, 830, 861, 893, 925, 957, 988];

#[test]
fn q15_real_forward_32_matches_expected() {
    let engine = Q15RealFft::new(32, Direction::Forward, OutputOrder::Standard).unwrap();
    let input: Vec<Q15> = RAMP.iter().map(|&b| Q15::from_bits(b)).collect();
    let mut output = vec![0i16; 32];
    engine.run(&input, &mut output);
    assert_eq!(&output[..], &RAMP_SPECTRUM[..]);
}

#[test]
fn q15_real_forward_is_packed_complex_transform() {
    let real_engine = Q15RealFft::new(32, Direction::Forward, OutputOrder::Standard).unwrap();
    let input: Vec<Q15> = RAMP.iter().map(|&b| Q15::from_bits(b)).collect();
    let mut packed = vec![0i16; 32];
    real_engine.run(&input, &mut packed);

    let complex_engine = Q15Fft::new(32, Direction::Forward, OutputOrder::Standard).unwrap();
    let mut full: Vec<ComplexQ15> = RAMP
        .iter()
        .map(|&b| ComplexQ15::new(Q15::from_bits(b), Q15::from_bits(0)))
        .collect();
    complex_engine.run(&mut full);

    assert_eq!(packed[0], full[0].re.to_bits());
    assert_eq!(packed[1], full[16].re.to_bits());
    for k in 1..16usize {
        assert_eq!(packed[2 * k], full[k].re.to_bits());
        assert_eq!(packed[2 * k + 1], full[k].im.to_bits());
    }
}

#[test]
fn q15_real_round_trip_32_scales_by_length() {
    let fwd = Q15RealFft::new(32, Direction::Forward, OutputOrder::Standard).unwrap();
    let inv = Q15RealFft::new(32, Direction::Inverse, OutputOrder::Standard).unwrap();
    let input: Vec<Q15> = RAMP.iter().map(|&b| Q15::from_bits(b)).collect();
    let mut spectrum = vec![0i16; 32];
    fwd.run(&input, &mut spectrum);
    let packed: Vec<Q15> = spectrum.iter().map(|&b| Q15::from_bits(b)).collect();
    let mut time = vec![0i16; 32];
    inv.run(&packed, &mut time);
    assert_eq!(&time[..], &RAMP_ROUND_TRIP[..]);
    for j in 0..32 {
        assert!((time[j] as i32 * 32 - RAMP[j] as i32).abs() <= 160, "sample {j}");
    }
}

#[test]
fn q31_real_round_trip_32_scales_by_length() {
    let fwd = Q31RealFft::new(32, Direction::Forward, OutputOrder::Standard).unwrap();
    let inv = Q31RealFft::new(32, Direction::Inverse, OutputOrder::Standard).unwrap();
    let input: Vec<Q31> = RAMP.iter().map(|&b| Q31::from_bits(b as i32 * 65536)).collect();
    let mut spectrum = vec![0i32; 32];
    fwd.run(&input, &mut spectrum);
    let packed: Vec<Q31> = spectrum.iter().map(|&b| Q31::from_bits(b)).collect();
    let mut time = vec![0i32; 32];
    inv.run(&packed, &mut time);
    for j in 0..32 {
        let scaled = time[j] as i64 * 32;
        assert!((scaled - (RAMP[j] as i64 * 65536)).abs() <= 32 * 8, "sample {j}");
    }
}

#[test]
fn q15_real_raw_order_is_packed_raw_complex_transform() {
    let real_engine = Q15RealFft::new(32, Direction::Forward, OutputOrder::Raw).unwrap();
    let input: Vec<Q15> = RAMP.iter().map(|&b| Q15::from_bits(b)).collect();
    let mut packed = vec![0i16; 32];
    real_engine.run(&input, &mut packed);

    let complex_engine = Q15Fft::new(32, Direction::Forward, OutputOrder::Raw).unwrap();
    let mut full: Vec<ComplexQ15> = RAMP
        .iter()
        .map(|&b| ComplexQ15::new(Q15::from_bits(b), Q15::from_bits(0)))
        .collect();
    complex_engine.run(&mut full);

    assert_eq!(packed[0], full[0].re.to_bits());
    assert_eq!(packed[1], full[16].re.to_bits());
    for k in 1..16usize {
        assert_eq!(packed[2 * k], full[k].re.to_bits());
        assert_eq!(packed[2 * k + 1], full[k].im.to_bits());
    }
}
