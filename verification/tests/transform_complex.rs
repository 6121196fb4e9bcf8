//! End-to-end checks of the complex transform engines on concrete data.

use cmsis_dsp::fixedpoint::Q15;
use cmsis_dsp::fixedpoint::Q31;
use cmsis_dsp::transform::fft;
use cmsis_dsp::transform::ComplexQ15;
use cmsis_dsp::transform::ComplexQ31;
use cmsis_dsp::transform::Direction;
use cmsis_dsp::transform::OutputOrder;
use cmsis_dsp::transform::Q15Fft;
use cmsis_dsp::transform::Q31Fft;

fn q15_buffer(re: &[i16], im: &[i16]) -> Vec<ComplexQ15> {
    re.iter()
        .zip(im.iter())
        .map(|(&r, &i)| ComplexQ15::new(Q15::from_bits(r), Q15::from_bits(i)))
        .collect()
}

fn q31_buffer(re: &[i32], im: &[i32]) -> Vec<ComplexQ31> {
    re.iter()
        .zip(im.iter())
        .map(|(&r, &i)| ComplexQ31::new(Q31::from_bits(r), Q31::from_bits(i)))
        .collect()
}

const X16_RE: [i16; 16] = [-15000, -3900, 7200, -12000, -900, 10200, -9000, 2100, 13200, -6000, 5100, -14100, -3000, 8100, -11100, 0];
const X16_IM: [i16; 16] = [-14400, 1500, -11700, 4200, -9000, 6900, -6300, 9600, -3600, 12300, -900, -14100, 1800, -11400, 4500, -8700];
const Y16_RE: [i16; 16] = [-1819, -1100, -213, -2485, 1273, -1926, 1136, 2159, 130, -5685, -875, -1599, -1013, -1041, 474, -2425];
const Y16_IM: [i16; 16] = [-2457, -3016, 1078, -1568, -2700, -67, 2555, 978, -2494, 1031, -6478, 108, 1349, -1174, 142, -1696];

#[test]
fn q15_forward_16_matches_expected() {
    let engine = Q15Fft::new(16, Direction::Forward, OutputOrder::Standard).unwrap();
    let mut data = q15_buffer(&X16_RE, &X16_IM);
    engine.run(&mut data);
    for j in 0..16 {
        assert_eq!(data[j].re.to_bits(), Y16_RE[j], "re bin {j}");
        assert_eq!(data[j].im.to_bits(), Y16_IM[j], "im bin {j}");
    }
}

#[test]
fn q15_forward_16_close_to_direct_dft() {
    let engine = Q15Fft::new(16, Direction::Forward, OutputOrder::Standard).unwrap();
    let mut data = q15_buffer(&X16_RE, &X16_IM);
    engine.run(&mut data);
    for j in 0..16usize {
        let mut re = 0.0f64;
        let mut im = 0.0f64;
        for k in 0..16usize {
            let ang = -2.0 * std::f64::consts::PI * (j * k) as f64 / 16.0;
            let (s, c) = ang.sin_cos();
            re += X16_RE[k] as f64 * c - X16_IM[k] as f64 * s;
            im += X16_RE[k] as f64 * s + X16_IM[k] as f64 * c;
        }
        re /= 16.0;
        im /= 16.0;
        assert!((data[j].re.to_bits() as f64 - re).abs() < 8.0, "re bin {j}");
        assert!((data[j].im.to_bits() as f64 - im).abs() < 8.0, "im bin {j}");
    }
}

const X32_RE: [i16; 32] = [-15000, -3900, 7200, -12000, -900, 10200, -9000, 2100, 13200, -6000, 5100, -14100, -3000, 8100, -11100, 0, 11100, -8100, 3000, 14100, -5100, 6000, -13200, -2100, 9000, -10200, 900, 12000, -7200, 3900, 15000, -4200];
const X32_IM: [i16; 32] = [-14400, 1500, -11700, 4200, -9000, 6900, -6300, 9600, -3600, 12300, -900, -14100, 1800, -11400, 4500, -8700, 7200, -6000, 9900, -3300, 12600, -600, -13800, 2100, -11100, 4800, -8400, 7500, -5700, 10200, -3000, 12900];
const RT32_RE: [i16; 32] = [-471, -123, 224, -376, -29, 318, -282, 66, 411, -189, 158, -440, -94, 252, -347, 0, 345, -253, 92, 439, -160, 186, -413, -66, 279, -319, 27, 374, -225, 120, 467, -131];
const RT32_IM: [i16; 32] = [-452, 45, -367, 130, -283, 214, -197, 298, -113, 383, -29, -441, 55, -357, 139, -273, 224, -188, 308, -103, 392, -19, -431, 64, -346, 149, -262, 233, -178, 317, -94, 402];

#[test]
fn q15_round_trip_32_scales_by_length() {
    let fwd = Q15Fft::new(32, Direction::Forward, OutputOrder::Standard).unwrap();
    let inv = Q15Fft::new(32, Direction::Inverse, OutputOrder::Standard).unwrap();
    let mut data = q15_buffer(&X32_RE, &X32_IM);
    fwd.run(&mut data);
    inv.run(&mut data);
    for j in 0..32 {
        assert_eq!(data[j].re.to_bits(), RT32_RE[j]);
        assert_eq!(data[j].im.to_bits(), RT32_IM[j]);
        let re_scaled = data[j].re.to_bits() as i32 * 32;
        let im_scaled = data[j].im.to_bits() as i32 * 32;
        assert!((re_scaled - X32_RE[j] as i32).abs() <= 96, "bin {j}");
        assert!((im_scaled - X32_IM[j] as i32).abs() <= 96, "bin {j}");
    }
}

const X31_RE: [i32; 16] = [-450000000, -117000000, 216000000, -360000000, -27000000, 306000000, -270000000, 63000000, 396000000, -180000000, 153000000, -423000000, -90000000, 243000000, -333000000, 0];
const X31_IM: [i32; 16] = [-8000000, -7000000, -6000000, -5000000, -4000000, -3000000, -2000000, -1000000, 0, 1000000, 2000000, 3000000, 4000000, 5000000, 6000000, 7000000];
const Y31_RE: [i32; 16] = [-54562500, -55388671, 2730392, -53623304, 3437499, -53209090, 3730392, -52974457, 3937499, -52775544, 4144605, -52540911, 4437498, -52126697, 5144605, -50361330];
const Y31_IM: [i32; 16] = [-500000, -20295150, 13526541, -6392886, -61250000, -3130954, 135026541, -1283218, -500000, 283217, -136026542, 2130952, 60249999, 5392884, -14526542, 19295147];
const RT31_RE: [i32; 16] = [-28125002, -7312501, 13499999, -22500001, -1687501, 19124999, -16875001, 3937498, 24749998, -11250000, 9562499, -26437500, -5625000, 15187498, -20812500, -1];
const RT31_IM: [i32; 16] = [-500002, -437502, -375001, -312501, -250000, -187501, -125001, -62502, 0, 62499, 124999, 187499, 249999, 312498, 374999, 437498];

#[test]
fn q31_forward_16_matches_expected() {
    let engine = Q31Fft::new(16).unwrap();
    let mut data = q31_buffer(&X31_RE, &X31_IM);
    engine.run(&mut data, Direction::Forward, OutputOrder::Standard);
    for j in 0..16 {
        assert_eq!(data[j].re.to_bits(), Y31_RE[j], "re bin {j}");
        assert_eq!(data[j].im.to_bits(), Y31_IM[j], "im bin {j}");
    }
}

#[test]
fn q31_forward_16_close_to_direct_dft() {
    let engine = Q31Fft::new(16).unwrap();
    let mut data = q31_buffer(&X31_RE, &X31_IM);
    engine.run(&mut data, Direction::Forward, OutputOrder::Standard);
    for j in 0..16usize {
        let mut re = 0.0f64;
        let mut im = 0.0f64;
        for k in 0..16usize {
            let ang = -2.0 * std::f64::consts::PI * (j * k) as f64 / 16.0;
            let (s, c) = ang.sin_cos();
            re += X31_RE[k] as f64 * c - X31_IM[k] as f64 * s;
            im += X31_RE[k] as f64 * s + X31_IM[k] as f64 * c;
        }
        re /= 16.0;
        im /= 16.0;
        assert!((data[j].re.to_bits() as f64 - re).abs() < 16.0, "re bin {j}");
        assert!((data[j].im.to_bits() as f64 - im).abs() < 16.0, "im bin {j}");
    }
}

#[test]
fn q31_round_trip_16_scales_by_length() {
    let engine = Q31Fft::new(16).unwrap();
    let mut data = q31_buffer(&X31_RE, &X31_IM);
    engine.run(&mut data, Direction::Forward, OutputOrder::Standard);
    engine.run(&mut data, Direction::Inverse, OutputOrder::Standard);
    for j in 0..16 {
        assert_eq!(data[j].re.to_bits(), RT31_RE[j]);
        assert_eq!(data[j].im.to_bits(), RT31_IM[j]);
        let re_scaled = data[j].re.to_bits() as i64 * 16;
        let im_scaled = data[j].im.to_bits() as i64 * 16;
        assert!((re_scaled - X31_RE[j] as i64).abs() <= 48, "bin {j}");
        assert!((im_scaled - X31_IM[j] as i64).abs() <= 48, "bin {j}");
    }
}

#[test]
fn zero_input_gives_zero_output_128() {
    for direction in [Direction::Forward, Direction::Inverse] {
        for order in [OutputOrder::Raw, OutputOrder::Standard] {
            let q15 = Q15Fft::new(128, direction, order).unwrap();
            let mut data = vec![ComplexQ15::new(Q15::from_bits(0), Q15::from_bits(0)); 128];
            q15.run(&mut data);
            for c in &data {
                assert_eq!(c.re.to_bits(), 0);
                assert_eq!(c.im.to_bits(), 0);
            }
            let q31 = Q31Fft::new(128).unwrap();
            let mut data = vec![ComplexQ31::new(Q31::from_bits(0), Q31::from_bits(0)); 128];
            q31.run(&mut data, direction, order);
            for c in &data {
                assert_eq!(c.re.to_bits(), 0);
                assert_eq!(c.im.to_bits(), 0);
            }
        }
    }
}

fn bit_reverse_index(bits: u32, j: usize) -> usize {
    let mut r = 0usize;
    let mut x = j;
    for _ in 0..bits {
        r = r * 2 + (x % 2);
        x /= 2;
    }
    r
}

#[test]
fn standard_order_is_bit_reversed_raw_order() {
    let raw_engine = Q15Fft::new(16, Direction::Forward, OutputOrder::Raw).unwrap();
    let std_engine = Q15Fft::new(16, Direction::Forward, OutputOrder::Standard).unwrap();
    let mut raw = q15_buffer(&X16_RE, &X16_IM);
    let mut standard = q15_buffer(&X16_RE, &X16_IM);
    raw_engine.run(&mut raw);
    std_engine.run(&mut standard);
    for j in 0..16 {
        let k = bit_reverse_index(4, j);
        assert_eq!(standard[j].re.to_bits(), raw[k].re.to_bits());
        assert_eq!(standard[j].im.to_bits(), raw[k].im.to_bits());
    }
}

#[test]
fn fft_buffer_matches_general_engine() {
    let engine = Q15Fft::new(16, Direction::Forward, OutputOrder::Standard).unwrap();
    let mut via_engine = q15_buffer(&X16_RE, &X16_IM);
    engine.run(&mut via_engine);
    let mut via_buffer = q15_buffer(&X16_RE, &X16_IM);
    fft(&mut via_buffer, Direction::Forward, OutputOrder::Standard);
    assert_eq!(via_engine, via_buffer);

    let engine31 = Q31Fft::new(16).unwrap();
    let mut via_engine31 = q31_buffer(&X31_RE, &X31_IM);
    engine31.run(&mut via_engine31, Direction::Inverse, OutputOrder::Raw);
    let mut via_buffer31 = q31_buffer(&X31_RE, &X31_IM);
    fft(&mut via_buffer31, Direction::Inverse, OutputOrder::Raw);
    assert_eq!(via_engine31, via_buffer31);
}

#[test]
fn q15_forward_256_concentrates_a_pure_tone() {
    let engine = Q15Fft::new(256, Direction::Forward, OutputOrder::Standard).unwrap();
    let mut data: Vec<ComplexQ15> = (0..256)
        .map(|j| {
            let x = (0.9 * (2.0 * std::f64::consts::PI * 5.0 * j as f64 / 256.0).cos() * 32768.0
                + 0.5)
                .floor() as i16;
            ComplexQ15::new(Q15::from_bits(x), Q15::from_bits(0))
        })
        .collect();
    engine.run(&mut data);
    for j in 0..256usize {
        let re = data[j].re.to_bits();
        let im = data[j].im.to_bits();
        if j == 5 || j == 251 {
            assert!((re as i32 - 14744).abs() <= 8, "peak bin {j} re {re}");
            assert!((im as i32).abs() <= 8, "peak bin {j} im {im}");
        } else {
            assert!((re as i32).abs() <= 8, "bin {j} re {re}");
            assert!((im as i32).abs() <= 8, "bin {j} im {im}");
        }
    }
}

#[test]
fn largest_size_transform_runs() {
    let engine = Q15Fft::new(4096, Direction::Forward, OutputOrder::Standard).unwrap();
    let mut data: Vec<ComplexQ15> = (0..4096)
        .map(|j| {
            let x = ((j % 64) as i16 - 32) * 512;
            ComplexQ15::new(Q15::from_bits(x), Q15::from_bits(0))
        })
        .collect();
    engine.run(&mut data);
    assert_eq!(data.len(), 4096);
    let mut zeros = vec![ComplexQ15::new(Q15::from_bits(0), Q15::from_bits(0)); 4096];
    engine.run(&mut zeros);
    for c in &zeros {
        assert_eq!(c.re.to_bits(), 0);
        assert_eq!(c.im.to_bits(), 0);
    }
}

#[test]
fn q31_round_trip_all_supported_sizes() {
    for n in [16usize, 32, 64, 128, 256, 512, 1024, 2048, 4096] {
        let engine = Q31Fft::new(n as u16).unwrap();
        let input: Vec<ComplexQ31> = (0..n)
            .map(|i| {
                let re = ((i as i64 * 2654435761) % 200000001 - 100000000) * 10;
                let im = ((i as i64 * 40503) % 131071 - 65535) * 10000;
                ComplexQ31::new(Q31::from_bits(re as i32), Q31::from_bits(im as i32))
            })
            .collect();
        let mut data = input.clone();
        engine.run(&mut data, Direction::Forward, OutputOrder::Standard);
        engine.run(&mut data, Direction::Inverse, OutputOrder::Standard);
        let tolerance = 8 * n as i64;
        for j in 0..n {
            let re_err = data[j].re.to_bits() as i64 * n as i64 - input[j].re.to_bits() as i64;
            let im_err = data[j].im.to_bits() as i64 * n as i64 - input[j].im.to_bits() as i64;
            assert!(re_err.abs() <= tolerance, "size {n} sample {j} re {re_err}");
            assert!(im_err.abs() <= tolerance, "size {n} sample {j} im {im_err}");
        }
    }
}
