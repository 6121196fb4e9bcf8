//! Construction validity: every size in the supported set yields an
//! engine, every other size yields an argument error.

use cmsis_dsp::transform::check_fft_size;
use cmsis_dsp::transform::Direction;
use cmsis_dsp::transform::OutputOrder;
use cmsis_dsp::transform::Q15Fft;
use cmsis_dsp::transform::Q15RealFft;
use cmsis_dsp::transform::Q31Fft;
use cmsis_dsp::transform::Q31RealFft;
use cmsis_dsp::Error;

const COMPLEX_SIZES: [u16; 9] = [16, 32, 64, 128, 256, 512, 1024, 2048, 4096];
const REAL_SIZES: [u32; 8] = [32, 64, 128, 256, 512, 1024, 2048, 4096];
const BAD_SIZES: [u32; 6] = [0, 1, 17, 100, 5000, 8192];

#[test]
fn complex_engines_accept_all_supported_sizes() {
    for size in COMPLEX_SIZES {
        assert!(Q15Fft::new(size, Direction::Forward, OutputOrder::Standard).is_ok());
        assert!(Q31Fft::new(size).is_ok());
    }
}

#[test]
fn complex_engines_reject_unsupported_sizes() {
    for size in BAD_SIZES {
        let r = Q15Fft::new(size as u16, Direction::Forward, OutputOrder::Standard);
        assert!(matches!(r, Err(Error::Argument)), "size {size}");
        let r = Q31Fft::new(size as u16);
        assert!(matches!(r, Err(Error::Argument)), "size {size}");
    }
}

#[test]
fn real_engines_accept_all_supported_sizes() {
    for size in REAL_SIZES {
        assert!(Q15RealFft::new(size, Direction::Forward, OutputOrder::Standard).is_ok());
        assert!(Q31RealFft::new(size, Direction::Inverse, OutputOrder::Raw).is_ok());
    }
}

#[test]
fn real_engines_reject_unsupported_sizes() {
    for size in BAD_SIZES.iter().copied().chain([16u32]) {
        let r = Q15RealFft::new(size, Direction::Forward, OutputOrder::Standard);
        assert!(matches!(r, Err(Error::Argument)), "size {size}");
        let r = Q31RealFft::new(size, Direction::Forward, OutputOrder::Standard);
        assert!(matches!(r, Err(Error::Argument)), "size {size}");
    }
}

#[test]
fn output_order_defaults_to_standard() {
    assert!(matches!(OutputOrder::default(), OutputOrder::Standard));
}

#[test]
fn fft_size_check_accepts_matching_counts() {
    check_fft_size(16, 16);
    check_fft_size(4096, 4096);
}
