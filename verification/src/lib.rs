//! Signal-processing kernels for resource-constrained targets:
//! fixed-point vector arithmetic, dot products, and fast Fourier
//! transforms over real and complex sequences, with machine-checked
//! contracts.
//!
//! The numeric behaviour of every operation is pinned exactly: the
//! saturation of the fixed-point arithmetic, the rescaling of every
//! butterfly stage, and the coefficient tables that drive each
//! transform.  Every engine is immutable after construction, holds no
//! heap state of its own beyond its configuration, and mutates only the
//! caller-supplied buffers.

pub mod basic;
pub mod fixedpoint;
mod tables;
pub mod transform;

use vstd::prelude::*;

verus! {

/// Library errors.
#[derive(Debug, PartialEq, Eq, Structural)]
pub enum Error {
    Argument,
    Length,
    SizeMismatch,
    NanInf,
    Singular,
    TestFailure,
    Unknown,
}

/// One or more buffer lengths expected to agree.
pub trait Lengths {
    /// Whether every held length is the same.
    spec fn lengths_equal(&self) -> bool;

    /// The common length.
    spec fn common(&self) -> int;

    /// Returns the common length.
    fn length(&self) -> (r: usize)
        requires
            self.lengths_equal(),
        ensures
            r as int == self.common(),
    ;
}

impl Lengths for usize {
    open spec fn lengths_equal(&self) -> bool {
        true
    }

    open spec fn common(&self) -> int {
        *self as int
    }

    fn length(&self) -> (r: usize) {
        *self
    }
}

impl Lengths for (usize, usize) {
    open spec fn lengths_equal(&self) -> bool {
        self.0 == self.1
    }

    open spec fn common(&self) -> int {
        self.0 as int
    }

    fn length(&self) -> (r: usize) {
        self.0
    }
}

impl Lengths for (usize, usize, usize) {
    open spec fn lengths_equal(&self) -> bool {
        self.0 == self.1 && self.1 == self.2
    }

    open spec fn common(&self) -> int {
        self.0 as int
    }

    fn length(&self) -> (r: usize) {
        self.0
    }
}

/// Checks that all elements of the provided lengths value/tuple are
/// equal, and that the length value fits into the returned integer
/// type.  A mismatch or an oversized length is a caller bug, so both
/// conditions are demanded up front, before any memory is touched.
pub fn check_length<L: Lengths>(lengths: L) -> (r: u32)
    requires
        lengths.lengths_equal(),
        lengths.common() <= u32::MAX,
    ensures
        r as int == lengths.common(),
{
    let n: usize = lengths.length();
    n as u32
}

} // verus!
