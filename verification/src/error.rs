use vstd::prelude::*;

verus! {

/// The ways in which an operation on field elements or polynomials can fail.
#[derive(Clone, Copy, Debug, PartialEq, Eq, Structural)]
pub enum Error {
    /// Storage for a polynomial could not be created: the requested length
    /// is zero or above [`crate::poly::MAX_POLY_LENGTH`].
    AllocationError,
    /// A coefficient index lies outside `[0, length)`.
    IndexOutOfRange,
    /// A division whose divisor is longer than its dividend, or one of whose
    /// operands has no coefficients.
    InvalidDivision,
    /// An attempt to invert the additive identity of the field.
    DivisionByZero,
}

} // verus!
