//! The ways in which an operation on matrices can fail.

use vstd::prelude::*;

verus! {

/// Why an operation on matrices was refused.
#[derive(Debug, Clone, Copy, PartialEq, Eq, Structural)]
pub enum MatrixError {
    /// The shapes of the operands do not fit the operation.
    ShapeMismatch,
    /// A row or column index lies outside the matrix.
    IndexOutOfBounds,
    /// The rows handed to the constructor are empty or of unequal length.
    InvalidConstruction,
}

} // verus!
