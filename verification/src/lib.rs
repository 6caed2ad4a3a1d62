//! Dense, rectangular matrices over element types that behave as a ring.
//!
//! A [`Matrix`] is built in one step from its rows and is never changed
//! afterwards: addition and multiplication consume their operands and
//! return a new matrix, or a [`MatrixError`] when the shapes do not fit.
//! Every contract speaks of a matrix through its view, the sequence of
//! its rows.

pub mod element;
pub mod error;
pub mod grid;
pub mod integer;
pub mod laws;
pub mod matrix;
pub mod rational;
pub mod sums;

pub use element::{One, Zero};
pub use error::MatrixError;
pub use matrix::Matrix;
