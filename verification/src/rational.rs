//! Arbitrary-precision rational numbers as matrix elements.
//!
//! The numbers are those of the `rug` crate. A `Rational` is opaque to
//! the verifier: a contract can say that two of them are the same
//! number, and nothing of how either is stored.

use vstd::prelude::*;
use rug::Rational;
use crate::element::{One, Zero};

verus! {

/// `rug::Rational`, an arbitrary-precision rational number.
#[verifier::external_type_specification]
#[verifier::external_body]
pub struct ExRational(rug::Rational);

/// The rational number that `Rational::from` makes of the integer `n`:
/// the number `n` itself, with denominator 1.
pub uninterp spec fn rational_from_i32(n: i32) -> Rational;

/// Calls `rug::Rational::new`, which constructs a rational number with
/// value 0. The contract says that this is the number that
/// `Rational::from` makes of the integer 0.
#[verifier::external_body]
fn rational_new() -> (r: Rational)
    ensures
        r == rational_from_i32(0),
{
    Rational::new()
}

/// Calls `<rug::Rational as From<i32>>::from`, which converts an integer
/// to the rational number of the same value. The contract names the
/// result after the integer.
#[verifier::external_body]
fn rational_from(n: i32) -> (r: Rational)
    ensures
        r == rational_from_i32(n),
{
    Rational::from(n)
}

impl Zero for Rational {
    open spec fn zero_spec() -> Rational {
        rational_from_i32(0)
    }

    fn zero() -> (z: Rational) {
        rational_new()
    }
}

impl One for Rational {
    open spec fn one_spec() -> Rational {
        rational_from_i32(1)
    }

    fn one() -> (o: Rational) {
        rational_from(1)
    }
}

} // verus!
