use matrix::{Matrix, MatrixError, One, Zero};
use rug::Rational;
use std::ops::{Add, Mul};

/// An element type that writes down how a value was computed, so that a
/// result shows the order of the operations that made it.
#[derive(Debug, Clone, PartialEq, Eq)]
struct Trace(String);

impl Add for Trace {
    type Output = Trace;
    fn add(self, rhs: Trace) -> Trace {
        Trace(format!("({}+{})", self.0, rhs.0))
    }
}

impl Mul for Trace {
    type Output = Trace;
    fn mul(self, rhs: Trace) -> Trace {
        Trace(format!("{}{}", self.0, rhs.0))
    }
}

impl Zero for Trace {
    fn zero() -> Trace {
        Trace(String::from("0"))
    }
}

impl One for Trace {
    fn one() -> Trace {
        Trace(String::from("1"))
    }
}

fn t(s: &str) -> Trace {
    Trace(String::from(s))
}

fn q(n: i32, d: i32) -> Rational {
    Rational::from((n, d))
}

#[test]
fn inner_product_starts_from_zero_and_runs_left_to_right() {
    let a = Matrix::from(vec![vec![t("a"), t("b"), t("c")]]).unwrap();
    let b = Matrix::from(vec![vec![t("x")], vec![t("y")], vec![t("z")]]).unwrap();
    let c = (a * b).unwrap();
    assert_eq!(c.size(), (1, 1));
    assert_eq!(c.at(0, 0), Ok(t("(((0+ax)+by)+cz)")));
}

#[test]
fn product_pairs_rows_with_columns() {
    let a = Matrix::from(vec![vec![t("a"), t("b")], vec![t("c"), t("d")]]).unwrap();
    let b = Matrix::from(vec![vec![t("w"), t("x")], vec![t("y"), t("z")]]).unwrap();
    let c = (a * b).unwrap();
    assert_eq!(c.at(0, 0), Ok(t("((0+aw)+by)")));
    assert_eq!(c.at(0, 1), Ok(t("((0+ax)+bz)")));
    assert_eq!(c.at(1, 0), Ok(t("((0+cw)+dy)")));
    assert_eq!(c.at(1, 1), Ok(t("((0+cx)+dz)")));
}

#[test]
fn sum_takes_the_left_operand_first() {
    let a = Matrix::from(vec![vec![t("a"), t("b")]]).unwrap();
    let b = Matrix::from(vec![vec![t("x"), t("y")]]).unwrap();
    let c = (a + b).unwrap();
    assert_eq!(c.at(0, 0), Ok(t("(a+x)")));
    assert_eq!(c.at(0, 1), Ok(t("(b+y)")));
}

#[test]
fn sum_does_not_use_the_identities() {
    let a = Matrix::from(vec![vec![t("a")]]).unwrap();
    let b = Matrix::from(vec![vec![t("b")]]).unwrap();
    assert_eq!((a + b).unwrap(), Matrix::from(vec![vec![t("(a+b)")]]).unwrap());
}

#[test]
fn trace_mismatch_is_refused() {
    let a = Matrix::from(vec![vec![t("a"), t("b")]]).unwrap();
    let b = Matrix::from(vec![vec![t("x"), t("y")]]).unwrap();
    assert_eq!((a * b).unwrap_err(), MatrixError::ShapeMismatch);
}

#[test]
fn rational_zero_is_zero() {
    let z = <Rational as Zero>::zero();
    assert_eq!(z, Rational::from(0));
    assert_eq!(z, q(0, 5));
    assert_eq!(q(3, 7) + <Rational as Zero>::zero(), q(3, 7));
    assert_eq!(<Rational as Zero>::zero() + q(3, 7), q(3, 7));
    assert_eq!(<Rational as Zero>::zero() * q(3, 7), q(0, 1));
}

#[test]
fn rational_one_is_one() {
    let o = <Rational as One>::one();
    assert_eq!(o, Rational::from(1));
    assert_eq!(o, q(4, 4));
    assert_eq!(q(3, 7) * <Rational as One>::one(), q(3, 7));
    assert_eq!(<Rational as One>::one() * q(3, 7), q(3, 7));
    assert!(<Rational as One>::one() != <Rational as Zero>::zero());
}

#[test]
fn rational_sum() {
    let a = Matrix::from(vec![vec![q(1, 2), q(1, 3)], vec![q(-1, 4), q(2, 1)]]).unwrap();
    let b = Matrix::from(vec![vec![q(1, 2), q(1, 6)], vec![q(1, 4), q(-1, 2)]]).unwrap();
    let c = Matrix::from(vec![vec![q(1, 1), q(1, 2)], vec![q(0, 1), q(3, 2)]]).unwrap();
    assert_eq!((a + b).unwrap(), c);
}

#[test]
fn rational_product() {
    let a = Matrix::from(vec![vec![q(1, 2), q(1, 3)], vec![q(2, 1), q(-1, 1)]]).unwrap();
    let b = Matrix::from(vec![vec![q(2, 1), q(4, 1)], vec![q(3, 1), q(6, 5)]]).unwrap();
    let c = Matrix::from(vec![vec![q(2, 1), q(12, 5)], vec![q(1, 1), q(34, 5)]]).unwrap();
    assert_eq!((a * b).unwrap(), c);
}

#[test]
fn rational_product_by_identity_matrix() {
    let a = || Matrix::from(vec![vec![q(1, 2), q(1, 3)], vec![q(2, 7), q(-1, 9)]]).unwrap();
    let id = Matrix::from(vec![
        vec![<Rational as One>::one(), <Rational as Zero>::zero()],
        vec![<Rational as Zero>::zero(), <Rational as One>::one()],
    ])
    .unwrap();
    assert_eq!((a() * id).unwrap(), a());
}

#[test]
fn rational_product_is_associative() {
    let a = || Matrix::from(vec![vec![q(1, 2), q(2, 3)]]).unwrap();
    let b = || Matrix::from(vec![vec![q(3, 4), q(1, 5)], vec![q(-1, 2), q(5, 6)]]).unwrap();
    let c = || Matrix::from(vec![vec![q(2, 1)], vec![q(1, 7)]]).unwrap();
    let left = ((a() * b()).unwrap() * c()).unwrap();
    let right = (a() * (b() * c()).unwrap()).unwrap();
    assert_eq!(left, right);
    assert_eq!(left.size(), (1, 1));
    assert_eq!(left.at(0, 0), Ok(q(223, 1260)));
}

#[test]
fn rational_equality() {
    let a = Matrix::from(vec![vec![q(1, 2), q(2, 4)]]).unwrap();
    let b = Matrix::from(vec![vec![q(2, 4), q(1, 2)]]).unwrap();
    let c = Matrix::from(vec![vec![q(1, 2), q(1, 3)]]).unwrap();
    assert!(a == b);
    assert!(a != c);
}

#[test]
fn rational_at_gives_a_copy() {
    let a = Matrix::from(vec![vec![q(1, 2), q(1, 3)]]).unwrap();
    let x = a.at(0, 1).unwrap();
    assert_eq!(x, q(1, 3));
    assert_eq!(a.at(0, 1), Ok(q(1, 3)));
    assert_eq!(a.at(1, 0), Err(MatrixError::IndexOutOfBounds));
}
