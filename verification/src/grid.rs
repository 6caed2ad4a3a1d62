//! The mathematical model of a matrix: a sequence of rows, each a
//! sequence of elements.

use vstd::prelude::*;
use vstd::std_specs::cmp::PartialEqSpec;
use vstd::std_specs::ops::{AddSpec, MulSpec};
use std::ops::{Add, Mul};
use crate::element::{clone_is_copy, Zero};

verus! {

/// The rows of a nested vector as a sequence of sequences.
pub open spec fn rows_of<T>(v: Vec<Vec<T>>) -> Seq<Seq<T>> {
    Seq::new(v@.len(), |i: int| v@[i]@)
}

/// A grid is well shaped when it has at least one row, its first row has
/// at least one element, and every row is as long as the first.
pub open spec fn well_shaped<T>(g: Seq<Seq<T>>) -> bool {
    &&& g.len() >= 1
    &&& g[0].len() >= 1
    &&& forall|i: int| 0 <= i < g.len() ==> (#[trigger] g[i]).len() == g[0].len()
}

/// The number of rows of a grid.
pub open spec fn row_count<T>(g: Seq<Seq<T>>) -> nat {
    g.len()
}

/// The number of columns of a grid: the length of its first row.
pub open spec fn col_count<T>(g: Seq<Seq<T>>) -> nat {
    if g.len() == 0 {
        0
    } else {
        g[0].len()
    }
}

/// Two grids have the same shape.
pub open spec fn same_shape<T>(a: Seq<Seq<T>>, b: Seq<Seq<T>>) -> bool {
    row_count(a) == row_count(b) && col_count(a) == col_count(b)
}

/// The element-wise sum of two grids of the same shape.
pub open spec fn grid_sum<T: Add<Output = T>>(a: Seq<Seq<T>>, b: Seq<Seq<T>>) -> Seq<Seq<T>> {
    Seq::new(a.len(), |i: int| Seq::new(a[i].len(), |j: int| a[i][j].add_spec(b[i][j])))
}

/// Every element-wise addition that the sum of two grids asks for is one
/// that the element type accepts, and the element type's `+` and `clone`
/// do what their specifications say.
pub open spec fn sum_defined<T: Add<Output = T> + Clone>(a: Seq<Seq<T>>, b: Seq<Seq<T>>) -> bool {
    &&& T::obeys_add_spec()
    &&& clone_is_copy::<T>()
    &&& same_shape(a, b) ==> forall|i: int, j: int|
        0 <= i < a.len() && 0 <= j < a[i].len() ==> #[trigger] a[i][j].add_req(b[i][j])
}

/// The inner product of row `i` of `a` with column `j` of `b`, taken over
/// the first `n` positions: the sum starts from the additive identity and
/// takes up the products from left to right.
pub open spec fn dot<T: Add<Output = T> + Mul<Output = T> + Zero>(
    a: Seq<Seq<T>>,
    b: Seq<Seq<T>>,
    i: int,
    j: int,
    n: nat,
) -> T
    decreases n,
{
    if n == 0 {
        T::zero_spec()
    } else {
        dot(a, b, i, j, (n - 1) as nat).add_spec(a[i][n - 1].mul_spec(b[n - 1][j]))
    }
}

/// The inner dimensions of two grids agree: `a` has as many columns as
/// `b` has rows.
pub open spec fn can_multiply<T>(a: Seq<Seq<T>>, b: Seq<Seq<T>>) -> bool {
    col_count(a) == row_count(b)
}

/// The matrix product of two grids whose inner dimensions agree.
pub open spec fn grid_product<T: Add<Output = T> + Mul<Output = T> + Zero>(
    a: Seq<Seq<T>>,
    b: Seq<Seq<T>>,
) -> Seq<Seq<T>> {
    Seq::new(
        row_count(a),
        |i: int| Seq::new(col_count(b), |j: int| dot(a, b, i, j, col_count(a))),
    )
}

/// Every multiplication and every addition that the product of two grids
/// asks for is one that the element type accepts, and the element type's
/// `+`, `*` and `clone` do what their specifications say.
pub open spec fn product_defined<T: Add<Output = T> + Mul<Output = T> + Clone + Zero>(
    a: Seq<Seq<T>>,
    b: Seq<Seq<T>>,
) -> bool {
    &&& T::obeys_add_spec()
    &&& T::obeys_mul_spec()
    &&& clone_is_copy::<T>()
    &&& can_multiply(a, b) ==> forall|i: int, j: int, k: int|
        0 <= i < row_count(a) && 0 <= j < col_count(b) && 0 <= k < col_count(a)
            ==> #[trigger] term_defined(a, b, i, j, k)
}

/// The `k`-th step of the inner product of row `i` of `a` with column `j`
/// of `b` is accepted by the element type: the product of the two
/// elements, and its addition to the sum of the steps before it.
pub open spec fn term_defined<T: Add<Output = T> + Mul<Output = T> + Zero>(
    a: Seq<Seq<T>>,
    b: Seq<Seq<T>>,
    i: int,
    j: int,
    k: int,
) -> bool {
    &&& a[i][k].mul_req(b[k][j])
    &&& dot(a, b, i, j, k as nat).add_req(a[i][k].mul_spec(b[k][j]))
}

/// Every element of a grid is the additive identity.
pub open spec fn is_zero_grid<T: Zero>(g: Seq<Seq<T>>) -> bool {
    forall|i: int, j: int|
        0 <= i < g.len() && 0 <= j < g[i].len() ==> #[trigger] g[i][j] == T::zero_spec()
}

/// Two grids are equal when they have the same shape and the element
/// type's own equality holds of every pair of corresponding elements.
pub open spec fn grid_eq<T: PartialEq>(a: Seq<Seq<T>>, b: Seq<Seq<T>>) -> bool {
    &&& same_shape(a, b)
    &&& forall|i: int, j: int|
        0 <= i < row_count(a) && 0 <= j < col_count(a) ==> #[trigger] a[i][j].eq_spec(&b[i][j])
}

} // verus!
