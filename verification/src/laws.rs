//! What holds of equality, addition and multiplication of matrices,
//! given the laws that the element type obeys.

use vstd::prelude::*;
use vstd::std_specs::cmp::PartialEqSpec;
use vstd::std_specs::ops::{AddSpec, MulSpec};
use std::ops::{Add, Mul};
use crate::element::{
    add_is_associative, add_is_commutative, eq_is_reflexive, eq_is_symmetric, is_ring_like,
    zero_annihilates, zero_is_neutral, One, Zero,
};
use crate::grid::{
    can_multiply, col_count, dot, grid_eq, grid_product, grid_sum, is_zero_grid, row_count,
    same_shape, well_shaped,
};
use crate::matrix::Matrix;
use crate::sums::{
    col_of, col_sums, fold_sum, lemma_dot_is_fold_sum, lemma_fold_sum_exchange,
    lemma_fold_sum_mul_left, lemma_fold_sum_mul_right, lemma_fold_sum_pointwise, products,
    row_of, row_sums,
};

verus! {

/// Equality is reflexive: every matrix equals itself, where every element
/// equals itself.
pub proof fn lemma_eq_reflexive<T>(a: Matrix<T>) where T: Add + Mul + Clone + Eq + Zero + One
    requires
        eq_is_reflexive::<T>(),
    ensures
        a.eq_spec(&a),
{
}

/// Matrices with the same rows are equal, where every element equals
/// itself.
pub proof fn lemma_eq_of_same_rows<T>(a: Matrix<T>, b: Matrix<T>) where
    T: Add + Mul + Clone + Eq + Zero + One,

    requires
        a@ == b@,
        eq_is_reflexive::<T>(),
    ensures
        a.eq_spec(&b),
{
}

/// Equality is symmetric: `a == b` exactly when `b == a`, where the
/// equality of elements is symmetric.
pub proof fn lemma_eq_symmetric<T>(a: Matrix<T>, b: Matrix<T>) where
    T: Add + Mul + Clone + Eq + Zero + One,

    requires
        eq_is_symmetric::<T>(),
    ensures
        a.eq_spec(&b) == b.eq_spec(&a),
{
}

/// Equality is sensitive to shape: matrices of different shapes are never
/// equal.
pub proof fn lemma_eq_needs_same_shape<T>(a: Matrix<T>, b: Matrix<T>) where
    T: Add + Mul + Clone + Eq + Zero + One,

    requires
        !same_shape(a@, b@),
    ensures
        !a.eq_spec(&b),
{
}

/// Addition is commutative where the addition of elements is: for two
/// matrices of the same shape, `a + b` and `b + a` are the same grid.
pub proof fn lemma_add_commutative<T>(a: Matrix<T>, b: Matrix<T>) where
    T: Add<Output = T> + Mul + Clone + Zero + One,

    requires
        a.wf(),
        b.wf(),
        same_shape(a@, b@),
        add_is_commutative::<T>(),
    ensures
        grid_sum(a@, b@) == grid_sum(b@, a@),
{
    a.lemma_well_shaped();
    b.lemma_well_shaped();
    assert(grid_sum(a@, b@) =~~= grid_sum(b@, a@));
}

/// Addition is associative where the addition of elements is: for three
/// matrices of the same shape, `(a + b) + c` and `a + (b + c)` are the
/// same grid.
pub proof fn lemma_add_associative<T>(a: Matrix<T>, b: Matrix<T>, c: Matrix<T>) where
    T: Add<Output = T> + Mul + Clone + Zero + One,

    requires
        a.wf(),
        b.wf(),
        c.wf(),
        same_shape(a@, b@),
        same_shape(b@, c@),
        add_is_associative::<T>(),
    ensures
        grid_sum(grid_sum(a@, b@), c@) == grid_sum(a@, grid_sum(b@, c@)),
{
    a.lemma_well_shaped();
    b.lemma_well_shaped();
    c.lemma_well_shaped();
    assert(grid_sum(grid_sum(a@, b@), c@) =~~= grid_sum(a@, grid_sum(b@, c@)));
}

/// The terms of one element of a product of three grids: for row `i` of
/// `a` and column `j` of `c`, the product of `a[i][l]`, `b[l][k]` and
/// `c[k][j]`, bracketed from the left.
spec fn triple_terms<T: Mul<Output = T>>(
    a: Seq<Seq<T>>,
    b: Seq<Seq<T>>,
    c: Seq<Seq<T>>,
    i: int,
    j: int,
) -> spec_fn(int, int) -> T {
    |l: int, k: int| a[i][l].mul_spec(b[l][k]).mul_spec(c[k][j])
}

/// One element of `(a * b) * c` is the total of the table of its terms,
/// summed column by column.
proof fn lemma_left_product_entry<T: Add<Output = T> + Mul<Output = T> + Zero>(
    a: Seq<Seq<T>>,
    b: Seq<Seq<T>>,
    c: Seq<Seq<T>>,
    i: int,
    j: int,
)
    requires
        well_shaped(a),
        well_shaped(b),
        well_shaped(c),
        can_multiply(a, b),
        can_multiply(b, c),
        is_ring_like::<T>(),
        0 <= i < row_count(a),
        0 <= j < col_count(c),
    ensures
        dot(grid_product(a, b), c, i, j, col_count(b)) == fold_sum(
            col_sums(triple_terms(a, b, c, i, j), col_count(a)),
            col_count(b),
        ),
{
    let ab = grid_product(a, b);
    let h = triple_terms(a, b, c, i, j);
    let n1 = col_count(a);
    let n2 = col_count(b);
    lemma_dot_is_fold_sum(ab, c, i, j, n2);
    assert forall|k: int| 0 <= k < n2 implies #[trigger] products(ab, c, i, j)(k) == col_sums(
        h,
        n1,
    )(k) by {
        assert(ab[i][k] == dot(a, b, i, k, n1));
        lemma_dot_is_fold_sum(a, b, i, k, n1);
        assert forall|l: int| 0 <= l < n1 implies #[trigger] col_of(h, k)(l) == products(
            a,
            b,
            i,
            k,
        )(l).mul_spec(c[k][j]) by {}
        lemma_fold_sum_mul_right(products(a, b, i, k), c[k][j], col_of(h, k), n1);
    }
    lemma_fold_sum_pointwise(products(ab, c, i, j), col_sums(h, n1), n2);
}

/// One element of `a * (b * c)` is the total of the table of its terms,
/// summed row by row.
proof fn lemma_right_product_entry<T: Add<Output = T> + Mul<Output = T> + Zero>(
    a: Seq<Seq<T>>,
    b: Seq<Seq<T>>,
    c: Seq<Seq<T>>,
    i: int,
    j: int,
)
    requires
        well_shaped(a),
        well_shaped(b),
        well_shaped(c),
        can_multiply(a, b),
        can_multiply(b, c),
        is_ring_like::<T>(),
        0 <= i < row_count(a),
        0 <= j < col_count(c),
    ensures
        dot(a, grid_product(b, c), i, j, col_count(a)) == fold_sum(
            row_sums(triple_terms(a, b, c, i, j), col_count(b)),
            col_count(a),
        ),
{
    let bc = grid_product(b, c);
    let h = triple_terms(a, b, c, i, j);
    let n1 = col_count(a);
    let n2 = col_count(b);
    lemma_dot_is_fold_sum(a, bc, i, j, n1);
    assert forall|l: int| 0 <= l < n1 implies #[trigger] products(a, bc, i, j)(l) == row_sums(
        h,
        n2,
    )(l) by {
        assert(bc[l][j] == dot(b, c, l, j, n2));
        lemma_dot_is_fold_sum(b, c, l, j, n2);
        assert forall|k: int| 0 <= k < n2 implies #[trigger] row_of(h, l)(k) == a[i][l].mul_spec(
            products(b, c, l, j)(k),
        ) by {}
        lemma_fold_sum_mul_left(products(b, c, l, j), a[i][l], row_of(h, l), n2);
    }
    lemma_fold_sum_pointwise(products(a, bc, i, j), row_sums(h, n2), n1);
}

/// Multiplication is associative where the element type obeys the laws of
/// a ring: for three matrices whose inner dimensions agree, `(a * b) * c`
/// and `a * (b * c)` are the same grid.
pub proof fn lemma_mul_associative<T>(a: Matrix<T>, b: Matrix<T>, c: Matrix<T>) where
    T: Add<Output = T> + Mul<Output = T> + Clone + Zero + One,

    requires
        a.wf(),
        b.wf(),
        c.wf(),
        can_multiply(a@, b@),
        can_multiply(b@, c@),
        is_ring_like::<T>(),
    ensures
        can_multiply(grid_product(a@, b@), c@),
        can_multiply(a@, grid_product(b@, c@)),
        grid_product(grid_product(a@, b@), c@) == grid_product(a@, grid_product(b@, c@)),
{
    a.lemma_well_shaped();
    b.lemma_well_shaped();
    c.lemma_well_shaped();
    let left = grid_product(grid_product(a@, b@), c@);
    let right = grid_product(a@, grid_product(b@, c@));
    assert(col_count(grid_product(a@, b@)) == col_count(b@));
    assert(col_count(grid_product(b@, c@)) == col_count(c@));
    assert forall|i: int, j: int|
        0 <= i < row_count(a@) && 0 <= j < col_count(c@) implies #[trigger] left[i][j]
        == right[i][j] by {
        lemma_left_product_entry(a@, b@, c@, i, j);
        lemma_right_product_entry(a@, b@, c@, i, j);
        lemma_fold_sum_exchange(triple_terms(a@, b@, c@, i, j), col_count(a@), col_count(b@));
    }
    assert(left =~~= right);
}

/// Over its first `n` positions, the inner product of a row with a column
/// of additive identities is the additive identity.
proof fn lemma_dot_zero_column<T: Add<Output = T> + Mul<Output = T> + Zero>(
    a: Seq<Seq<T>>,
    z: Seq<Seq<T>>,
    i: int,
    j: int,
    n: nat,
)
    requires
        zero_is_neutral::<T>(),
        zero_annihilates::<T>(),
        forall|k: int| 0 <= k < n ==> #[trigger] z[k][j] == T::zero_spec(),
    ensures
        dot(a, z, i, j, n) == T::zero_spec(),
    decreases n,
{
    if n > 0 {
        lemma_dot_zero_column(a, z, i, j, (n - 1) as nat);
        assert(z[n - 1][j] == T::zero_spec());
    }
}

/// Over its first `n` positions, the inner product of a row of additive
/// identities with a column is the additive identity.
proof fn lemma_dot_zero_row<T: Add<Output = T> + Mul<Output = T> + Zero>(
    z: Seq<Seq<T>>,
    b: Seq<Seq<T>>,
    i: int,
    j: int,
    n: nat,
)
    requires
        zero_is_neutral::<T>(),
        zero_annihilates::<T>(),
        forall|k: int| 0 <= k < n ==> #[trigger] z[i][k] == T::zero_spec(),
    ensures
        dot(z, b, i, j, n) == T::zero_spec(),
    decreases n,
{
    if n > 0 {
        lemma_dot_zero_row(z, b, i, j, (n - 1) as nat);
        assert(z[i][n - 1] == T::zero_spec());
    }
}

/// The product of a matrix with a matrix of additive identities is a
/// matrix of additive identities: the sum that each inner product starts
/// from leaves no trace in the result.
pub proof fn lemma_mul_zero_right<T>(a: Matrix<T>, z: Matrix<T>) where
    T: Add<Output = T> + Mul<Output = T> + Clone + Zero + One,

    requires
        a.wf(),
        z.wf(),
        can_multiply(a@, z@),
        is_zero_grid(z@),
        zero_is_neutral::<T>(),
        zero_annihilates::<T>(),
    ensures
        row_count(grid_product(a@, z@)) == row_count(a@),
        col_count(grid_product(a@, z@)) == col_count(z@),
        is_zero_grid(grid_product(a@, z@)),
{
    a.lemma_well_shaped();
    z.lemma_well_shaped();
    let p = grid_product(a@, z@);
    assert forall|i: int, j: int| 0 <= i < p.len() && 0 <= j < p[i].len() implies #[trigger] p[i][j]
        == T::zero_spec() by {
        lemma_dot_zero_column(a@, z@, i, j, col_count(a@));
    }
}

/// The product of a matrix of additive identities with a matrix is a
/// matrix of additive identities.
pub proof fn lemma_mul_zero_left<T>(z: Matrix<T>, b: Matrix<T>) where
    T: Add<Output = T> + Mul<Output = T> + Clone + Zero + One,

    requires
        z.wf(),
        b.wf(),
        can_multiply(z@, b@),
        is_zero_grid(z@),
        zero_is_neutral::<T>(),
        zero_annihilates::<T>(),
    ensures
        row_count(grid_product(z@, b@)) == row_count(z@),
        col_count(grid_product(z@, b@)) == col_count(b@),
        is_zero_grid(grid_product(z@, b@)),
{
    z.lemma_well_shaped();
    b.lemma_well_shaped();
    let p = grid_product(z@, b@);
    assert forall|i: int, j: int| 0 <= i < p.len() && 0 <= j < p[i].len() implies #[trigger] p[i][j]
        == T::zero_spec() by {
        lemma_dot_zero_row(z@, b@, i, j, col_count(z@));
    }
}

} // verus!
