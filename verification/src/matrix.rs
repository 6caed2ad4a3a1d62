//! The matrix type and its operations.

use vstd::prelude::*;
use std::ops::{Add, Mul};
use crate::element::{One, Zero};
use crate::error::MatrixError;
use crate::grid::{
    can_multiply, col_count, dot, grid_eq, grid_product, grid_sum, product_defined, row_count,
    rows_of, same_shape, sum_defined, term_defined, well_shaped,
};
use vstd::std_specs::cmp::{PartialEqSpec, PartialEqSpecImpl};
use vstd::std_specs::ops::{AddSpec, AddSpecImpl, MulSpec, MulSpecImpl};

verus! {

/// A dense matrix in row-major order.
#[derive(Debug)]
pub struct Matrix<T> where T: Add + Mul + Clone + Zero + One {
    row: usize,
    col: usize,
    elements: Vec<Vec<T>>,
}

impl<T> View for Matrix<T> where T: Add + Mul + Clone + Zero + One {
    type V = Seq<Seq<T>>;

    /// The rows of the matrix, each the sequence of its elements.
    closed spec fn view(&self) -> Seq<Seq<T>> {
        rows_of(self.elements)
    }
}

impl<T> Matrix<T> where T: Add + Mul + Clone + Zero + One {
    /// What holds of every matrix: the recorded shape is that of the
    /// stored rows, and the rows form a well-shaped grid.
    #[verifier::type_invariant]
    pub closed spec fn wf(&self) -> bool {
        &&& self.row == row_count(self@)
        &&& self.col == col_count(self@)
        &&& well_shaped(self@)
    }

    /// Every matrix is well shaped.
    pub proof fn lemma_well_shaped(self)
        requires
            self.wf(),
        ensures
            well_shaped(self@),
    {
    }

    /// Builds a matrix from its rows.
    pub fn from(elements: Vec<Vec<T>>) -> (r: Result<Self, MatrixError>)
        ensures
            match r {
                Ok(m) => well_shaped(rows_of(elements)) && m@ == rows_of(elements),
                Err(e) => e == MatrixError::InvalidConstruction && !well_shaped(rows_of(elements)),
            },
    {
        let row = elements.len();
        if row == 0 {
            return Err(MatrixError::InvalidConstruction);
        }
        let col = elements[0].len();
        if col == 0 {
            return Err(MatrixError::InvalidConstruction);
        }
        let mut i: usize = 1;
        while i < row
            invariant
                1 <= i <= row,
                row == elements@.len(),
                col == elements@[0]@.len(),
                forall|k: int| 0 <= k < i ==> (#[trigger] elements@[k])@.len() == col,
            decreases row - i,
        {
            if elements[i].len() != col {
                assert(rows_of(elements)[i as int].len() != rows_of(elements)[0].len());
                return Err(MatrixError::InvalidConstruction);
            }
            i += 1;
        }
        Ok(Matrix { row, col, elements })
    }

    /// Returns a copy of the element in row `i` and column `j`.
    pub fn at(&self, i: usize, j: usize) -> (r: Result<T, MatrixError>)
        ensures
            match r {
                Ok(x) => i < row_count(self@) && j < col_count(self@) && cloned(
                    self@[i as int][j as int],
                    x,
                ),
                Err(e) => e == MatrixError::IndexOutOfBounds && !(i < row_count(self@) && j
                    < col_count(self@)),
            },
    {
        proof {
            use_type_invariant(self);
        }
        if i >= self.row || j >= self.col {
            return Err(MatrixError::IndexOutOfBounds);
        }
        assert(self@[i as int] == self.elements@[i as int]@);
        Ok(self.elements[i][j].clone())
    }

    /// Returns the number of rows and the number of columns.
    pub fn size(&self) -> (s: (usize, usize))
        ensures
            s.0 == row_count(self@),
            s.1 == col_count(self@),
    {
        proof {
            use_type_invariant(self);
        }
        (self.row, self.col)
    }
}

/// What `+` on matrices asks of its operands. Its result is stated by the
/// contract of `add`, through the view of the sum: two matrices with the
/// same rows need not be the same value, so no value is named here.
impl<T> AddSpecImpl for Matrix<T> where T: Add<Output = T> + Mul + Clone + Zero + One {
    open spec fn obeys_add_spec() -> bool {
        false
    }

    open spec fn add_req(self, rhs: Self) -> bool {
        sum_defined(self@, rhs@)
    }

    open spec fn add_spec(self, rhs: Self) -> Self::Output {
        arbitrary()
    }
}

impl<T> Add for Matrix<T> where T: Add<Output = T> + Mul + Clone + Zero + One {
    type Output = Result<Matrix<T>, MatrixError>;

    /// Adds two matrices of the same shape element by element.
    fn add(self, rhs: Self) -> (r: Self::Output)
        ensures
            match r {
                Ok(m) => {
                    &&& same_shape(self@, rhs@)
                    &&& same_shape(m@, self@)
                    &&& m@ == grid_sum(self@, rhs@)
                },
                Err(e) => e == MatrixError::ShapeMismatch && !same_shape(self@, rhs@),
            },
    {
        proof {
            use_type_invariant(&self);
            use_type_invariant(&rhs);
        }
        if self.row != rhs.row || self.col != rhs.col {
            return Err(MatrixError::ShapeMismatch);
        }
        let row = self.row;
        let col = self.col;
        let mut elements: Vec<Vec<T>> = Vec::new();
        let mut i: usize = 0;
        while i < row
            invariant
                0 <= i <= row,
                self.wf(),
                rhs.wf(),
                row == row_count(self@),
                col == col_count(self@),
                same_shape(self@, rhs@),
                sum_defined(self@, rhs@),
                elements@.len() == i,
                forall|k: int|
                    0 <= k < i ==> (#[trigger] elements@[k])@ == grid_sum(self@, rhs@)[k],
            decreases row - i,
        {
            let mut line: Vec<T> = Vec::new();
            let mut j: usize = 0;
            assert(self@[i as int] == self.elements@[i as int]@);
            assert(rhs@[i as int] == rhs.elements@[i as int]@);
            while j < col
                invariant
                    0 <= i < row,
                    0 <= j <= col,
                    self.wf(),
                    rhs.wf(),
                    row == row_count(self@),
                    col == col_count(self@),
                    same_shape(self@, rhs@),
                    sum_defined(self@, rhs@),
                    self@[i as int] == self.elements@[i as int]@,
                    rhs@[i as int] == rhs.elements@[i as int]@,
                    line@.len() == j,
                    forall|l: int|
                        0 <= l < j ==> #[trigger] line@[l] == grid_sum(self@, rhs@)[i as int][l],
                decreases col - j,
            {
                let x = self.elements[i][j].clone();
                let y = rhs.elements[i][j].clone();
                assert(cloned(self@[i as int][j as int], x));
                assert(cloned(rhs@[i as int][j as int], y));
                assert(self@[i as int][j as int].add_req(rhs@[i as int][j as int]));
                line.push(x + y);
                j += 1;
            }
            assert(line@ =~= grid_sum(self@, rhs@)[i as int]);
            elements.push(line);
            i += 1;
        }
        assert(rows_of(elements) =~= grid_sum(self@, rhs@));
        Ok(Matrix { row, col, elements })
    }
}

/// What `*` on matrices asks of its operands. Its result is stated by the
/// contract of `mul`, through the view of the product.
impl<T> MulSpecImpl for Matrix<T> where T: Add<Output = T> + Mul<Output = T> + Clone + Zero + One {
    open spec fn obeys_mul_spec() -> bool {
        false
    }

    open spec fn mul_req(self, rhs: Self) -> bool {
        product_defined(self@, rhs@)
    }

    open spec fn mul_spec(self, rhs: Self) -> Self::Output {
        arbitrary()
    }
}

impl<T> Mul for Matrix<T> where T: Add<Output = T> + Mul<Output = T> + Clone + Zero + One {
    type Output = Result<Matrix<T>, MatrixError>;

    /// Multiplies two matrices whose inner dimensions agree.
    fn mul(self, rhs: Self) -> (r: Self::Output)
        ensures
            match r {
                Ok(m) => {
                    &&& can_multiply(self@, rhs@)
                    &&& row_count(m@) == row_count(self@)
                    &&& col_count(m@) == col_count(rhs@)
                    &&& m@ == grid_product(self@, rhs@)
                },
                Err(e) => e == MatrixError::ShapeMismatch && !can_multiply(self@, rhs@),
            },
    {
        proof {
            use_type_invariant(&self);
            use_type_invariant(&rhs);
        }
        if self.col != rhs.row {
            return Err(MatrixError::ShapeMismatch);
        }
        let row = self.row;
        let mid = self.col;
        let col = rhs.col;
        let mut elements: Vec<Vec<T>> = Vec::new();
        let mut i: usize = 0;
        while i < row
            invariant
                0 <= i <= row,
                self.wf(),
                rhs.wf(),
                row == row_count(self@),
                mid == col_count(self@),
                mid == row_count(rhs@),
                col == col_count(rhs@),
                product_defined(self@, rhs@),
                elements@.len() == i,
                forall|k: int|
                    0 <= k < i ==> (#[trigger] elements@[k])@ == grid_product(self@, rhs@)[k],
            decreases row - i,
        {
            let mut line: Vec<T> = Vec::new();
            let mut j: usize = 0;
            assert(self@[i as int] == self.elements@[i as int]@);
            while j < col
                invariant
                    0 <= i < row,
                    0 <= j <= col,
                    self.wf(),
                    rhs.wf(),
                    row == row_count(self@),
                    mid == col_count(self@),
                    mid == row_count(rhs@),
                    col == col_count(rhs@),
                    product_defined(self@, rhs@),
                    self@[i as int] == self.elements@[i as int]@,
                    line@.len() == j,
                    forall|l: int|
                        0 <= l < j ==> #[trigger] line@[l] == grid_product(
                            self@,
                            rhs@,
                        )[i as int][l],
                decreases col - j,
            {
                let mut e = T::zero();
                let mut k: usize = 0;
                while k < mid
                    invariant
                        0 <= i < row,
                        0 <= j < col,
                        0 <= k <= mid,
                        self.wf(),
                        rhs.wf(),
                        row == row_count(self@),
                        mid == col_count(self@),
                        mid == row_count(rhs@),
                        col == col_count(rhs@),
                        product_defined(self@, rhs@),
                        self@[i as int] == self.elements@[i as int]@,
                        e == dot(self@, rhs@, i as int, j as int, k as nat),
                    decreases mid - k,
                {
                    assert(rhs@[k as int] == rhs.elements@[k as int]@);
                    let x = self.elements[i][k].clone();
                    let y = rhs.elements[k][j].clone();
                    assert(cloned(self@[i as int][k as int], x));
                    assert(cloned(rhs@[k as int][j as int], y));
                    assert(term_defined(self@, rhs@, i as int, j as int, k as int));
                    e = e + x * y;
                    k += 1;
                }
                line.push(e);
                j += 1;
            }
            assert(line@ =~= grid_product(self@, rhs@)[i as int]);
            elements.push(line);
            i += 1;
        }
        assert(rows_of(elements) =~= grid_product(self@, rhs@));
        Ok(Matrix { row, col, elements })
    }
}

/// What `==` on matrices means: the same shape, and elements that are
/// equal pair by pair. It holds of the result of `eq` wherever the element
/// type's own `==` does what its specification says.
impl<T> PartialEqSpecImpl for Matrix<T> where T: Add + Mul + Clone + Eq + Zero + One {
    open spec fn obeys_eq_spec() -> bool {
        T::obeys_eq_spec()
    }

    open spec fn eq_spec(&self, other: &Self) -> bool {
        grid_eq(self@, other@)
    }
}

impl<T> PartialEq for Matrix<T> where T: Add + Mul + Clone + Eq + Zero + One {
    /// Compares two matrices: their shapes, then their elements row by
    /// row, up to the first pair that differs.
    fn eq(&self, other: &Self) -> (r: bool) {
        proof {
            use_type_invariant(self);
            use_type_invariant(other);
        }
        if self.row != other.row || self.col != other.col {
            return false;
        }
        let row = self.row;
        let col = self.col;
        let mut i: usize = 0;
        while i < row
            invariant
                0 <= i <= row,
                self.wf(),
                other.wf(),
                row == row_count(self@),
                col == col_count(self@),
                same_shape(self@, other@),
                T::obeys_eq_spec() ==> forall|k: int, l: int|
                    0 <= k < i && 0 <= l < col ==> #[trigger] self@[k][l].eq_spec(&other@[k][l]),
            decreases row - i,
        {
            let mut j: usize = 0;
            assert(self@[i as int] == self.elements@[i as int]@);
            assert(other@[i as int] == other.elements@[i as int]@);
            while j < col
                invariant
                    0 <= i < row,
                    0 <= j <= col,
                    self.wf(),
                    other.wf(),
                    row == row_count(self@),
                    col == col_count(self@),
                    same_shape(self@, other@),
                    self@[i as int] == self.elements@[i as int]@,
                    other@[i as int] == other.elements@[i as int]@,
                    T::obeys_eq_spec() ==> forall|l: int|
                        0 <= l < j ==> #[trigger] self@[i as int][l].eq_spec(&other@[i as int][l]),
                decreases col - j,
            {
                if self.elements[i][j] != other.elements[i][j] {
                    assert(T::obeys_eq_spec() ==> !self@[i as int][j as int].eq_spec(
                        &other@[i as int][j as int],
                    ));
                    return false;
                }
                j += 1;
            }
            i += 1;
        }
        true
    }
}

} // verus!
