//! Finite sums of elements, taken from left to right, and the lemmas on
//! them that the laws of matrix multiplication rest on.

use vstd::prelude::*;
use vstd::std_specs::ops::{AddSpec, MulSpec};
use std::ops::{Add, Mul};
use crate::element::{
    add_is_associative, add_is_commutative, mul_distributes, zero_annihilates, zero_is_neutral,
    Zero,
};
use crate::grid::dot;

verus! {

/// The sum of `f(0)`, ..., `f(n - 1)`: it starts from the additive
/// identity and takes up the terms from left to right.
pub open spec fn fold_sum<T: Add<Output = T> + Zero>(f: spec_fn(int) -> T, n: nat) -> T
    decreases n,
{
    if n == 0 {
        T::zero_spec()
    } else {
        fold_sum(f, (n - 1) as nat).add_spec(f(n - 1))
    }
}

/// The terms of the inner product of row `i` of `a` with column `j` of
/// `b`.
pub open spec fn products<T: Mul<Output = T>>(
    a: Seq<Seq<T>>,
    b: Seq<Seq<T>>,
    i: int,
    j: int,
) -> spec_fn(int) -> T {
    |k: int| a[i][k].mul_spec(b[k][j])
}

/// Row `k` of a table of terms.
pub open spec fn row_of<T>(h: spec_fn(int, int) -> T, k: int) -> spec_fn(int) -> T {
    |l: int| h(k, l)
}

/// Column `l` of a table of terms.
pub open spec fn col_of<T>(h: spec_fn(int, int) -> T, l: int) -> spec_fn(int) -> T {
    |k: int| h(k, l)
}

/// The sums of the first `m` terms of each row of a table.
pub open spec fn row_sums<T: Add<Output = T> + Zero>(
    h: spec_fn(int, int) -> T,
    m: nat,
) -> spec_fn(int) -> T {
    |k: int| fold_sum(row_of(h, k), m)
}

/// The sums of the first `n` terms of each column of a table.
pub open spec fn col_sums<T: Add<Output = T> + Zero>(
    h: spec_fn(int, int) -> T,
    n: nat,
) -> spec_fn(int) -> T {
    |l: int| fold_sum(col_of(h, l), n)
}

/// An inner product is the sum of its terms.
pub proof fn lemma_dot_is_fold_sum<T: Add<Output = T> + Mul<Output = T> + Zero>(
    a: Seq<Seq<T>>,
    b: Seq<Seq<T>>,
    i: int,
    j: int,
    n: nat,
)
    ensures
        dot(a, b, i, j, n) == fold_sum(products(a, b, i, j), n),
    decreases n,
{
    if n > 0 {
        lemma_dot_is_fold_sum(a, b, i, j, (n - 1) as nat);
    }
}

/// Sums of terms that agree one by one are equal.
pub proof fn lemma_fold_sum_pointwise<T: Add<Output = T> + Zero>(
    f: spec_fn(int) -> T,
    g: spec_fn(int) -> T,
    n: nat,
)
    requires
        forall|k: int| 0 <= k < n ==> #[trigger] f(k) == g(k),
    ensures
        fold_sum(f, n) == fold_sum(g, n),
    decreases n,
{
    if n > 0 {
        lemma_fold_sum_pointwise(f, g, (n - 1) as nat);
    }
}

/// A sum of additive identities is the additive identity.
pub proof fn lemma_fold_sum_zero<T: Add<Output = T> + Zero>(f: spec_fn(int) -> T, n: nat)
    requires
        forall|k: int| 0 <= k < n ==> #[trigger] f(k) == T::zero_spec(),
        T::zero_spec().add_spec(T::zero_spec()) == T::zero_spec(),
    ensures
        fold_sum(f, n) == T::zero_spec(),
    decreases n,
{
    if n > 0 {
        lemma_fold_sum_zero(f, (n - 1) as nat);
    }
}

/// In a sum of two sums of two, the inner terms may change places.
pub proof fn lemma_add_interchange<T: Add<Output = T>>(w: T, x: T, y: T, z: T)
    requires
        add_is_commutative::<T>(),
        add_is_associative::<T>(),
    ensures
        w.add_spec(x).add_spec(y.add_spec(z)) == w.add_spec(y).add_spec(x.add_spec(z)),
{
    let xyz = x.add_spec(y.add_spec(z));
    let yxz = y.add_spec(x.add_spec(z));
    assert(w.add_spec(x).add_spec(y.add_spec(z)) == w.add_spec(xyz));
    assert(xyz == x.add_spec(y).add_spec(z));
    assert(x.add_spec(y) == y.add_spec(x));
    assert(y.add_spec(x).add_spec(z) == yxz);
    assert(w.add_spec(y).add_spec(x.add_spec(z)) == w.add_spec(yxz));
}

/// The sum of term-wise sums is the sum of the two sums.
pub proof fn lemma_fold_sum_add<T: Add<Output = T> + Zero>(
    f: spec_fn(int) -> T,
    g: spec_fn(int) -> T,
    h: spec_fn(int) -> T,
    n: nat,
)
    requires
        add_is_commutative::<T>(),
        add_is_associative::<T>(),
        zero_is_neutral::<T>(),
        forall|k: int| 0 <= k < n ==> #[trigger] h(k) == f(k).add_spec(g(k)),
    ensures
        fold_sum(h, n) == fold_sum(f, n).add_spec(fold_sum(g, n)),
    decreases n,
{
    if n > 0 {
        let p = (n - 1) as nat;
        lemma_fold_sum_add(f, g, h, p);
        lemma_add_interchange(fold_sum(f, p), fold_sum(g, p), f(p as int), g(p as int));
    }
}

/// A sum times `c` is the sum of the terms times `c`.
pub proof fn lemma_fold_sum_mul_right<T: Add<Output = T> + Mul<Output = T> + Zero>(
    f: spec_fn(int) -> T,
    c: T,
    h: spec_fn(int) -> T,
    n: nat,
)
    requires
        mul_distributes::<T>(),
        zero_annihilates::<T>(),
        forall|k: int| 0 <= k < n ==> #[trigger] h(k) == f(k).mul_spec(c),
    ensures
        fold_sum(f, n).mul_spec(c) == fold_sum(h, n),
    decreases n,
{
    if n > 0 {
        let p = (n - 1) as nat;
        lemma_fold_sum_mul_right(f, c, h, p);
        assert(h(p as int) == f(p as int).mul_spec(c));
    }
}

/// `c` times a sum is the sum of `c` times the terms.
pub proof fn lemma_fold_sum_mul_left<T: Add<Output = T> + Mul<Output = T> + Zero>(
    f: spec_fn(int) -> T,
    c: T,
    h: spec_fn(int) -> T,
    n: nat,
)
    requires
        mul_distributes::<T>(),
        zero_annihilates::<T>(),
        forall|k: int| 0 <= k < n ==> #[trigger] h(k) == c.mul_spec(f(k)),
    ensures
        c.mul_spec(fold_sum(f, n)) == fold_sum(h, n),
    decreases n,
{
    if n > 0 {
        let p = (n - 1) as nat;
        lemma_fold_sum_mul_left(f, c, h, p);
        assert(h(p as int) == c.mul_spec(f(p as int)));
    }
}

/// A table of `n` rows and `m` columns has the same total whether its
/// rows or its columns are summed first.
pub proof fn lemma_fold_sum_exchange<T: Add<Output = T> + Zero>(
    h: spec_fn(int, int) -> T,
    n: nat,
    m: nat,
)
    requires
        add_is_commutative::<T>(),
        add_is_associative::<T>(),
        zero_is_neutral::<T>(),
    ensures
        fold_sum(row_sums(h, m), n) == fold_sum(col_sums(h, n), m),
    decreases n,
{
    if n == 0 {
        lemma_fold_sum_zero(col_sums(h, 0), m);
    } else {
        let p = (n - 1) as nat;
        lemma_fold_sum_exchange(h, p, m);
        lemma_fold_sum_add(col_sums(h, p), row_of(h, p as int), col_sums(h, n), m);
    }
}

} // verus!
