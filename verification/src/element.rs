//! What a type has to supply to serve as the element type of a matrix.

use vstd::prelude::*;
use vstd::std_specs::cmp::PartialEqSpec;
use vstd::std_specs::ops::{AddSpec, MulSpec};
use std::ops::{Add, Mul};

verus! {

/// Element types that have an additive identity.
pub trait Zero: Sized {
    /// The additive identity, as contracts speak of it. A verified
    /// implementation says which value it is; without that, nothing is
    /// known of it.
    open spec fn zero_spec() -> Self {
        arbitrary()
    }

    /// Returns the additive identity.
    fn zero() -> (z: Self)
        ensures
            z == Self::zero_spec(),
    ;
}

/// Element types that have a multiplicative identity.
pub trait One: Sized {
    /// The multiplicative identity, as contracts speak of it. A verified
    /// implementation says which value it is; without that, nothing is
    /// known of it.
    open spec fn one_spec() -> Self {
        arbitrary()
    }

    /// Returns the multiplicative identity.
    fn one() -> (o: Self)
        ensures
            o == Self::one_spec(),
    ;
}

/// Cloning an element yields an equal element: the only outcome of
/// `clone` is a value copy.
pub open spec fn clone_is_copy<T: Clone>() -> bool {
    forall|a: T, b: T| #[trigger] cloned(a, b) ==> a == b
}

/// Every element equals itself under the element type's `==`.
pub open spec fn eq_is_reflexive<T: PartialEq>() -> bool {
    forall|x: T| #[trigger] x.eq_spec(&x)
}

/// The element type's `==` does not depend on the order of its operands.
pub open spec fn eq_is_symmetric<T: PartialEq>() -> bool {
    forall|x: T, y: T| #[trigger] x.eq_spec(&y) == y.eq_spec(&x)
}

/// The element type's `+` does not depend on the order of its operands.
pub open spec fn add_is_commutative<T: Add<Output = T>>() -> bool {
    forall|x: T, y: T| #[trigger] x.add_spec(y) == y.add_spec(x)
}

/// The element type's `+` does not depend on how a sum of three is
/// bracketed.
pub open spec fn add_is_associative<T: Add<Output = T>>() -> bool {
    forall|x: T, y: T, z: T| #[trigger] x.add_spec(y).add_spec(z) == x.add_spec(y.add_spec(z))
}

/// Adding the additive identity, on either side, changes nothing.
pub open spec fn zero_is_neutral<T: Add<Output = T> + Zero>() -> bool {
    &&& forall|x: T| #[trigger] T::zero_spec().add_spec(x) == x
    &&& forall|x: T| #[trigger] x.add_spec(T::zero_spec()) == x
}

/// A product with the additive identity, on either side, is the additive
/// identity.
pub open spec fn zero_annihilates<T: Mul<Output = T> + Zero>() -> bool {
    &&& forall|x: T| #[trigger] T::zero_spec().mul_spec(x) == T::zero_spec()
    &&& forall|x: T| #[trigger] x.mul_spec(T::zero_spec()) == T::zero_spec()
}

/// The element type's `*` does not depend on how a product of three is
/// bracketed.
pub open spec fn mul_is_associative<T: Mul<Output = T>>() -> bool {
    forall|x: T, y: T, z: T| #[trigger] x.mul_spec(y).mul_spec(z) == x.mul_spec(y.mul_spec(z))
}

/// The element type's `*` distributes over its `+`, from the left and
/// from the right.
pub open spec fn mul_distributes<T: Add<Output = T> + Mul<Output = T>>() -> bool {
    &&& forall|x: T, y: T, z: T| #[trigger]
        x.mul_spec(y.add_spec(z)) == x.mul_spec(y).add_spec(x.mul_spec(z))
    &&& forall|x: T, y: T, z: T| #[trigger]
        x.add_spec(y).mul_spec(z) == x.mul_spec(z).add_spec(y.mul_spec(z))
}

/// The laws of a ring that the product of matrices rests on: `+` is
/// commutative and associative with the additive identity as its neutral
/// element, `*` is associative and distributes over `+`, and a product
/// with the additive identity is the additive identity.
pub open spec fn is_ring_like<T: Add<Output = T> + Mul<Output = T> + Zero>() -> bool {
    &&& add_is_commutative::<T>()
    &&& add_is_associative::<T>()
    &&& zero_is_neutral::<T>()
    &&& zero_annihilates::<T>()
    &&& mul_is_associative::<T>()
    &&& mul_distributes::<T>()
}

} // verus!
