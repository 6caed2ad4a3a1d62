//! Machine integers as matrix elements.

use vstd::prelude::*;
use vstd::std_specs::ops::{AddSpec, MulSpec};
use crate::element::{
    add_is_associative, add_is_commutative, clone_is_copy, eq_is_reflexive, eq_is_symmetric,
    is_ring_like, mul_distributes, mul_is_associative, zero_annihilates, zero_is_neutral, One,
    Zero,
};

verus! {

impl Zero for i32 {
    open spec fn zero_spec() -> i32 {
        0
    }

    fn zero() -> (z: i32) {
        0
    }
}

impl One for i32 {
    open spec fn one_spec() -> i32 {
        1
    }

    fn one() -> (o: i32) {
        1
    }
}

/// The 32-bit integers obey every law that the laws of matrices ask of an
/// element type. In contracts their `+` and `*` wrap around, so the laws
/// hold of all values; the operations themselves are only called where
/// the result fits.
pub proof fn lemma_i32_is_ring_like()
    ensures
        is_ring_like::<i32>(),
        clone_is_copy::<i32>(),
        eq_is_reflexive::<i32>(),
        eq_is_symmetric::<i32>(),
{
    assert(add_is_commutative::<i32>());
    assert(zero_is_neutral::<i32>());
    assert(zero_annihilates::<i32>());
    assert(add_is_associative::<i32>()) by {
        assert forall|x: i32, y: i32, z: i32| #[trigger]
            x.add_spec(y).add_spec(z) == x.add_spec(y.add_spec(z)) by {
            assert(((((x + y) as i32) + z) as i32) == ((x + ((y + z) as i32)) as i32))
                by (bit_vector);
        }
    }
    assert(mul_is_associative::<i32>()) by {
        assert forall|x: i32, y: i32, z: i32| #[trigger]
            x.mul_spec(y).mul_spec(z) == x.mul_spec(y.mul_spec(z)) by {
            assert(((((x * y) as i32) * z) as i32) == ((x * ((y * z) as i32)) as i32))
                by (bit_vector);
        }
    }
    assert(mul_distributes::<i32>()) by {
        assert forall|x: i32, y: i32, z: i32| #[trigger]
            x.mul_spec(y.add_spec(z)) == x.mul_spec(y).add_spec(x.mul_spec(z)) by {
            assert(((x * ((y + z) as i32)) as i32) == ((((x * y) as i32) + ((x * z) as i32))
                as i32)) by (bit_vector);
        }
        assert forall|x: i32, y: i32, z: i32| #[trigger]
            x.add_spec(y).mul_spec(z) == x.mul_spec(z).add_spec(y.mul_spec(z)) by {
            assert(((((x + y) as i32) * z) as i32) == ((((x * z) as i32) + ((y * z) as i32))
                as i32)) by (bit_vector);
        }
    }
}

} // verus!
