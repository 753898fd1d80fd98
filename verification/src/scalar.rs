//! What the offsets need of their scalar beyond addition: a zero.

use core::ops::Add;
use vstd::prelude::*;
use vstd::std_specs::ops::AddSpec;

verus! {

/// Whether `z` is a two-sided identity of `T`'s addition: adding it on either
/// side changes nothing.
pub open spec fn is_additive_identity<T: Add<T, Output = T>>(z: T) -> bool {
    forall|a: T|
        #![trigger a.add_spec(z)]
        #![trigger z.add_spec(a)]
        a.add_spec(z) == a && z.add_spec(a) == a
}

/// An addition has at most one identity.
pub proof fn lemma_additive_identity_unique<T: Add<T, Output = T>>(y: T, z: T)
    requires
        is_additive_identity(y),
        is_additive_identity(z),
    ensures
        y == z,
{
    assert(y.add_spec(z) == y);
    assert(y.add_spec(z) == z);
}

/// The zero of `T`, from `num::Zero::zero`.
///
/// The trait `num::Zero` asks of every implementation that `a + 0 = a` and
/// `0 + a = a` for all `a`. This is taken on trust, for the types whose
/// addition follows its model: the value returned is then an identity of that
/// model. Nothing is claimed of the value for other types.
#[verifier::external_body]
pub(crate) fn zero_scalar<T: num::Zero>() -> (z: T)
    ensures
        T::obeys_add_spec() ==> is_additive_identity(z),
{
    T::zero()
}

/// Whether `z` is a value that `T` may give for its zero.
pub closed spec fn is_scalar_zero<T: num::Zero>(z: T) -> bool {
    call_ensures(zero_scalar::<T>, (), z)
}

/// The zero of the scalar type `T`.
pub fn scalar_zero<T: num::Zero>() -> (z: T)
    ensures
        is_scalar_zero(z),
        T::obeys_add_spec() ==> is_additive_identity(z),
{
    zero_scalar()
}

} // verus!
