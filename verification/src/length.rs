//! A scalar tagged with the unit it is measured in.

use core::marker::PhantomData;
use vstd::prelude::*;
use vstd::std_specs::convert::FromSpecImpl;

verus! {

/// A one-dimensional distance: a scalar of type `T` in the unit `U`.
///
/// The unit exists at compile time only. It keeps lengths in different units
/// apart and takes no room in the value.
pub struct Length<T, U>(pub T, pub PhantomData<U>);

impl<T: Copy, U> Clone for Length<T, U> {
    fn clone(&self) -> (r: Self)
        ensures
            r == *self,
    {
        *self
    }
}

impl<T: Copy, U> Copy for Length<T, U> {

}

impl<T, U> Length<T, U> {
    /// The length that holds `x`.
    pub open spec fn spec_new(x: T) -> Self {
        Length(x, PhantomData)
    }

    /// The scalar that this length holds.
    pub open spec fn spec_get(self) -> T {
        self.0
    }

    /// Tags the scalar `x` with the unit `U`.
    pub fn new(x: T) -> (r: Self)
        ensures
            r == Self::spec_new(x),
            r.spec_get() == x,
    {
        Length(x, PhantomData)
    }
}

impl<T: Copy, U> Length<T, U> {
    /// The scalar, without its unit.
    pub fn get(&self) -> (x: T)
        ensures
            x == self.spec_get(),
    {
        self.0
    }
}

impl<T, U> FromSpecImpl<T> for Length<T, U> {
    open spec fn obeys_from_spec() -> bool {
        true
    }

    open spec fn from_spec(x: T) -> Self {
        Self::spec_new(x)
    }
}

impl<T, U> From<T> for Length<T, U> {
    fn from(x: T) -> (r: Self) {
        Length::new(x)
    }
}

/// std's conversion of a value into its own type, `From::from` of
/// `impl<T> From<T> for T`, returns its argument unchanged, as std documents.
/// A length given where a scalar or a length is taken is therefore taken as it
/// is.
pub assume_specification<A>[ <A as core::convert::From<A>>::from ](a: A) -> (r: A)
    ensures
        r == a,
;

/// Whether `l` is a length that the conversion of `n` may give.
pub open spec fn converts_to<N: Into<Length<T, U>>, T, U>(n: N, l: Length<T, U>) -> bool {
    call_ensures(<N as Into<Length<T, U>>>::into, (n,), l)
}

} // verus!
