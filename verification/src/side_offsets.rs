//! A group of side offsets, which correspond to top/right/bottom/left for
//! borders, padding and margins.

use crate::length::converts_to;
use crate::length::Length;
use crate::scalar::is_additive_identity;
use crate::scalar::lemma_additive_identity_unique;
use crate::scalar::is_scalar_zero;
use crate::scalar::scalar_zero;
use crate::text::debug_string;
use crate::text::is_debug_text;
use crate::text::render_sides;
use crate::text::rendered;
use crate::UnknownUnit;
use core::fmt::Debug;
use core::marker::PhantomData;
use core::ops::Add;
use vstd::prelude::*;
use vstd::std_specs::cmp::PartialEqSpec;
use vstd::std_specs::cmp::PartialEqSpecImpl;
use vstd::std_specs::convert::IntoSpec;
use vstd::std_specs::ops::AddSpec;

verus! {

/// A group of side offsets, tagged with a unit.
///
/// The four sides are independent scalars. The unit `U` exists at compile time
/// only: offsets in different units are different types and cannot be added.
pub struct TypedSideOffsets2D<T, U> {
    pub top: T,
    pub right: T,
    pub bottom: T,
    pub left: T,
    pub _unit: PhantomData<U>,
}

/// Side offsets in no particular unit.
pub type SideOffsets2D<T> = TypedSideOffsets2D<T, UnknownUnit>;

impl<T: Copy, U> Clone for TypedSideOffsets2D<T, U> {
    fn clone(&self) -> (r: Self)
        ensures
            r == *self,
    {
        *self
    }
}

impl<T: Copy, U> Copy for TypedSideOffsets2D<T, U> {

}

impl<T: PartialEq, U> PartialEqSpecImpl for TypedSideOffsets2D<T, U> {
    open spec fn obeys_eq_spec() -> bool {
        T::obeys_eq_spec()
    }

    open spec fn eq_spec(&self, other: &Self) -> bool {
        &&& self.top.eq_spec(&other.top)
        &&& self.right.eq_spec(&other.right)
        &&& self.bottom.eq_spec(&other.bottom)
        &&& self.left.eq_spec(&other.left)
    }
}

impl<T: PartialEq, U> PartialEq for TypedSideOffsets2D<T, U> {
    /// Two groups are equal when each side of the one equals that side of the
    /// other.
    fn eq(&self, other: &Self) -> (r: bool) {
        self.top == other.top && self.right == other.right && self.bottom == other.bottom
            && self.left == other.left
    }
}

impl<T: Eq, U> Eq for TypedSideOffsets2D<T, U> {

}

impl<T, U> TypedSideOffsets2D<T, U> {
    /// The offsets with the given four sides.
    pub open spec fn spec_new(top: T, right: T, bottom: T, left: T) -> Self {
        TypedSideOffsets2D { top, right, bottom, left, _unit: PhantomData }
    }

    /// The offsets whose four sides are all `all`.
    pub open spec fn spec_new_all_same(all: T) -> Self {
        Self::spec_new(all, all, all, all)
    }
}

impl<T: Copy, U> TypedSideOffsets2D<T, U> {
    /// Constructor taking a scalar value or a `Length` for each side.
    ///
    /// Each side of the result is the scalar of the length that the argument
    /// for that side converts into.
    pub fn new<N: Into<Length<T, U>>>(top: N, right: N, bottom: N, left: N) -> (r: Self)
        ensures
            converts_to(top, Length::spec_new(r.top)),
            converts_to(right, Length::spec_new(r.right)),
            converts_to(bottom, Length::spec_new(r.bottom)),
            converts_to(left, Length::spec_new(r.left)),
            N::obeys_into_spec() ==> r == Self::spec_new(
                top.into_spec().spec_get(),
                right.into_spec().spec_get(),
                bottom.into_spec().spec_get(),
                left.into_spec().spec_get(),
            ),
    {
        let top_length: Length<T, U> = top.into();
        let right_length: Length<T, U> = right.into();
        let bottom_length: Length<T, U> = bottom.into();
        let left_length: Length<T, U> = left.into();
        TypedSideOffsets2D {
            top: top_length.get(),
            right: right_length.get(),
            bottom: bottom_length.get(),
            left: left_length.get(),
            _unit: PhantomData,
        }
    }

    /// Access self.top as a typed Length instead of a scalar value.
    pub fn top_typed(&self) -> (l: Length<T, U>)
        ensures
            l == Length::<T, U>::spec_new(self.top),
            l.spec_get() == self.top,
    {
        Length::new(self.top)
    }

    /// Access self.right as a typed Length instead of a scalar value.
    pub fn right_typed(&self) -> (l: Length<T, U>)
        ensures
            l == Length::<T, U>::spec_new(self.right),
            l.spec_get() == self.right,
    {
        Length::new(self.right)
    }

    /// Access self.bottom as a typed Length instead of a scalar value.
    pub fn bottom_typed(&self) -> (l: Length<T, U>)
        ensures
            l == Length::<T, U>::spec_new(self.bottom),
            l.spec_get() == self.bottom,
    {
        Length::new(self.bottom)
    }

    /// Access self.left as a typed Length instead of a scalar value.
    pub fn left_typed(&self) -> (l: Length<T, U>)
        ensures
            l == Length::<T, U>::spec_new(self.left),
            l.spec_get() == self.left,
    {
        Length::new(self.left)
    }

    /// Constructor setting the same value to all sides, taking a scalar value
    /// or a `Length`.
    ///
    /// The result is what `new` gives for four copies of the scalar: all four
    /// sides are the scalar of the length that `all` converts into.
    pub fn new_all_same<N: Into<Length<T, U>>>(all: N) -> (r: Self)
        ensures
            r == Self::spec_new_all_same(r.top),
            converts_to(all, Length::spec_new(r.top)),
            N::obeys_into_spec() ==> r == Self::spec_new_all_same(all.into_spec().spec_get()),
    {
        let all: Length<T, U> = all.into();
        TypedSideOffsets2D::new(all, all, all, all)
    }
}

impl<T: Copy, U> TypedSideOffsets2D<T, U> {
    /// Setting all sides to one value gives what the constructor gives for
    /// four copies of that value, wherever the value's conversion into a
    /// length is a function of the value.
    pub proof fn lemma_new_all_same_is_new<N: Into<Length<T, U>>>(all: N, same: Self, four: Self)
        requires
            N::obeys_into_spec(),
            call_ensures(Self::new_all_same::<N>, (all,), same),
            call_ensures(Self::new::<N>, (all, all, all, all), four),
        ensures
            same == four,
    {
    }
}

impl<T, U> TypedSideOffsets2D<T, U> where T: Add<T, Output = T> + Copy {
    /// The sum of the left and the right side: what the scalar's `+` gives
    /// for them, the left side as its left operand.
    pub fn horizontal(&self) -> (sum: T)
        requires
            self.left.add_req(self.right),
        ensures
            call_ensures(<T as Add<T>>::add, (self.left, self.right), sum),
            T::obeys_add_spec() ==> sum == self.left.add_spec(self.right),
    {
        self.left + self.right
    }

    /// The sum of the top and the bottom side: what the scalar's `+` gives
    /// for them, the top side as its left operand.
    pub fn vertical(&self) -> (sum: T)
        requires
            self.top.add_req(self.bottom),
        ensures
            call_ensures(<T as Add<T>>::add, (self.top, self.bottom), sum),
            T::obeys_add_spec() ==> sum == self.top.add_spec(self.bottom),
    {
        self.top + self.bottom
    }

    /// The sum of the left and the right side, as a typed Length.
    pub fn horizontal_typed(&self) -> (l: Length<T, U>)
        requires
            self.left.add_req(self.right),
        ensures
            call_ensures(<T as Add<T>>::add, (self.left, self.right), l.spec_get()),
            T::obeys_add_spec() ==> l == Length::<T, U>::spec_new(self.left.add_spec(self.right)),
    {
        Length::new(self.horizontal())
    }

    /// The sum of the top and the bottom side, as a typed Length.
    pub fn vertical_typed(&self) -> (l: Length<T, U>)
        requires
            self.top.add_req(self.bottom),
        ensures
            call_ensures(<T as Add<T>>::add, (self.top, self.bottom), l.spec_get()),
            T::obeys_add_spec() ==> l == Length::<T, U>::spec_new(self.top.add_spec(self.bottom)),
    {
        Length::new(self.vertical())
    }
}

impl<T, U> vstd::std_specs::ops::AddSpecImpl for TypedSideOffsets2D<T, U> where T: Copy + Add<T, Output = T> {
    /// The sum of two groups follows this model where the scalar's does.
    open spec fn obeys_add_spec() -> bool {
        T::obeys_add_spec()
    }

    /// Two groups can be added when each pair of sides can.
    open spec fn add_req(self, other: Self) -> bool {
        &&& self.top.add_req(other.top)
        &&& self.right.add_req(other.right)
        &&& self.bottom.add_req(other.bottom)
        &&& self.left.add_req(other.left)
    }

    /// The sum, side by side.
    open spec fn add_spec(self, other: Self) -> Self {
        Self::spec_new(
            self.top.add_spec(other.top),
            self.right.add_spec(other.right),
            self.bottom.add_spec(other.bottom),
            self.left.add_spec(other.left),
        )
    }
}

impl<T, U> Add for TypedSideOffsets2D<T, U> where T: Copy + Add<T, Output = T> {
    type Output = Self;

    /// Adds two groups of offsets side by side.
    fn add(self, other: Self) -> (sum: Self)
        ensures
            call_ensures(<T as Add<T>>::add, (self.top, other.top), sum.top),
            call_ensures(<T as Add<T>>::add, (self.right, other.right), sum.right),
            call_ensures(<T as Add<T>>::add, (self.bottom, other.bottom), sum.bottom),
            call_ensures(<T as Add<T>>::add, (self.left, other.left), sum.left),
            T::obeys_add_spec() ==> sum.top == self.top.add_spec(other.top),
            T::obeys_add_spec() ==> sum.right == self.right.add_spec(other.right),
            T::obeys_add_spec() ==> sum.bottom == self.bottom.add_spec(other.bottom),
            T::obeys_add_spec() ==> sum.left == self.left.add_spec(other.left),
    {
        TypedSideOffsets2D::new(
            self.top + other.top,
            self.right + other.right,
            self.bottom + other.bottom,
            self.left + other.left,
        )
    }
}

impl<T, U> TypedSideOffsets2D<T, U> where T: Copy + Add<T, Output = T> {
    /// Where the scalar's addition is commutative, so is that of the offsets.
    pub proof fn lemma_add_commutative(self, other: Self)
        requires
            forall|a: T, b: T| #[trigger] a.add_spec(b) == b.add_spec(a),
        ensures
            self.add_spec(other) == other.add_spec(self),
    {
    }

    /// Where the scalar's addition is associative, so is that of the offsets.
    pub proof fn lemma_add_associative(self, second: Self, third: Self)
        requires
            forall|a: T, b: T, c: T| #[trigger]
                a.add_spec(b).add_spec(c) == a.add_spec(b.add_spec(c)),
        ensures
            self.add_spec(second).add_spec(third) == self.add_spec(second.add_spec(third)),
    {
    }

    /// The group whose sides are all the scalar's zero is the zero of the
    /// offsets: adding it on either side changes nothing.
    pub proof fn lemma_zero_is_identity(self, z: T)
        requires
            is_additive_identity(z),
        ensures
            self.add_spec(Self::spec_new_all_same(z)) == self,
            Self::spec_new_all_same(z).add_spec(self) == self,
    {
    }
}

impl<T: Copy + num::Zero, U> TypedSideOffsets2D<T, U> {
    /// Constructor, setting all sides to zero.
    ///
    /// All four sides hold one and the same scalar, which is a zero of the
    /// scalar type. Where the scalar's addition follows its model, that scalar
    /// is its identity.
    pub fn zero() -> (r: Self)
        ensures
            r == Self::spec_new_all_same(r.top),
            is_scalar_zero(r.top),
            T::obeys_add_spec() ==> is_additive_identity(r.top),
    {
        let z: T = scalar_zero();
        TypedSideOffsets2D::new(z, z, z, z)
    }

    /// The zero offsets are the offsets with four times the scalar's zero `z`
    /// for sides, for a scalar whose addition follows its model.
    pub proof fn lemma_zero_is_new_of_zeros(z: T, zero: Self)
        requires
            T::obeys_add_spec(),
            is_additive_identity(z),
            call_ensures(Self::zero, (), zero),
        ensures
            zero == Self::spec_new(z, z, z, z),
    {
        lemma_additive_identity_unique(zero.top, z);
    }
}

impl<T: Debug, U> TypedSideOffsets2D<T, U> {
    /// The text `(top,right,bottom,left)`: the debug forms of the four sides
    /// in that order, with commas between them and brackets around them.
    pub fn to_debug_string(&self) -> (s: String)
        ensures
            exists|top: Seq<char>, right: Seq<char>, bottom: Seq<char>, left: Seq<char>|
                is_debug_text(&self.top, top) && is_debug_text(&self.right, right)
                    && is_debug_text(&self.bottom, bottom) && is_debug_text(&self.left, left)
                    && s@ == rendered(top, right, bottom, left),
    {
        let top = debug_string(&self.top);
        let right = debug_string(&self.right);
        let bottom = debug_string(&self.bottom);
        let left = debug_string(&self.left);
        render_sides(top.as_str(), right.as_str(), bottom.as_str(), left.as_str())
    }
}

} // verus!
