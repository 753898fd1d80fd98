//! Four-sided offsets (top, right, bottom, left), as used for borders, padding
//! and margins, generic over the scalar and tagged with a unit.

use vstd::prelude::*;

pub mod length;
pub mod scalar;
pub mod side_offsets;
pub mod text;

verus! {

/// The unit of values that are in no particular unit.
pub struct UnknownUnit;

} // verus!
