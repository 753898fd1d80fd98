//! The text form of a group of side offsets.

use core::fmt::Debug;
use vstd::prelude::*;
use vstd::string::StringExecFns;

verus! {

/// The characters of `(top,right,bottom,left)`.
pub open spec fn rendered(top: Seq<char>, right: Seq<char>, bottom: Seq<char>, left: Seq<char>) -> Seq<char> {
    seq!['('] + top + seq![','] + right + seq![','] + bottom + seq![','] + left + seq![')']
}

/// The debug text of one scalar, from `format!` with `{:?}`.
///
/// Nothing is claimed of the text: it is whatever the scalar's `Debug` writes.
#[verifier::external_body]
pub(crate) fn debug_text<T: Debug>(x: &T) -> (s: String) {
    format!("{:?}", x)
}

/// Whether `s` is a text that the scalar `x` may have for its debug form.
pub closed spec fn is_debug_text<T: Debug>(x: &T, s: Seq<char>) -> bool {
    exists|t: String| t@ == s && call_ensures(debug_text::<T>, (x,), t)
}

/// The debug form of one scalar, as `{:?}` writes it.
pub fn debug_string<T: Debug>(x: &T) -> (s: String)
    ensures
        is_debug_text(x, s@),
{
    debug_text(x)
}

/// Puts the texts of the four sides between brackets, with commas between them.
pub fn render_sides(top: &str, right: &str, bottom: &str, left: &str) -> (s: String)
    ensures
        s@ == rendered(top@, right@, bottom@, left@),
{
    proof {
        reveal_strlit("(");
        reveal_strlit(",");
        reveal_strlit(")");
    }
    let mut s = String::from_str("(");
    s.append(top);
    s.append(",");
    s.append(right);
    s.append(",");
    s.append(bottom);
    s.append(",");
    s.append(left);
    s.append(")");
    s
}

} // verus!
