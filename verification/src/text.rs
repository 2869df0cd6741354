//! Comparing text.

use vstd::prelude::*;

verus! {

/// `<str as PartialEq>::eq` of the standard library, the `==` of string
/// slices: two slices are equal exactly when they hold the same characters in
/// the same order. Nothing is proved of it here; callers rely on this
/// statement.
pub assume_specification[ <str as PartialEq>::eq ](a: &str, b: &str) -> (same: bool)
    ensures
        same == (a@ == b@),
;

} // verus!
