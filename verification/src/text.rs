//! String comparison, specified over character sequences.

use vstd::prelude::*;

verus! {

/// Relies on str's PartialEq from std: two string slices compare equal
/// exactly when their character sequences are equal.
#[verifier::external_body]
pub(crate) fn str_eq(a: &str, b: &str) -> (r: bool)
    ensures
        r == (a@ == b@),
{
    a == b
}

} // verus!
