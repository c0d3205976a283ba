//! Joining of strings for diagnostics.

use vstd::prelude::*;

verus! {

/// `<[&str]>::concat` of std on two strings: the first followed by the
/// second.
#[verifier::external_body]
pub(crate) fn join(a: &str, b: &str) -> (r: String)
    ensures
        r@ == a@ + b@,
{
    [a, b].concat()
}

} // verus!
