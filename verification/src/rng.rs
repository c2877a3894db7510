//! The one random draw the library needs, behind a trusted wrapper.

use vstd::prelude::*;

verus! {

/// Relies on rand::random_range over `0..n`: a value of the range, drawn
/// from the thread's generator. Nothing more is assumed of it; the empty
/// range is kept out because the call panics on it.
#[verifier::external_body]
pub fn random_below(n: usize) -> (r: usize)
    requires
        n > 0,
    ensures
        r < n,
{
    rand::random_range(0..n)
}

} // verus!
