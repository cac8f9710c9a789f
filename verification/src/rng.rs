//! The library's single gate to the randomness source.

use vstd::prelude::*;
use rand::Rng;

verus! {

/// Relies on rand::Rng::gen_range over the inclusive range `lo..=hi`: it
/// panics only on an empty range, which the precondition rules out, and
/// otherwise returns a value inside the range.
#[verifier::external_body]
pub(crate) fn rand_in(lo: i32, hi: i32) -> (r: i32)
    requires
        lo <= hi,
    ensures
        lo <= r <= hi,
{
    rand::thread_rng().gen_range(lo..=hi)
}

} // verus!
