//! Random draws, taken from the `rand` crate on trust.
//!
//! Nothing downstream depends on more than what is stated here: ranges for
//! single draws, and multiset preservation for the shuffle.  Every
//! gameplay consequence of a draw is handled by verified code that accepts
//! any value these wrappers may return.

use vstd::prelude::*;
use crate::question::Choice;
use rand::seq::SliceRandom;

verus! {

/// Relies on `rand::random_range` (thread-local generator): returns a
/// uniform draw from the non-empty inclusive range, and panics only on an
/// empty range, which the precondition rules out.
#[verifier::external_body]
pub(crate) fn rand_in_range(lo: u32, hi: u32) -> (r: u32)
    requires
        lo <= hi,
    ensures
        lo <= r <= hi,
{
    rand::random_range(lo..=hi)
}

/// Relies on `rand::seq::SliceRandom::shuffle`: permutes the slice in
/// place, so the choices afterwards are the same multiset, and as many.
#[verifier::external_body]
pub(crate) fn shuffle_choices(v: &mut Vec<Choice>)
    ensures
        final(v)@.to_multiset() == old(v)@.to_multiset(),
        final(v)@.len() == old(v)@.len(),
{
    let mut rng = rand::rng();
    v.as_mut_slice().shuffle(&mut rng);
}

} // verus!
