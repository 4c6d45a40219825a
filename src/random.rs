use vstd::prelude::*;

verus! {

/// Relies on rand's `SliceRandom::shuffle` with the thread-local generator:
/// it reorders the items in place, keeping each of them exactly once.
#[verifier::external_body]
pub(crate) fn shuffle_vec<T>(v: &mut Vec<T>)
    ensures
        final(v)@.len() == old(v)@.len(),
        final(v)@.to_multiset() == old(v)@.to_multiset(),
{
    rand::seq::SliceRandom::shuffle(v.as_mut_slice(), &mut rand::thread_rng());
}

} // verus!
