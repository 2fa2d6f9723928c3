//! Settings that must be clamped against the adapter's capabilities.

use vstd::prelude::*;
use vstd::std_specs::cmp::PartialEqSpec;

use crate::caps::AdapterCaps;

verus! {

/// Settings types that need to be clamped against the active adapter's caps
/// implement this. The clamp runs once, after settings are loaded from disk
/// and the adapter has been queried.
pub trait CapsAware: Sized {
    /// `self` fitted to `caps`.
    spec fn clamped(self, caps: AdapterCaps) -> Self;

    /// Mutate `self` to fit `caps`.
    fn clamp_to(&mut self, caps: AdapterCaps)
        ensures
            *final(self) == old(self).clamped(caps),
    ;
}

/// What a clamp pass writes back for the current value of a settings
/// resource: the clamped copy, or `None` when clamping changes nothing.
///
/// Skipping the write when nothing changes keeps the resource unmarked, so a
/// later save does not overwrite the user's stored choices with values
/// clamped to this particular adapter.
pub fn clamp_candidate<T: CapsAware + Clone + PartialEq>(current: &T, caps: AdapterCaps) -> (r:
    Option<T>)
    ensures
        T::obeys_eq_spec() ==> exists|c: T|
            cloned::<T>(*current, c) && r == (if current.eq_spec(&c.clamped(caps)) {
                None::<T>
            } else {
                Some(c.clamped(caps))
            }),
{
    let mut candidate = current.clone();
    let ghost copy = candidate;
    assert(vstd::pervasive::strictly_cloned::<T>(*current, copy));
    candidate.clamp_to(caps);
    let same = *current == candidate;
    let r = if same {
        None
    } else {
        Some(candidate)
    };
    assert(T::obeys_eq_spec() ==> cloned::<T>(*current, copy) && r == (if current.eq_spec(
        &copy.clamped(caps),
    ) {
        None::<T>
    } else {
        Some(copy.clamped(caps))
    }));
    r
}

} // verus!
