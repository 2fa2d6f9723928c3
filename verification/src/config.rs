//! The [`Config`] trait: the resolution order of a configuration type.

use vstd::prelude::*;

use crate::caps::{AdapterCaps, PlatformTarget};

verus! {

/// Trait every configuration type implements.
///
/// Resolution order:
///
/// 1. [`Config::platform_default`] — start with platform-appropriate defaults.
/// 2. [`Config::merge`] — layer cached user overrides on top.
/// 3. [`Config::clamp_to`] — strip features the adapter doesn't support.
///
/// Clamping last (post-merge) means a user override loaded from disk cannot
/// re-enable a feature the hardware lacks.
pub trait Config: Sized {
    /// Sparse shape: every field is optional, so a stored value only holds
    /// what diverges from the platform default.
    type Overrides;

    /// The defaults for `target`.
    spec fn default_for(target: PlatformTarget) -> Self;

    /// `self` with the fields that `o` sets replaced.
    spec fn merged(self, o: Self::Overrides) -> Self;

    /// `self` fitted to `caps`.
    spec fn clamped(self, caps: AdapterCaps) -> Self;

    /// The fields of `self` that differ from the defaults for `target`.
    spec fn overrides_for(self, target: PlatformTarget) -> Self::Overrides;

    /// Conservative, platform-appropriate defaults.
    fn platform_default(target: PlatformTarget) -> (c: Self)
        ensures
            c == Self::default_for(target),
    ;

    /// Apply any explicitly-set fields from `overrides` onto `self`.
    fn merge(&mut self, overrides: &Self::Overrides)
        ensures
            *final(self) == old(self).merged(*overrides),
    ;

    /// Mutate `self` to fit `caps`. Called after `merge`.
    fn clamp_to(&mut self, caps: &AdapterCaps)
        ensures
            *final(self) == old(self).clamped(*caps),
    ;

    /// Project the current state into sparse overrides holding only the
    /// values that differ from `platform_default(target)`.
    fn current_overrides(&self, target: PlatformTarget) -> (o: Self::Overrides)
        ensures
            o == self.overrides_for(target),
    ;
}

/// The value a configuration starts with: the platform default, with the
/// stored overrides (if any were loaded) merged on top.
pub fn startup_config<C: Config>(target: PlatformTarget, stored: Option<&C::Overrides>) -> (c: C)
    ensures
        c == match stored {
            Some(o) => C::default_for(target).merged(*o),
            None => C::default_for(target),
        },
{
    let mut config = C::platform_default(target);
    if let Some(overrides) = stored {
        config.merge(overrides);
    }
    config
}

} // verus!
