//! `Accessibility` axis: subtitles, motion, colour-blind modes.

use vstd::prelude::*;

use crate::caps::{AdapterCaps, PlatformTarget};
use crate::caps_aware::CapsAware;
use crate::common::{changed, changed_f32, opt_f32_eq, overridden, same_opt_f32};
use crate::ieee::{
    f32_bits_clamp, f32_bits_eq, f32_clamp, f32_eq, f32_le, f32_lt, is_nan, lemma_clamp_cases,
    lemma_clamp_within, lemma_constants_ordered, F32_HALF, F32_ONE, F32_THREE,
};

verus! {

/// Colour-blind compensation mode. Consumers read the value and adapt their
/// UI shaders and palettes themselves.
#[derive(Debug, Clone, Copy, PartialEq, Eq, Structural)]
#[non_exhaustive]
pub enum ColorBlindMode {
    Off,
    Protanopia,
    Deuteranopia,
    Tritanopia,
}

/// Populated accessibility settings. `subtitle_scale` holds the bit pattern
/// of an `f32` (see [`crate::ieee`]); equality compares it as an `f32`.
#[derive(Debug, Clone, Copy)]
pub struct Accessibility {
    pub subtitles_on: bool,
    pub subtitle_scale: u32,
    pub reduce_motion: bool,
    pub color_blind_mode: ColorBlindMode,
}

/// Sparse overrides for [`Accessibility`].
#[derive(Debug, Clone, Copy)]
pub struct AccessibilityOverrides {
    pub subtitles_on: Option<bool>,
    pub subtitle_scale: Option<u32>,
    pub reduce_motion: Option<bool>,
    pub color_blind_mode: Option<ColorBlindMode>,
}

/// Same settings under IEEE equality of the subtitle scale.
pub open spec fn accessibility_equivalent(a: Accessibility, b: Accessibility) -> bool {
    &&& a.subtitles_on == b.subtitles_on
    &&& (a.subtitle_scale == b.subtitle_scale || crate::ieee::f32_eq(
        a.subtitle_scale,
        b.subtitle_scale,
    ))
    &&& a.reduce_motion == b.reduce_motion
    &&& a.color_blind_mode == b.color_blind_mode
}

impl AccessibilityOverrides {
    /// Overrides that set nothing.
    pub open spec fn empty() -> Self {
        AccessibilityOverrides {
            subtitles_on: None,
            subtitle_scale: None,
            reduce_motion: None,
            color_blind_mode: None,
        }
    }
}

impl PartialEq for AccessibilityOverrides {
    fn eq(&self, other: &Self) -> (r: bool) {
        self.subtitles_on == other.subtitles_on && same_opt_f32(
            self.subtitle_scale,
            other.subtitle_scale,
        ) && self.reduce_motion == other.reduce_motion && self.color_blind_mode
            == other.color_blind_mode
    }
}

impl vstd::std_specs::cmp::PartialEqSpecImpl for AccessibilityOverrides {
    open spec fn obeys_eq_spec() -> bool {
        true
    }

    open spec fn eq_spec(&self, other: &Self) -> bool {
        &&& self.subtitles_on == other.subtitles_on
        &&& opt_f32_eq(self.subtitle_scale, other.subtitle_scale)
        &&& self.reduce_motion == other.reduce_motion
        &&& self.color_blind_mode == other.color_blind_mode
    }
}

impl PartialEq for Accessibility {
    fn eq(&self, other: &Self) -> (r: bool) {
        self.subtitles_on == other.subtitles_on && f32_bits_eq(
            self.subtitle_scale,
            other.subtitle_scale,
        ) && self.reduce_motion == other.reduce_motion && self.color_blind_mode
            == other.color_blind_mode
    }
}

impl vstd::std_specs::cmp::PartialEqSpecImpl for Accessibility {
    open spec fn obeys_eq_spec() -> bool {
        true
    }

    open spec fn eq_spec(&self, other: &Self) -> bool {
        &&& self.subtitles_on == other.subtitles_on
        &&& f32_eq(self.subtitle_scale, other.subtitle_scale)
        &&& self.reduce_motion == other.reduce_motion
        &&& self.color_blind_mode == other.color_blind_mode
    }
}

impl Default for AccessibilityOverrides {
    fn default() -> (o: Self)
        ensures
            o == AccessibilityOverrides::empty(),
    {
        AccessibilityOverrides {
            subtitles_on: None,
            subtitle_scale: None,
            reduce_motion: None,
            color_blind_mode: None,
        }
    }
}

impl Accessibility {
    /// Subtitles off at unit scale, full motion, no colour-blind
    /// compensation, on every platform.
    pub open spec fn default_for(target: PlatformTarget) -> Accessibility {
        Accessibility {
            subtitles_on: false,
            subtitle_scale: F32_ONE,
            reduce_motion: false,
            color_blind_mode: ColorBlindMode::Off,
        }
    }

    /// `self` with every field that `o` sets replaced by its value.
    pub open spec fn merged(self, o: AccessibilityOverrides) -> Accessibility {
        Accessibility {
            subtitles_on: overridden(o.subtitles_on, self.subtitles_on),
            subtitle_scale: overridden(o.subtitle_scale, self.subtitle_scale),
            reduce_motion: overridden(o.reduce_motion, self.reduce_motion),
            color_blind_mode: overridden(o.color_blind_mode, self.color_blind_mode),
        }
    }

    /// The fields of `self` that differ from `default`.
    pub open spec fn diff_from(self, default: Accessibility) -> AccessibilityOverrides {
        AccessibilityOverrides {
            subtitles_on: changed(self.subtitles_on, default.subtitles_on),
            subtitle_scale: changed_f32(self.subtitle_scale, default.subtitle_scale),
            reduce_motion: changed(self.reduce_motion, default.reduce_motion),
            color_blind_mode: changed(self.color_blind_mode, default.color_blind_mode),
        }
    }

    /// Platform-appropriate defaults (the same on every platform).
    pub fn platform_default(target: PlatformTarget) -> (a: Self)
        ensures
            a == Accessibility::default_for(target),
    {
        Self {
            subtitles_on: false,
            subtitle_scale: F32_ONE,
            reduce_motion: false,
            color_blind_mode: ColorBlindMode::Off,
        }
    }

    /// Apply the fields `o` sets.
    pub fn merge(&mut self, o: &AccessibilityOverrides)
        ensures
            *final(self) == old(self).merged(*o),
    {
        if let Some(v) = o.subtitles_on {
            self.subtitles_on = v;
        }
        if let Some(v) = o.subtitle_scale {
            self.subtitle_scale = v;
        }
        if let Some(v) = o.reduce_motion {
            self.reduce_motion = v;
        }
        if let Some(v) = o.color_blind_mode {
            self.color_blind_mode = v;
        }
    }

    /// Sparse overrides holding the fields that differ from `default`.
    pub fn diff(&self, default: &Self) -> (o: AccessibilityOverrides)
        ensures
            o == self.diff_from(*default),
    {
        AccessibilityOverrides {
            subtitles_on: if self.subtitles_on != default.subtitles_on {
                Some(self.subtitles_on)
            } else {
                None
            },
            subtitle_scale: if !f32_bits_eq(self.subtitle_scale, default.subtitle_scale) {
                Some(self.subtitle_scale)
            } else {
                None
            },
            reduce_motion: if self.reduce_motion != default.reduce_motion {
                Some(self.reduce_motion)
            } else {
                None
            },
            color_blind_mode: if self.color_blind_mode != default.color_blind_mode {
                Some(self.color_blind_mode)
            } else {
                None
            },
        }
    }
}

impl CapsAware for Accessibility {
    /// `self` with the subtitle scale clamped to `[0.5, 3]`.
    open spec fn clamped(self, caps: AdapterCaps) -> Accessibility {
        Accessibility { subtitle_scale: f32_clamp(self.subtitle_scale, F32_HALF, F32_THREE), ..self }
    }


    fn clamp_to(&mut self, caps: AdapterCaps) {
        self.subtitle_scale = f32_bits_clamp(self.subtitle_scale, F32_HALF, F32_THREE);
    }
}

/// The default has subtitles off at unit scale, full motion and no
/// colour-blind compensation, on every platform.
pub proof fn lemma_accessibility_defaults(target: PlatformTarget)
    ensures
        !Accessibility::default_for(target).subtitles_on,
        Accessibility::default_for(target).subtitle_scale == F32_ONE,
        !Accessibility::default_for(target).reduce_motion,
        Accessibility::default_for(target).color_blind_mode == ColorBlindMode::Off,
{
}

/// Merging sets exactly the fields the overrides carry, to the carried
/// value, and keeps every other field.
pub proof fn lemma_accessibility_merge(s: Accessibility, o: AccessibilityOverrides)
    ensures
        o.subtitles_on matches Some(v) ==> s.merged(o).subtitles_on == v,
        o.subtitles_on is None ==> s.merged(o).subtitles_on == s.subtitles_on,
        o.subtitle_scale matches Some(v) ==> s.merged(o).subtitle_scale == v,
        o.subtitle_scale is None ==> s.merged(o).subtitle_scale == s.subtitle_scale,
        o.reduce_motion matches Some(v) ==> s.merged(o).reduce_motion == v,
        o.reduce_motion is None ==> s.merged(o).reduce_motion == s.reduce_motion,
        o.color_blind_mode matches Some(v) ==> s.merged(o).color_blind_mode == v,
        o.color_blind_mode is None ==> s.merged(o).color_blind_mode == s.color_blind_mode,
{
}

/// The diff is sparse: a field is stored exactly when it differs from the
/// default (real values under IEEE equality), and then with its own value.
pub proof fn lemma_accessibility_diff_sparse(s: Accessibility, d: Accessibility)
    ensures
        (s.diff_from(d).subtitles_on is Some) <==> s.subtitles_on != d.subtitles_on,
        s.diff_from(d).subtitles_on matches Some(v) ==> v == s.subtitles_on,
        (s.diff_from(d).reduce_motion is Some) <==> s.reduce_motion != d.reduce_motion,
        s.diff_from(d).reduce_motion matches Some(v) ==> v == s.reduce_motion,
        (s.diff_from(d).color_blind_mode is Some) <==> s.color_blind_mode != d.color_blind_mode,
        s.diff_from(d).color_blind_mode matches Some(v) ==> v == s.color_blind_mode,
        (s.diff_from(d).subtitle_scale is Some) <==> !f32_eq(s.subtitle_scale, d.subtitle_scale),
        s.diff_from(d).subtitle_scale matches Some(v) ==> v == s.subtitle_scale,
{
}

/// Clamping brings the subtitle scale into `[0.5, 3]`, whatever the caps:
/// kept when inside, raised to 0.5 when below, lowered to 3 when above; no
/// other field changes.
pub proof fn lemma_accessibility_clamp(s: Accessibility, caps: AdapterCaps)
    ensures
        !is_nan(s.subtitle_scale) && f32_le(F32_HALF, s.subtitle_scale) && f32_le(
            s.subtitle_scale,
            F32_THREE,
        ) ==> s.clamped(caps).subtitle_scale == s.subtitle_scale,
        f32_lt(s.subtitle_scale, F32_HALF) ==> s.clamped(caps).subtitle_scale == F32_HALF,
        f32_lt(F32_THREE, s.subtitle_scale) ==> s.clamped(caps).subtitle_scale == F32_THREE,
        !is_nan(s.subtitle_scale) ==> f32_le(F32_HALF, s.clamped(caps).subtitle_scale) && f32_le(
            s.clamped(caps).subtitle_scale,
            F32_THREE,
        ),
        is_nan(s.subtitle_scale) ==> s.clamped(caps).subtitle_scale == s.subtitle_scale,
        s.clamped(caps).subtitles_on == s.subtitles_on,
        s.clamped(caps).reduce_motion == s.reduce_motion,
        s.clamped(caps).color_blind_mode == s.color_blind_mode,
{
    lemma_constants_ordered();
    lemma_clamp_cases(s.subtitle_scale, F32_HALF, F32_THREE);
    lemma_clamp_within(s.subtitle_scale, F32_HALF, F32_THREE);
}

} // verus!
