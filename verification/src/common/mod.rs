//! Settings schema: display, render, accessibility and audio axes, and the
//! aggregate [`CommonConfig`].

pub mod accessibility;
pub mod audio;
pub mod display;
pub mod render;

use vstd::prelude::*;

use crate::caps::{AdapterCaps, PlatformTarget};
use crate::caps_aware::CapsAware;
use crate::config::Config;
use crate::ieee::{
    f32_eq, f32_le, is_nan, lemma_clamp_within, F32_HALF, F32_ONE, F32_QUARTER, F32_THREE, F32_ZERO,
};
use vstd::std_specs::cmp::PartialEqSpec;
use self::accessibility::{accessibility_equivalent, Accessibility, AccessibilityOverrides};
use self::display::{DisplayOverrides, DisplaySettings};
use self::render::{render_equivalent, Render, RenderOverrides};

verus! {

/// The value an optional override leaves in place of `current`.
pub open spec fn overridden<T>(o: Option<T>, current: T) -> T {
    match o {
        Some(v) => v,
        None => current,
    }
}

/// `Some(value)` when it differs from `default`, else `None`.
pub open spec fn changed<T>(value: T, default: T) -> Option<T> {
    if value != default {
        Some(value)
    } else {
        None
    }
}

/// `Some(value)` when the `f32` it encodes is not equal to `default`'s under
/// IEEE equality, else `None`.
pub open spec fn changed_f32(value: u32, default: u32) -> Option<u32> {
    if !f32_eq(value, default) {
        Some(value)
    } else {
        None
    }
}

/// Whether `v` equals the type's default value: a sparse-overrides value that
/// sets nothing can be left out when stored.
pub fn is_default_overrides<T: Default + PartialEq>(v: &T) -> (r: bool)
    ensures
        T::obeys_eq_spec() ==> exists|d: T| call_ensures(T::default, (), d) && r == v.eq_spec(&d),
{
    let d = T::default();
    *v == d
}

/// The render axis under its settings-resource name.
pub type RenderSettings = Render;

/// The accessibility axis under its settings-resource name.
pub type AccessibilitySettings = Accessibility;

/// Aggregate of the display, render and accessibility axes.
#[derive(Debug, Clone, Copy)]
pub struct CommonConfig {
    pub display: DisplaySettings,
    pub render: Render,
    pub accessibility: Accessibility,
}

/// Sparse overrides for [`CommonConfig`].
#[derive(Debug, Clone, Copy)]
pub struct CommonConfigOverrides {
    pub display: DisplayOverrides,
    pub render: RenderOverrides,
    pub accessibility: AccessibilityOverrides,
}

impl CommonConfigOverrides {
    /// Overrides that set nothing on any axis.
    pub open spec fn empty() -> Self {
        CommonConfigOverrides {
            display: DisplayOverrides::empty(),
            render: RenderOverrides::empty(),
            accessibility: AccessibilityOverrides::empty(),
        }
    }
}

impl PartialEq for CommonConfigOverrides {
    fn eq(&self, other: &Self) -> (r: bool) {
        self.display == other.display && self.render == other.render && self.accessibility == other.accessibility
    }
}

impl vstd::std_specs::cmp::PartialEqSpecImpl for CommonConfigOverrides {
    open spec fn obeys_eq_spec() -> bool {
        true
    }

    open spec fn eq_spec(&self, other: &Self) -> bool {
        &&& self.display == other.display
        &&& PartialEqSpec::eq_spec(&self.render, &other.render)
        &&& PartialEqSpec::eq_spec(&self.accessibility, &other.accessibility)
    }
}

impl PartialEq for CommonConfig {
    fn eq(&self, other: &Self) -> (r: bool) {
        self.display == other.display && self.render == other.render && self.accessibility
            == other.accessibility
    }
}

impl vstd::std_specs::cmp::PartialEqSpecImpl for CommonConfig {
    open spec fn obeys_eq_spec() -> bool {
        true
    }

    open spec fn eq_spec(&self, other: &Self) -> bool {
        &&& self.display == other.display
        &&& PartialEqSpec::eq_spec(&self.render, &other.render)
        &&& PartialEqSpec::eq_spec(&self.accessibility, &other.accessibility)
    }
}

impl Default for CommonConfigOverrides {
    fn default() -> (o: Self)
        ensures
            o == CommonConfigOverrides::empty(),
    {
        CommonConfigOverrides {
            display: DisplayOverrides::default(),
            render: RenderOverrides::default(),
            accessibility: AccessibilityOverrides::default(),
        }
    }
}

impl Config for CommonConfig {
    type Overrides = CommonConfigOverrides;
    /// Each axis at its platform default.
    open spec fn default_for(target: PlatformTarget) -> CommonConfig {
        CommonConfig {
            display: DisplaySettings::default_for(target),
            render: Render::default_for(target),
            accessibility: Accessibility::default_for(target),
        }
    }

    /// Each axis with its overrides applied.
    open spec fn merged(self, o: CommonConfigOverrides) -> CommonConfig {
        CommonConfig {
            display: self.display.merged(o.display),
            render: self.render.merged(o.render),
            accessibility: self.accessibility.merged(o.accessibility),
        }
    }

    /// Each axis fitted to `caps`.
    open spec fn clamped(self, caps: AdapterCaps) -> CommonConfig {
        CommonConfig {
            display: self.display,
            render: self.render.clamped(caps),
            accessibility: self.accessibility.clamped(caps),
        }
    }

    /// Per axis, the fields that differ from the platform default.
    open spec fn overrides_for(self, target: PlatformTarget) -> CommonConfigOverrides {
        let d = CommonConfig::default_for(target);
        CommonConfigOverrides {
            display: self.display.diff_from(d.display),
            render: self.render.diff_from(d.render),
            accessibility: self.accessibility.diff_from(d.accessibility),
        }
    }

    fn platform_default(target: PlatformTarget) -> (c: Self) {
        Self {
            display: DisplaySettings::platform_default(target),
            render: Render::platform_default(target),
            accessibility: Accessibility::platform_default(target),
        }
    }

    fn merge(&mut self, overrides: &CommonConfigOverrides) {
        self.display.merge(&overrides.display);
        self.render.merge(&overrides.render);
        self.accessibility.merge(&overrides.accessibility);
    }

    fn clamp_to(&mut self, caps: &AdapterCaps) {
        self.display.clamp_to(*caps);
        self.render.clamp_to(*caps);
        self.accessibility.clamp_to(*caps);
    }

    fn current_overrides(&self, target: PlatformTarget) -> (o: CommonConfigOverrides) {
        let default = Self::platform_default(target);
        CommonConfigOverrides {
            display: self.display.diff(&default.display),
            render: self.render.diff(&default.render),
            accessibility: self.accessibility.diff(&default.accessibility),
        }
    }
}

/// The same configuration: display settings identical, render and
/// accessibility settings identical up to IEEE equality of their real values.
pub open spec fn config_equivalent(a: CommonConfig, b: CommonConfig) -> bool {
    &&& a.display == b.display
    &&& render_equivalent(a.render, b.render)
    &&& accessibility_equivalent(a.accessibility, b.accessibility)
}

/// Settings that fit the adapter: ray tracing only with ray queries, DLSS
/// only where it is reachable, and every real value inside its range (or
/// NaN, which clamping leaves as it is).
pub open spec fn fits_caps(c: CommonConfig, caps: AdapterCaps) -> bool {
    &&& c.render.ray_tracing ==> caps.ray_query
    &&& c.render.upscaler is Dlss ==> caps.supports_dlss
    &&& !is_nan(c.render.render_scale) ==> f32_le(F32_QUARTER, c.render.render_scale) && f32_le(
        c.render.render_scale,
        F32_ONE,
    )
    &&& !is_nan(c.render.sharpness) ==> f32_le(F32_ZERO, c.render.sharpness) && f32_le(
        c.render.sharpness,
        F32_ONE,
    )
    &&& !is_nan(c.accessibility.subtitle_scale) ==> f32_le(F32_HALF, c.accessibility.subtitle_scale)
        && f32_le(c.accessibility.subtitle_scale, F32_THREE)
}

/// Merging overrides that set nothing leaves a configuration unchanged.
pub proof fn lemma_merge_nothing(c: CommonConfig)
    ensures
        c.merged(CommonConfigOverrides::empty()) == c,
{
}

/// Merging the same overrides twice is the same as merging them once.
pub proof fn lemma_merge_idempotent(c: CommonConfig, o: CommonConfigOverrides)
    ensures
        c.merged(o).merged(o) == c.merged(o),
{
}

/// A configuration still at its platform default has no overrides to store.
pub proof fn lemma_default_has_no_overrides(target: PlatformTarget)
    ensures
        CommonConfig::default_for(target).overrides_for(target) == CommonConfigOverrides::empty(),
{
}

/// No real-valued setting is NaN.
pub open spec fn has_no_nan(c: CommonConfig) -> bool {
    &&& !is_nan(c.render.render_scale)
    &&& !is_nan(c.render.sharpness)
    &&& !is_nan(c.accessibility.subtitle_scale)
}

/// Storing the overrides of a configuration and merging them back onto the
/// platform default rebuilds the configuration: every setting comes back
/// identical, except that a real value IEEE-equal to its default (such as
/// `-0.0` against `0.0`) comes back as the default. Without NaNs the rebuilt
/// configuration is `==` to the original.
pub proof fn lemma_overrides_round_trip(c: CommonConfig, target: PlatformTarget)
    ensures
        config_equivalent(
            CommonConfig::default_for(target).merged(c.overrides_for(target)),
            c,
        ),
        has_no_nan(c) ==> PartialEqSpec::eq_spec(
            &CommonConfig::default_for(target).merged(c.overrides_for(target)),
            &c,
        ),
{
}

/// Clamping fits a configuration to the adapter, and a clamped configuration
/// is left unchanged by clamping again.
pub proof fn lemma_clamp_fits_caps(c: CommonConfig, caps: AdapterCaps)
    ensures
        fits_caps(c.clamped(caps), caps),
        c.clamped(caps).clamped(caps) == c.clamped(caps),
{
    lemma_clamp_within(c.render.render_scale, F32_QUARTER, F32_ONE);
    lemma_clamp_within(c.render.sharpness, F32_ZERO, F32_ONE);
    lemma_clamp_within(c.accessibility.subtitle_scale, F32_HALF, F32_THREE);
}

/// Clamping keeps what the adapter supports: ray tracing stays on with ray
/// queries, DLSS stays selected where reachable, and nothing but the
/// ray-tracing toggle, the upscaler and the real-valued ranges changes.
pub proof fn lemma_clamp_keeps_supported(c: CommonConfig, caps: AdapterCaps)
    ensures
        caps.ray_query ==> c.clamped(caps).render.ray_tracing == c.render.ray_tracing,
        caps.supports_dlss ==> c.clamped(caps).render.upscaler == c.render.upscaler,
        c.clamped(caps).display == c.display,
        c.clamped(caps).render.anti_alias == c.render.anti_alias,
        c.clamped(caps).render.msaa == c.render.msaa,
        c.clamped(caps).accessibility.subtitles_on == c.accessibility.subtitles_on,
        c.clamped(caps).accessibility.reduce_motion == c.accessibility.reduce_motion,
        c.clamped(caps).accessibility.color_blind_mode == c.accessibility.color_blind_mode,
{
}

/// Resolving in order (platform default, then stored overrides, then clamp)
/// means no stored override can re-enable a feature the adapter lacks.
pub proof fn lemma_overrides_cannot_exceed_caps(
    target: PlatformTarget,
    stored: CommonConfigOverrides,
    caps: AdapterCaps,
)
    ensures
        fits_caps(CommonConfig::default_for(target).merged(stored).clamped(caps), caps),
{
    lemma_clamp_fits_caps(CommonConfig::default_for(target).merged(stored), caps);
}

/// The aggregate is made of its axes: its default, merge, clamp and stored
/// overrides are those of the display, render and accessibility axes, and
/// clamping leaves the display axis as it is.
pub proof fn lemma_config_is_its_axes(
    c: CommonConfig,
    o: CommonConfigOverrides,
    caps: AdapterCaps,
    target: PlatformTarget,
)
    ensures
        CommonConfig::default_for(target).display == DisplaySettings::default_for(target),
        CommonConfig::default_for(target).render == Render::default_for(target),
        CommonConfig::default_for(target).accessibility == Accessibility::default_for(target),
        c.merged(o).display == c.display.merged(o.display),
        c.merged(o).render == c.render.merged(o.render),
        c.merged(o).accessibility == c.accessibility.merged(o.accessibility),
        c.clamped(caps).display == c.display,
        c.clamped(caps).render == c.render.clamped(caps),
        c.clamped(caps).accessibility == c.accessibility.clamped(caps),
        c.overrides_for(target).display == c.display.diff_from(DisplaySettings::default_for(target)),
        c.overrides_for(target).render == c.render.diff_from(Render::default_for(target)),
        c.overrides_for(target).accessibility == c.accessibility.diff_from(
            Accessibility::default_for(target),
        ),
{
}

/// Platform defaults already fit every adapter: clamping them changes
/// nothing.
pub proof fn lemma_defaults_fit_every_adapter(target: PlatformTarget, caps: AdapterCaps)
    ensures
        CommonConfig::default_for(target).clamped(caps) == CommonConfig::default_for(target),
{
    crate::ieee::lemma_constants_ordered();
    crate::ieee::lemma_clamp_cases(F32_ONE, F32_QUARTER, F32_ONE);
    crate::ieee::lemma_clamp_cases(F32_ZERO, F32_ZERO, F32_ONE);
    crate::ieee::lemma_clamp_cases(F32_ONE, F32_HALF, F32_THREE);
}

/// IEEE equality of two optional `f32` bit patterns.
pub open spec fn opt_f32_eq(a: Option<u32>, b: Option<u32>) -> bool {
    match (a, b) {
        (Some(x), Some(y)) => f32_eq(x, y),
        (None, None) => true,
        _ => false,
    }
}

pub(crate) fn same_opt_f32(a: Option<u32>, b: Option<u32>) -> (r: bool)
    ensures
        r == opt_f32_eq(a, b),
{
    match (a, b) {
        (Some(x), Some(y)) => crate::ieee::f32_bits_eq(x, y),
        (None, None) => true,
        _ => false,
    }
}

} // verus!
