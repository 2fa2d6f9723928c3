//! `Render` axis: anti-alias, MSAA, upscaler, render scale, sharpness, RT toggle.

use vstd::prelude::*;

use crate::caps::{AdapterCaps, PlatformTarget};
use crate::caps_aware::CapsAware;
use crate::common::{changed, changed_f32, opt_f32_eq, overridden, same_opt_f32};
use crate::ieee::{
    f32_bits_clamp, f32_bits_eq, f32_clamp, f32_eq, f32_le, f32_lt, is_nan, lemma_clamp_cases,
    lemma_clamp_within, lemma_constants_ordered, F32_ONE, F32_QUARTER, F32_ZERO,
};

verus! {

/// Anti-aliasing technique. The techniques are mutually exclusive on a camera.
#[derive(Debug, Clone, Copy, PartialEq, Eq, Structural)]
#[non_exhaustive]
pub enum AntiAlias {
    Off,
    Fxaa,
    Smaa,
    Taa,
}

/// MSAA sample count.
#[derive(Debug, Clone, Copy, PartialEq, Eq, Structural)]
pub enum MsaaLevel {
    Off,
    Sample2,
    Sample4,
    Sample8,
}

/// Quality preset for upscalers (DLSS / FSR / XeSS / TSR).
#[derive(Debug, Clone, Copy, PartialEq, Eq, Structural)]
#[non_exhaustive]
pub enum UpscalerPreset {
    Quality,
    Balanced,
    Performance,
    UltraPerformance,
}

/// Upscaler choice. Only `Native` and `Dlss` are wired to the engine; the
/// others are schema slots that fall back to `Native` when applied.
#[derive(Debug, Clone, Copy, PartialEq, Eq, Structural)]
#[non_exhaustive]
pub enum Upscaler {
    Native,
    Dlss(UpscalerPreset),
    Fsr(UpscalerPreset),
    Xess(UpscalerPreset),
    Tsr(UpscalerPreset),
}

/// Populated render settings.
///
/// The real-valued fields hold the bit pattern of an `f32`
/// (see [`crate::ieee`]); equality compares them as `f32` values.
#[derive(Debug, Clone, Copy)]
pub struct Render {
    pub anti_alias: AntiAlias,
    pub msaa: MsaaLevel,
    pub upscaler: Upscaler,
    /// Render-target downscale factor in `(0, 1]`. 1.0 = native render
    /// resolution; lower = render at fewer pixels and upscale.
    pub render_scale: u32,
    /// Post-upscale sharpening strength in `[0, 1]`.
    pub sharpness: u32,
    /// Master ray-tracing toggle. The bindings do not consume this directly;
    /// consumers gate their ray-tracing plugins on it.
    pub ray_tracing: bool,
}

/// Sparse overrides for [`Render`].
#[derive(Debug, Clone, Copy)]
pub struct RenderOverrides {
    pub anti_alias: Option<AntiAlias>,
    pub msaa: Option<MsaaLevel>,
    pub upscaler: Option<Upscaler>,
    pub render_scale: Option<u32>,
    pub sharpness: Option<u32>,
    pub ray_tracing: Option<bool>,
}

/// Same settings under IEEE equality of the real-valued fields.
pub open spec fn render_equivalent(a: Render, b: Render) -> bool {
    &&& a.anti_alias == b.anti_alias
    &&& a.msaa == b.msaa
    &&& a.upscaler == b.upscaler
    &&& (a.render_scale == b.render_scale || crate::ieee::f32_eq(a.render_scale, b.render_scale))
    &&& (a.sharpness == b.sharpness || crate::ieee::f32_eq(a.sharpness, b.sharpness))
    &&& a.ray_tracing == b.ray_tracing
}

impl RenderOverrides {
    /// Overrides that set nothing.
    pub open spec fn empty() -> Self {
        RenderOverrides {
            anti_alias: None,
            msaa: None,
            upscaler: None,
            render_scale: None,
            sharpness: None,
            ray_tracing: None,
        }
    }
}

impl PartialEq for RenderOverrides {
    fn eq(&self, other: &Self) -> (r: bool) {
        self.anti_alias == other.anti_alias && self.msaa == other.msaa && self.upscaler
            == other.upscaler && same_opt_f32(self.render_scale, other.render_scale)
            && same_opt_f32(self.sharpness, other.sharpness) && self.ray_tracing
            == other.ray_tracing
    }
}

impl vstd::std_specs::cmp::PartialEqSpecImpl for RenderOverrides {
    open spec fn obeys_eq_spec() -> bool {
        true
    }

    open spec fn eq_spec(&self, other: &Self) -> bool {
        &&& self.anti_alias == other.anti_alias
        &&& self.msaa == other.msaa
        &&& self.upscaler == other.upscaler
        &&& opt_f32_eq(self.render_scale, other.render_scale)
        &&& opt_f32_eq(self.sharpness, other.sharpness)
        &&& self.ray_tracing == other.ray_tracing
    }
}

impl PartialEq for Render {
    fn eq(&self, other: &Self) -> (r: bool) {
        self.anti_alias == other.anti_alias && self.msaa == other.msaa && self.upscaler
            == other.upscaler && f32_bits_eq(self.render_scale, other.render_scale)
            && f32_bits_eq(self.sharpness, other.sharpness) && self.ray_tracing
            == other.ray_tracing
    }
}

impl vstd::std_specs::cmp::PartialEqSpecImpl for Render {
    open spec fn obeys_eq_spec() -> bool {
        true
    }

    open spec fn eq_spec(&self, other: &Self) -> bool {
        &&& self.anti_alias == other.anti_alias
        &&& self.msaa == other.msaa
        &&& self.upscaler == other.upscaler
        &&& f32_eq(self.render_scale, other.render_scale)
        &&& f32_eq(self.sharpness, other.sharpness)
        &&& self.ray_tracing == other.ray_tracing
    }
}

impl Default for RenderOverrides {
    fn default() -> (o: Self)
        ensures
            o == RenderOverrides::empty(),
    {
        RenderOverrides {
            anti_alias: None,
            msaa: None,
            upscaler: None,
            render_scale: None,
            sharpness: None,
            ray_tracing: None,
        }
    }
}

impl Render {
    /// The platform default: conservative on wasm (no temporal AA),
    /// TAA elsewhere; no MSAA, native upscaling, full render scale, no
    /// sharpening, ray tracing off.
    pub open spec fn default_for(target: PlatformTarget) -> Render {
        Render {
            anti_alias: if target == PlatformTarget::Wasm {
                AntiAlias::Off
            } else {
                AntiAlias::Taa
            },
            msaa: MsaaLevel::Off,
            upscaler: Upscaler::Native,
            render_scale: F32_ONE,
            sharpness: F32_ZERO,
            ray_tracing: false,
        }
    }

    /// `self` with every field that `o` sets replaced by its value.
    pub open spec fn merged(self, o: RenderOverrides) -> Render {
        Render {
            anti_alias: overridden(o.anti_alias, self.anti_alias),
            msaa: overridden(o.msaa, self.msaa),
            upscaler: overridden(o.upscaler, self.upscaler),
            render_scale: overridden(o.render_scale, self.render_scale),
            sharpness: overridden(o.sharpness, self.sharpness),
            ray_tracing: overridden(o.ray_tracing, self.ray_tracing),
        }
    }

    /// The fields of `self` that differ from `default`.
    pub open spec fn diff_from(self, default: Render) -> RenderOverrides {
        RenderOverrides {
            anti_alias: changed(self.anti_alias, default.anti_alias),
            msaa: changed(self.msaa, default.msaa),
            upscaler: changed(self.upscaler, default.upscaler),
            render_scale: changed_f32(self.render_scale, default.render_scale),
            sharpness: changed_f32(self.sharpness, default.sharpness),
            ray_tracing: changed(self.ray_tracing, default.ray_tracing),
        }
    }

    /// Conservative, platform-appropriate defaults.
    pub fn platform_default(target: PlatformTarget) -> (r: Self)
        ensures
            r == Render::default_for(target),
    {
        match target {
            PlatformTarget::Wasm => Self {
                anti_alias: AntiAlias::Off,
                msaa: MsaaLevel::Off,
                upscaler: Upscaler::Native,
                render_scale: F32_ONE,
                sharpness: F32_ZERO,
                ray_tracing: false,
            },
            _ => Self {
                anti_alias: AntiAlias::Taa,
                msaa: MsaaLevel::Off,
                upscaler: Upscaler::Native,
                render_scale: F32_ONE,
                sharpness: F32_ZERO,
                ray_tracing: false,
            },
        }
    }

    /// Apply the fields `o` sets.
    pub fn merge(&mut self, o: &RenderOverrides)
        ensures
            *final(self) == old(self).merged(*o),
    {
        if let Some(v) = o.anti_alias {
            self.anti_alias = v;
        }
        if let Some(v) = o.msaa {
            self.msaa = v;
        }
        if let Some(v) = o.upscaler {
            self.upscaler = v;
        }
        if let Some(v) = o.render_scale {
            self.render_scale = v;
        }
        if let Some(v) = o.sharpness {
            self.sharpness = v;
        }
        if let Some(v) = o.ray_tracing {
            self.ray_tracing = v;
        }
    }

    /// Sparse overrides holding the fields that differ from `default`
    /// (real-valued fields compared with IEEE equality).
    pub fn diff(&self, default: &Self) -> (o: RenderOverrides)
        ensures
            o == self.diff_from(*default),
    {
        RenderOverrides {
            anti_alias: if self.anti_alias != default.anti_alias {
                Some(self.anti_alias)
            } else {
                None
            },
            msaa: if self.msaa != default.msaa {
                Some(self.msaa)
            } else {
                None
            },
            upscaler: if self.upscaler != default.upscaler {
                Some(self.upscaler)
            } else {
                None
            },
            render_scale: if !f32_bits_eq(self.render_scale, default.render_scale) {
                Some(self.render_scale)
            } else {
                None
            },
            sharpness: if !f32_bits_eq(self.sharpness, default.sharpness) {
                Some(self.sharpness)
            } else {
                None
            },
            ray_tracing: if self.ray_tracing != default.ray_tracing {
                Some(self.ray_tracing)
            } else {
                None
            },
        }
    }
}

impl CapsAware for Render {
    /// `self` fitted to `caps`: ray tracing off without ray queries, DLSS
    /// replaced by native upscaling where DLSS is unreachable, render scale
    /// clamped to `[0.25, 1]` and sharpness to `[0, 1]`.
    open spec fn clamped(self, caps: AdapterCaps) -> Render {
        Render {
            ray_tracing: self.ray_tracing && caps.ray_query,
            upscaler: if self.upscaler is Dlss && !caps.supports_dlss {
                Upscaler::Native
            } else {
                self.upscaler
            },
            render_scale: f32_clamp(self.render_scale, F32_QUARTER, F32_ONE),
            sharpness: f32_clamp(self.sharpness, F32_ZERO, F32_ONE),
            ..self
        }
    }

    fn clamp_to(&mut self, caps: AdapterCaps) {
        // No ray-query support: force the master toggle off, whatever the
        // override said.
        if self.ray_tracing && !caps.ray_query {
            self.ray_tracing = false;
        }
        // DLSS without adapter support falls back to native upscaling.
        if matches!(self.upscaler, Upscaler::Dlss(_)) && !caps.supports_dlss {
            self.upscaler = Upscaler::Native;
        }
        self.render_scale = f32_bits_clamp(self.render_scale, F32_QUARTER, F32_ONE);
        self.sharpness = f32_bits_clamp(self.sharpness, F32_ZERO, F32_ONE);
    }
}

/// The default renders at native resolution with no sharpening, no MSAA,
/// native upscaling and ray tracing off, on every platform; anti-aliasing is
/// off on wasm and TAA elsewhere.
pub proof fn lemma_render_defaults(target: PlatformTarget)
    ensures
        Render::default_for(target).render_scale == F32_ONE,
        Render::default_for(target).sharpness == F32_ZERO,
        Render::default_for(target).msaa == MsaaLevel::Off,
        Render::default_for(target).upscaler == Upscaler::Native,
        !Render::default_for(target).ray_tracing,
        target == PlatformTarget::Wasm ==> Render::default_for(target).anti_alias == AntiAlias::Off,
        target != PlatformTarget::Wasm ==> Render::default_for(target).anti_alias == AntiAlias::Taa,
{
}

/// Merging sets exactly the fields the overrides carry, to the carried
/// value, and keeps every other field.
pub proof fn lemma_render_merge(s: Render, o: RenderOverrides)
    ensures
        o.anti_alias matches Some(v) ==> s.merged(o).anti_alias == v,
        o.anti_alias is None ==> s.merged(o).anti_alias == s.anti_alias,
        o.msaa matches Some(v) ==> s.merged(o).msaa == v,
        o.msaa is None ==> s.merged(o).msaa == s.msaa,
        o.upscaler matches Some(v) ==> s.merged(o).upscaler == v,
        o.upscaler is None ==> s.merged(o).upscaler == s.upscaler,
        o.render_scale matches Some(v) ==> s.merged(o).render_scale == v,
        o.render_scale is None ==> s.merged(o).render_scale == s.render_scale,
        o.sharpness matches Some(v) ==> s.merged(o).sharpness == v,
        o.sharpness is None ==> s.merged(o).sharpness == s.sharpness,
        o.ray_tracing matches Some(v) ==> s.merged(o).ray_tracing == v,
        o.ray_tracing is None ==> s.merged(o).ray_tracing == s.ray_tracing,
{
}

/// The diff is sparse: a field is stored exactly when it differs from the
/// default (real values under IEEE equality), and then with its own value.
pub proof fn lemma_render_diff_sparse(s: Render, d: Render)
    ensures
        (s.diff_from(d).anti_alias is Some) <==> s.anti_alias != d.anti_alias,
        s.diff_from(d).anti_alias matches Some(v) ==> v == s.anti_alias,
        (s.diff_from(d).msaa is Some) <==> s.msaa != d.msaa,
        s.diff_from(d).msaa matches Some(v) ==> v == s.msaa,
        (s.diff_from(d).upscaler is Some) <==> s.upscaler != d.upscaler,
        s.diff_from(d).upscaler matches Some(v) ==> v == s.upscaler,
        (s.diff_from(d).ray_tracing is Some) <==> s.ray_tracing != d.ray_tracing,
        s.diff_from(d).ray_tracing matches Some(v) ==> v == s.ray_tracing,
        (s.diff_from(d).render_scale is Some) <==> !f32_eq(s.render_scale, d.render_scale),
        s.diff_from(d).render_scale matches Some(v) ==> v == s.render_scale,
        (s.diff_from(d).sharpness is Some) <==> !f32_eq(s.sharpness, d.sharpness),
        s.diff_from(d).sharpness matches Some(v) ==> v == s.sharpness,
{
}

/// Clamping to caps: ray tracing survives only with ray queries, DLSS falls
/// back to native only where it is unreachable, anti-aliasing and MSAA are
/// untouched, and the render scale and sharpness are brought into
/// `[0.25, 1]` and `[0, 1]`: kept when inside, raised to the lower bound
/// when below, lowered to the upper bound when above.
pub proof fn lemma_render_clamp(s: Render, caps: AdapterCaps)
    ensures
        s.clamped(caps).ray_tracing == (s.ray_tracing && caps.ray_query),
        s.upscaler is Dlss && !caps.supports_dlss ==> s.clamped(caps).upscaler == Upscaler::Native,
        !(s.upscaler is Dlss && !caps.supports_dlss) ==> s.clamped(caps).upscaler == s.upscaler,
        s.clamped(caps).anti_alias == s.anti_alias,
        s.clamped(caps).msaa == s.msaa,
        !is_nan(s.render_scale) && f32_le(F32_QUARTER, s.render_scale) && f32_le(
            s.render_scale,
            F32_ONE,
        ) ==> s.clamped(caps).render_scale == s.render_scale,
        f32_lt(s.render_scale, F32_QUARTER) ==> s.clamped(caps).render_scale == F32_QUARTER,
        f32_lt(F32_ONE, s.render_scale) ==> s.clamped(caps).render_scale == F32_ONE,
        !is_nan(s.render_scale) ==> f32_le(F32_QUARTER, s.clamped(caps).render_scale) && f32_le(
            s.clamped(caps).render_scale,
            F32_ONE,
        ),
        !is_nan(s.sharpness) && f32_le(F32_ZERO, s.sharpness) && f32_le(s.sharpness, F32_ONE)
            ==> s.clamped(caps).sharpness == s.sharpness,
        f32_lt(s.sharpness, F32_ZERO) ==> s.clamped(caps).sharpness == F32_ZERO,
        f32_lt(F32_ONE, s.sharpness) ==> s.clamped(caps).sharpness == F32_ONE,
        !is_nan(s.sharpness) ==> f32_le(F32_ZERO, s.clamped(caps).sharpness) && f32_le(
            s.clamped(caps).sharpness,
            F32_ONE,
        ),
{
    lemma_constants_ordered();
    lemma_clamp_cases(s.render_scale, F32_QUARTER, F32_ONE);
    lemma_clamp_within(s.render_scale, F32_QUARTER, F32_ONE);
    lemma_clamp_cases(s.sharpness, F32_ZERO, F32_ONE);
    lemma_clamp_within(s.sharpness, F32_ZERO, F32_ONE);
}

} // verus!
