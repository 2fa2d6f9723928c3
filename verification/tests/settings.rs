//! Per-axis merge and diff, the clamp pass, startup resolution, and the
//! round-trip of stored overrides.

use bevy_settings_plus::common::is_default_overrides;
use bevy_settings_plus::config::startup_config;
use bevy_settings_plus::prelude::{
    AdapterCaps, Audio, AudioOverrides, Backend, CapsAware, ChannelMode, ColorBlindMode,
    CommonConfig, CommonConfigOverrides, Config, DisplayOverrides, DisplaySettings, FpsCap,
    HdrPreference, PlatformTarget, Render, RenderOverrides, Resolution, Upscaler, UpscalerPreset,
    clamp_candidate,
};

fn intel() -> AdapterCaps {
    AdapterCaps::from_adapter(Backend::Vulkan, 0x8086, 8192, false, true)
}

fn nvidia() -> AdapterCaps {
    AdapterCaps::from_adapter(Backend::Vulkan, 0x10DE, 16384, true, true)
}

#[test]
fn display_merge_and_diff() {
    let target = PlatformTarget::WindowsDesktop;
    let default = DisplaySettings::platform_default(target);
    let mut d = default;
    let mut o = DisplayOverrides::default();
    o.fps_cap = Some(FpsCap::Capped(144));
    o.refresh_rate = Some(Some(120));
    o.hdr = Some(HdrPreference::Auto);
    d.merge(&o);
    assert_eq!(d.fps_cap, FpsCap::Capped(144));
    assert_eq!(d.refresh_rate, Some(120));
    assert_eq!(d.hdr, HdrPreference::Auto);
    assert_eq!(d.resolution, Resolution::Native);
    assert_eq!(d.diff(&default), o);

    // `Some(None)` resets the refresh rate.
    let mut reset = DisplayOverrides::default();
    reset.refresh_rate = Some(None);
    d.merge(&reset);
    assert_eq!(d.refresh_rate, None);
}

#[test]
fn audio_merge_diff_and_round_trip() {
    let target = PlatformTarget::LinuxDesktop;
    let default = Audio::platform_default(target);
    assert_eq!(default.channel_mode, ChannelMode::Stereo);
    assert_eq!(default.output_device, None);
    assert_eq!(default.diff(&default), AudioOverrides::default());

    let mut a = default.clone();
    a.music_db = (-6.0f32).to_bits();
    a.output_device = Some("hdmi-1".to_string());
    a.channel_mode = ChannelMode::Surround51;
    // -0.0 equals the 0.0 default and is not stored.
    a.sfx_db = (-0.0f32).to_bits();
    let o = a.diff(&default);
    assert_eq!(o.music_db, Some((-6.0f32).to_bits()));
    assert_eq!(o.output_device, Some(Some("hdmi-1".to_string())));
    assert_eq!(o.channel_mode, Some(ChannelMode::Surround51));
    assert_eq!(o.sfx_db, None);
    assert_eq!(o.master_db, None);

    let mut rebuilt = Audio::platform_default(target);
    rebuilt.merge(&o);
    assert_eq!(rebuilt, a);

    let mut b = rebuilt.clone();
    b.clamp_to(&nvidia());
    assert_eq!(b, rebuilt);
}

#[test]
fn render_merge_and_diff_use_float_equality() {
    let target = PlatformTarget::MacDesktop;
    let default = Render::platform_default(target);
    let mut r = default;
    let mut o = RenderOverrides::default();
    o.render_scale = Some(0.5f32.to_bits());
    o.upscaler = Some(Upscaler::Xess(UpscalerPreset::Balanced));
    r.merge(&o);
    assert_eq!(f32::from_bits(r.render_scale), 0.5);
    assert_eq!(r.diff(&default), o);

    r.sharpness = (-0.0f32).to_bits();
    assert_eq!(r.diff(&default).sharpness, None);
    r.sharpness = f32::NAN.to_bits();
    assert_eq!(r.diff(&default).sharpness, Some(f32::NAN.to_bits()));
    // NaN is not equal to itself.
    assert_ne!(r, r);
}

#[test]
fn round_trip_keeps_nan_and_drops_negative_zero() {
    let target = PlatformTarget::LinuxDesktop;
    let mut c = CommonConfig::platform_default(target);
    c.render.render_scale = f32::NAN.to_bits();
    c.render.sharpness = (-0.0f32).to_bits();
    c.accessibility.color_blind_mode = ColorBlindMode::Tritanopia;
    let o = c.current_overrides(target);
    let mut rebuilt = CommonConfig::platform_default(target);
    rebuilt.merge(&o);
    assert_eq!(rebuilt.render.render_scale, c.render.render_scale);
    assert_eq!(rebuilt.render.sharpness, 0.0f32.to_bits());
    assert_eq!(rebuilt.accessibility.color_blind_mode, ColorBlindMode::Tritanopia);
}

#[test]
fn clamp_is_idempotent_and_fits_caps() {
    let mut c = CommonConfig::platform_default(PlatformTarget::LinuxDesktop);
    c.render.ray_tracing = true;
    c.render.upscaler = Upscaler::Dlss(UpscalerPreset::UltraPerformance);
    c.render.render_scale = 0.1f32.to_bits();
    c.render.sharpness = 2.0f32.to_bits();
    c.accessibility.subtitle_scale = 0.1f32.to_bits();
    c.clamp_to(&intel());
    let once = c;
    assert!(!once.render.ray_tracing);
    assert_eq!(once.render.upscaler, Upscaler::Native);
    assert_eq!(f32::from_bits(once.render.render_scale), 0.25);
    assert_eq!(f32::from_bits(once.render.sharpness), 1.0);
    assert_eq!(f32::from_bits(once.accessibility.subtitle_scale), 0.5);
    c.clamp_to(&intel());
    assert_eq!(c, once);
}

#[test]
fn stored_overrides_cannot_exceed_caps() {
    let target = PlatformTarget::WindowsDesktop;
    let mut stored = CommonConfigOverrides::default();
    stored.render.ray_tracing = Some(true);
    stored.render.upscaler = Some(Upscaler::Dlss(UpscalerPreset::Quality));
    let mut c: CommonConfig = startup_config(target, Some(&stored));
    assert!(c.render.ray_tracing);
    c.clamp_to(&intel());
    assert!(!c.render.ray_tracing);
    assert_eq!(c.render.upscaler, Upscaler::Native);

    let mut d: CommonConfig = startup_config(target, Some(&stored));
    d.clamp_to(&nvidia());
    assert!(d.render.ray_tracing);
    assert_eq!(d.render.upscaler, Upscaler::Dlss(UpscalerPreset::Quality));
}

#[test]
fn startup_without_stored_overrides_is_the_default() {
    let c: CommonConfig = startup_config(PlatformTarget::Wasm, None);
    assert_eq!(c, CommonConfig::platform_default(PlatformTarget::Wasm));
}

#[test]
fn clamp_candidate_skips_no_op_clamps() {
    let r = Render::platform_default(PlatformTarget::LinuxDesktop);
    assert!(clamp_candidate(&r, intel()).is_none());

    let mut rt = r;
    rt.ray_tracing = true;
    let written = clamp_candidate(&rt, intel()).expect("clamp changes ray tracing");
    assert!(!written.ray_tracing);
    assert!(clamp_candidate(&rt, nvidia()).is_none());

    let d = DisplaySettings::default();
    assert!(clamp_candidate(&d, intel()).is_none());
}

#[test]
fn default_overrides_are_recognised() {
    assert!(is_default_overrides(&RenderOverrides::default()));
    assert!(is_default_overrides(&CommonConfigOverrides::default()));
    let mut o = DisplayOverrides::default();
    assert!(is_default_overrides(&o));
    o.hdr = Some(HdrPreference::On);
    assert!(!is_default_overrides(&o));
}
