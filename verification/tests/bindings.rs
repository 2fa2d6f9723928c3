//! Binding plans for the primary window and tagged cameras.

use bevy_settings_plus::bindings::{anti_alias_plan, plan_display, plan_upscaler};
use bevy_settings_plus::prelude::{
    AdapterCaps, AntiAlias, Backend, ComponentOp, DisplaySettings, MonitorSelection, PhysicalSize,
    PlatformTarget, PresentTarget, Resolution, Upscaler, UpscalerAction, UpscalerPreset,
    VsyncMode, WindowMode, WindowTarget,
};

#[test]
fn anti_alias_plan_inserts_only_the_chosen_technique() {
    let p = anti_alias_plan(AntiAlias::Off);
    assert_eq!((p.taa, p.fxaa, p.smaa), (ComponentOp::Remove, ComponentOp::Remove, ComponentOp::Remove));
    let p = anti_alias_plan(AntiAlias::Fxaa);
    assert_eq!((p.taa, p.fxaa, p.smaa), (ComponentOp::Remove, ComponentOp::Insert, ComponentOp::Remove));
    let p = anti_alias_plan(AntiAlias::Smaa);
    assert_eq!((p.taa, p.fxaa, p.smaa), (ComponentOp::Remove, ComponentOp::Remove, ComponentOp::Insert));
    let p = anti_alias_plan(AntiAlias::Taa);
    assert_eq!((p.taa, p.fxaa, p.smaa), (ComponentOp::Insert, ComponentOp::Remove, ComponentOp::Remove));
}

#[test]
fn display_plan_maps_modes_and_resizes_only_on_change() {
    let mut d = DisplaySettings::platform_default(PlatformTarget::LinuxDesktop);
    let p = plan_display(&d, 1920, 1080, true);
    assert_eq!(p.window_mode, WindowTarget::Windowed);
    assert_eq!(p.present_mode, PresentTarget::AutoVsync);
    assert_eq!(p.resize, None);

    d.window_mode = WindowMode::Fullscreen;
    d.monitor = MonitorSelection::Index(2);
    d.vsync = VsyncMode::Off;
    d.resolution = Resolution::Custom { width: 1280, height: 720 };
    let p = plan_display(&d, 1920, 1080, true);
    assert_eq!(p.window_mode, WindowTarget::Fullscreen(MonitorSelection::Index(2)));
    assert_eq!(p.present_mode, PresentTarget::Immediate);
    // Without immediate presentation, vsync off falls back to automatic no-vsync.
    assert_eq!(plan_display(&d, 1920, 1080, false).present_mode, PresentTarget::AutoNoVsync);
    assert_eq!(p.resize, Some(PhysicalSize { width: 1280, height: 720 }));
    assert_eq!(plan_display(&d, 1280, 720, true).resize, None);
    assert_eq!(
        plan_display(&d, 1280, 1080, true).resize,
        Some(PhysicalSize { width: 1280, height: 720 })
    );

    d.window_mode = WindowMode::BorderlessFullscreen;
    d.monitor = MonitorSelection::Primary;
    d.vsync = VsyncMode::On;
    let p = plan_display(&d, 0, 0, true);
    assert_eq!(p.window_mode, WindowTarget::BorderlessFullscreen(MonitorSelection::Primary));
    assert_eq!(p.present_mode, PresentTarget::Fifo);
    d.vsync = VsyncMode::Mailbox;
    assert_eq!(plan_display(&d, 0, 0, true).present_mode, PresentTarget::Mailbox);
    assert_eq!(plan_display(&d, 0, 0, false).present_mode, PresentTarget::Mailbox);
    d.vsync = VsyncMode::Auto;
    assert_eq!(plan_display(&d, 0, 0, false).present_mode, PresentTarget::AutoVsync);
}

#[test]
fn upscaler_plan_inserts_dlss_only_where_supported() {
    let nvidia = AdapterCaps::from_adapter(Backend::Vulkan, 0x10DE, 16384, true, true);
    let intel = AdapterCaps::from_adapter(Backend::Vulkan, 0x8086, 8192, false, true);
    let dlss = Upscaler::Dlss(UpscalerPreset::Performance);

    let p = plan_upscaler(dlss, Some(nvidia), true);
    assert!(p.clear_dlss);
    assert_eq!(p.action, UpscalerAction::InsertDlss(UpscalerPreset::Performance));
    assert_eq!(plan_upscaler(dlss, Some(intel), true).action, UpscalerAction::DlssUnsupported);
    assert_eq!(plan_upscaler(dlss, None, true).action, UpscalerAction::DlssUnsupported);

    let p = plan_upscaler(dlss, Some(nvidia), false);
    assert!(!p.clear_dlss);
    assert_eq!(p.action, UpscalerAction::DlssDisabled);

    assert_eq!(plan_upscaler(Upscaler::Native, Some(nvidia), true).action, UpscalerAction::Native);
    let fsr = Upscaler::Fsr(UpscalerPreset::Quality);
    assert_eq!(plan_upscaler(fsr, Some(nvidia), true).action, UpscalerAction::NotWired(fsr));
}
