//! What the engine bindings do to the primary window and to tagged cameras,
//! decided from the settings. The engine-side code carries out these plans.

use vstd::prelude::*;

use crate::caps::AdapterCaps;
use crate::common::display::{DisplaySettings, MonitorSelection, Resolution, VsyncMode, WindowMode};
use crate::common::render::{AntiAlias, Upscaler, UpscalerPreset};

verus! {

/// Whether a camera component should be present.
#[derive(Debug, Clone, Copy, PartialEq, Eq, Structural)]
pub enum ComponentOp {
    /// Insert the component with its default configuration.
    Insert,
    /// Remove the component if present.
    Remove,
}

/// One operation per anti-aliasing component of a camera.
#[derive(Debug, Clone, Copy, PartialEq, Eq, Structural)]
pub struct AntiAliasPlan {
    pub taa: ComponentOp,
    pub fxaa: ComponentOp,
    pub smaa: ComponentOp,
}

/// `Insert` when `wanted`, else `Remove`.
pub open spec fn op_for(wanted: bool) -> ComponentOp {
    if wanted {
        ComponentOp::Insert
    } else {
        ComponentOp::Remove
    }
}

/// The camera's anti-aliasing components for a technique: the chosen one is
/// inserted and the others removed, so at most one is ever present.
pub fn anti_alias_plan(mode: AntiAlias) -> (p: AntiAliasPlan)
    ensures
        p.taa == op_for(mode == AntiAlias::Taa),
        p.fxaa == op_for(mode == AntiAlias::Fxaa),
        p.smaa == op_for(mode == AntiAlias::Smaa),
{
    match mode {
        AntiAlias::Off => AntiAliasPlan {
            taa: ComponentOp::Remove,
            fxaa: ComponentOp::Remove,
            smaa: ComponentOp::Remove,
        },
        AntiAlias::Fxaa => AntiAliasPlan {
            taa: ComponentOp::Remove,
            fxaa: ComponentOp::Insert,
            smaa: ComponentOp::Remove,
        },
        AntiAlias::Smaa => AntiAliasPlan {
            taa: ComponentOp::Remove,
            fxaa: ComponentOp::Remove,
            smaa: ComponentOp::Insert,
        },
        AntiAlias::Taa => AntiAliasPlan {
            taa: ComponentOp::Insert,
            fxaa: ComponentOp::Remove,
            smaa: ComponentOp::Remove,
        },
    }
}

/// The window mode the primary window should have.
#[derive(Debug, Clone, Copy, PartialEq, Eq, Structural)]
pub enum WindowTarget {
    Windowed,
    /// Borderless fullscreen on the given monitor.
    BorderlessFullscreen(MonitorSelection),
    /// Exclusive fullscreen on the given monitor, keeping its current video
    /// mode.
    Fullscreen(MonitorSelection),
}

/// The present mode the primary window should have.
#[derive(Debug, Clone, Copy, PartialEq, Eq, Structural)]
pub enum PresentTarget {
    AutoVsync,
    /// Automatic no-vsync: the platform picks an unsynchronised mode.
    AutoNoVsync,
    Fifo,
    Immediate,
    Mailbox,
}

/// A physical window size in pixels.
#[derive(Debug, Clone, Copy, PartialEq, Eq, Structural)]
pub struct PhysicalSize {
    pub width: u32,
    pub height: u32,
}

/// What the display binding sets on the primary window.
#[derive(Debug, Clone, Copy, PartialEq, Eq, Structural)]
pub struct DisplayPlan {
    pub window_mode: WindowTarget,
    pub present_mode: PresentTarget,
    /// New physical resolution, when one must be set.
    pub resize: Option<PhysicalSize>,
}

pub open spec fn window_target_for(mode: WindowMode, monitor: MonitorSelection) -> WindowTarget {
    match mode {
        WindowMode::Windowed => WindowTarget::Windowed,
        WindowMode::BorderlessFullscreen => WindowTarget::BorderlessFullscreen(monitor),
        WindowMode::Fullscreen => WindowTarget::Fullscreen(monitor),
    }
}

/// The present mode for a vsync intent; vsync off presents immediately
/// where the platform supports it, else falls back to automatic no-vsync.
pub open spec fn present_target_for(vsync: VsyncMode, immediate_supported: bool) -> PresentTarget {
    match vsync {
        VsyncMode::Auto => PresentTarget::AutoVsync,
        VsyncMode::On => PresentTarget::Fifo,
        VsyncMode::Off => if immediate_supported {
            PresentTarget::Immediate
        } else {
            PresentTarget::AutoNoVsync
        },
        VsyncMode::Mailbox => PresentTarget::Mailbox,
    }
}

/// A custom resolution is applied only when it differs from the window's
/// current physical size; native resolution leaves the window alone.
pub open spec fn resize_for(resolution: Resolution, width: u32, height: u32) -> Option<PhysicalSize> {
    match resolution {
        Resolution::Custom { width: w, height: h } => if w != width || h != height {
            Some(PhysicalSize { width: w, height: h })
        } else {
            None
        },
        Resolution::Native => None,
    }
}

/// The primary window's target state for `display`, given its current
/// physical size and whether its surface supports immediate presentation.
pub fn plan_display(
    display: &DisplaySettings,
    physical_width: u32,
    physical_height: u32,
    immediate_supported: bool,
) -> (p: DisplayPlan)
    ensures
        p.window_mode == window_target_for(display.window_mode, display.monitor),
        p.present_mode == present_target_for(display.vsync, immediate_supported),
        p.resize == resize_for(display.resolution, physical_width, physical_height),
{
    let window_mode = match display.window_mode {
        WindowMode::Windowed => WindowTarget::Windowed,
        WindowMode::BorderlessFullscreen => WindowTarget::BorderlessFullscreen(display.monitor),
        WindowMode::Fullscreen => WindowTarget::Fullscreen(display.monitor),
    };
    let present_mode = match display.vsync {
        VsyncMode::Auto => PresentTarget::AutoVsync,
        VsyncMode::On => PresentTarget::Fifo,
        VsyncMode::Off => if immediate_supported {
            PresentTarget::Immediate
        } else {
            PresentTarget::AutoNoVsync
        },
        VsyncMode::Mailbox => PresentTarget::Mailbox,
    };
    let resize = match display.resolution {
        Resolution::Custom { width, height } => if width != physical_width || height
            != physical_height {
            Some(PhysicalSize { width, height })
        } else {
            None
        },
        Resolution::Native => None,
    };
    DisplayPlan { window_mode, present_mode, resize }
}

/// What the upscaler binding does to a camera, after clearing any DLSS
/// component it owns.
#[derive(Debug, Clone, Copy, PartialEq, Eq, Structural)]
pub enum UpscalerAction {
    /// Native rendering: nothing to insert.
    Native,
    /// Insert a DLSS super-resolution component with this preset.
    InsertDlss(UpscalerPreset),
    /// DLSS selected but the adapter cannot run it: warn, stay native.
    DlssUnsupported,
    /// DLSS selected but the DLSS binding is not compiled in: warn, stay
    /// native.
    DlssDisabled,
    /// An upscaler that has no binding yet: warn, stay native.
    NotWired(Upscaler),
}

/// The upscaler binding's plan for one camera.
#[derive(Debug, Clone, Copy, PartialEq, Eq, Structural)]
pub struct UpscalerPlan {
    /// Remove the DLSS component first (the DLSS binding owns it).
    pub clear_dlss: bool,
    pub action: UpscalerAction,
}

/// The adapter is known and can run DLSS.
pub open spec fn dlss_supported(caps: Option<AdapterCaps>) -> bool {
    match caps {
        Some(c) => c.supports_dlss,
        None => false,
    }
}

pub open spec fn upscaler_action(
    upscaler: Upscaler,
    caps: Option<AdapterCaps>,
    dlss_enabled: bool,
) -> UpscalerAction {
    match upscaler {
        Upscaler::Native => UpscalerAction::Native,
        Upscaler::Dlss(preset) => if !dlss_enabled {
            UpscalerAction::DlssDisabled
        } else if !dlss_supported(caps) {
            UpscalerAction::DlssUnsupported
        } else {
            UpscalerAction::InsertDlss(preset)
        },
        _ => UpscalerAction::NotWired(upscaler),
    }
}

/// The plan for `upscaler` on a camera, given the adapter's caps (if known)
/// and whether the DLSS binding is compiled in.
pub fn plan_upscaler(upscaler: Upscaler, caps: Option<AdapterCaps>, dlss_enabled: bool) -> (p:
    UpscalerPlan)
    ensures
        p.clear_dlss == dlss_enabled,
        p.action == upscaler_action(upscaler, caps, dlss_enabled),
{
    let action = match upscaler {
        Upscaler::Native => UpscalerAction::Native,
        Upscaler::Dlss(preset) => {
            if !dlss_enabled {
                UpscalerAction::DlssDisabled
            } else {
                let supported = match caps {
                    Some(c) => c.supports_dlss,
                    None => false,
                };
                if !supported {
                    UpscalerAction::DlssUnsupported
                } else {
                    UpscalerAction::InsertDlss(preset)
                }
            }
        },
        Upscaler::Fsr(_) | Upscaler::Xess(_) | Upscaler::Tsr(_) => UpscalerAction::NotWired(
            upscaler,
        ),
    };
    UpscalerPlan { clear_dlss: dlss_enabled, action }
}

/// The anti-aliasing techniques are mutually exclusive on a camera: a plan
/// never inserts two of their components.
pub proof fn lemma_anti_alias_exclusive(mode: AntiAlias)
    ensures
        ({
            let p = AntiAliasPlan {
                taa: op_for(mode == AntiAlias::Taa),
                fxaa: op_for(mode == AntiAlias::Fxaa),
                smaa: op_for(mode == AntiAlias::Smaa),
            };
            &&& p.taa == ComponentOp::Insert ==> p.fxaa == ComponentOp::Remove && p.smaa
                == ComponentOp::Remove
            &&& p.fxaa == ComponentOp::Insert ==> p.smaa == ComponentOp::Remove
            &&& (mode == AntiAlias::Off) == (p.taa == ComponentOp::Remove && p.fxaa
                == ComponentOp::Remove && p.smaa == ComponentOp::Remove)
        }),
{
}

/// A DLSS component is inserted only when the DLSS binding is compiled in
/// and the adapter is known to reach DLSS; any other upscaler choice leaves
/// the camera rendering natively.
pub proof fn lemma_dlss_only_where_supported(
    upscaler: Upscaler,
    caps: Option<AdapterCaps>,
    dlss_enabled: bool,
)
    ensures
        upscaler_action(upscaler, caps, dlss_enabled) is InsertDlss ==> dlss_enabled
            && dlss_supported(caps) && upscaler is Dlss,
{
}

/// The size the window has after the plan's resize (if any) is applied.
pub open spec fn size_after(resize: Option<PhysicalSize>, width: u32, height: u32) -> PhysicalSize {
    match resize {
        Some(size) => size,
        None => PhysicalSize { width, height },
    }
}

/// Resizing does what a custom resolution asks and nothing more: after the
/// plan the window has exactly the custom size, and the plan resizes exactly
/// when the current size differs from it in width or in height. Native
/// resolution never resizes.
pub proof fn lemma_resize_reaches_custom_size(
    resolution: Resolution,
    width: u32,
    height: u32,
    w: u32,
    h: u32,
)
    ensures
        resolution == (Resolution::Custom { width: w, height: h }) ==> size_after(
            resize_for(resolution, width, height),
            width,
            height,
        ) == (PhysicalSize { width: w, height: h }),
        resolution == (Resolution::Custom { width: w, height: h }) ==> ((resize_for(
            resolution,
            width,
            height,
        ) is Some) <==> (w != width || h != height)),
        resolution == Resolution::Native ==> resize_for(resolution, width, height) is None,
{
}

/// Each vsync intent has its present mode: driver vsync is automatic vsync,
/// on is FIFO, mailbox is mailbox, and off presents immediately exactly when
/// the surface supports it, falling back to automatic no-vsync otherwise.
pub proof fn lemma_present_modes(vsync: VsyncMode, immediate_supported: bool)
    ensures
        present_target_for(VsyncMode::Auto, immediate_supported) == PresentTarget::AutoVsync,
        present_target_for(VsyncMode::On, immediate_supported) == PresentTarget::Fifo,
        present_target_for(VsyncMode::Mailbox, immediate_supported) == PresentTarget::Mailbox,
        present_target_for(VsyncMode::Off, true) == PresentTarget::Immediate,
        present_target_for(VsyncMode::Off, false) == PresentTarget::AutoNoVsync,
        (present_target_for(vsync, immediate_supported) == PresentTarget::Immediate) <==> (vsync
            == VsyncMode::Off && immediate_supported),
{
}

/// Windowed mode ignores the monitor; both fullscreen modes go to the
/// selected monitor.
pub proof fn lemma_window_targets(monitor: MonitorSelection)
    ensures
        window_target_for(WindowMode::Windowed, monitor) == WindowTarget::Windowed,
        window_target_for(WindowMode::BorderlessFullscreen, monitor)
            == WindowTarget::BorderlessFullscreen(monitor),
        window_target_for(WindowMode::Fullscreen, monitor) == WindowTarget::Fullscreen(monitor),
{
}

/// Each technique inserts its own component and removes the other two;
/// anti-aliasing off removes all three.
pub proof fn lemma_anti_alias_components(mode: AntiAlias)
    ensures
        (op_for(mode == AntiAlias::Taa) == ComponentOp::Insert) <==> mode == AntiAlias::Taa,
        (op_for(mode == AntiAlias::Fxaa) == ComponentOp::Insert) <==> mode == AntiAlias::Fxaa,
        (op_for(mode == AntiAlias::Smaa) == ComponentOp::Insert) <==> mode == AntiAlias::Smaa,
        op_for(true) == ComponentOp::Insert,
        op_for(false) == ComponentOp::Remove,
{
}

/// The upscaler plan: native stays native; DLSS is inserted with the chosen
/// preset when the binding is compiled in and the adapter reaches it, and
/// otherwise reports which of the two is missing; the other upscalers are
/// reported as not wired. The DLSS component is cleared exactly when the
/// binding is compiled in.
pub proof fn lemma_upscaler_actions(
    preset: UpscalerPreset,
    caps: Option<AdapterCaps>,
    dlss_enabled: bool,
)
    ensures
        upscaler_action(Upscaler::Native, caps, dlss_enabled) == UpscalerAction::Native,
        dlss_enabled && dlss_supported(caps) ==> upscaler_action(
            Upscaler::Dlss(preset),
            caps,
            dlss_enabled,
        ) == UpscalerAction::InsertDlss(preset),
        !dlss_enabled ==> upscaler_action(Upscaler::Dlss(preset), caps, dlss_enabled)
            == UpscalerAction::DlssDisabled,
        dlss_enabled && !dlss_supported(caps) ==> upscaler_action(
            Upscaler::Dlss(preset),
            caps,
            dlss_enabled,
        ) == UpscalerAction::DlssUnsupported,
        upscaler_action(Upscaler::Fsr(preset), caps, dlss_enabled) == UpscalerAction::NotWired(
            Upscaler::Fsr(preset),
        ),
        upscaler_action(Upscaler::Xess(preset), caps, dlss_enabled) == UpscalerAction::NotWired(
            Upscaler::Xess(preset),
        ),
        upscaler_action(Upscaler::Tsr(preset), caps, dlss_enabled) == UpscalerAction::NotWired(
            Upscaler::Tsr(preset),
        ),
        dlss_supported(caps) <==> (caps matches Some(c) && c.supports_dlss),
{
}

} // verus!
