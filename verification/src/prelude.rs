//! Re-exports of the most commonly used items.

pub use crate::backend::{BackendError, ConfigBackend};
pub use crate::bindings::{
    AntiAliasPlan, ComponentOp, DisplayPlan, PhysicalSize, PresentTarget, UpscalerAction,
    UpscalerPlan, WindowTarget,
};
pub use crate::caps::{AdapterCaps, Backend, GpuVendor, PlatformTarget};
pub use crate::caps_aware::{clamp_candidate, CapsAware};
pub use crate::common::accessibility::{Accessibility, AccessibilityOverrides, ColorBlindMode};
pub use crate::common::audio::{Audio, AudioOverrides, ChannelMode};
pub use crate::common::display::{
    DisplayOverrides, DisplaySettings, FpsCap, HdrPreference, MonitorSelection, Resolution,
    VsyncMode, WindowMode,
};
pub use crate::common::render::{
    AntiAlias, MsaaLevel, Render, RenderOverrides, Upscaler, UpscalerPreset,
};
pub use crate::common::{
    AccessibilitySettings, CommonConfig, CommonConfigOverrides, RenderSettings,
};
pub use crate::config::Config;
