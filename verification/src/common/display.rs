//! `DisplaySettings` axis: window mode, monitor, resolution, vsync, fps cap, HDR.

use vstd::prelude::*;

use crate::caps::{AdapterCaps, PlatformTarget};
use crate::caps_aware::CapsAware;
use crate::common::{changed, overridden};

verus! {

/// Window presentation mode.
#[derive(Debug, Clone, Copy, PartialEq, Eq, Structural, Default)]
pub enum WindowMode {
    #[default]
    Windowed,
    BorderlessFullscreen,
    Fullscreen,
}

/// Vsync intent; the display binding maps it onto a present mode.
#[derive(Debug, Clone, Copy, PartialEq, Eq, Structural, Default)]
#[non_exhaustive]
pub enum VsyncMode {
    /// Driver-default vsync (automatic vsync present mode).
    #[default]
    Auto,
    /// Force vsync on (FIFO presentation).
    On,
    /// Force vsync off: immediate presentation if the platform has it, else
    /// the automatic no-vsync mode.
    Off,
    /// Triple-buffered vsync (mailbox presentation).
    Mailbox,
}

/// Monitor selection.
#[derive(Debug, Clone, Copy, PartialEq, Eq, Structural, Default)]
#[non_exhaustive]
pub enum MonitorSelection {
    #[default]
    Primary,
    Index(u32),
}

/// Resolution choice. `Native` defers to the monitor's preferred mode.
#[derive(Debug, Clone, Copy, PartialEq, Eq, Structural, Default)]
pub enum Resolution {
    #[default]
    Native,
    Custom { width: u32, height: u32 },
}

/// Frame-rate cap. `Unlimited` disables capping.
#[derive(Debug, Clone, Copy, PartialEq, Eq, Structural, Default)]
pub enum FpsCap {
    #[default]
    Unlimited,
    Capped(u32),
}

/// HDR display preference.
#[derive(Debug, Clone, Copy, PartialEq, Eq, Structural, Default)]
pub enum HdrPreference {
    #[default]
    Off,
    On,
    Auto,
}

/// Display settings.
#[derive(Debug, Clone, Copy, Eq)]
pub struct DisplaySettings {
    pub window_mode: WindowMode,
    pub monitor: MonitorSelection,
    pub resolution: Resolution,
    pub refresh_rate: Option<u32>,
    pub vsync: VsyncMode,
    pub fps_cap: FpsCap,
    pub hdr: HdrPreference,
}

/// Sparse overrides for [`DisplaySettings`]. `refresh_rate` is doubly
/// optional: `Some(None)` overrides the rate back to "unspecified".
#[derive(Debug, Clone, Copy, Eq)]
pub struct DisplayOverrides {
    pub window_mode: Option<WindowMode>,
    pub monitor: Option<MonitorSelection>,
    pub resolution: Option<Resolution>,
    pub refresh_rate: Option<Option<u32>>,
    pub vsync: Option<VsyncMode>,
    pub fps_cap: Option<FpsCap>,
    pub hdr: Option<HdrPreference>,
}

impl DisplayOverrides {
    /// Overrides that set nothing.
    pub open spec fn empty() -> Self {
        DisplayOverrides {
            window_mode: None,
            monitor: None,
            resolution: None,
            refresh_rate: None,
            vsync: None,
            fps_cap: None,
            hdr: None,
        }
    }
}

impl PartialEq for DisplayOverrides {
    fn eq(&self, other: &Self) -> (r: bool) {
        self.window_mode == other.window_mode && self.monitor == other.monitor && self.resolution == other.resolution && self.refresh_rate == other.refresh_rate && self.vsync == other.vsync && self.fps_cap == other.fps_cap && self.hdr == other.hdr
    }
}

impl vstd::std_specs::cmp::PartialEqSpecImpl for DisplayOverrides {
    open spec fn obeys_eq_spec() -> bool {
        true
    }

    open spec fn eq_spec(&self, other: &Self) -> bool {
        *self == *other
    }
}

impl Default for DisplayOverrides {
    fn default() -> (o: Self)
        ensures
            o == DisplayOverrides::empty(),
    {
        DisplayOverrides {
            window_mode: None,
            monitor: None,
            resolution: None,
            refresh_rate: None,
            vsync: None,
            fps_cap: None,
            hdr: None,
        }
    }
}

impl PartialEq for DisplaySettings {
    fn eq(&self, other: &Self) -> (r: bool) {
        self.window_mode == other.window_mode && self.monitor == other.monitor && self.resolution
            == other.resolution && self.refresh_rate == other.refresh_rate && self.vsync
            == other.vsync && self.fps_cap == other.fps_cap && self.hdr == other.hdr
    }
}

impl vstd::std_specs::cmp::PartialEqSpecImpl for DisplaySettings {
    open spec fn obeys_eq_spec() -> bool {
        true
    }

    open spec fn eq_spec(&self, other: &Self) -> bool {
        *self == *other
    }
}

/// Windowed on the primary monitor at native resolution, driver vsync, no
/// frame cap, HDR off.
pub open spec fn display_baseline() -> DisplaySettings {
    DisplaySettings {
        window_mode: WindowMode::Windowed,
        monitor: MonitorSelection::Primary,
        resolution: Resolution::Native,
        refresh_rate: None,
        vsync: VsyncMode::Auto,
        fps_cap: FpsCap::Unlimited,
        hdr: HdrPreference::Off,
    }
}

impl DisplaySettings {
    /// The platform default; display defaults are the same on every platform.
    pub open spec fn default_for(target: PlatformTarget) -> DisplaySettings {
        display_baseline()
    }

    /// `self` with every field that `o` sets replaced by its value.
    pub open spec fn merged(self, o: DisplayOverrides) -> DisplaySettings {
        DisplaySettings {
            window_mode: overridden(o.window_mode, self.window_mode),
            monitor: overridden(o.monitor, self.monitor),
            resolution: overridden(o.resolution, self.resolution),
            refresh_rate: overridden(o.refresh_rate, self.refresh_rate),
            vsync: overridden(o.vsync, self.vsync),
            fps_cap: overridden(o.fps_cap, self.fps_cap),
            hdr: overridden(o.hdr, self.hdr),
        }
    }

    /// The fields of `self` that differ from `default`.
    pub open spec fn diff_from(self, default: DisplaySettings) -> DisplayOverrides {
        DisplayOverrides {
            window_mode: changed(self.window_mode, default.window_mode),
            monitor: changed(self.monitor, default.monitor),
            resolution: changed(self.resolution, default.resolution),
            refresh_rate: changed(self.refresh_rate, default.refresh_rate),
            vsync: changed(self.vsync, default.vsync),
            fps_cap: changed(self.fps_cap, default.fps_cap),
            hdr: changed(self.hdr, default.hdr),
        }
    }

    fn baseline() -> (d: Self)
        ensures
            d == display_baseline(),
    {
        Self {
            window_mode: WindowMode::Windowed,
            monitor: MonitorSelection::Primary,
            resolution: Resolution::Native,
            refresh_rate: None,
            vsync: VsyncMode::Auto,
            fps_cap: FpsCap::Unlimited,
            hdr: HdrPreference::Off,
        }
    }

    /// Conservative, platform-appropriate defaults.
    pub fn platform_default(target: PlatformTarget) -> (d: Self)
        ensures
            d == DisplaySettings::default_for(target),
    {
        Self::baseline()
    }

    /// Apply the fields `o` sets.
    pub fn merge(&mut self, o: &DisplayOverrides)
        ensures
            *final(self) == old(self).merged(*o),
    {
        if let Some(v) = o.window_mode {
            self.window_mode = v;
        }
        if let Some(v) = o.monitor {
            self.monitor = v;
        }
        if let Some(v) = o.resolution {
            self.resolution = v;
        }
        if let Some(v) = o.refresh_rate {
            self.refresh_rate = v;
        }
        if let Some(v) = o.vsync {
            self.vsync = v;
        }
        if let Some(v) = o.fps_cap {
            self.fps_cap = v;
        }
        if let Some(v) = o.hdr {
            self.hdr = v;
        }
    }

    /// Sparse overrides holding the fields that differ from `default`.
    pub fn diff(&self, default: &Self) -> (o: DisplayOverrides)
        ensures
            o == self.diff_from(*default),
    {
        DisplayOverrides {
            window_mode: if self.window_mode != default.window_mode {
                Some(self.window_mode)
            } else {
                None
            },
            monitor: if self.monitor != default.monitor {
                Some(self.monitor)
            } else {
                None
            },
            resolution: if self.resolution != default.resolution {
                Some(self.resolution)
            } else {
                None
            },
            refresh_rate: if self.refresh_rate != default.refresh_rate {
                Some(self.refresh_rate)
            } else {
                None
            },
            vsync: if self.vsync != default.vsync {
                Some(self.vsync)
            } else {
                None
            },
            fps_cap: if self.fps_cap != default.fps_cap {
                Some(self.fps_cap)
            } else {
                None
            },
            hdr: if self.hdr != default.hdr {
                Some(self.hdr)
            } else {
                None
            },
        }
    }
}

impl Default for DisplaySettings {
    /// The platform default, which does not depend on the platform.
    fn default() -> (d: Self)
        ensures
            d == display_baseline(),
    {
        Self::baseline()
    }
}

impl CapsAware for DisplaySettings {
    /// No display setting depends on adapter capabilities.
    open spec fn clamped(self, caps: AdapterCaps) -> DisplaySettings {
        self
    }

    fn clamp_to(&mut self, caps: AdapterCaps) {
    }
}

/// `DisplaySettings::default()` is the platform default of every platform.
pub proof fn lemma_default_is_platform_default(target: PlatformTarget)
    ensures
        DisplaySettings::default_for(target) == display_baseline(),
{
}

/// The default is windowed on the primary monitor at native resolution with
/// no refresh rate, driver vsync, no frame cap and HDR off, on every
/// platform; clamping to any caps changes nothing.
pub proof fn lemma_display_defaults(target: PlatformTarget, caps: AdapterCaps, s: DisplaySettings)
    ensures
        DisplaySettings::default_for(target).window_mode == WindowMode::Windowed,
        DisplaySettings::default_for(target).monitor == MonitorSelection::Primary,
        DisplaySettings::default_for(target).resolution == Resolution::Native,
        DisplaySettings::default_for(target).refresh_rate is None,
        DisplaySettings::default_for(target).vsync == VsyncMode::Auto,
        DisplaySettings::default_for(target).fps_cap == FpsCap::Unlimited,
        DisplaySettings::default_for(target).hdr == HdrPreference::Off,
        s.clamped(caps) == s,
{
}

/// Merging sets exactly the fields the overrides carry, to the carried
/// value, and keeps every other field.
pub proof fn lemma_display_merge(s: DisplaySettings, o: DisplayOverrides)
    ensures
        o.window_mode matches Some(v) ==> s.merged(o).window_mode == v,
        o.window_mode is None ==> s.merged(o).window_mode == s.window_mode,
        o.monitor matches Some(v) ==> s.merged(o).monitor == v,
        o.monitor is None ==> s.merged(o).monitor == s.monitor,
        o.resolution matches Some(v) ==> s.merged(o).resolution == v,
        o.resolution is None ==> s.merged(o).resolution == s.resolution,
        o.refresh_rate matches Some(v) ==> s.merged(o).refresh_rate == v,
        o.refresh_rate is None ==> s.merged(o).refresh_rate == s.refresh_rate,
        o.vsync matches Some(v) ==> s.merged(o).vsync == v,
        o.vsync is None ==> s.merged(o).vsync == s.vsync,
        o.fps_cap matches Some(v) ==> s.merged(o).fps_cap == v,
        o.fps_cap is None ==> s.merged(o).fps_cap == s.fps_cap,
        o.hdr matches Some(v) ==> s.merged(o).hdr == v,
        o.hdr is None ==> s.merged(o).hdr == s.hdr,
{
}

/// The diff is sparse: a field is stored exactly when it differs from the
/// default (real values under IEEE equality), and then with its own value.
pub proof fn lemma_display_diff_sparse(s: DisplaySettings, d: DisplaySettings)
    ensures
        (s.diff_from(d).window_mode is Some) <==> s.window_mode != d.window_mode,
        s.diff_from(d).window_mode matches Some(v) ==> v == s.window_mode,
        (s.diff_from(d).monitor is Some) <==> s.monitor != d.monitor,
        s.diff_from(d).monitor matches Some(v) ==> v == s.monitor,
        (s.diff_from(d).resolution is Some) <==> s.resolution != d.resolution,
        s.diff_from(d).resolution matches Some(v) ==> v == s.resolution,
        (s.diff_from(d).refresh_rate is Some) <==> s.refresh_rate != d.refresh_rate,
        s.diff_from(d).refresh_rate matches Some(v) ==> v == s.refresh_rate,
        (s.diff_from(d).vsync is Some) <==> s.vsync != d.vsync,
        s.diff_from(d).vsync matches Some(v) ==> v == s.vsync,
        (s.diff_from(d).fps_cap is Some) <==> s.fps_cap != d.fps_cap,
        s.diff_from(d).fps_cap matches Some(v) ==> v == s.fps_cap,
        (s.diff_from(d).hdr is Some) <==> s.hdr != d.hdr,
        s.diff_from(d).hdr matches Some(v) ==> v == s.hdr,
{
}
} // verus!
