//! `Audio` axis: per-bus volumes, output device, channel mode.
//!
//! Schema only: no engine binding consumes these settings yet.

use vstd::prelude::*;

use crate::caps::{AdapterCaps, PlatformTarget};
use crate::common::{changed, changed_f32, opt_f32_eq, overridden, same_opt_f32};
use crate::ieee::{f32_bits_eq, f32_eq, F32_ZERO};

verus! {

/// Audio output channel mode.
#[derive(Debug, Clone, Copy, PartialEq, Eq, Structural)]
pub enum ChannelMode {
    Headphones,
    Stereo,
    Surround51,
    Surround71,
}

/// Populated audio settings. All volumes are gains in decibels (`0.0` =
/// unity gain; negative = quieter; positive = louder), each held as the bit
/// pattern of an `f32` (see [`crate::ieee`]); equality compares gains as
/// `f32` values and device ids by their characters.
#[derive(Debug, Clone)]
pub struct Audio {
    pub master_db: u32,
    pub music_db: u32,
    pub sfx_db: u32,
    pub voice_db: u32,
    pub ui_db: u32,
    pub ambient_db: u32,
    /// Output device id; `None` = system default.
    pub output_device: Option<String>,
    pub channel_mode: ChannelMode,
}

/// Sparse overrides for [`Audio`]. `output_device` is doubly optional:
/// `Some(None)` overrides the device back to the system default.
#[derive(Debug, Clone)]
pub struct AudioOverrides {
    pub master_db: Option<u32>,
    pub music_db: Option<u32>,
    pub sfx_db: Option<u32>,
    pub voice_db: Option<u32>,
    pub ui_db: Option<u32>,
    pub ambient_db: Option<u32>,
    pub output_device: Option<Option<String>>,
    pub channel_mode: Option<ChannelMode>,
}

/// The characters of an optional device id.
pub open spec fn device_view(d: Option<String>) -> Option<Seq<char>> {
    match d {
        Some(s) => Some(s@),
        None => None,
    }
}

/// Same gain under IEEE equality, or the same pattern.
pub open spec fn same_gain(a: u32, b: u32) -> bool {
    a == b || crate::ieee::f32_eq(a, b)
}

/// Same settings: gains under IEEE equality, device ids by their characters.
pub open spec fn audio_equivalent(a: Audio, b: Audio) -> bool {
    &&& same_gain(a.master_db, b.master_db)
    &&& same_gain(a.music_db, b.music_db)
    &&& same_gain(a.sfx_db, b.sfx_db)
    &&& same_gain(a.voice_db, b.voice_db)
    &&& same_gain(a.ui_db, b.ui_db)
    &&& same_gain(a.ambient_db, b.ambient_db)
    &&& device_view(a.output_device) == device_view(b.output_device)
    &&& a.channel_mode == b.channel_mode
}

impl AudioOverrides {
    /// Overrides that set nothing.
    pub open spec fn empty() -> Self {
        AudioOverrides {
            master_db: None,
            music_db: None,
            sfx_db: None,
            voice_db: None,
            ui_db: None,
            ambient_db: None,
            output_device: None,
            channel_mode: None,
        }
    }
}

impl Default for AudioOverrides {
    fn default() -> (o: Self)
        ensures
            o == AudioOverrides::empty(),
    {
        AudioOverrides {
            master_db: None,
            music_db: None,
            sfx_db: None,
            voice_db: None,
            ui_db: None,
            ambient_db: None,
            output_device: None,
            channel_mode: None,
        }
    }
}

fn copy_device(d: &Option<String>) -> (r: Option<String>)
    ensures
        r == *d,
{
    match d {
        Some(s) => Some(s.clone()),
        None => None,
    }
}

fn same_device(a: &Option<String>, b: &Option<String>) -> (r: bool)
    ensures
        r == (device_view(*a) == device_view(*b)),
{
    match (a, b) {
        (Some(x), Some(y)) => *x == *y,
        (None, None) => true,
        _ => false,
    }
}

fn changed_gain(value: u32, default: u32) -> (r: Option<u32>)
    ensures
        r == changed_f32(value, default),
{
    if !f32_bits_eq(value, default) {
        Some(value)
    } else {
        None
    }
}

/// The characters of a doubly optional device id.
pub open spec fn device_override_view(d: Option<Option<String>>) -> Option<Option<Seq<char>>> {
    match d {
        Some(inner) => Some(device_view(inner)),
        None => None,
    }
}

fn same_device_override(a: &Option<Option<String>>, b: &Option<Option<String>>) -> (r: bool)
    ensures
        r == (device_override_view(*a) == device_override_view(*b)),
{
    match (a, b) {
        (Some(x), Some(y)) => same_device(x, y),
        (None, None) => true,
        _ => false,
    }
}

impl PartialEq for Audio {
    fn eq(&self, other: &Self) -> (r: bool) {
        f32_bits_eq(self.master_db, other.master_db) && f32_bits_eq(self.music_db, other.music_db)
            && f32_bits_eq(self.sfx_db, other.sfx_db) && f32_bits_eq(
            self.voice_db,
            other.voice_db,
        ) && f32_bits_eq(self.ui_db, other.ui_db) && f32_bits_eq(
            self.ambient_db,
            other.ambient_db,
        ) && same_device(&self.output_device, &other.output_device) && self.channel_mode
            == other.channel_mode
    }
}

impl vstd::std_specs::cmp::PartialEqSpecImpl for Audio {
    open spec fn obeys_eq_spec() -> bool {
        true
    }

    open spec fn eq_spec(&self, other: &Self) -> bool {
        &&& f32_eq(self.master_db, other.master_db)
        &&& f32_eq(self.music_db, other.music_db)
        &&& f32_eq(self.sfx_db, other.sfx_db)
        &&& f32_eq(self.voice_db, other.voice_db)
        &&& f32_eq(self.ui_db, other.ui_db)
        &&& f32_eq(self.ambient_db, other.ambient_db)
        &&& device_view(self.output_device) == device_view(other.output_device)
        &&& self.channel_mode == other.channel_mode
    }
}

impl PartialEq for AudioOverrides {
    fn eq(&self, other: &Self) -> (r: bool) {
        same_opt_f32(self.master_db, other.master_db) && same_opt_f32(
            self.music_db,
            other.music_db,
        ) && same_opt_f32(self.sfx_db, other.sfx_db) && same_opt_f32(
            self.voice_db,
            other.voice_db,
        ) && same_opt_f32(self.ui_db, other.ui_db) && same_opt_f32(
            self.ambient_db,
            other.ambient_db,
        ) && same_device_override(&self.output_device, &other.output_device)
            && self.channel_mode == other.channel_mode
    }
}

impl vstd::std_specs::cmp::PartialEqSpecImpl for AudioOverrides {
    open spec fn obeys_eq_spec() -> bool {
        true
    }

    open spec fn eq_spec(&self, other: &Self) -> bool {
        &&& opt_f32_eq(self.master_db, other.master_db)
        &&& opt_f32_eq(self.music_db, other.music_db)
        &&& opt_f32_eq(self.sfx_db, other.sfx_db)
        &&& opt_f32_eq(self.voice_db, other.voice_db)
        &&& opt_f32_eq(self.ui_db, other.ui_db)
        &&& opt_f32_eq(self.ambient_db, other.ambient_db)
        &&& device_override_view(self.output_device) == device_override_view(other.output_device)
        &&& self.channel_mode == other.channel_mode
    }
}

impl Audio {
    /// Unity gain on every bus, system default device, stereo, on every
    /// platform.
    pub open spec fn default_for(target: PlatformTarget) -> Audio {
        Audio {
            master_db: F32_ZERO,
            music_db: F32_ZERO,
            sfx_db: F32_ZERO,
            voice_db: F32_ZERO,
            ui_db: F32_ZERO,
            ambient_db: F32_ZERO,
            output_device: None,
            channel_mode: ChannelMode::Stereo,
        }
    }

    /// `self` with every field that `o` sets replaced by its value.
    pub open spec fn merged(self, o: AudioOverrides) -> Audio {
        Audio {
            master_db: overridden(o.master_db, self.master_db),
            music_db: overridden(o.music_db, self.music_db),
            sfx_db: overridden(o.sfx_db, self.sfx_db),
            voice_db: overridden(o.voice_db, self.voice_db),
            ui_db: overridden(o.ui_db, self.ui_db),
            ambient_db: overridden(o.ambient_db, self.ambient_db),
            output_device: overridden(o.output_device, self.output_device),
            channel_mode: overridden(o.channel_mode, self.channel_mode),
        }
    }

    /// The fields of `self` that differ from `default` (device ids compared
    /// by their characters).
    pub open spec fn diff_from(self, default: Audio) -> AudioOverrides {
        AudioOverrides {
            master_db: changed_f32(self.master_db, default.master_db),
            music_db: changed_f32(self.music_db, default.music_db),
            sfx_db: changed_f32(self.sfx_db, default.sfx_db),
            voice_db: changed_f32(self.voice_db, default.voice_db),
            ui_db: changed_f32(self.ui_db, default.ui_db),
            ambient_db: changed_f32(self.ambient_db, default.ambient_db),
            output_device: if device_view(self.output_device) != device_view(
                default.output_device,
            ) {
                Some(self.output_device)
            } else {
                None
            },
            channel_mode: changed(self.channel_mode, default.channel_mode),
        }
    }

    /// Platform-appropriate defaults (the same on every platform).
    pub fn platform_default(target: PlatformTarget) -> (a: Self)
        ensures
            a == Audio::default_for(target),
    {
        Self {
            master_db: F32_ZERO,
            music_db: F32_ZERO,
            sfx_db: F32_ZERO,
            voice_db: F32_ZERO,
            ui_db: F32_ZERO,
            ambient_db: F32_ZERO,
            output_device: None,
            channel_mode: ChannelMode::Stereo,
        }
    }

    /// Apply the fields `o` sets.
    pub fn merge(&mut self, o: &AudioOverrides)
        ensures
            *final(self) == old(self).merged(*o),
    {
        if let Some(v) = o.master_db {
            self.master_db = v;
        }
        if let Some(v) = o.music_db {
            self.music_db = v;
        }
        if let Some(v) = o.sfx_db {
            self.sfx_db = v;
        }
        if let Some(v) = o.voice_db {
            self.voice_db = v;
        }
        if let Some(v) = o.ui_db {
            self.ui_db = v;
        }
        if let Some(v) = o.ambient_db {
            self.ambient_db = v;
        }
        if let Some(v) = &o.output_device {
            self.output_device = copy_device(v);
        }
        if let Some(v) = o.channel_mode {
            self.channel_mode = v;
        }
    }

    /// No audio setting depends on adapter capabilities.
    pub fn clamp_to(&mut self, caps: &AdapterCaps)
        ensures
            *final(self) == *old(self),
    {
    }

    /// Sparse overrides holding the fields that differ from `default`.
    pub fn diff(&self, default: &Self) -> (o: AudioOverrides)
        ensures
            o == self.diff_from(*default),
    {
        AudioOverrides {
            master_db: changed_gain(self.master_db, default.master_db),
            music_db: changed_gain(self.music_db, default.music_db),
            sfx_db: changed_gain(self.sfx_db, default.sfx_db),
            voice_db: changed_gain(self.voice_db, default.voice_db),
            ui_db: changed_gain(self.ui_db, default.ui_db),
            ambient_db: changed_gain(self.ambient_db, default.ambient_db),
            output_device: if !same_device(&self.output_device, &default.output_device) {
                Some(copy_device(&self.output_device))
            } else {
                None
            },
            channel_mode: if self.channel_mode != default.channel_mode {
                Some(self.channel_mode)
            } else {
                None
            },
        }
    }
}

/// Storing the overrides of audio settings and merging them back onto the
/// platform default rebuilds them, up to IEEE equality of gains and the
/// characters of the device id.
pub proof fn lemma_audio_round_trip(a: Audio, target: PlatformTarget)
    ensures
        audio_equivalent(
            Audio::default_for(target).merged(a.diff_from(Audio::default_for(target))),
            a,
        ),
{
}

/// Audio settings at their platform default have no overrides to store.
pub proof fn lemma_audio_default_has_no_overrides(target: PlatformTarget)
    ensures
        Audio::default_for(target).diff_from(Audio::default_for(target)) == AudioOverrides::empty(),
{
}

/// The default has unity gain (0 dB) on every bus, the system default
/// output device and stereo output, on every platform.
pub proof fn lemma_audio_defaults(target: PlatformTarget)
    ensures
        Audio::default_for(target).master_db == F32_ZERO,
        Audio::default_for(target).music_db == F32_ZERO,
        Audio::default_for(target).sfx_db == F32_ZERO,
        Audio::default_for(target).voice_db == F32_ZERO,
        Audio::default_for(target).ui_db == F32_ZERO,
        Audio::default_for(target).ambient_db == F32_ZERO,
        Audio::default_for(target).output_device is None,
        Audio::default_for(target).channel_mode == ChannelMode::Stereo,
{
}

/// Merging sets exactly the fields the overrides carry, to the carried
/// value, and keeps every other field.
pub proof fn lemma_audio_merge(s: Audio, o: AudioOverrides)
    ensures
        o.master_db matches Some(v) ==> s.merged(o).master_db == v,
        o.master_db is None ==> s.merged(o).master_db == s.master_db,
        o.music_db matches Some(v) ==> s.merged(o).music_db == v,
        o.music_db is None ==> s.merged(o).music_db == s.music_db,
        o.sfx_db matches Some(v) ==> s.merged(o).sfx_db == v,
        o.sfx_db is None ==> s.merged(o).sfx_db == s.sfx_db,
        o.voice_db matches Some(v) ==> s.merged(o).voice_db == v,
        o.voice_db is None ==> s.merged(o).voice_db == s.voice_db,
        o.ui_db matches Some(v) ==> s.merged(o).ui_db == v,
        o.ui_db is None ==> s.merged(o).ui_db == s.ui_db,
        o.ambient_db matches Some(v) ==> s.merged(o).ambient_db == v,
        o.ambient_db is None ==> s.merged(o).ambient_db == s.ambient_db,
        o.output_device matches Some(v) ==> s.merged(o).output_device == v,
        o.output_device is None ==> s.merged(o).output_device == s.output_device,
        o.channel_mode matches Some(v) ==> s.merged(o).channel_mode == v,
        o.channel_mode is None ==> s.merged(o).channel_mode == s.channel_mode,
{
}

/// The diff is sparse: a field is stored exactly when it differs from the
/// default (real values under IEEE equality), and then with its own value.
pub proof fn lemma_audio_diff_sparse(s: Audio, d: Audio)
    ensures
        (s.diff_from(d).channel_mode is Some) <==> s.channel_mode != d.channel_mode,
        s.diff_from(d).channel_mode matches Some(v) ==> v == s.channel_mode,
        (s.diff_from(d).master_db is Some) <==> !f32_eq(s.master_db, d.master_db),
        s.diff_from(d).master_db matches Some(v) ==> v == s.master_db,
        (s.diff_from(d).music_db is Some) <==> !f32_eq(s.music_db, d.music_db),
        s.diff_from(d).music_db matches Some(v) ==> v == s.music_db,
        (s.diff_from(d).sfx_db is Some) <==> !f32_eq(s.sfx_db, d.sfx_db),
        s.diff_from(d).sfx_db matches Some(v) ==> v == s.sfx_db,
        (s.diff_from(d).voice_db is Some) <==> !f32_eq(s.voice_db, d.voice_db),
        s.diff_from(d).voice_db matches Some(v) ==> v == s.voice_db,
        (s.diff_from(d).ui_db is Some) <==> !f32_eq(s.ui_db, d.ui_db),
        s.diff_from(d).ui_db matches Some(v) ==> v == s.ui_db,
        (s.diff_from(d).ambient_db is Some) <==> !f32_eq(s.ambient_db, d.ambient_db),
        s.diff_from(d).ambient_db matches Some(v) ==> v == s.ambient_db,
        (s.diff_from(d).output_device is Some) <==> device_view(s.output_device) != device_view(
            d.output_device,
        ),
        s.diff_from(d).output_device matches Some(v) ==> v == s.output_device,
{
}
} // verus!
