//! Capability-aware graphics settings: adapter capabilities, platform
//! defaults, sparse user overrides, and clamping of settings against what the
//! active GPU adapter supports.
//!
//! The model: detect adapter caps, pick the platform default, merge the
//! user's stored overrides, clamp to the caps, apply to the engine.
//!
//! - [`caps`]: [`caps::AdapterCaps`] and [`caps::PlatformTarget`]
//! - [`config`]: the [`config::Config`] trait and its resolution order
//! - [`caps_aware`]: settings clamped against adapter caps
//! - [`common`]: the display, render, accessibility and audio settings
//! - [`bindings`]: what the engine bindings do with the settings
//! - [`backend`]: storage errors, the storage trait and storage keys
//! - [`ieee`]: real-valued settings held as `f32` bit patterns

pub mod backend;
pub mod bindings;
pub mod caps;
pub mod caps_aware;
pub mod common;
pub mod config;
pub mod ieee;
pub mod prelude;
