# bevy_settings_plus

Capability-aware graphics settings for Bevy, with the settings logic verified
by Verus.

The model: detect the GPU adapter's capabilities, start from a
platform-appropriate default, merge the user's stored (sparse) overrides,
clamp the result to what the adapter supports, and apply it to the engine.

## Layout

- `src/` — the verified library.
  - `caps` — `AdapterCaps`, vendor ids, platform detection.
  - `common` — display, render, accessibility and audio settings with their
    sparse overrides: platform defaults, merge, diff, clamp; the aggregate
    `CommonConfig` and the laws relating these operations (overrides round
    trip, clamp fits the caps and is idempotent, stored overrides cannot
    re-enable unsupported features).
  - `config` — the `Config` trait and the startup resolution.
  - `caps_aware` — the `CapsAware` trait and the clamp pass decision that
    skips writes when clamping changes nothing.
  - `bindings` — what the window and camera bindings must do, as plans.
  - `backend` — storage errors, the storage trait, browser-storage keys.
  - `ieee` — real-valued settings are held as `f32` bit patterns; this
    module states IEEE-754 equality, ordering and `clamp` over them.
- `app/` — the Bevy side: plugins, systems, reflection and serde copies of
  the settings types, file and browser storage.
- `tests/` — tests of the library, including cross-checks of the `ieee`
  operations against hardware `f32`.
