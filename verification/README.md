# rendering_engine

The decision-making core of a small real-time rendering engine (Rust and
WebGPU), written in Verus. Verus proves the functions of `src/` against
their `requires`/`ensures` contracts. The calls into std and into outside
crates (wgpu, image, anyhow) go through a few trusted declarations whose
contracts are assumed, not proved; where a result depends on the clock,
nothing is stated of it.

## Layout

- `src/` — the verified library:
  - `math_helpers` — normalizing values into an interval;
  - `light_layout`, `light_render_data` — sizes and offsets of the light
    buffers, and the bookkeeping of shadow map slots;
  - `image_buffers`, `file_loader` — padded image copy buffers, decoding
    image files;
  - `ui_display`, `ui_setting`, `sample_settings` — describing values for the
    settings window and setting them back along a path of steps;
  - `gui`, `gui_registry` — notifications, the paths of UI changes and the
    items they lead into, dropped files, the registered items;
  - `gizmo`, `gizmo_handler` — the translation gizmo and its mouse handling;
  - `camera`, `input`, `window_events` — camera input state and shortcuts;
  - `gbuffer_pipelines`, `model`, `frame_timer`, `time`, `events`,
    `serialization`, `paths`, `float_values`, `ui_types` — supporting types.
- `tests/` — tests of the library on concrete values.
- `app/` — the program around the library: the window loop (winit), GPU
  uploads (wgpu), floating-point geometry (glam), serialization (serde) and
  file reading.

Floating-point values cross into the library only as their bit patterns
(`FloatBits`): the library stores and compares them but never computes with
them.
