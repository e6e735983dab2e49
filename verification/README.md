# sturdy_engine

The material, shader and scene bookkeeping of a GPU rendering engine, written
in Verus: every function in `src/` carries a contract and is proved against it.

## Layout

- `src/types.rs`: shader stages and targets, formats, HDR and tone-mapping
  modes, stage masks, fixed-function state, shader sources and errors.
- `src/material.rs`, `src/caps.rs`, `src/binding.rs`: render state, format
  and ray/path-tracing capabilities, binding registrations and pipeline
  layouts.
- `src/material_asset.rs`, `src/material_preset.rs`: material assets, their
  builders, and the built-in presets.
- `src/eviction.rs`, `src/asset_cache.rs`, `src/asset_pipeline.rs`,
  `src/material_tools.rs`: bounded caches, validation, and the asset pipeline.
- `src/graph_nodes.rs`, `src/rendering_mode.rs`, `src/graph_assets.rs`:
  material-graph nodes, rendering modes, graph assets and their pipeline.
- `src/material_expr.rs`: texture and time analysis of material expressions,
  the Slang code of expressions and G-buffer shaders, and their hash.
- `src/shader_program.rs`, `src/shader_watcher.rs`, `src/shader_data.rs`,
  `src/playground.rs`: shader programs, hot reload, shader data blocks and
  the shader playground's parameters.
- `src/scene.rs`, `src/batch.rs`, `src/transform_bits.rs`, `src/screenshot.rs`,
  `src/screenshot_png.rs`: scene handles, the object table and how a
  render-world snapshot is mirrored into it, draw-output checks, render
  targets, batch planning and instance batches, packed transforms,
  screenshot pixel conversion and PNG encoding.
- `app/`: what needs the file system, floating point, atomics or outside
  traits: writing PNG files, reading the render world, file times, material
  expressions with float constants, lights, cameras, shadow cascades,
  weights and rates.
- `tests/`: tests of the library on concrete values.
