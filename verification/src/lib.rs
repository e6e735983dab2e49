use vstd::prelude::*;

pub mod types;
pub mod material;
pub mod caps;
pub mod binding;
pub mod eviction;
pub mod material_asset;
pub mod material_preset;
pub mod asset_cache;
pub mod asset_pipeline;
pub mod material_tools;
pub mod graph_nodes;
pub mod rendering_mode;
pub mod graph_assets;
pub mod shader_program;
pub mod scene;
pub mod screenshot;
pub mod screenshot_png;
pub mod shader_data;
pub mod shader_watcher;
pub mod material_expr;
pub mod batch;
pub mod transform_bits;
pub mod playground;

verus! {

} // verus!
