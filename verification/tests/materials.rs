use sturdy_engine::binding::{BindingKind, PushConstantRegistration, TextureBindingRegistration};
use sturdy_engine::caps::{
    FormatCapabilities, PathTracedBounceConfig, PathTracedImportanceSampling,
    PathTracedTerminationStrategy, PathTracingCapabilities, RaytracedShaderStage,
    RaytracingCapabilities,
};
use sturdy_engine::material::{
    texture_sample_expr, RenderState, GBUFFER_COLOR_ATTACHMENT_COUNT, GBUFFER_FORMAT_BASE_COLOR_METALLIC,
    GBUFFER_FORMAT_DEPTH, GBUFFER_FORMAT_NORMAL_ROUGHNESS_OCCLUSION, GBUFFER_SLOT_DEPTH,
};
use sturdy_engine::material_asset::{MaterialAsset, MaterialAssetFormat};
use sturdy_engine::material_preset::MaterialPreset;
use sturdy_engine::types::{
    CullMode, Format, HdrMode, MeshVertexKind, SamplerPreset, ShaderSource, ShaderStage,
    ShaderTarget, StageMask, ToneMappingOp, UpdateRate,
};

#[test]
fn new_asset_reads_shader_from_its_path() {
    let a = MaterialAsset::new("brick", "shaders/brick.slang");
    assert_eq!(a.name(), "brick");
    assert!(matches!(a.shader_source(), ShaderSource::File(p) if p == "shaders/brick.slang"));
    assert_eq!(a.asset_path(), "shaders/brick.slang");
    assert_eq!(a.shader_entry_point(), "main");
    assert_eq!(a.shader_stage(), ShaderStage::Fragment);
    assert_eq!(a.shader_target(), ShaderTarget::Spirv);
    assert_eq!(a.vertex_kind(), MeshVertexKind::V2d);
    assert_eq!(a.texture_binding_count(), 0);
    assert_eq!(a.path_traced_bounce_count(), 4);
}

#[test]
fn inline_asset_has_empty_path() {
    let a = MaterialAsset::new_with_source("inline", "float4 main() { return 1; }");
    assert!(matches!(a.shader_source(), ShaderSource::Inline(s) if s == "float4 main() { return 1; }"));
    assert_eq!(a.asset_path(), "");
    assert_eq!(a.create_compute_program(), "");
}

#[test]
fn compute_program_path_is_the_shader_file() {
    let a = MaterialAsset::new("c", "shaders/sim.slang");
    assert_eq!(a.create_compute_program(), "shaders/sim.slang");
}

#[test]
fn builders_replace_one_setting_each() {
    let a = MaterialAsset::new("m", "m.slang")
        .with_entry_point("ps_main")
        .with_shader_stage(ShaderStage::Compute)
        .with_shader_target(ShaderTarget::Msl)
        .with_vertex_kind(MeshVertexKind::V3d)
        .with_hdr_mode(HdrMode::ScRgb)
        .with_tone_mapping(ToneMappingOp::Linear);
    assert_eq!(a.shader_entry_point(), "ps_main");
    assert_eq!(a.shader_stage(), ShaderStage::Compute);
    assert_eq!(a.shader_target(), ShaderTarget::Msl);
    assert_eq!(a.vertex_kind(), MeshVertexKind::V3d);
    assert_eq!(a.tone_mapping(), ToneMappingOp::Linear);
}

#[test]
fn push_constant_totals_and_masks() {
    let a = MaterialAsset::new("m", "m.slang")
        .with_push_constant_bytes_stage("Frame", 64, StageMask::vertex())
        .with_push_constant_bytes_stage("Material", 16, StageMask::fragment());
    assert_eq!(a.total_push_constants_bytes(), 80);
    assert_eq!(a.push_constants_stage_mask().bits, 3);
    let layout = a.create_pipeline_layout();
    assert_eq!(layout.push_constant_bytes, vec![64, 16]);
    let empty = MaterialAsset::new("e", "e.slang");
    assert_eq!(empty.total_push_constants_bytes(), 0);
    assert_eq!(empty.push_constants_stage_mask().bits, 0);
}

#[test]
fn pipeline_layout_lists_bindings_in_order() {
    let a = MaterialAsset::new("m", "m.slang")
        .with_texture_binding("material", "albedo", SamplerPreset::Linear)
        .with_buffer_binding("material", "params", "params_storage")
        .with_acceleration_structure_binding("scene", "tlas")
        .with_raytraced_stage("rt", "rt_out", RaytracedShaderStage::RayGeneration);
    let layout = a.create_pipeline_layout();
    let kinds: Vec<BindingKind> = layout.bindings.iter().map(|b| b.kind).collect();
    assert_eq!(
        kinds,
        vec![
            BindingKind::StorageBuffer,
            BindingKind::SampledImage,
            BindingKind::Sampler,
            BindingKind::UniformBuffer,
            BindingKind::StorageBuffer,
            BindingKind::AccelerationStructure,
            BindingKind::StorageImage,
        ]
    );
    assert_eq!(layout.bindings[0].group, "material");
    assert_eq!(layout.bindings[0].path, "instances");
    assert_eq!(layout.bindings[0].stage_mask.bits, 3);
    assert_eq!(layout.bindings[2].path, "albedo_sampler");
    assert_eq!(layout.bindings[4].path, "params_storage");
    assert_eq!(layout.bindings[5].path, "tlas");
    assert_eq!(layout.bindings[6].path, "rt_out");
}

#[test]
fn build_keeps_shaders_and_adds_vertex_main() {
    let a = MaterialAsset::new("m", "frag.slang")
        .with_vertex_file("vert.slang")
        .with_texture_binding("material", "albedo", SamplerPreset::Trilinear);
    let m = a.build();
    assert_eq!(m.name, "m");
    assert!(matches!(&m.fragment_desc.source, ShaderSource::File(p) if p == "frag.slang"));
    let v = m.vertex_desc.as_ref().unwrap();
    assert!(matches!(&v.source, ShaderSource::File(p) if p == "vert.slang"));
    assert_eq!(v.entry_point, "main");
    assert_eq!(v.stage, ShaderStage::Vertex);
    assert_eq!(m.layout.bindings.len(), 3);
}

#[test]
fn mesh_program_carries_vertex_source() {
    let a = MaterialAsset::new("m", "frag.slang").with_vertex_source("void main() {}");
    let p = a.create_mesh_program();
    assert!(matches!(&p.vertex, Some(ShaderSource::Inline(s)) if s == "void main() {}"));
    assert_eq!(p.fragment.entry_point, "main");
}

#[test]
fn raytracing_caps_follow_registered_stages() {
    let a = MaterialAsset::new("m", "m.slang");
    assert_eq!(a.raytracing_caps(), RaytracingCapabilities::Disabled);
    let b = a
        .with_raytraced_stage("rt", "a", RaytracedShaderStage::RayGeneration)
        .with_raytraced_stage("rt", "b", RaytracedShaderStage::ClosestHit)
        .with_raytraced_stage("rt", "c", RaytracedShaderStage::Miss);
    assert_eq!(b.raytracing_caps(), RaytracingCapabilities::Standard);
    assert_eq!(b.raytraced_stage_count(), 3);
    assert_eq!(b.create_raytraced_program().len(), 3);
}

#[test]
fn path_tracing_caps_round_trip_through_bounce_config() {
    let a = MaterialAsset::new("m", "m.slang").with_path_traced_bounce_count(6);
    assert_eq!(a.path_tracing_caps(), PathTracingCapabilities::WithBounces(6));
    assert_eq!(a.path_tracing_caps().bounce_count(), 6);
    let c = PathTracedBounceConfig::with_importance_sampling(PathTracedImportanceSampling::Brdf);
    let caps = PathTracingCapabilities::from_path_traced_bounces(&c);
    assert_eq!(caps.importance_sampling(), PathTracedImportanceSampling::Brdf);
    let t = PathTracedBounceConfig::with_termination_strategy(PathTracedTerminationStrategy::RussianRoulette);
    assert_eq!(
        PathTracingCapabilities::from_path_traced_bounces(&t).termination_strategy(),
        PathTracedTerminationStrategy::RussianRoulette
    );
}

#[test]
fn format_caps_for_hdr_and_tone_mapping() {
    let sdr = FormatCapabilities::default_caps();
    assert_eq!(sdr.render_format, Format::Rgba8Unorm);
    assert_eq!(sdr.hdr_mode, HdrMode::Sdr);
    let hdr = FormatCapabilities::from_hdr_mode(HdrMode::ScRgb);
    assert_eq!(hdr.render_format, Format::Rgba16Float);
    assert!(HdrMode::Hdr10.is_hdr());
    assert_eq!(HdrMode::Sdr.render_format(), Format::Rgba8Unorm);
    assert!(ToneMappingOp::Linear.is_hdr());
    assert!(!ToneMappingOp::Aces.is_hdr());
}

#[test]
fn asset_formats_map_to_targets() {
    assert_eq!(MaterialAssetFormat::default_format(), MaterialAssetFormat::Slang);
    assert_eq!(MaterialAssetFormat::Slang.shader_target(), ShaderTarget::Spirv);
}

#[test]
fn render_state_builders() {
    let s = RenderState::default_state()
        .with_cull_mode(CullMode::Front)
        .with_depth_write(false);
    assert_eq!(s.cull_mode, CullMode::Front);
    assert!(!s.depth_write);
    assert_eq!(RenderState::default_state().cull_mode, CullMode::Back);
}

#[test]
fn texture_sample_swizzles_by_type() {
    assert_eq!(texture_sample_expr("albedo", "v.uv", "float"), "(albedo.Sample(material_sampler, v.uv).r)");
    assert_eq!(texture_sample_expr("n", "uv", "float3"), "(n.Sample(material_sampler, uv).rgb)");
    assert_eq!(texture_sample_expr("c", "uv", "float4"), "(c.Sample(material_sampler, uv))");
}

#[test]
fn registrations_use_material_rate() {
    let t = TextureBindingRegistration::new("g", "tex", SamplerPreset::Linear, StageMask::fragment());
    assert_eq!(t.sampler_path, "tex_sampler");
    assert_eq!(t.update_rate, UpdateRate::Material);
    let p = PushConstantRegistration::new("Block", 32, StageMask::all());
    assert_eq!(p.total_bytes, 32);
    assert_eq!(p.offset, 0);
}

#[test]
fn pbr_preset_builds_its_material() {
    let m = MaterialPreset::Pbr.build("FrameConstants", 144);
    assert_eq!(m.name, "pbr_material");
    assert!(matches!(&m.fragment_desc.source, ShaderSource::File(p) if p == "pbr_fragment.slang"));
    let names: Vec<&str> = m.texture_bindings.iter().map(|t| t.path.as_str()).collect();
    assert_eq!(names, vec!["base_color", "normal_map", "roughness", "metallic"]);
    assert_eq!(m.push_constants.len(), 1);
    assert_eq!(m.push_constants[0].block_name, "FrameConstants");
    assert_eq!(m.push_constants[0].total_bytes, 144);
    assert_eq!(m.vertex_kind, MeshVertexKind::V3d);
}

#[test]
fn preset_properties() {
    assert_eq!(MaterialPreset::Sprite.name(), "sprite");
    assert_eq!(MaterialPreset::Sprite.vertex_kind(), MeshVertexKind::V2d);
    assert_eq!(MaterialPreset::Mesh.hdr_mode(), HdrMode::Sdr);
    assert_eq!(MaterialPreset::Pbr.hdr_mode(), HdrMode::ScRgb);
    assert_eq!(MaterialPreset::HybridPbr.raytracing_caps(), RaytracingCapabilities::Standard);
    assert_eq!(MaterialPreset::Unlit.raytracing_caps(), RaytracingCapabilities::Disabled);
    assert_eq!(MaterialPreset::PathTracedPbr.path_tracing_caps(), PathTracingCapabilities::WithBounces(8));
}

#[test]
fn transparent_preset_turns_off_depth_write_and_culling() {
    let m = MaterialPreset::Transparent.build("FrameConstants", 144);
    assert!(!m.render_state.depth_write);
    assert_eq!(m.render_state.cull_mode, CullMode::Disabled);
    let names: Vec<&str> = m.texture_bindings.iter().map(|t| t.path.as_str()).collect();
    assert_eq!(names, vec!["base_color", "alpha"]);
}

#[test]
fn gbuffer_layout() {
    assert_eq!(GBUFFER_COLOR_ATTACHMENT_COUNT, 3);
    assert_eq!(GBUFFER_SLOT_DEPTH, 3);
    assert_eq!(GBUFFER_FORMAT_BASE_COLOR_METALLIC, Format::Rgba8Unorm);
    assert_eq!(GBUFFER_FORMAT_NORMAL_ROUGHNESS_OCCLUSION, Format::Rgba16Float);
    assert_eq!(GBUFFER_FORMAT_DEPTH, Format::Depth32Float);
}

#[test]
fn defaults() {
    let a = MaterialAsset::default();
    assert_eq!(a.name, "default_material");
    assert!(matches!(a.shader_source, ShaderSource::File(ref p) if p == "passthrough_fragment.slang"));
    assert_eq!(a.vertex_kind, MeshVertexKind::V2d);
    assert_eq!(RenderState::default(), RenderState::default_state());
}

#[test]
fn path_traced_setters_start_from_the_default_config() {
    let a = MaterialAsset::new("m", "m.slang").with_path_traced_bounce_count(9);
    assert_eq!(a.path_traced_bounce_count(), 9);
    assert_eq!(a.path_traced_bounces().importance_sampling, PathTracedImportanceSampling::Uniform);
    let b = a.with_path_traced_importance_sampling(PathTracedImportanceSampling::Brdf);
    assert_eq!(b.path_traced_bounces().importance_sampling, PathTracedImportanceSampling::Brdf);
    assert_eq!(b.path_traced_bounce_count(), 4);
    let c = b.with_path_traced_termination(PathTracedTerminationStrategy::RussianRoulette);
    assert_eq!(c.path_traced_bounces().termination_strategy, PathTracedTerminationStrategy::RussianRoulette);
    assert_eq!(c.path_traced_bounces().importance_sampling, PathTracedImportanceSampling::Uniform);
    assert_eq!(c.path_traced_bounce_count(), 4);
}
