use sturdy_engine::graph_assets::{
    GpuCaptureTool, MaterialGraphAsset, MaterialGraphAssetCache, MaterialGraphAssetFormat,
    MaterialGraphAssetPipeline, MaterialGraphAssetPipelineState, MaterialGraphCacheEvictionStrategy,
    MaterialGraphGpuCapture, MaterialGraphGpuCaptureState, MaterialGraphPreviewOutput,
    MaterialGraphPreviewRenderer, MaterialGraphPreviewRendererState,
};
use sturdy_engine::graph_nodes::{HybridNode, MaterialNode, PathTracedNode, RasterizedNode, RaytracedNode};
use sturdy_engine::material_asset::MaterialAsset;
use sturdy_engine::rendering_mode::{
    ParameterStreamingConfig, ParameterStreamingFormat, ParameterStreamingMode,
    ParameterStreamingRate, RenderingCapabilities, RenderingMode, RenderingModeConfig,
};
use sturdy_engine::caps::{PathTracingCapabilities, RaytracedShaderStage, RaytracingCapabilities};
use sturdy_engine::types::{Format, HdrMode, ShaderStage, ShaderTarget, ToneMappingOp, UpdateRate};

#[test]
fn nodes_copy_material_parts() {
    let m = MaterialAsset::new("glass", "glass.slang")
        .with_raytraced_stage("rt", "out", RaytracedShaderStage::Miss)
        .with_path_traced_bounce_count(7)
        .build();
    let n = MaterialNode::new(m.clone());
    assert_eq!(n.name(), "glass");
    assert_eq!(n.raytraced_stages().len(), 1);
    assert_eq!(n.path_traced_bounces().bounce_count, 7);
    assert_eq!(n.material().name, "glass");
    assert_eq!(RasterizedNode::new(m.clone()).name(), "glass");
    assert_eq!(HybridNode::new(m.clone()).render_state().depth_write, m.render_state.depth_write);
    assert_eq!(RaytracedNode::new(m.clone()).format_capabilities().hdr_mode, m.format_capabilities.hdr_mode);
    assert_eq!(PathTracedNode::new(m).path_traced_bounces().bounce_count, 7);
}

#[test]
fn rendering_mode_properties() {
    assert_eq!(RenderingMode::Rasterized.stage_mask().bits, 3);
    assert_eq!(RenderingMode::Hybrid.stage_mask().bits, 35);
    assert_eq!(RenderingMode::PathTraced.stage_mask().bits, 32);
    assert_eq!(RenderingMode::All.stage_mask().bits, 63);
    assert_eq!(RenderingMode::Rasterized.stages(), vec![ShaderStage::Vertex, ShaderStage::Fragment]);
    assert_eq!(
        RenderingMode::Raytraced.stages(),
        vec![ShaderStage::RayGeneration, ShaderStage::ClosestHit, ShaderStage::Miss]
    );
    assert_eq!(RenderingMode::All.stages().len(), 5);
    assert_eq!(RenderingMode::Rasterized.render_format(), Format::Rgba8Unorm);
    assert_eq!(RenderingMode::Hybrid.hdr_mode(), HdrMode::ScRgb);
    assert_eq!(RenderingMode::Raytraced.tone_mapping(), ToneMappingOp::Linear);
    assert_eq!(RenderingMode::PathTraced.rendering_caps(), RenderingCapabilities::PathTraced);
    assert_eq!(RenderingMode::PathTraced.name(), "path_traced");
    assert_eq!(RenderingCapabilities::Hybrid.stage_mask().bits, 35);
    assert_eq!(RenderingCapabilities::Rasterized.tone_mapping(), ToneMappingOp::Aces);
    assert_eq!(RenderingMode::default(), RenderingMode::Rasterized);
}

#[test]
fn rendering_mode_agrees_with_its_caps() {
    for m in [RenderingMode::Rasterized, RenderingMode::Hybrid, RenderingMode::Raytraced, RenderingMode::PathTraced, RenderingMode::All] {
        let c = m.rendering_caps();
        assert_eq!(c.stage_mask().bits, m.stage_mask().bits);
        assert_eq!(c.stages(), m.stages());
        assert_eq!(c.render_format(), m.render_format());
        assert_eq!(c.hdr_mode(), m.hdr_mode());
        assert_eq!(c.tone_mapping(), m.tone_mapping());
    }
}

#[test]
fn rendering_config_constructors() {
    let c = RenderingModeConfig::with_hdr_mode(HdrMode::Hdr10);
    assert_eq!(c.hdr_mode(), HdrMode::Hdr10);
    assert_eq!(c.tone_mapping(), ToneMappingOp::Linear);
    assert_eq!(c.render_format(), Format::Rgba16Float);
    assert_eq!(c.primary_mode(), RenderingMode::Rasterized);
    assert_eq!(c.raytracing_caps(), RaytracingCapabilities::Disabled);
    assert_eq!(c.path_tracing_caps(), PathTracingCapabilities::Disabled);
    let t = RenderingModeConfig::with_tone_mapping(ToneMappingOp::Reinhard);
    assert_eq!(t.hdr_mode(), HdrMode::Sdr);
    assert_eq!(t.render_format(), Format::Rgba8Unorm);
    let f = RenderingModeConfig::with_render_format(Format::Rgba32Float);
    assert_eq!(f.hdr_mode(), HdrMode::ScRgb);
    assert_eq!(f.tone_mapping(), ToneMappingOp::Linear);
    assert_eq!(f.format_capabilities().render_format, Format::Rgba8Unorm);
    let p = RenderingModeConfig::with_primary_mode(RenderingMode::Hybrid);
    assert_eq!(p.primary_mode(), RenderingMode::Hybrid);
    assert_eq!(p.secondary_mode(), RenderingMode::Rasterized);
    assert_eq!(p, RenderingModeConfig { primary_mode: RenderingMode::Hybrid, ..RenderingModeConfig::default() });
}

#[test]
fn parameter_streaming() {
    let c = ParameterStreamingConfig::with_streaming_rate(ParameterStreamingRate::Draw);
    assert_eq!(c.streaming_rate(), ParameterStreamingRate::Draw);
    assert_eq!(c.streaming_mode(), ParameterStreamingMode::Bindless);
    assert_eq!(c.streaming_format(), ParameterStreamingFormat::Bindless);
    assert_eq!(ParameterStreamingRate::Pass.update_rate(), UpdateRate::Pass);
    assert_eq!(ParameterStreamingMode::StorageBuffer.streaming_format(), ParameterStreamingFormat::StorageBuffer);
    assert_eq!(ParameterStreamingMode::PushConstant.name(), "push_constant");
    assert_eq!(ParameterStreamingFormat::BindGroup.name(), "bind_group");
    assert_eq!(ParameterStreamingMode::All.update_rate(), UpdateRate::Material);
    assert_eq!(ParameterStreamingMode::Bindless.stage_mask().bits, 2);
}

#[test]
fn graph_asset_defaults() {
    let a = MaterialGraphAsset::new("g", "graphs/g.mgraph");
    assert_eq!(a.name(), "g");
    assert_eq!(a.path(), "graphs/g.mgraph");
    assert_eq!(a.format(), MaterialGraphAssetFormat::Slang);
    assert!(a.data().is_empty());
    assert_eq!(a.metadata().version(), 0);
    assert_eq!(MaterialGraphAssetFormat::HLSL.shader_target(), ShaderTarget::Dxil);
    assert_eq!(MaterialGraphAssetFormat::MSL.shader_target(), ShaderTarget::Msl);
    assert_eq!(MaterialGraphAssetFormat::TextureData.shader_target(), ShaderTarget::Spirv);
    assert_eq!(MaterialGraphAssetFormat::GLSL.shader_stage(), ShaderStage::Fragment);
}

#[test]
fn graph_pipeline_load_records_everywhere_but_assets() {
    let mut p = MaterialGraphAssetPipeline::new();
    let mut a = MaterialGraphAsset::new("g", "g.mgraph");
    a.data = vec![1, 2, 3];
    p.load(a);
    assert_eq!(p.asset_loader().loaded_assets().len(), 1);
    assert_eq!(p.asset_loader().loaded_assets()[0].data(), &[1, 2, 3]);
    assert_eq!(p.asset_validator().validated_assets()[0].name(), "g");
    assert_eq!(p.asset_cache().cached_assets()[0].path(), "g.mgraph");
    assert!(p.assets().is_empty());
    assert_eq!(*p.pipeline_state(), MaterialGraphAssetPipelineState::Idle);
}

#[test]
fn graph_asset_cache_evicts_oldest() {
    let mut c = MaterialGraphAssetCache::new();
    c.size_limit = 1;
    c.cache(MaterialGraphAsset::new("a", "a"));
    c.cache(MaterialGraphAsset::new("b", "b"));
    assert_eq!(c.cached_assets().len(), 1);
    assert_eq!(c.cached_assets()[0].name(), "b");
}

#[test]
fn previews_and_captures() {
    let o = MaterialGraphPreviewOutput::new();
    assert_eq!(o.size(), &[256, 256]);
    assert_eq!(o.format(), Format::Rgba8Unorm);
    assert!(o.pixels().is_empty());
    let r = MaterialGraphPreviewRenderer::new();
    assert_eq!(r.renderer_state(), MaterialGraphPreviewRendererState::Idle);
    let mut cap = MaterialGraphGpuCapture::new(GpuCaptureTool::RenderDoc, "frame 1");
    assert_eq!(cap.label(), "frame 1");
    cap.begin();
    assert_eq!(cap.capture_state(), MaterialGraphGpuCaptureState::Capturing);
    cap.end();
    assert_eq!(cap.capture_state(), MaterialGraphGpuCaptureState::Idle);
    assert_eq!(MaterialGraphCacheEvictionStrategy::Random.formula(), "evict random material graph");
}
