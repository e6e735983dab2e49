use sturdy_engine::asset_cache::{
    CompiledShaderArtifact, MaterialAssetCache, MaterialAssetCacheEvictionStrategy,
    MaterialShaderCompilationCache, MaterialShaderValidationResult,
};
use sturdy_engine::asset_pipeline::{
    not_found_error, FormatSupport, MaterialAssetLoader, MaterialAssetPipeline, MaterialAssetPipelineState,
    MaterialAssetValidator, MaterialCrossLanguageCompiler,
};
use sturdy_engine::eviction::{evict_slot, push_bounded, EvictionSlot};
use sturdy_engine::material_asset::MaterialAsset;
use sturdy_engine::material_tools::{
    MaterialBlendMode, MaterialCache, MaterialCacheEvictionStrategy, MaterialDebuggingOutput,
    MaterialLayeringOrder, MaterialSerialization, MaterialSerializationFormat,
    MaterialShaderInspection, MaterialShaderOptimization, MaterialShaderOptimizationStrategy,
};
use sturdy_engine::types::EngineError;

fn names(v: &[MaterialAsset]) -> Vec<String> {
    v.iter().map(|a| a.name().to_string()).collect()
}

fn ok_compilation(a: &MaterialAsset) -> Result<CompiledShaderArtifact, EngineError> {
    Ok(CompiledShaderArtifact::of_asset(a))
}

const FULL_SUPPORT: FormatSupport = FormatSupport { sampled: true, color_attachment: true };

#[test]
fn bounded_push_evicts_by_slot() {
    let mut v = vec![1, 2, 3];
    push_bounded(&mut v, 3, EvictionSlot::First, 4);
    assert_eq!(v, vec![2, 3, 4]);
    let mut v = vec![1, 2, 3];
    push_bounded(&mut v, 3, EvictionSlot::Last, 4);
    assert_eq!(v, vec![1, 2, 4]);
    let mut v = vec![1, 2, 3];
    push_bounded(&mut v, 3, EvictionSlot::Middle, 4);
    assert_eq!(v, vec![1, 3, 4]);
    let mut v = vec![1, 2];
    push_bounded(&mut v, 3, EvictionSlot::First, 4);
    assert_eq!(v, vec![1, 2, 4]);
    let mut w = vec![5, 6, 7, 8];
    evict_slot(&mut w, EvictionSlot::Middle);
    assert_eq!(w, vec![5, 6, 8]);
}

#[test]
fn asset_cache_keeps_newest_within_limit() {
    let mut c = MaterialAssetCache::new();
    c.size_limit = 2;
    c.cache(MaterialAsset::new("a", "a.slang"));
    c.cache(MaterialAsset::new("b", "b.slang"));
    c.cache(MaterialAsset::new("c", "c.slang"));
    assert_eq!(names(c.cached_assets()), vec!["b", "c"]);
    assert!(c.get("a").is_none());
    assert_eq!(c.get("c").unwrap().name(), "c");
    assert_eq!(c.cached_count(), 2);
    assert_eq!(c.eviction_count(), 1);
}

#[test]
fn asset_cache_size_based_evicts_newest() {
    let mut c = MaterialAssetCache::new();
    c.size_limit = 2;
    c.eviction_strategy = MaterialAssetCacheEvictionStrategy::SizeBased;
    c.cache_many(vec![
        MaterialAsset::new("a", "a.slang"),
        MaterialAsset::new("b", "b.slang"),
        MaterialAsset::new("c", "c.slang"),
    ]);
    assert_eq!(names(c.cached_assets()), vec!["a", "c"]);
    assert_eq!(c.eviction_count(), 1);
    c.evict();
    assert_eq!(names(c.cached_assets()), vec!["a"]);
    assert_eq!(c.eviction_count(), 2);
}

#[test]
fn asset_cache_counts_evictions_past_its_limit() {
    let mut c = MaterialAssetCache::new();
    for i in 0..103 {
        c.cache(MaterialAsset::new(&format!("m{i}"), "m.slang"));
    }
    assert_eq!(c.cached_count(), 100);
    assert_eq!(c.eviction_count(), 3);
}

#[test]
fn compilation_cache_records_artifacts() {
    let mut c = MaterialShaderCompilationCache::new();
    let a = MaterialAsset::new("m", "m.slang").with_entry_point("ps");
    c.cache(&a);
    let art = c.get("m").unwrap();
    assert_eq!(art.entry_point, "ps");
    assert_eq!(c.size(), 1);
}

#[test]
fn fresh_validation_result_is_invalid() {
    let r = MaterialShaderValidationResult::new();
    assert!(!r.is_valid());
    assert_eq!(r.shader_entry_point(), "main");
    assert!(matches!(r.compilation_result(), Err(EngineError::Unsupported(m)) if m == "shader validation not performed"));
}

#[test]
fn validator_requires_compilation_support_and_tracing() {
    let v = MaterialAssetValidator::new();
    let a = MaterialAsset::new("m", "m.slang");
    let ok = v.validate_asset(&a, ok_compilation(&a), Ok(()), FULL_SUPPORT, true);
    assert!(ok.is_valid());
    let no_rt = v.validate_asset(&a, ok_compilation(&a), Ok(()), FULL_SUPPORT, false);
    assert!(!no_rt.is_valid());
    let failed = v.validate_asset(&a, Err(EngineError::Unknown("boom".to_string())), Ok(()), FULL_SUPPORT, true);
    assert!(!failed.is_valid());
    let no_target = FormatSupport { sampled: true, color_attachment: false };
    assert!(!v.validate_asset(&a, ok_compilation(&a), Ok(()), no_target, true).is_valid());
    // A layout the device refused fails the binding part and keeps its error.
    let refused = v.validate_asset(&a, ok_compilation(&a), Err(EngineError::Unsupported("layout".to_string())), FULL_SUPPORT, true);
    assert!(!refused.is_valid());
    assert!(!refused.binding_validation().is_valid());
    assert!(matches!(refused.binding_validation().layout_result(), Err(EngineError::Unsupported(m)) if m == "layout"));
    assert!(refused.shader_validation().is_valid());
}

#[test]
fn loader_appends_in_order() {
    let mut l = MaterialAssetLoader::new();
    l.load_many(vec![MaterialAsset::new("a", "a.slang"), MaterialAsset::new("b", "b.slang")]);
    assert_eq!(names(l.loaded_assets()), vec!["a", "b"]);
    assert_eq!(l.loaded_count(), 2);
}

#[test]
fn compiler_keeps_only_compiled_assets() {
    let mut c = MaterialCrossLanguageCompiler::new();
    c.compile_many(
        vec![MaterialAsset::new("a", "a.slang"), MaterialAsset::new("b", "b.slang")],
        vec![true, false],
    );
    assert_eq!(names(c.compiled_assets()), vec!["a"]);
    assert_eq!(c.compiled_count(), 1);
}

#[test]
fn pipeline_load_then_get_finds_asset() {
    let mut p = MaterialAssetPipeline::new();
    let a = MaterialAsset::new("brick", "brick.slang");
    let c = ok_compilation(&a);
    let r = p.load(a, c, Ok(()), FULL_SUPPORT, true);
    assert!(r.is_valid());
    assert_eq!(p.get("brick").unwrap().name(), "brick");
    assert_eq!(p.get_validated("brick").unwrap().name(), "brick");
    assert_eq!(p.get_cached("brick").unwrap().name(), "brick");
    assert_eq!(p.pipeline_state(), MaterialAssetPipelineState::Complete);
    let m = p.material_for("brick").unwrap();
    assert_eq!(m.name, "brick");
}

#[test]
fn pipeline_invalid_asset_is_loaded_but_not_validated() {
    let mut p = MaterialAssetPipeline::new();
    let a = MaterialAsset::new("bad", "bad.slang");
    let r = p.load(a, Err(EngineError::Unknown("x".to_string())), Ok(()), FULL_SUPPORT, true);
    assert!(!r.is_valid());
    assert!(p.get("bad").is_some());
    assert!(p.get_validated("bad").is_none());
    assert!(p.validated_material_for("bad").is_err());
}

#[test]
fn pipeline_missing_asset_message_quotes_name() {
    let p = MaterialAssetPipeline::new();
    match p.material_for("ghost") {
        Err(EngineError::InvalidInput(m)) => assert_eq!(m, "material asset \"ghost\" not found in pipeline"),
        _ => panic!("expected InvalidInput"),
    }
    match p.cached_material_for("a\"b") {
        Err(EngineError::InvalidInput(m)) => assert_eq!(m, "cached material asset \"a\\\"b\" not found in pipeline"),
        _ => panic!("expected InvalidInput"),
    }
}

#[test]
fn pipeline_load_many_validates_each() {
    let mut p = MaterialAssetPipeline::new();
    let a = MaterialAsset::new("a", "a.slang");
    let b = MaterialAsset::new("b", "b.slang");
    let ca = ok_compilation(&a);
    let results = p.load_many(
        vec![a, b],
        vec![ca, Err(EngineError::Unknown("no".to_string()))],
        vec![Ok(()), Ok(())],
        vec![FULL_SUPPORT, FULL_SUPPORT],
        true,
    );
    assert_eq!(results.len(), 2);
    assert!(results[0].is_valid());
    assert!(!results[1].is_valid());
    assert_eq!(names(p.loaded_assets()), vec!["a", "b"]);
    assert_eq!(names(p.validated_assets()), vec!["a"]);
    assert_eq!(p.pipeline_state(), MaterialAssetPipelineState::Complete);
}

#[test]
fn pipeline_load_many_of_nothing_completes() {
    let mut p = MaterialAssetPipeline::new();
    let r = p.load_many(Vec::new(), Vec::new(), Vec::new(), Vec::new(), false);
    assert!(r.is_empty());
    assert_eq!(p.pipeline_state(), MaterialAssetPipelineState::Complete);
}

#[test]
fn material_cache_add_and_evict() {
    let c = MaterialCache::new(2);
    let c = c.add(MaterialAsset::new("a", "a.slang").build()).unwrap();
    let c = c.add(MaterialAsset::new("b", "b.slang").build()).unwrap();
    let mut c = c.add(MaterialAsset::new("c", "c.slang").build()).unwrap();
    assert_eq!(c.size(), 2);
    assert!(c.get("a").is_none());
    assert_eq!(c.get("b").unwrap().name, "b");
    c.evict();
    assert_eq!(c.size(), 1);
    assert_eq!(c.get("c").unwrap().name, "c");
    assert_eq!(MaterialCache::default().size_limit(), 100);
}

#[test]
fn blend_and_layering_formulas() {
    assert_eq!(MaterialBlendMode::Screen.formula(), "1 - (1 - a) * (1 - b)");
    assert_eq!(MaterialBlendMode::default().formula(), "a + b");
    assert_eq!(MaterialLayeringOrder::OverlayFirst.formula(), "overlay + base");
    assert_eq!(MaterialCacheEvictionStrategy::SizeBased.formula(), "evict largest material");
}

#[test]
fn material_records_start_empty() {
    let m = MaterialAsset::new_with_source("s", "code").build();
    let i = MaterialShaderInspection::new(m);
    assert_eq!(i.shader_source(), "code");
    assert!(i.shader_artifacts().is_empty());
    let d = MaterialDebuggingOutput::new(MaterialAsset::new("d", "d.slang").build());
    assert!(d.debugging_errors().is_empty());
    let s = MaterialSerialization::new(MaterialAsset::new("x", "x.slang").build());
    assert_eq!(s.serialization_format(), MaterialSerializationFormat::JSON);
    let o = MaterialShaderOptimization::new(MaterialAsset::new("y", "y.slang").build());
    assert_eq!(o.optimization_strategy(), MaterialShaderOptimizationStrategy::Disabled);
}

#[test]
fn not_found_message_wraps_the_quoted_name() {
    match not_found_error("validated material asset ", "\"stone\"") {
        EngineError::InvalidInput(m) => assert_eq!(m, "validated material asset \"stone\" not found in pipeline"),
        other => panic!("unexpected error {other:?}"),
    }
}
