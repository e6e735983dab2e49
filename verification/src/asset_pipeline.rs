//! Loading, validating and caching material assets: the validation results,
//! the loader, the validator, the cross-language compiler and the pipeline
//! that drives them.
//!
//! Whether a shader compiles, whether a format can be sampled and rendered
//! to, and whether ray tracing is available are decided by the graphics
//! device; the functions here take those outcomes as arguments and decide
//! everything else.
use vstd::prelude::*;

use crate::asset_cache::{
    CompiledShaderArtifact, MaterialAssetCache, MaterialAssetCacheEvictionStrategy,
    MaterialCrossLanguageCache, MaterialShaderCompilationCache, MaterialShaderValidationCache,
    MaterialShaderValidationResult, artifact_of, fresh_compilation_cache, fresh_cross_language_cache,
    fresh_shader_validation, fresh_validation_cache, duplicate_compilation, insert_all, strategy_slot,
    DEFAULT_CACHE_LIMIT,
};
use crate::binding::{
    AccelerationStructureBindingRegistration, PipelineLayoutDesc, RaytracedStageRegistration,
    binding_views, caps_for_stages, layout_bindings_spec, push_constant_sizes,
};
use crate::caps::{
    FormatCapabilities, PathTracedBounceConfig, PathTracedImportanceSampling,
    PathTracedTerminationStrategy, PathTracingCapabilities, RaytracingCapabilities,
    default_bounce_config, default_format_caps, path_caps_for_config,
};
use crate::eviction::{evict_slot, insert_bounded, push_bounded, slot_index};
use crate::material_asset::{Material, MaterialAsset, built_from, same_asset};
use crate::types::{
    Duplicate, EngineError, Format, HdrMode, Named, ToneMappingOp, duplicate_vec, find_named, has_named, is_first_named, position_named,
};

verus! {

// ── States ───────────────────────────────────────────────────────────────────

/// Progress of a material asset pipeline.
#[derive(Clone, Copy, Debug, PartialEq, Eq, Structural)]
pub enum MaterialAssetPipelineState {
    Idle,
    Loading,
    Validating,
    Caching,
    Complete,
    Error,
}

/// Progress of a material asset loader.
#[derive(Clone, Copy, Debug, PartialEq, Eq, Structural)]
pub enum MaterialAssetLoaderState {
    Idle,
    Loading,
    Loaded,
    Error,
}

/// Progress of a material asset validator.
#[derive(Clone, Copy, Debug, PartialEq, Eq, Structural)]
pub enum MaterialAssetValidatorState {
    Idle,
    Validating,
    Validated,
    Error,
}

/// Progress of a cross-language compiler.
#[derive(Clone, Copy, Debug, PartialEq, Eq, Structural)]
pub enum MaterialCrossLanguageCompilerState {
    Idle,
    Compiling,
    Compiled,
    Error,
}

/// What the graphics device reports for a render format.
#[derive(Clone, Copy, Debug, PartialEq, Eq, Structural)]
pub struct FormatSupport {
    pub sampled: bool,
    pub color_attachment: bool,
}

// ── Validation results ───────────────────────────────────────────────────────

/// Outcome of checking an asset's bindings.
#[derive(Debug)]
pub struct MaterialBindingValidationResult {
    pub is_valid: bool,
    pub layout_result: Result<PipelineLayoutDesc, EngineError>,
    pub binding_count: usize,
    pub push_constant_count: usize,
    pub texture_binding_count: usize,
    pub buffer_binding_count: usize,
    pub acceleration_structure_binding_count: usize,
    pub raytraced_stage_count: usize,
}

/// A binding validation not performed yet: invalid, `Unsupported`, all
/// counts zero.
pub open spec fn fresh_binding_validation(r: MaterialBindingValidationResult) -> bool {
    &&& !r.is_valid
    &&& r.layout_result matches Err(EngineError::Unsupported(m)) && m@ == "binding validation not performed"@
    &&& r.binding_count == 0
    &&& r.push_constant_count == 0
    &&& r.texture_binding_count == 0
    &&& r.buffer_binding_count == 0
    &&& r.acceleration_structure_binding_count == 0
    &&& r.raytraced_stage_count == 0
}

impl MaterialBindingValidationResult {
    /// A result for bindings not checked yet: invalid, `Unsupported`, all counts zero.
    pub fn new() -> (r: MaterialBindingValidationResult)
        ensures
            !r.is_valid,
            r.layout_result matches Err(EngineError::Unsupported(m)) && m@ == "binding validation not performed"@,
            r.binding_count == 0,
            r.push_constant_count == 0,
            r.texture_binding_count == 0,
            r.buffer_binding_count == 0,
            r.acceleration_structure_binding_count == 0,
            r.raytraced_stage_count == 0,
    {
        MaterialBindingValidationResult {
            is_valid: false,
            layout_result: Err(EngineError::Unsupported(String::from_str("binding validation not performed"))),
            binding_count: 0,
            push_constant_count: 0,
            texture_binding_count: 0,
            buffer_binding_count: 0,
            acceleration_structure_binding_count: 0,
            raytraced_stage_count: 0,
        }
    }

    /// Whether the bindings passed.
    pub fn is_valid(&self) -> (r: bool)
        ensures r == self.is_valid,
    {
        self.is_valid
    }

    /// The layout outcome.
    pub fn layout_result(&self) -> (r: &Result<PipelineLayoutDesc, EngineError>)
        ensures *r == self.layout_result,
    {
        &self.layout_result
    }

    /// Total number of registered bindings.
    pub fn binding_count(&self) -> (r: usize)
        ensures r == self.binding_count,
    {
        self.binding_count
    }

    /// Number of push-constant blocks.
    pub fn push_constant_count(&self) -> (r: usize)
        ensures r == self.push_constant_count,
    {
        self.push_constant_count
    }

    /// Number of textures.
    pub fn texture_binding_count(&self) -> (r: usize)
        ensures r == self.texture_binding_count,
    {
        self.texture_binding_count
    }

    /// Number of buffers.
    pub fn buffer_binding_count(&self) -> (r: usize)
        ensures r == self.buffer_binding_count,
    {
        self.buffer_binding_count
    }

    /// Number of acceleration structures.
    pub fn acceleration_structure_binding_count(&self) -> (r: usize)
        ensures r == self.acceleration_structure_binding_count,
    {
        self.acceleration_structure_binding_count
    }

    /// Number of ray-traced stages.
    pub fn raytraced_stage_count(&self) -> (r: usize)
        ensures r == self.raytraced_stage_count,
    {
        self.raytraced_stage_count
    }
}

/// Outcome of checking an asset's render format and capabilities.
#[derive(Clone, Copy, Debug)]
pub struct MaterialFormatValidationResult {
    pub is_valid: bool,
    pub format_caps: FormatCapabilities,
    pub render_format: Format,
    pub hdr_mode: HdrMode,
    pub tone_mapping: ToneMappingOp,
    pub fp16_render: bool,
    pub fp32_render: bool,
    pub hdr_output: bool,
    pub shader_fp16: bool,
    pub shader_fp64: bool,
    pub variable_rate_shading: bool,
    pub bindless: bool,
}

/// A format validation not performed yet: invalid, default capabilities,
/// SDR `Rgba8Unorm` with ACES, no optional features.
pub open spec fn fresh_format_validation(r: MaterialFormatValidationResult) -> bool {
    &&& !r.is_valid
    &&& r.format_caps == default_format_caps()
    &&& r.render_format == Format::Rgba8Unorm
    &&& r.hdr_mode == HdrMode::Sdr
    &&& r.tone_mapping == ToneMappingOp::Aces
    &&& !r.fp16_render && !r.fp32_render && !r.hdr_output && !r.shader_fp16
    &&& !r.shader_fp64 && !r.variable_rate_shading && !r.bindless
}

impl MaterialFormatValidationResult {
    /// A result for a format not checked yet: invalid, default capabilities,
    /// SDR `Rgba8Unorm` with ACES, no optional features.
    pub fn new() -> (r: MaterialFormatValidationResult)
        ensures
            !r.is_valid,
            r.format_caps == default_format_caps(),
            r.render_format == Format::Rgba8Unorm,
            r.hdr_mode == HdrMode::Sdr,
            r.tone_mapping == ToneMappingOp::Aces,
            !r.fp16_render && !r.fp32_render && !r.hdr_output && !r.shader_fp16,
            !r.shader_fp64 && !r.variable_rate_shading && !r.bindless,
    {
        MaterialFormatValidationResult {
            is_valid: false,
            format_caps: FormatCapabilities::default_caps(),
            render_format: Format::Rgba8Unorm,
            hdr_mode: HdrMode::Sdr,
            tone_mapping: ToneMappingOp::Aces,
            fp16_render: false,
            fp32_render: false,
            hdr_output: false,
            shader_fp16: false,
            shader_fp64: false,
            variable_rate_shading: false,
            bindless: false,
        }
    }

    /// Whether the format passed.
    pub fn is_valid(&self) -> (r: bool)
        ensures r == self.is_valid,
    {
        self.is_valid
    }

    /// The capabilities checked.
    pub fn format_caps(&self) -> (r: &FormatCapabilities)
        ensures *r == self.format_caps,
    {
        &self.format_caps
    }

    /// The render format.
    pub fn render_format(&self) -> (r: Format)
        ensures r == self.render_format,
    {
        self.render_format
    }

    /// The output mode.
    pub fn hdr_mode(&self) -> (r: HdrMode)
        ensures r == self.hdr_mode,
    {
        self.hdr_mode
    }

    /// The tone-mapping operator.
    pub fn tone_mapping(&self) -> (r: ToneMappingOp)
        ensures r == self.tone_mapping,
    {
        self.tone_mapping
    }

    /// Half-float rendering.
    pub fn fp16_render(&self) -> (r: bool)
        ensures r == self.fp16_render,
    {
        self.fp16_render
    }

    /// Full-float rendering.
    pub fn fp32_render(&self) -> (r: bool)
        ensures r == self.fp32_render,
    {
        self.fp32_render
    }

    /// HDR output.
    pub fn hdr_output(&self) -> (r: bool)
        ensures r == self.hdr_output,
    {
        self.hdr_output
    }

    /// Half-float shader arithmetic.
    pub fn shader_fp16(&self) -> (r: bool)
        ensures r == self.shader_fp16,
    {
        self.shader_fp16
    }

    /// Double-precision shader arithmetic.
    pub fn shader_fp64(&self) -> (r: bool)
        ensures r == self.shader_fp64,
    {
        self.shader_fp64
    }

    /// Variable-rate shading.
    pub fn variable_rate_shading(&self) -> (r: bool)
        ensures r == self.variable_rate_shading,
    {
        self.variable_rate_shading
    }

    /// Bindless resources.
    pub fn bindless(&self) -> (r: bool)
        ensures r == self.bindless,
    {
        self.bindless
    }
}

/// Outcome of checking an asset's ray-tracing needs.
#[derive(Debug)]
pub struct MaterialRaytracingValidationResult {
    pub is_valid: bool,
    pub raytracing_caps: RaytracingCapabilities,
    pub raytracing_supported: bool,
    pub raytraced_stage_count: usize,
    pub raytraced_stages: Vec<RaytracedStageRegistration>,
    pub acceleration_structure_binding_count: usize,
    pub acceleration_structure_bindings: Vec<AccelerationStructureBindingRegistration>,
}

/// A ray-tracing validation not performed yet: invalid, no capabilities,
/// nothing registered.
pub open spec fn fresh_raytracing_validation(r: MaterialRaytracingValidationResult) -> bool {
    &&& !r.is_valid
    &&& r.raytracing_caps == RaytracingCapabilities::Disabled
    &&& !r.raytracing_supported
    &&& r.raytraced_stage_count == 0
    &&& r.raytraced_stages@.len() == 0
    &&& r.acceleration_structure_binding_count == 0
    &&& r.acceleration_structure_bindings@.len() == 0
}

impl MaterialRaytracingValidationResult {
    /// A result not checked yet: invalid, no capabilities, nothing registered.
    pub fn new() -> (r: MaterialRaytracingValidationResult)
        ensures
            !r.is_valid,
            r.raytracing_caps == RaytracingCapabilities::Disabled,
            !r.raytracing_supported,
            r.raytraced_stage_count == 0,
            r.raytraced_stages@.len() == 0,
            r.acceleration_structure_binding_count == 0,
            r.acceleration_structure_bindings@.len() == 0,
    {
        MaterialRaytracingValidationResult {
            is_valid: false,
            raytracing_caps: RaytracingCapabilities::Disabled,
            raytracing_supported: false,
            raytraced_stage_count: 0,
            raytraced_stages: Vec::new(),
            acceleration_structure_binding_count: 0,
            acceleration_structure_bindings: Vec::new(),
        }
    }

    /// Whether ray tracing passed.
    pub fn is_valid(&self) -> (r: bool)
        ensures r == self.is_valid,
    {
        self.is_valid
    }

    /// The capabilities needed.
    pub fn raytracing_caps(&self) -> (r: &RaytracingCapabilities)
        ensures *r == self.raytracing_caps,
    {
        &self.raytracing_caps
    }

    /// Whether the device traces rays.
    pub fn raytracing_supported(&self) -> (r: bool)
        ensures r == self.raytracing_supported,
    {
        self.raytracing_supported
    }

    /// Number of ray-traced stages.
    pub fn raytraced_stage_count(&self) -> (r: usize)
        ensures r == self.raytraced_stage_count,
    {
        self.raytraced_stage_count
    }

    /// The ray-traced stages.
    pub fn raytraced_stages(&self) -> (r: &[RaytracedStageRegistration])
        ensures r@ == self.raytraced_stages@,
    {
        self.raytraced_stages.as_slice()
    }

    /// Number of acceleration structures.
    pub fn acceleration_structure_binding_count(&self) -> (r: usize)
        ensures r == self.acceleration_structure_binding_count,
    {
        self.acceleration_structure_binding_count
    }

    /// The acceleration structures.
    pub fn acceleration_structure_bindings(&self) -> (r: &[AccelerationStructureBindingRegistration])
        ensures r@ == self.acceleration_structure_bindings@,
    {
        self.acceleration_structure_bindings.as_slice()
    }
}

/// Outcome of checking an asset's path-tracing needs.
#[derive(Clone, Copy, Debug)]
pub struct MaterialPathTracingValidationResult {
    pub is_valid: bool,
    pub path_tracing_caps: PathTracingCapabilities,
    pub path_tracing_supported: bool,
    pub path_traced_bounce_count: usize,
    pub path_traced_bounces: PathTracedBounceConfig,
    pub importance_sampling: PathTracedImportanceSampling,
    pub termination_strategy: PathTracedTerminationStrategy,
}

/// A path-tracing validation not performed yet: invalid, no capabilities,
/// zero bounces counted, default configuration, uniform sampling,
/// bounce-count termination.
pub open spec fn fresh_path_tracing_validation(r: MaterialPathTracingValidationResult) -> bool {
    &&& !r.is_valid
    &&& r.path_tracing_caps == PathTracingCapabilities::Disabled
    &&& !r.path_tracing_supported
    &&& r.path_traced_bounce_count == 0
    &&& r.path_traced_bounces == default_bounce_config()
    &&& r.importance_sampling == PathTracedImportanceSampling::Uniform
    &&& r.termination_strategy == PathTracedTerminationStrategy::BounceCount
}

impl MaterialPathTracingValidationResult {
    /// A result not checked yet: invalid, no capabilities, zero bounces
    /// counted, default configuration, uniform sampling, bounce-count termination.
    pub fn new() -> (r: MaterialPathTracingValidationResult)
        ensures
            !r.is_valid,
            r.path_tracing_caps == PathTracingCapabilities::Disabled,
            !r.path_tracing_supported,
            r.path_traced_bounce_count == 0,
            r.path_traced_bounces == default_bounce_config(),
            r.importance_sampling == PathTracedImportanceSampling::Uniform,
            r.termination_strategy == PathTracedTerminationStrategy::BounceCount,
    {
        MaterialPathTracingValidationResult {
            is_valid: false,
            path_tracing_caps: PathTracingCapabilities::Disabled,
            path_tracing_supported: false,
            path_traced_bounce_count: 0,
            path_traced_bounces: PathTracedBounceConfig::default_config(),
            importance_sampling: PathTracedImportanceSampling::Uniform,
            termination_strategy: PathTracedTerminationStrategy::BounceCount,
        }
    }

    /// Whether path tracing passed.
    pub fn is_valid(&self) -> (r: bool)
        ensures r == self.is_valid,
    {
        self.is_valid
    }

    /// The capabilities needed.
    pub fn path_tracing_caps(&self) -> (r: &PathTracingCapabilities)
        ensures *r == self.path_tracing_caps,
    {
        &self.path_tracing_caps
    }

    /// Whether the device traces paths.
    pub fn path_tracing_supported(&self) -> (r: bool)
        ensures r == self.path_tracing_supported,
    {
        self.path_tracing_supported
    }

    /// Number of bounces.
    pub fn path_traced_bounce_count(&self) -> (r: usize)
        ensures r == self.path_traced_bounce_count,
    {
        self.path_traced_bounce_count
    }

    /// The bounce configuration.
    pub fn path_traced_bounces(&self) -> (r: &PathTracedBounceConfig)
        ensures *r == self.path_traced_bounces,
    {
        &self.path_traced_bounces
    }

    /// The importance sampling.
    pub fn importance_sampling(&self) -> (r: PathTracedImportanceSampling)
        ensures r == self.importance_sampling,
    {
        self.importance_sampling
    }

    /// The termination strategy.
    pub fn termination_strategy(&self) -> (r: PathTracedTerminationStrategy)
        ensures r == self.termination_strategy,
    {
        self.termination_strategy
    }
}

/// Outcome of validating a whole asset.
#[derive(Debug)]
pub struct MaterialAssetValidationResult {
    pub is_valid: bool,
    pub shader_validation: MaterialShaderValidationResult,
    pub binding_validation: MaterialBindingValidationResult,
    pub format_validation: MaterialFormatValidationResult,
    pub raytracing_validation: MaterialRaytracingValidationResult,
    pub path_tracing_validation: MaterialPathTracingValidationResult,
}

impl MaterialAssetValidationResult {
    /// A result not validated yet: invalid, every part not checked.
    pub fn new() -> (r: MaterialAssetValidationResult)
        ensures
            !r.is_valid,
            fresh_shader_validation(r.shader_validation),
            fresh_binding_validation(r.binding_validation),
            fresh_format_validation(r.format_validation),
            fresh_raytracing_validation(r.raytracing_validation),
            fresh_path_tracing_validation(r.path_tracing_validation),
    {
        MaterialAssetValidationResult {
            is_valid: false,
            shader_validation: MaterialShaderValidationResult::new(),
            binding_validation: MaterialBindingValidationResult::new(),
            format_validation: MaterialFormatValidationResult::new(),
            raytracing_validation: MaterialRaytracingValidationResult::new(),
            path_tracing_validation: MaterialPathTracingValidationResult::new(),
        }
    }

    /// Whether the asset passed.
    pub fn is_valid(&self) -> (r: bool)
        ensures r == self.is_valid,
    {
        self.is_valid
    }

    /// The shader part.
    pub fn shader_validation(&self) -> (r: &MaterialShaderValidationResult)
        ensures *r == self.shader_validation,
    {
        &self.shader_validation
    }

    /// The binding part.
    pub fn binding_validation(&self) -> (r: &MaterialBindingValidationResult)
        ensures *r == self.binding_validation,
    {
        &self.binding_validation
    }

    /// The format part.
    pub fn format_validation(&self) -> (r: &MaterialFormatValidationResult)
        ensures *r == self.format_validation,
    {
        &self.format_validation
    }

    /// The ray-tracing part.
    pub fn raytracing_validation(&self) -> (r: &MaterialRaytracingValidationResult)
        ensures *r == self.raytracing_validation,
    {
        &self.raytracing_validation
    }

    /// The path-tracing part.
    pub fn path_tracing_validation(&self) -> (r: &MaterialPathTracingValidationResult)
        ensures *r == self.path_tracing_validation,
    {
        &self.path_tracing_validation
    }
}

/// Total number of bindings an asset registers.
pub open spec fn registered_binding_count(a: MaterialAsset) -> nat {
    a.push_constants@.len() + a.texture_bindings@.len() + a.buffer_bindings@.len()
        + a.acceleration_structure_bindings@.len() + a.raytraced_stages@.len()
}

/// Whether an asset passes validation: its shader compiled, its pipeline
/// layout was created, its format can be sampled and rendered to, and the
/// device traces rays (which both the ray-tracing and the path-tracing
/// checks ask for).
pub open spec fn asset_passes(compiled: bool, laid_out: bool, support: FormatSupport, raytracing_supported: bool) -> bool {
    compiled && laid_out && support.sampled && support.color_attachment && raytracing_supported
}

// ── Validator ────────────────────────────────────────────────────────────────

/// `r` is the validation of `asset` with the given shader compilation and
/// layout creation outcomes, format support and ray-tracing support: valid
/// exactly when every part is, the shader part valid when the shader
/// compiled, the binding part valid when the layout was created and every
/// binding counted, the format valid when sampled
/// colour attachments are supported, and the ray- and path-tracing parts
/// valid when ray tracing is supported.
pub open spec fn validation_of(
    r: MaterialAssetValidationResult,
    asset: MaterialAsset,
    compilation: Result<CompiledShaderArtifact, EngineError>,
    layout_creation: Result<(), EngineError>,
    support: FormatSupport,
    raytracing_supported: bool,
) -> bool {
    &&& r.is_valid == asset_passes(compilation is Ok, layout_creation is Ok, support, raytracing_supported)
    &&& r.shader_validation.is_valid == compilation is Ok
    &&& r.shader_validation.compilation_result == compilation
    &&& r.binding_validation.is_valid == layout_creation is Ok
    &&& (layout_creation matches Err(e) ==> r.binding_validation.layout_result == Err::<PipelineLayoutDesc, EngineError>(e))
    &&& r.binding_validation.binding_count == registered_binding_count(asset)
    &&& r.format_validation.is_valid == (support.sampled && support.color_attachment)
    &&& r.raytracing_validation.is_valid == raytracing_supported
    &&& r.path_tracing_validation.is_valid == raytracing_supported
}

/// An asset validation is valid exactly when each of its parts is: the
/// shader, the bindings, the format, ray tracing and path tracing. In
/// particular the whole fails as soon as the format cannot be sampled or
/// rendered to, the layout was refused, the shader did not compile or the
/// device traces no rays.
pub proof fn lemma_valid_iff_all_parts(
    r: MaterialAssetValidationResult,
    asset: MaterialAsset,
    compilation: Result<CompiledShaderArtifact, EngineError>,
    layout_creation: Result<(), EngineError>,
    support: FormatSupport,
    raytracing_supported: bool,
)
    requires
        validation_of(r, asset, compilation, layout_creation, support, raytracing_supported),
    ensures
        r.is_valid == (r.shader_validation.is_valid && r.binding_validation.is_valid && r.format_validation.is_valid
            && r.raytracing_validation.is_valid && r.path_tracing_validation.is_valid),
        r.format_validation.is_valid == (support.sampled && support.color_attachment),
        !support.sampled || !support.color_attachment || compilation is Err || layout_creation is Err
            || !raytracing_supported ==> !r.is_valid,
{
}

/// Copy a layout creation outcome.
fn duplicate_outcome(c: &Result<(), EngineError>) -> (r: Result<(), EngineError>)
    ensures
        r == *c,
{
    match c {
        Ok(u) => Ok(*u),
        Err(e) => Err(e.duplicate()),
    }
}

/// Validates material assets and remembers those that pass.
#[derive(Debug)]
pub struct MaterialAssetValidator {
    pub validated_assets: Vec<MaterialAsset>,
    pub validator_state: MaterialAssetValidatorState,
    pub shader_validation_cache: MaterialShaderValidationCache,
}

impl MaterialAssetValidator {
    /// An idle validator with nothing validated and an empty validation cache.
    pub fn new() -> (r: MaterialAssetValidator)
        ensures
            r.validated_assets@.len() == 0,
            r.validator_state == MaterialAssetValidatorState::Idle,
            fresh_validation_cache(r.shader_validation_cache),
    {
        MaterialAssetValidator {
            validated_assets: Vec::new(),
            validator_state: MaterialAssetValidatorState::Idle,
            shader_validation_cache: MaterialShaderValidationCache::new(),
        }
    }

    /// Record the outcome of compiling an asset's shader: valid exactly when
    /// the compilation succeeded.
    pub fn validate_shader(&self, asset: &MaterialAsset, compilation: Result<CompiledShaderArtifact, EngineError>) -> (r: MaterialShaderValidationResult)
        ensures
            r.is_valid == compilation is Ok,
            r.compilation_result == compilation,
            r.shader_source == asset.shader_source,
            r.shader_entry_point == asset.shader_entry_point,
            r.shader_stage == asset.shader_stage,
            r.shader_target == asset.shader_target,
    {
        let ok = compilation.is_ok();
        MaterialShaderValidationResult {
            is_valid: ok,
            compilation_result: compilation,
            shader_source: asset.shader_source.duplicate(),
            shader_entry_point: asset.shader_entry_point.clone(),
            shader_stage: asset.shader_stage,
            shader_target: asset.shader_target,
        }
    }

    /// Check an asset's bindings against the outcome of creating their
    /// pipeline layout on the device: valid exactly when that succeeded, in
    /// which case the layout is the one built from the asset's bindings;
    /// otherwise the device's error is kept. The counts are those of each
    /// kind of registration.
    pub fn validate_bindings(&self, asset: &MaterialAsset, layout_creation: Result<(), EngineError>) -> (r: MaterialBindingValidationResult)
        requires
            registered_binding_count(*asset) <= usize::MAX,
        ensures
            r.is_valid == layout_creation is Ok,
            layout_creation is Ok ==> (r.layout_result matches Ok(l)
                && binding_views(l.bindings@) == layout_bindings_spec(asset.texture_bindings@, asset.buffer_bindings@,
                    asset.acceleration_structure_bindings@, asset.raytraced_stages@)
                && l.push_constant_bytes@ == push_constant_sizes(asset.push_constants@)),
            layout_creation matches Err(e) ==> r.layout_result == Err::<PipelineLayoutDesc, EngineError>(e),
            r.binding_count == registered_binding_count(*asset),
            r.push_constant_count == asset.push_constants@.len(),
            r.texture_binding_count == asset.texture_bindings@.len(),
            r.buffer_binding_count == asset.buffer_bindings@.len(),
            r.acceleration_structure_binding_count == asset.acceleration_structure_bindings@.len(),
            r.raytraced_stage_count == asset.raytraced_stages@.len(),
    {
        let is_valid = layout_creation.is_ok();
        let layout_result = match layout_creation {
            Ok(()) => Ok(asset.create_pipeline_layout()),
            Err(e) => Err(e),
        };
        MaterialBindingValidationResult {
            is_valid,
            layout_result,
            binding_count: asset.push_constants.len() + asset.texture_bindings.len() + asset.buffer_bindings.len()
                + asset.acceleration_structure_bindings.len() + asset.raytraced_stages.len(),
            push_constant_count: asset.push_constants.len(),
            texture_binding_count: asset.texture_bindings.len(),
            buffer_binding_count: asset.buffer_bindings.len(),
            acceleration_structure_binding_count: asset.acceleration_structure_bindings.len(),
            raytraced_stage_count: asset.raytraced_stages.len(),
        }
    }

    /// Check an asset's render format against what the device reports: valid
    /// exactly when the format can be sampled and rendered to; the
    /// capabilities are the asset's.
    pub fn validate_format(&self, asset: &MaterialAsset, support: FormatSupport) -> (r: MaterialFormatValidationResult)
        ensures
            r.is_valid == (support.sampled && support.color_attachment),
            r.format_caps == asset.format_capabilities,
            r.render_format == asset.format_capabilities.render_format,
            r.hdr_mode == asset.format_capabilities.hdr_mode,
            r.tone_mapping == asset.format_capabilities.tone_mapping,
            r.fp16_render == asset.format_capabilities.fp16_render,
            r.fp32_render == asset.format_capabilities.fp32_render,
            r.hdr_output == asset.format_capabilities.hdr_output,
            r.shader_fp16 == asset.format_capabilities.shader_fp16,
            r.shader_fp64 == asset.format_capabilities.shader_fp64,
            r.variable_rate_shading == asset.format_capabilities.variable_rate_shading,
            r.bindless == asset.format_capabilities.bindless,
    {
        let caps = asset.format_capabilities;
        MaterialFormatValidationResult {
            is_valid: support.sampled && support.color_attachment,
            format_caps: caps,
            render_format: caps.render_format,
            hdr_mode: caps.hdr_mode,
            tone_mapping: caps.tone_mapping,
            fp16_render: caps.fp16_render,
            fp32_render: caps.fp32_render,
            hdr_output: caps.hdr_output,
            shader_fp16: caps.shader_fp16,
            shader_fp64: caps.shader_fp64,
            variable_rate_shading: caps.variable_rate_shading,
            bindless: caps.bindless,
        }
    }

    /// Check an asset's ray-tracing needs: valid exactly when the device
    /// traces rays.
    pub fn validate_raytracing(&self, asset: &MaterialAsset, raytracing_supported: bool) -> (r: MaterialRaytracingValidationResult)
        ensures
            r.is_valid == raytracing_supported,
            r.raytracing_caps == caps_for_stages(asset.raytraced_stages@),
            r.raytracing_supported == raytracing_supported,
            r.raytraced_stage_count == asset.raytraced_stages@.len(),
            r.raytraced_stages@ == asset.raytraced_stages@,
            r.acceleration_structure_binding_count == asset.acceleration_structure_bindings@.len(),
            r.acceleration_structure_bindings@ == asset.acceleration_structure_bindings@,
    {
        MaterialRaytracingValidationResult {
            is_valid: raytracing_supported,
            raytracing_caps: asset.raytracing_caps(),
            raytracing_supported,
            raytraced_stage_count: asset.raytraced_stage_count(),
            raytraced_stages: duplicate_vec(&asset.raytraced_stages),
            acceleration_structure_binding_count: asset.acceleration_structure_binding_count(),
            acceleration_structure_bindings: duplicate_vec(&asset.acceleration_structure_bindings),
        }
    }

    /// Check an asset's path-tracing needs: valid exactly when the device
    /// traces rays.
    pub fn validate_path_tracing(&self, asset: &MaterialAsset, raytracing_supported: bool) -> (r: MaterialPathTracingValidationResult)
        ensures
            r.is_valid == raytracing_supported,
            r.path_tracing_caps == path_caps_for_config(asset.path_traced_bounces),
            r.path_tracing_supported == raytracing_supported,
            r.path_traced_bounce_count == asset.path_traced_bounces.bounce_count,
            r.path_traced_bounces == asset.path_traced_bounces,
            r.importance_sampling == asset.path_traced_bounces.importance_sampling,
            r.termination_strategy == asset.path_traced_bounces.termination_strategy,
    {
        MaterialPathTracingValidationResult {
            is_valid: raytracing_supported,
            path_tracing_caps: asset.path_tracing_caps(),
            path_tracing_supported: raytracing_supported,
            path_traced_bounce_count: asset.path_traced_bounce_count(),
            path_traced_bounces: asset.path_traced_bounces,
            importance_sampling: asset.path_traced_bounces.importance_sampling(),
            termination_strategy: asset.path_traced_bounces.termination_strategy(),
        }
    }

    /// Validate an asset: shader, bindings, format, ray tracing and path
    /// tracing; it is valid exactly when every part is.
    pub fn validate_asset(
        &self,
        asset: &MaterialAsset,
        compilation: Result<CompiledShaderArtifact, EngineError>,
        layout_creation: Result<(), EngineError>,
        support: FormatSupport,
        raytracing_supported: bool,
    ) -> (r: MaterialAssetValidationResult)
        requires
            registered_binding_count(*asset) <= usize::MAX,
        ensures
            validation_of(r, *asset, compilation, layout_creation, support, raytracing_supported),
            r.is_valid == (r.shader_validation.is_valid && r.binding_validation.is_valid && r.format_validation.is_valid
                && r.raytracing_validation.is_valid && r.path_tracing_validation.is_valid),
    {
        let shader_validation = self.validate_shader(asset, compilation);
        let binding_validation = self.validate_bindings(asset, layout_creation);
        let format_validation = self.validate_format(asset, support);
        let raytracing_validation = self.validate_raytracing(asset, raytracing_supported);
        let path_tracing_validation = self.validate_path_tracing(asset, raytracing_supported);
        MaterialAssetValidationResult {
            is_valid: shader_validation.is_valid && binding_validation.is_valid && format_validation.is_valid
                && raytracing_validation.is_valid && path_tracing_validation.is_valid,
            shader_validation,
            binding_validation,
            format_validation,
            raytracing_validation,
            path_tracing_validation,
        }
    }

    /// Validate `asset`, keep it among the validated assets when it passes,
    /// and cache its shader validation; the validator ends `Validated`.
    pub fn validate(
        &mut self,
        asset: MaterialAsset,
        compilation: Result<CompiledShaderArtifact, EngineError>,
        layout_creation: Result<(), EngineError>,
        support: FormatSupport,
        raytracing_supported: bool,
    ) -> (r: MaterialAssetValidationResult)
        requires
            registered_binding_count(asset) <= usize::MAX,
            old(self).shader_validation_cache.cached_validations@.len() > 0
                || old(self).shader_validation_cache.size_limit > 0,
        ensures
            validation_of(r, asset, compilation, layout_creation, support, raytracing_supported),
            final(self).validated_assets@ == if r.is_valid {
                old(self).validated_assets@.push(asset)
            } else {
                old(self).validated_assets@
            },
            final(self).shader_validation_cache.cached_validations@ == insert_bounded(
                old(self).shader_validation_cache.cached_validations@,
                old(self).shader_validation_cache.size_limit as nat,
                strategy_slot(old(self).shader_validation_cache.eviction_strategy),
                r.shader_validation),
            final(self).shader_validation_cache.size_limit == old(self).shader_validation_cache.size_limit,
            final(self).shader_validation_cache.eviction_strategy == old(self).shader_validation_cache.eviction_strategy,
            final(self).validator_state == MaterialAssetValidatorState::Validated,
    {
        self.validator_state = MaterialAssetValidatorState::Validating;
        let validation = self.validate_asset(&asset, compilation, layout_creation, support, raytracing_supported);
        if validation.is_valid {
            self.validated_assets.push(asset);
        }
        self.shader_validation_cache.cache(validation.shader_validation.duplicate());
        self.validator_state = MaterialAssetValidatorState::Validated;
        validation
    }

    /// The validated assets.
    pub fn validated_assets(&self) -> (r: &[MaterialAsset])
        ensures r@ == self.validated_assets@,
    {
        self.validated_assets.as_slice()
    }

    /// The validator state.
    pub fn validator_state(&self) -> (r: MaterialAssetValidatorState)
        ensures r == self.validator_state,
    {
        self.validator_state
    }

    /// The shader validation cache.
    pub fn shader_validation_cache(&self) -> (r: &MaterialShaderValidationCache)
        ensures *r == self.shader_validation_cache,
    {
        &self.shader_validation_cache
    }

    /// Number of validated assets.
    pub fn validated_count(&self) -> (r: usize)
        ensures r == self.validated_assets@.len(),
    {
        self.validated_assets.len()
    }
}

// ── Loader ───────────────────────────────────────────────────────────────────

/// Loads material assets and compiles their shaders.
#[derive(Clone, Debug)]
pub struct MaterialAssetLoader {
    pub loaded_assets: Vec<MaterialAsset>,
    pub loader_state: MaterialAssetLoaderState,
    pub shader_compilation_cache: MaterialShaderCompilationCache,
}

impl MaterialAssetLoader {
    /// An idle loader with nothing loaded and an empty compilation cache.
    pub fn new() -> (r: MaterialAssetLoader)
        ensures
            r.loaded_assets@.len() == 0,
            r.loader_state == MaterialAssetLoaderState::Idle,
            fresh_compilation_cache(r.shader_compilation_cache),
    {
        MaterialAssetLoader {
            loaded_assets: Vec::new(),
            loader_state: MaterialAssetLoaderState::Idle,
            shader_compilation_cache: MaterialShaderCompilationCache::new(),
        }
    }

    /// Load `asset`: it is appended to the loaded assets and the loader ends `Loaded`.
    pub fn load(&mut self, asset: MaterialAsset)
        ensures
            final(self).loaded_assets@ == old(self).loaded_assets@.push(asset),
            final(self).loader_state == MaterialAssetLoaderState::Loaded,
            final(self).shader_compilation_cache == old(self).shader_compilation_cache,
    {
        self.loader_state = MaterialAssetLoaderState::Loading;
        self.loaded_assets.push(asset);
        self.loader_state = MaterialAssetLoaderState::Loaded;
    }

    /// Load each of `assets` in order; the loader ends `Loaded`.
    pub fn load_many(&mut self, assets: Vec<MaterialAsset>)
        ensures
            final(self).loaded_assets@ == old(self).loaded_assets@ + assets@,
            final(self).loader_state == MaterialAssetLoaderState::Loaded,
            final(self).shader_compilation_cache == old(self).shader_compilation_cache,
    {
        let ghost start = self.loaded_assets@;
        let ghost all = assets@;
        let total = assets.len();
        let mut rest = assets;
        let mut k: usize = 0;
        while rest.len() > 0
            invariant
                rest@ == all.skip(k as int),
                k <= all.len(),
                all.len() == total,
                self.loaded_assets@ == start + all.take(k as int),
                self.shader_compilation_cache == old(self).shader_compilation_cache,
            decreases rest.len(),
        {
            let a = rest.remove(0);
            self.load(a);
            assert(all.take(k as int + 1) == all.take(k as int).push(all[k as int]));
            assert(all.skip(k as int + 1) == all.skip(k as int).drop_first());
            assert(self.loaded_assets@ =~= start + all.take(k as int + 1));
            k = k + 1;
        }
        assert(all.take(k as int) == all);
        self.loader_state = MaterialAssetLoaderState::Loaded;
    }

    /// Cache the compilation record of `asset` and return the first cached
    /// compilation under its name.
    pub fn compile_shader(&mut self, asset: &MaterialAsset) -> (r: Option<CompiledShaderArtifact>)
        requires
            old(self).shader_compilation_cache.cached_compilations@.len() > 0
                || old(self).shader_compilation_cache.size_limit > 0,
        ensures
            final(self).shader_compilation_cache.cached_compilations@ == insert_bounded(
                old(self).shader_compilation_cache.cached_compilations@,
                old(self).shader_compilation_cache.size_limit as nat,
                strategy_slot(old(self).shader_compilation_cache.eviction_strategy),
                artifact_of(*asset)),
            r matches Some(x) && exists|i: int|
                is_first_named(final(self).shader_compilation_cache.cached_compilations@, asset.name@, i)
                && x == final(self).shader_compilation_cache.cached_compilations@[i],
            final(self).loaded_assets@ == old(self).loaded_assets@,
            final(self).loader_state == old(self).loader_state,
    {
        self.shader_compilation_cache.cache(asset);
        let ghost s = self.shader_compilation_cache.cached_compilations@;
        assert(s.last().name_view() == asset.name@);
        assert(has_named(s, asset.name@));
        match self.shader_compilation_cache.get(asset.name.as_str()) {
            Some(a) => Some(a.duplicate()),
            None => None,
        }
    }

    /// The first cached compilation of the asset named `name`.
    pub fn get_compiled_shader(&self, name: &str) -> (r: Option<&CompiledShaderArtifact>)
        ensures
            match r {
                Some(x) => exists|i: int| is_first_named(self.shader_compilation_cache.cached_compilations@, name@, i)
                    && *x == self.shader_compilation_cache.cached_compilations@[i],
                None => !has_named(self.shader_compilation_cache.cached_compilations@, name@),
            },
    {
        self.shader_compilation_cache.get(name)
    }

    /// The loaded assets.
    pub fn loaded_assets(&self) -> (r: &[MaterialAsset])
        ensures r@ == self.loaded_assets@,
    {
        self.loaded_assets.as_slice()
    }

    /// The loader state.
    pub fn loader_state(&self) -> (r: MaterialAssetLoaderState)
        ensures r == self.loader_state,
    {
        self.loader_state
    }

    /// The compilation cache.
    pub fn shader_compilation_cache(&self) -> (r: &MaterialShaderCompilationCache)
        ensures *r == self.shader_compilation_cache,
    {
        &self.shader_compilation_cache
    }

    /// Number of loaded assets.
    pub fn loaded_count(&self) -> (r: usize)
        ensures r == self.loaded_assets@.len(),
    {
        self.loaded_assets.len()
    }
}

// ── Cross-language compiler ──────────────────────────────────────────────────

/// Compiles material assets and caches their compilations.
#[derive(Clone, Debug)]
pub struct MaterialCrossLanguageCompiler {
    pub compiled_assets: Vec<MaterialAsset>,
    pub compiler_state: MaterialCrossLanguageCompilerState,
    pub shader_compilation_cache: MaterialShaderCompilationCache,
    pub cross_language_cache: MaterialCrossLanguageCache,
}

impl MaterialCrossLanguageCompiler {
    /// An idle compiler with nothing compiled and empty caches.
    pub fn new() -> (r: MaterialCrossLanguageCompiler)
        ensures
            r.compiled_assets@.len() == 0,
            r.compiler_state == MaterialCrossLanguageCompilerState::Idle,
            fresh_compilation_cache(r.shader_compilation_cache),
            fresh_cross_language_cache(r.cross_language_cache),
    {
        MaterialCrossLanguageCompiler {
            compiled_assets: Vec::new(),
            compiler_state: MaterialCrossLanguageCompilerState::Idle,
            shader_compilation_cache: MaterialShaderCompilationCache::new(),
            cross_language_cache: MaterialCrossLanguageCache::new(),
        }
    }

    /// Record the compilation of `asset`: kept among the compiled assets when
    /// its shader compiled, cached in both caches either way; the compiler
    /// ends `Compiled`.
    pub fn compile(&mut self, asset: MaterialAsset, compiled: bool)
        requires
            old(self).shader_compilation_cache.cached_compilations@.len() > 0
                || old(self).shader_compilation_cache.size_limit > 0,
            old(self).cross_language_cache.cached_compilations@.len() > 0
                || old(self).cross_language_cache.size_limit > 0,
        ensures
            final(self).compiled_assets@.len() == old(self).compiled_assets@.len() + (if compiled { 1int } else { 0 }),
            compiled ==> final(self).compiled_assets@.drop_last() == old(self).compiled_assets@
                && same_asset(final(self).compiled_assets@.last(), asset),
            !compiled ==> final(self).compiled_assets@ == old(self).compiled_assets@,
            final(self).shader_compilation_cache.cached_compilations@ == insert_bounded(
                old(self).shader_compilation_cache.cached_compilations@,
                old(self).shader_compilation_cache.size_limit as nat,
                strategy_slot(old(self).shader_compilation_cache.eviction_strategy), artifact_of(asset)),
            final(self).shader_compilation_cache.size_limit == old(self).shader_compilation_cache.size_limit,
            final(self).shader_compilation_cache.eviction_strategy == old(self).shader_compilation_cache.eviction_strategy,
            final(self).cross_language_cache.cached_compilations@ == insert_bounded(
                old(self).cross_language_cache.cached_compilations@,
                old(self).cross_language_cache.size_limit as nat,
                strategy_slot(old(self).cross_language_cache.eviction_strategy), artifact_of(asset)),
            final(self).cross_language_cache.size_limit == old(self).cross_language_cache.size_limit,
            final(self).cross_language_cache.eviction_strategy == old(self).cross_language_cache.eviction_strategy,
            final(self).compiler_state == MaterialCrossLanguageCompilerState::Compiled,
    {
        self.compiler_state = MaterialCrossLanguageCompilerState::Compiling;
        self.shader_compilation_cache.cache(&asset);
        self.cross_language_cache.cache(&asset);
        if compiled {
            let ghost before = self.compiled_assets@;
            self.compiled_assets.push(asset.duplicate());
            assert(self.compiled_assets@.drop_last() == before);
        }
        self.compiler_state = MaterialCrossLanguageCompilerState::Compiled;
    }

    /// Record the compilation of each of `assets` in order, with whether its
    /// shader compiled.
    pub fn compile_many(&mut self, assets: Vec<MaterialAsset>, compiled: Vec<bool>)
        requires
            assets@.len() == compiled@.len(),
            old(self).shader_compilation_cache.cached_compilations@.len() > 0
                || old(self).shader_compilation_cache.size_limit > 0,
            old(self).cross_language_cache.cached_compilations@.len() > 0
                || old(self).cross_language_cache.size_limit > 0,
        ensures
            final(self).shader_compilation_cache.cached_compilations@ == insert_all(
                old(self).shader_compilation_cache.cached_compilations@,
                old(self).shader_compilation_cache.size_limit as nat,
                strategy_slot(old(self).shader_compilation_cache.eviction_strategy),
                assets@.map_values(|a: MaterialAsset| artifact_of(a))),
            final(self).cross_language_cache.cached_compilations@ == insert_all(
                old(self).cross_language_cache.cached_compilations@,
                old(self).cross_language_cache.size_limit as nat,
                strategy_slot(old(self).cross_language_cache.eviction_strategy),
                assets@.map_values(|a: MaterialAsset| artifact_of(a))),
            final(self).compiler_state == MaterialCrossLanguageCompilerState::Compiled,
    {
        let ghost all = assets@;
        let ghost s0 = self.shader_compilation_cache.cached_compilations@;
        let ghost c0 = self.cross_language_cache.cached_compilations@;
        let ghost lim1 = self.shader_compilation_cache.size_limit as nat;
        let ghost lim2 = self.cross_language_cache.size_limit as nat;
        let ghost sl1 = strategy_slot(self.shader_compilation_cache.eviction_strategy);
        let ghost sl2 = strategy_slot(self.cross_language_cache.eviction_strategy);
        let total = assets.len();
        let mut rest = assets;
        let mut k: usize = 0;
        while rest.len() > 0
            invariant
                rest@ == all.skip(k as int),
                k <= all.len(),
                all.len() == total,
                total == compiled@.len(),
                self.shader_compilation_cache.size_limit as nat == lim1,
                strategy_slot(self.shader_compilation_cache.eviction_strategy) == sl1,
                self.cross_language_cache.size_limit as nat == lim2,
                strategy_slot(self.cross_language_cache.eviction_strategy) == sl2,
                self.shader_compilation_cache.cached_compilations@
                    == insert_all(s0, lim1, sl1, all.take(k as int).map_values(|a: MaterialAsset| artifact_of(a))),
                self.cross_language_cache.cached_compilations@
                    == insert_all(c0, lim2, sl2, all.take(k as int).map_values(|a: MaterialAsset| artifact_of(a))),
                self.shader_compilation_cache.cached_compilations@.len() > 0 || lim1 > 0,
                self.cross_language_cache.cached_compilations@.len() > 0 || lim2 > 0,
                k > 0 ==> self.compiler_state == MaterialCrossLanguageCompilerState::Compiled,
            decreases rest.len(),
        {
            let a = rest.remove(0);
            let ok = compiled[k];
            let ghost prefix = all.take(k as int).map_values(|x: MaterialAsset| artifact_of(x));
            let ghost next = all.take(k as int + 1).map_values(|x: MaterialAsset| artifact_of(x));
            assert(next.drop_last() =~= prefix);
            assert(next.last() == artifact_of(all[k as int]));
            self.compile(a, ok);
            assert(all.skip(k as int + 1) == all.skip(k as int).drop_first());
            k = k + 1;
        }
        assert(all.take(k as int) == all);
        self.compiler_state = MaterialCrossLanguageCompilerState::Compiled;
    }

    /// The compiled assets.
    pub fn compiled_assets(&self) -> (r: &[MaterialAsset])
        ensures r@ == self.compiled_assets@,
    {
        self.compiled_assets.as_slice()
    }

    /// The compiler state.
    pub fn compiler_state(&self) -> (r: MaterialCrossLanguageCompilerState)
        ensures r == self.compiler_state,
    {
        self.compiler_state
    }

    /// The shader compilation cache.
    pub fn shader_compilation_cache(&self) -> (r: &MaterialShaderCompilationCache)
        ensures *r == self.shader_compilation_cache,
    {
        &self.shader_compilation_cache
    }

    /// The cross-language cache.
    pub fn cross_language_cache(&self) -> (r: &MaterialCrossLanguageCache)
        ensures *r == self.cross_language_cache,
    {
        &self.cross_language_cache
    }

    /// Number of compiled assets.
    pub fn compiled_count(&self) -> (r: usize)
        ensures r == self.compiled_assets@.len(),
    {
        self.compiled_assets.len()
    }
}

// ── Pipeline ─────────────────────────────────────────────────────────────────

/// Loads, validates and caches material assets, and builds materials from them.
#[derive(Debug)]
pub struct MaterialAssetPipeline {
    pub loaded_assets: Vec<MaterialAsset>,
    pub cached_assets: Vec<MaterialAsset>,
    pub validated_assets: Vec<MaterialAsset>,
    pub pipeline_state: MaterialAssetPipelineState,
    pub size_limit: usize,
    pub eviction_strategy: MaterialAssetCacheEvictionStrategy,
    pub asset_loader: MaterialAssetLoader,
    pub asset_validator: MaterialAssetValidator,
    pub asset_cache: MaterialAssetCache,
    pub cross_language_compiler: MaterialCrossLanguageCompiler,
}

/// `after` is `before` with one more asset, a copy of `asset`, at its end.
pub open spec fn appended(before: Seq<MaterialAsset>, after: Seq<MaterialAsset>, asset: MaterialAsset) -> bool {
    &&& after.len() == before.len() + 1
    &&& after.drop_last() == before
    &&& same_asset(after.last(), asset)
}

/// `after` is a bounded cache `before` after inserting a copy of `asset`.
pub open spec fn cached_copy(before: Seq<MaterialAsset>, after: Seq<MaterialAsset>, limit: nat, slot: crate::eviction::EvictionSlot, asset: MaterialAsset) -> bool {
    exists|x: MaterialAsset| same_asset(x, asset) && after == insert_bounded(before, limit, slot, x)
}

/// `after` is `mid` extended by a copy of `asset` when `kept`, and `mid`
/// itself otherwise.
pub open spec fn kept_step(mid: Seq<MaterialAsset>, after: Seq<MaterialAsset>, asset: MaterialAsset, kept: bool) -> bool {
    if kept { appended(mid, after, asset) } else { after == mid }
}

/// `after` is `before` extended, in order, by a copy of each asset of
/// `assets` whose flag in `keep` is set.
pub open spec fn appended_kept(before: Seq<MaterialAsset>, after: Seq<MaterialAsset>, assets: Seq<MaterialAsset>, keep: Seq<bool>) -> bool
    decreases assets.len(),
{
    if assets.len() == 0 {
        after == before
    } else {
        exists|mid: Seq<MaterialAsset>|
            appended_kept(before, mid, assets.drop_last(), keep.drop_last())
                && #[trigger] kept_step(mid, after, assets.last(), keep.last())
    }
}

/// `after` is the bounded cache `before` after inserting a copy of each of
/// `assets` in order.
pub open spec fn cached_copies(before: Seq<MaterialAsset>, after: Seq<MaterialAsset>, limit: nat, slot: crate::eviction::EvictionSlot, assets: Seq<MaterialAsset>) -> bool
    decreases assets.len(),
{
    if assets.len() == 0 {
        after == before
    } else {
        exists|mid: Seq<MaterialAsset>|
            cached_copies(before, mid, limit, slot, assets.drop_last())
                && #[trigger] cached_copy(mid, after, limit, slot, assets.last())
    }
}

/// Whether each load of a batch passes validation, given its shader
/// compilation outcome and format support.
pub open spec fn load_outcomes(
    compilations: Seq<Result<CompiledShaderArtifact, EngineError>>,
    layout_creations: Seq<Result<(), EngineError>>,
    supports: Seq<FormatSupport>,
    raytracing_supported: bool,
) -> Seq<bool> {
    Seq::new(compilations.len(), |i: int| asset_passes(compilations[i] is Ok, layout_creations[i] is Ok, supports[i],
        raytracing_supported))
}

/// One more asset, kept or not, extends an [`appended_kept`] chain.
proof fn lemma_appended_kept_step(before: Seq<MaterialAsset>, mid: Seq<MaterialAsset>, after: Seq<MaterialAsset>, assets: Seq<MaterialAsset>, keep: Seq<bool>)
    requires
        assets.len() > 0,
        appended_kept(before, mid, assets.drop_last(), keep.drop_last()),
        kept_step(mid, after, assets.last(), keep.last()),
    ensures
        appended_kept(before, after, assets, keep),
{
}

/// One more cached copy extends a [`cached_copies`] chain.
proof fn lemma_cached_copies_step(before: Seq<MaterialAsset>, mid: Seq<MaterialAsset>, after: Seq<MaterialAsset>, limit: nat, slot: crate::eviction::EvictionSlot, assets: Seq<MaterialAsset>)
    requires
        assets.len() > 0,
        cached_copies(before, mid, limit, slot, assets.drop_last()),
        cached_copy(mid, after, limit, slot, assets.last()),
    ensures
        cached_copies(before, after, limit, slot, assets),
{
}

/// Caching a copy of `a` is caching a copy of any asset the same as `a`.
proof fn lemma_cached_copy_same(mid: Seq<MaterialAsset>, after: Seq<MaterialAsset>, limit: nat, slot: crate::eviction::EvictionSlot, a: MaterialAsset, b: MaterialAsset)
    requires
        cached_copy(mid, after, limit, slot, a),
        same_asset(a, b),
    ensures
        cached_copy(mid, after, limit, slot, b),
{
    let x = choose|x: MaterialAsset| same_asset(x, a) && after == insert_bounded(mid, limit, slot, x);
    assert(same_asset(x, b));
}

/// The message of the error a missing asset is reported with.
pub open spec fn not_found_message(prefix: Seq<char>, name: Seq<char>) -> Seq<char> {
    prefix + crate::types::debug_str(name) + " not found in pipeline"@
}

impl MaterialAssetPipeline {
    /// Every cache the pipeline fills on a load can take an entry: it has
    /// room for one, or an entry to evict.
    pub open spec fn wf(&self) -> bool {
        &&& self.size_limit > 0 || self.cached_assets@.len() > 0
        &&& self.asset_cache.size_limit > 0 || self.asset_cache.cached_assets@.len() > 0
        &&& self.asset_validator.shader_validation_cache.size_limit > 0
            || self.asset_validator.shader_validation_cache.cached_validations@.len() > 0
    }

    /// An idle pipeline with nothing loaded, a limit of 100 cached assets
    /// evicted oldest first, and fresh loader, validator, cache and compiler.
    pub fn new() -> (r: MaterialAssetPipeline)
        ensures
            r.wf(),
            r.loaded_assets@.len() == 0,
            r.cached_assets@.len() == 0,
            r.validated_assets@.len() == 0,
            r.pipeline_state == MaterialAssetPipelineState::Idle,
            r.size_limit == DEFAULT_CACHE_LIMIT,
            r.eviction_strategy == MaterialAssetCacheEvictionStrategy::LRU,
            r.asset_loader.loaded_assets@.len() == 0,
            r.asset_validator.validated_assets@.len() == 0,
            r.asset_cache.cached_assets@.len() == 0,
            r.cross_language_compiler.compiled_assets@.len() == 0,
    {
        MaterialAssetPipeline {
            loaded_assets: Vec::new(),
            cached_assets: Vec::new(),
            validated_assets: Vec::new(),
            pipeline_state: MaterialAssetPipelineState::Idle,
            size_limit: DEFAULT_CACHE_LIMIT,
            eviction_strategy: MaterialAssetCacheEvictionStrategy::LRU,
            asset_loader: MaterialAssetLoader::new(),
            asset_validator: MaterialAssetValidator::new(),
            asset_cache: MaterialAssetCache::new(),
            cross_language_compiler: MaterialCrossLanguageCompiler::new(),
        }
    }

    /// Load `asset`: hand it to the loader, the validator and the asset
    /// cache, and record it as loaded, as validated when it passes, and as
    /// cached (evicting first when the pipeline's cache is full). The
    /// pipeline ends `Complete`.
    pub fn load(
        &mut self,
        asset: MaterialAsset,
        compilation: Result<CompiledShaderArtifact, EngineError>,
        layout_creation: Result<(), EngineError>,
        support: FormatSupport,
        raytracing_supported: bool,
    ) -> (r: MaterialAssetValidationResult)
        requires
            old(self).wf(),
            registered_binding_count(asset) <= usize::MAX,
        ensures
            final(self).wf(),
            validation_of(r, asset, compilation, layout_creation, support, raytracing_supported),
            appended(old(self).loaded_assets@, final(self).loaded_assets@, asset),
            r.is_valid ==> appended(old(self).validated_assets@, final(self).validated_assets@, asset),
            !r.is_valid ==> final(self).validated_assets@ == old(self).validated_assets@,
            cached_copy(old(self).cached_assets@, final(self).cached_assets@,
                old(self).size_limit as nat, strategy_slot(old(self).eviction_strategy), asset),
            appended(old(self).asset_loader.loaded_assets@, final(self).asset_loader.loaded_assets@, asset),
            r.is_valid ==> appended(old(self).asset_validator.validated_assets@,
                final(self).asset_validator.validated_assets@, asset),
            !r.is_valid ==> final(self).asset_validator.validated_assets@ == old(self).asset_validator.validated_assets@,
            cached_copy(old(self).asset_cache.cached_assets@, final(self).asset_cache.cached_assets@,
                old(self).asset_cache.size_limit as nat, strategy_slot(old(self).asset_cache.eviction_strategy), asset),
            final(self).size_limit == old(self).size_limit,
            final(self).eviction_strategy == old(self).eviction_strategy,
            final(self).asset_cache.size_limit == old(self).asset_cache.size_limit,
            final(self).asset_cache.eviction_strategy == old(self).asset_cache.eviction_strategy,
            final(self).asset_validator.shader_validation_cache.cached_validations@ == insert_bounded(
                old(self).asset_validator.shader_validation_cache.cached_validations@,
                old(self).asset_validator.shader_validation_cache.size_limit as nat,
                strategy_slot(old(self).asset_validator.shader_validation_cache.eviction_strategy),
                r.shader_validation),
            final(self).asset_loader.shader_compilation_cache == old(self).asset_loader.shader_compilation_cache,
            final(self).cross_language_compiler == old(self).cross_language_compiler,
            final(self).pipeline_state == MaterialAssetPipelineState::Complete,
    {
        self.pipeline_state = MaterialAssetPipelineState::Loading;
        let ghost l0 = self.asset_loader.loaded_assets@;
        let a1 = asset.duplicate();
        self.asset_loader.load(a1);
        assert(self.asset_loader.loaded_assets@.drop_last() == l0);
        self.pipeline_state = MaterialAssetPipelineState::Validating;
        let ghost v0 = self.asset_validator.validated_assets@;
        let a2 = asset.duplicate();
        let result = self.asset_validator.validate(a2, compilation, layout_creation, support, raytracing_supported);
        if result.is_valid {
            assert(self.asset_validator.validated_assets@.drop_last() == v0);
        }
        self.pipeline_state = MaterialAssetPipelineState::Caching;
        let c = asset.duplicate();
        proof {
            assert(same_asset(c, asset));
        }
        let ghost before_cache = self.asset_cache.cached_assets@;
        self.asset_cache.cache(c);
        assert(self.asset_cache.cached_assets@ == insert_bounded(before_cache,
            self.asset_cache.size_limit as nat, strategy_slot(self.asset_cache.eviction_strategy), c));
        let ghost before_loaded = self.loaded_assets@;
        self.loaded_assets.push(asset.duplicate());
        assert(self.loaded_assets@.drop_last() == before_loaded);
        if result.is_valid {
            let ghost before_valid = self.validated_assets@;
            self.validated_assets.push(asset.duplicate());
            assert(self.validated_assets@.drop_last() == before_valid);
        }
        let slot = self.eviction_strategy.slot();
        let ghost before_cached = self.cached_assets@;
        let d = asset.duplicate();
        push_bounded(&mut self.cached_assets, self.size_limit, slot, d);
        assert(same_asset(d, asset));
        self.pipeline_state = MaterialAssetPipelineState::Complete;
        result
    }

    /// Load each of `assets` in order, the `i`th one with the `i`th shader
    /// compilation and layout creation outcomes and format support, as
    /// [`MaterialAssetPipeline::load`] does; the pipeline ends `Complete`
    /// (also when there is nothing to load).
    pub fn load_many(
        &mut self,
        assets: Vec<MaterialAsset>,
        compilations: Vec<Result<CompiledShaderArtifact, EngineError>>,
        layout_creations: Vec<Result<(), EngineError>>,
        supports: Vec<FormatSupport>,
        raytracing_supported: bool,
    ) -> (r: Vec<MaterialAssetValidationResult>)
        requires
            old(self).wf(),
            compilations@.len() == assets@.len(),
            layout_creations@.len() == assets@.len(),
            supports@.len() == assets@.len(),
            forall|i: int| 0 <= i < assets@.len() ==> registered_binding_count(#[trigger] assets@[i]) <= usize::MAX,
        ensures
            final(self).wf(),
            r@.len() == assets@.len(),
            forall|i: int| 0 <= i < r@.len() ==> validation_of(#[trigger] r@[i], assets@[i], compilations@[i], layout_creations@[i], supports@[i],
                raytracing_supported),
            final(self).loaded_assets@.len() == old(self).loaded_assets@.len() + assets@.len(),
            final(self).loaded_assets@.take(old(self).loaded_assets@.len() as int) == old(self).loaded_assets@,
            forall|i: int| 0 <= i < assets@.len() ==> same_asset(
                #[trigger] final(self).loaded_assets@[old(self).loaded_assets@.len() + i], assets@[i]),
            appended_kept(old(self).validated_assets@, final(self).validated_assets@, assets@,
                load_outcomes(compilations@, layout_creations@, supports@, raytracing_supported)),
            cached_copies(old(self).cached_assets@, final(self).cached_assets@, old(self).size_limit as nat,
                strategy_slot(old(self).eviction_strategy), assets@),
            appended_kept(old(self).asset_loader.loaded_assets@, final(self).asset_loader.loaded_assets@, assets@,
                Seq::new(assets@.len(), |i: int| true)),
            appended_kept(old(self).asset_validator.validated_assets@, final(self).asset_validator.validated_assets@,
                assets@, load_outcomes(compilations@, layout_creations@, supports@, raytracing_supported)),
            cached_copies(old(self).asset_cache.cached_assets@, final(self).asset_cache.cached_assets@,
                old(self).asset_cache.size_limit as nat, strategy_slot(old(self).asset_cache.eviction_strategy), assets@),
            final(self).asset_loader.shader_compilation_cache == old(self).asset_loader.shader_compilation_cache,
            final(self).cross_language_compiler == old(self).cross_language_compiler,
            final(self).size_limit == old(self).size_limit,
            final(self).eviction_strategy == old(self).eviction_strategy,
            final(self).pipeline_state == MaterialAssetPipelineState::Complete,
    {
        let ghost l0 = self.loaded_assets@;
        let ghost outcomes = load_outcomes(compilations@, layout_creations@, supports@, raytracing_supported);
        let ghost all_kept = Seq::new(assets@.len(), |k: int| true);
        let mut results: Vec<MaterialAssetValidationResult> = Vec::new();
        let mut i: usize = 0;
        while i < assets.len()
            invariant
                i <= assets@.len(),
                compilations@.len() == assets@.len(),
                layout_creations@.len() == assets@.len(),
                supports@.len() == assets@.len(),
                forall|j: int| 0 <= j < assets@.len() ==> registered_binding_count(#[trigger] assets@[j]) <= usize::MAX,
                self.wf(),
                results@.len() == i,
                forall|j: int| 0 <= j < i ==> validation_of(#[trigger] results@[j], assets@[j], compilations@[j], layout_creations@[j], supports@[j],
                    raytracing_supported),
                self.asset_loader.shader_compilation_cache == old(self).asset_loader.shader_compilation_cache,
                self.cross_language_compiler == old(self).cross_language_compiler,
                self.loaded_assets@.len() == l0.len() + i,
                self.loaded_assets@.take(l0.len() as int) == l0,
                forall|j: int| 0 <= j < i ==> same_asset(#[trigger] self.loaded_assets@[l0.len() + j], assets@[j]),
                appended_kept(old(self).validated_assets@, self.validated_assets@, assets@.take(i as int),
                    outcomes.take(i as int)),
                cached_copies(old(self).cached_assets@, self.cached_assets@, old(self).size_limit as nat,
                    strategy_slot(old(self).eviction_strategy), assets@.take(i as int)),
                appended_kept(old(self).asset_loader.loaded_assets@, self.asset_loader.loaded_assets@,
                    assets@.take(i as int), all_kept.take(i as int)),
                appended_kept(old(self).asset_validator.validated_assets@, self.asset_validator.validated_assets@,
                    assets@.take(i as int), outcomes.take(i as int)),
                cached_copies(old(self).asset_cache.cached_assets@, self.asset_cache.cached_assets@,
                    old(self).asset_cache.size_limit as nat, strategy_slot(old(self).asset_cache.eviction_strategy),
                    assets@.take(i as int)),
                self.asset_cache.size_limit == old(self).asset_cache.size_limit,
                self.asset_cache.eviction_strategy == old(self).asset_cache.eviction_strategy,
                outcomes == load_outcomes(compilations@, layout_creations@, supports@, raytracing_supported),
                all_kept == Seq::new(assets@.len(), |k: int| true),
                self.size_limit == old(self).size_limit,
                self.eviction_strategy == old(self).eviction_strategy,
                l0 == old(self).loaded_assets@,
            decreases assets@.len() - i,
        {
            let a = assets[i].duplicate();
            let ghost a_copy = a;
            let c = duplicate_compilation(&compilations[i]);
            let lc = duplicate_outcome(&layout_creations[i]);
            let ghost before = self.loaded_assets@;
            let ghost prev = *self;
            let ghost ta = assets@.take(i as int + 1);
            assert(ta.drop_last() =~= assets@.take(i as int));
            assert(ta.last() == assets@[i as int]);
            assert(outcomes.take(i as int + 1).drop_last() =~= outcomes.take(i as int));
            assert(all_kept.take(i as int + 1).drop_last() =~= all_kept.take(i as int));
            let result = self.load(a, c, lc, supports[i], raytracing_supported);
            proof {
                let keep = outcomes.take(i as int + 1);
                let all = all_kept.take(i as int + 1);
                assert(keep.last() == result.is_valid);
                assert(all.last());
                let lim = old(self).size_limit as nat;
                let sl = strategy_slot(old(self).eviction_strategy);
                let alim = old(self).asset_cache.size_limit as nat;
                let asl = strategy_slot(old(self).asset_cache.eviction_strategy);
                lemma_appended_kept_step(old(self).validated_assets@, prev.validated_assets@, self.validated_assets@, ta, keep);
                lemma_appended_kept_step(old(self).asset_validator.validated_assets@, prev.asset_validator.validated_assets@,
                    self.asset_validator.validated_assets@, ta, keep);
                lemma_appended_kept_step(old(self).asset_loader.loaded_assets@, prev.asset_loader.loaded_assets@,
                    self.asset_loader.loaded_assets@, ta, all);
                lemma_cached_copy_same(prev.cached_assets@, self.cached_assets@, lim, sl, a_copy, ta.last());
                lemma_cached_copy_same(prev.asset_cache.cached_assets@, self.asset_cache.cached_assets@, alim, asl, a_copy, ta.last());
                lemma_cached_copies_step(old(self).cached_assets@, prev.cached_assets@, self.cached_assets@, lim, sl, ta);
                lemma_cached_copies_step(old(self).asset_cache.cached_assets@, prev.asset_cache.cached_assets@,
                    self.asset_cache.cached_assets@, alim, asl, ta);
            }
            results.push(result);
            assert(self.loaded_assets@.drop_last() == before);
            assert forall|j: int| 0 <= j < i + 1 implies same_asset(#[trigger] self.loaded_assets@[l0.len() + j], assets@[j]) by {
                if j < i {
                    assert(self.loaded_assets@[l0.len() + j] == before[l0.len() + j]);
                }
            }
            assert(self.loaded_assets@.take(l0.len() as int) =~= before.take(l0.len() as int));
            i = i + 1;
        }
        assert(assets@.take(i as int) =~= assets@);
        assert(outcomes.take(i as int) =~= outcomes);
        assert(all_kept.take(i as int) =~= all_kept);
        self.pipeline_state = MaterialAssetPipelineState::Complete;
        results
    }

    /// The first loaded asset named `name`.
    pub fn get(&self, name: &str) -> (r: Option<&MaterialAsset>)
        ensures
            match r {
                Some(x) => exists|i: int| is_first_named(self.loaded_assets@, name@, i) && *x == self.loaded_assets@[i],
                None => !has_named(self.loaded_assets@, name@),
            },
    {
        find_named(&self.loaded_assets, name)
    }

    /// The first validated asset named `name`.
    pub fn get_validated(&self, name: &str) -> (r: Option<&MaterialAsset>)
        ensures
            match r {
                Some(x) => exists|i: int| is_first_named(self.validated_assets@, name@, i) && *x == self.validated_assets@[i],
                None => !has_named(self.validated_assets@, name@),
            },
    {
        find_named(&self.validated_assets, name)
    }

    /// The first cached asset named `name`.
    pub fn get_cached(&self, name: &str) -> (r: Option<&MaterialAsset>)
        ensures
            match r {
                Some(x) => exists|i: int| is_first_named(self.cached_assets@, name@, i) && *x == self.cached_assets@[i],
                None => !has_named(self.cached_assets@, name@),
            },
    {
        find_named(&self.cached_assets, name)
    }

    /// Build the material of the first loaded asset named `name`; a name
    /// with no loaded asset is an `InvalidInput` error.
    pub fn material_for(&self, name: &str) -> (r: Result<Material, EngineError>)
        ensures
            material_lookup(self.loaded_assets@, name@, "material asset "@, r),
    {
        build_named(&self.loaded_assets, name, "material asset ")
    }

    /// Build the material of the first validated asset named `name`; a name
    /// with no validated asset is an `InvalidInput` error.
    pub fn validated_material_for(&self, name: &str) -> (r: Result<Material, EngineError>)
        ensures
            material_lookup(self.validated_assets@, name@, "validated material asset "@, r),
    {
        build_named(&self.validated_assets, name, "validated material asset ")
    }

    /// Build the material of the first cached asset named `name`; a name
    /// with no cached asset is an `InvalidInput` error.
    pub fn cached_material_for(&self, name: &str) -> (r: Result<Material, EngineError>)
        ensures
            material_lookup(self.cached_assets@, name@, "cached material asset "@, r),
    {
        build_named(&self.cached_assets, name, "cached material asset ")
    }

    /// Evict one cached asset as the eviction strategy says.
    pub fn evict(&mut self)
        requires
            old(self).cached_assets@.len() > 0,
        ensures
            final(self).cached_assets@ == old(self).cached_assets@.remove(
                slot_index(strategy_slot(old(self).eviction_strategy), old(self).cached_assets@.len())),
            final(self).loaded_assets@ == old(self).loaded_assets@,
            final(self).validated_assets@ == old(self).validated_assets@,
            final(self).size_limit == old(self).size_limit,
            final(self).eviction_strategy == old(self).eviction_strategy,
            final(self).pipeline_state == old(self).pipeline_state,
            final(self).asset_loader == old(self).asset_loader,
            final(self).asset_validator == old(self).asset_validator,
            final(self).asset_cache == old(self).asset_cache,
            final(self).cross_language_compiler == old(self).cross_language_compiler,
    {
        let slot = self.eviction_strategy.slot();
        evict_slot(&mut self.cached_assets, slot);
    }

    /// The loaded assets.
    pub fn loaded_assets(&self) -> (r: &[MaterialAsset])
        ensures r@ == self.loaded_assets@,
    {
        self.loaded_assets.as_slice()
    }

    /// The cached assets.
    pub fn cached_assets(&self) -> (r: &[MaterialAsset])
        ensures r@ == self.cached_assets@,
    {
        self.cached_assets.as_slice()
    }

    /// The validated assets.
    pub fn validated_assets(&self) -> (r: &[MaterialAsset])
        ensures r@ == self.validated_assets@,
    {
        self.validated_assets.as_slice()
    }

    /// The pipeline state.
    pub fn pipeline_state(&self) -> (r: MaterialAssetPipelineState)
        ensures r == self.pipeline_state,
    {
        self.pipeline_state
    }

    /// The cache size limit.
    pub fn size_limit(&self) -> (r: usize)
        ensures r == self.size_limit,
    {
        self.size_limit
    }

    /// The eviction strategy.
    pub fn eviction_strategy(&self) -> (r: MaterialAssetCacheEvictionStrategy)
        ensures r == self.eviction_strategy,
    {
        self.eviction_strategy
    }

    /// The loader.
    pub fn asset_loader(&self) -> (r: &MaterialAssetLoader)
        ensures *r == self.asset_loader,
    {
        &self.asset_loader
    }

    /// The validator.
    pub fn asset_validator(&self) -> (r: &MaterialAssetValidator)
        ensures *r == self.asset_validator,
    {
        &self.asset_validator
    }

    /// The asset cache.
    pub fn asset_cache(&self) -> (r: &MaterialAssetCache)
        ensures *r == self.asset_cache,
    {
        &self.asset_cache
    }

    /// The cross-language compiler.
    pub fn cross_language_compiler(&self) -> (r: &MaterialCrossLanguageCompiler)
        ensures *r == self.cross_language_compiler,
    {
        &self.cross_language_compiler
    }

    /// Number of loaded assets.
    pub fn loaded_count(&self) -> (r: usize)
        ensures r == self.loaded_assets@.len(),
    {
        self.loaded_assets.len()
    }

    /// Number of cached assets.
    pub fn cached_count(&self) -> (r: usize)
        ensures r == self.cached_assets@.len(),
    {
        self.cached_assets.len()
    }

    /// Number of validated assets.
    pub fn validated_count(&self) -> (r: usize)
        ensures r == self.validated_assets@.len(),
    {
        self.validated_assets.len()
    }
}

/// `r` is the material built from the first asset of `s` named `name`, or, when no
/// asset has that name, an `InvalidInput` error whose message is `prefix`,
/// the quoted name and ` not found in pipeline`.
pub open spec fn material_lookup(s: Seq<MaterialAsset>, name: Seq<char>, prefix: Seq<char>, r: Result<Material, EngineError>) -> bool {
    match r {
        Ok(m) => exists|i: int| is_first_named(s, name, i) && built_from(m, s[i]),
        Err(EngineError::InvalidInput(msg)) => !has_named(s, name) && msg@ == not_found_message(prefix, name),
        Err(_) => false,
    }
}

fn build_named(v: &Vec<MaterialAsset>, name: &str, prefix: &str) -> (r: Result<Material, EngineError>)
    ensures
        material_lookup(v@, name@, prefix@, r),
{
    match position_named(v, name) {
        Some(i) => Ok(v[i].duplicate().build()),
        None => Err(not_found_error(prefix, crate::types::debug_quote(name).as_str())),
    }
}

/// The error a lookup under a missing name is answered with, given the
/// name already quoted: `prefix`, the quoted name, then ` not found in
/// pipeline`.
pub fn not_found_error(prefix: &str, quoted_name: &str) -> (r: EngineError)
    ensures
        r matches EngineError::InvalidInput(m) && m@ == prefix@ + quoted_name@ + " not found in pipeline"@,
{
    let msg = String::from_str(prefix).concat(quoted_name).concat(" not found in pipeline");
    EngineError::InvalidInput(msg)
}

/// An asset just loaded can be looked up by its name; when no earlier asset
/// had that name, the lookup finds the new one.
pub proof fn lemma_loaded_asset_is_found(before: Seq<MaterialAsset>, after: Seq<MaterialAsset>, asset: MaterialAsset)
    requires
        appended(before, after, asset),
    ensures
        has_named(after, asset.name@),
        !has_named(before, asset.name@) ==> is_first_named(after, asset.name@, before.len() as int),
{
    let n = before.len() as int;
    assert(after[n] == after.last());
    assert(after[n].name_view() == asset.name@);
    if !has_named(before, asset.name@) {
        assert forall|j: int| 0 <= j < n implies #[trigger] after[j].name_view() != asset.name@ by {
            assert(after[j] == before[j]);
        }
    }
}

} // verus!
