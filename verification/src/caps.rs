//! Format capabilities, path-traced bounce configuration, and the ray-tracing
//! and path-tracing capability summaries derived from a material's stages.
use vstd::prelude::*;

use crate::types::{
    Format, HdrMode, StageMask, ToneMappingOp, hdr_mode_is_hdr,
    hdr_mode_render_format, tone_mapping_is_hdr, STAGE_RAY_TRACING_BITS,
};

verus! {

// ── Format capabilities ──────────────────────────────────────────────────────

/// The render format, output mode and shader precision features a material
/// asks for.
#[derive(Clone, Copy, Debug, PartialEq, Eq, Structural)]
pub struct FormatCapabilities {
    pub render_format: Format,
    pub hdr_mode: HdrMode,
    pub tone_mapping: ToneMappingOp,
    pub fp16_render: bool,
    pub fp32_render: bool,
    pub hdr_output: bool,
    pub shader_fp16: bool,
    pub shader_fp64: bool,
    pub variable_rate_shading: bool,
    pub bindless: bool,
}

/// SDR output in `Rgba8Unorm` with ACES tone mapping and no optional features.
pub open spec fn default_format_caps() -> FormatCapabilities {
    FormatCapabilities {
        render_format: Format::Rgba8Unorm,
        hdr_mode: HdrMode::Sdr,
        tone_mapping: ToneMappingOp::Aces,
        fp16_render: false,
        fp32_render: false,
        hdr_output: false,
        shader_fp16: false,
        shader_fp64: false,
        variable_rate_shading: false,
        bindless: false,
    }
}

/// Capabilities for an output mode: its render format, linear tone mapping
/// for HDR modes (ACES otherwise), half-float rendering and HDR output exactly
/// for HDR modes.
pub open spec fn format_caps_for_hdr_mode(mode: HdrMode) -> FormatCapabilities {
    FormatCapabilities {
        render_format: hdr_mode_render_format(mode),
        hdr_mode: mode,
        tone_mapping: if hdr_mode_is_hdr(mode) { ToneMappingOp::Linear } else { ToneMappingOp::Aces },
        fp16_render: hdr_mode_is_hdr(mode),
        hdr_output: hdr_mode_is_hdr(mode),
        ..default_format_caps()
    }
}

/// Capabilities for a tone-mapping operator: scRGB half-float output for the
/// HDR (linear) operator, SDR `Rgba8Unorm` otherwise.
pub open spec fn format_caps_for_tone_mapping(op: ToneMappingOp) -> FormatCapabilities {
    FormatCapabilities {
        render_format: if tone_mapping_is_hdr(op) { Format::Rgba16Float } else { Format::Rgba8Unorm },
        hdr_mode: if tone_mapping_is_hdr(op) { HdrMode::ScRgb } else { HdrMode::Sdr },
        tone_mapping: op,
        fp16_render: tone_mapping_is_hdr(op),
        hdr_output: tone_mapping_is_hdr(op),
        ..default_format_caps()
    }
}

impl FormatCapabilities {
    /// The default capabilities.
    pub fn default_caps() -> (r: FormatCapabilities)
        ensures
            r == default_format_caps(),
    {
        FormatCapabilities {
            render_format: Format::Rgba8Unorm,
            hdr_mode: HdrMode::Sdr,
            tone_mapping: ToneMappingOp::Aces,
            fp16_render: false,
            fp32_render: false,
            hdr_output: false,
            shader_fp16: false,
            shader_fp64: false,
            variable_rate_shading: false,
            bindless: false,
        }
    }

    /// Capabilities derived from an output mode.
    pub fn from_hdr_mode(mode: HdrMode) -> (r: FormatCapabilities)
        ensures
            r == format_caps_for_hdr_mode(mode),
    {
        let hdr = mode.is_hdr();
        FormatCapabilities {
            render_format: mode.render_format(),
            hdr_mode: mode,
            tone_mapping: if hdr { ToneMappingOp::Linear } else { ToneMappingOp::Aces },
            fp16_render: hdr,
            hdr_output: hdr,
            ..Self::default_caps()
        }
    }

    /// Capabilities derived from a tone-mapping operator.
    pub fn from_tone_mapping(op: ToneMappingOp) -> (r: FormatCapabilities)
        ensures
            r == format_caps_for_tone_mapping(op),
    {
        let hdr = op.is_hdr();
        FormatCapabilities {
            render_format: if hdr { Format::Rgba16Float } else { Format::Rgba8Unorm },
            hdr_mode: if hdr { HdrMode::ScRgb } else { HdrMode::Sdr },
            tone_mapping: op,
            fp16_render: hdr,
            hdr_output: hdr,
            ..Self::default_caps()
        }
    }
}

// ── Path-traced bounces ──────────────────────────────────────────────────────

/// How secondary rays are distributed.
#[derive(Clone, Copy, Debug, PartialEq, Eq, Structural)]
pub enum PathTracedImportanceSampling {
    Uniform,
    Cosine,
    Brdf,
}

/// When a path stops bouncing.
#[derive(Clone, Copy, Debug, PartialEq, Eq, Structural)]
pub enum PathTracedTerminationStrategy {
    BounceCount,
    RadianceThreshold,
    RussianRoulette,
}

/// The bounce count used when none is configured.
pub const DEFAULT_BOUNCE_COUNT: usize = 4;

/// Bounce count, sampling and termination of a path-traced material.
#[derive(Clone, Copy, Debug, PartialEq, Eq, Structural)]
pub struct PathTracedBounceConfig {
    pub bounce_count: usize,
    pub importance_sampling: PathTracedImportanceSampling,
    pub termination_strategy: PathTracedTerminationStrategy,
}

/// The default bounce configuration.
pub open spec fn default_bounce_config() -> PathTracedBounceConfig {
    PathTracedBounceConfig {
        bounce_count: DEFAULT_BOUNCE_COUNT,
        importance_sampling: PathTracedImportanceSampling::Uniform,
        termination_strategy: PathTracedTerminationStrategy::BounceCount,
    }
}

impl PathTracedBounceConfig {
    /// The default configuration: uniform sampling, fixed bounce count.
    pub fn default_config() -> (r: PathTracedBounceConfig)
        ensures
            r == default_bounce_config(),
    {
        PathTracedBounceConfig {
            bounce_count: DEFAULT_BOUNCE_COUNT,
            importance_sampling: PathTracedImportanceSampling::Uniform,
            termination_strategy: PathTracedTerminationStrategy::BounceCount,
        }
    }

    /// The default configuration with the given bounce count.
    pub fn with_bounce_count(count: usize) -> (r: PathTracedBounceConfig)
        ensures
            r == (PathTracedBounceConfig { bounce_count: count, ..default_bounce_config() }),
    {
        PathTracedBounceConfig { bounce_count: count, ..Self::default_config() }
    }

    /// The default configuration with the given sampling.
    pub fn with_importance_sampling(sampling: PathTracedImportanceSampling) -> (r: PathTracedBounceConfig)
        ensures
            r == (PathTracedBounceConfig { importance_sampling: sampling, ..default_bounce_config() }),
    {
        PathTracedBounceConfig { importance_sampling: sampling, ..Self::default_config() }
    }

    /// The default configuration with the given termination strategy.
    pub fn with_termination_strategy(strategy: PathTracedTerminationStrategy) -> (r: PathTracedBounceConfig)
        ensures
            r == (PathTracedBounceConfig { termination_strategy: strategy, ..default_bounce_config() }),
    {
        PathTracedBounceConfig { termination_strategy: strategy, ..Self::default_config() }
    }

    /// The bounce count.
    pub fn bounce_count(&self) -> (r: usize)
        ensures
            r == self.bounce_count,
    {
        self.bounce_count
    }

    /// The importance sampling.
    pub fn importance_sampling(&self) -> (r: PathTracedImportanceSampling)
        ensures
            r == self.importance_sampling,
    {
        self.importance_sampling
    }

    /// The termination strategy.
    pub fn termination_strategy(&self) -> (r: PathTracedTerminationStrategy)
        ensures
            r == self.termination_strategy,
    {
        self.termination_strategy
    }
}

// ── Ray-traced shader stages ────────────────────────────────────────────────

/// A ray-tracing pipeline stage.
#[derive(Clone, Copy, Debug, PartialEq, Eq, Structural)]
pub enum RaytracedShaderStage {
    RayGeneration,
    ClosestHit,
    Miss,
    AnyHit,
    Intersection,
}

/// The ray-tracing stages a material needs.
#[derive(Clone, Copy, Debug, PartialEq, Eq, Structural)]
pub enum RaytracingCapabilities {
    /// No ray-tracing stage.
    Disabled,
    RayGeneration,
    ClosestHit,
    Miss,
    AnyHit,
    Intersection,
    /// Ray generation, closest hit and miss together.
    Standard,
    /// Every ray-tracing stage.
    All,
}

/// The stages a capability stands for, in pipeline order.
pub open spec fn raytracing_caps_stages(c: RaytracingCapabilities) -> Seq<RaytracedShaderStage> {
    match c {
        RaytracingCapabilities::Disabled => Seq::empty(),
        RaytracingCapabilities::RayGeneration => seq![RaytracedShaderStage::RayGeneration],
        RaytracingCapabilities::ClosestHit => seq![RaytracedShaderStage::ClosestHit],
        RaytracingCapabilities::Miss => seq![RaytracedShaderStage::Miss],
        RaytracingCapabilities::AnyHit => seq![RaytracedShaderStage::AnyHit],
        RaytracingCapabilities::Intersection => seq![RaytracedShaderStage::Intersection],
        RaytracingCapabilities::Standard => seq![
            RaytracedShaderStage::RayGeneration,
            RaytracedShaderStage::ClosestHit,
            RaytracedShaderStage::Miss,
        ],
        RaytracingCapabilities::All => seq![
            RaytracedShaderStage::RayGeneration,
            RaytracedShaderStage::ClosestHit,
            RaytracedShaderStage::Miss,
            RaytracedShaderStage::AnyHit,
            RaytracedShaderStage::Intersection,
        ],
    }
}

/// The capability summarising which stage kinds occur (ray generation,
/// closest hit, miss, any hit, intersection): `Disabled` for none, the
/// single-stage capability when exactly one kind occurs, `Standard` for
/// exactly ray generation, closest hit and miss, `All` for any other mix.
pub open spec fn caps_for_stage_kinds(rg: bool, ch: bool, ms: bool, ah: bool, ix: bool) -> RaytracingCapabilities {
    if !rg && !ch && !ms && !ah && !ix {
        RaytracingCapabilities::Disabled
    } else if rg && !ch && !ms && !ah && !ix {
        RaytracingCapabilities::RayGeneration
    } else if !rg && ch && !ms && !ah && !ix {
        RaytracingCapabilities::ClosestHit
    } else if !rg && !ch && ms && !ah && !ix {
        RaytracingCapabilities::Miss
    } else if !rg && !ch && !ms && ah && !ix {
        RaytracingCapabilities::AnyHit
    } else if !rg && !ch && !ms && !ah && ix {
        RaytracingCapabilities::Intersection
    } else if rg && ch && ms && !ah && !ix {
        RaytracingCapabilities::Standard
    } else {
        RaytracingCapabilities::All
    }
}

/// Exec form of [`caps_for_stage_kinds`].
pub fn caps_from_stage_kinds(rg: bool, ch: bool, ms: bool, ah: bool, ix: bool) -> (r: RaytracingCapabilities)
    ensures
        r == caps_for_stage_kinds(rg, ch, ms, ah, ix),
{
    if !rg && !ch && !ms && !ah && !ix {
        RaytracingCapabilities::Disabled
    } else if rg && !ch && !ms && !ah && !ix {
        RaytracingCapabilities::RayGeneration
    } else if !rg && ch && !ms && !ah && !ix {
        RaytracingCapabilities::ClosestHit
    } else if !rg && !ch && ms && !ah && !ix {
        RaytracingCapabilities::Miss
    } else if !rg && !ch && !ms && ah && !ix {
        RaytracingCapabilities::AnyHit
    } else if !rg && !ch && !ms && !ah && ix {
        RaytracingCapabilities::Intersection
    } else if rg && ch && ms && !ah && !ix {
        RaytracingCapabilities::Standard
    } else {
        RaytracingCapabilities::All
    }
}

impl RaytracingCapabilities {
    /// The default (no ray tracing).
    pub fn default_caps() -> (r: RaytracingCapabilities)
        ensures
            r == RaytracingCapabilities::Disabled,
    {
        RaytracingCapabilities::Disabled
    }

    /// The stage mask: empty without ray tracing, the ray-tracing stages otherwise.
    pub fn stage_mask(self) -> (r: StageMask)
        ensures
            r.bits == (if self == RaytracingCapabilities::Disabled { 0 } else { STAGE_RAY_TRACING_BITS }),
    {
        match self {
            RaytracingCapabilities::Disabled => StageMask::empty(),
            _ => StageMask::ray_tracing(),
        }
    }

    /// The shader stages these capabilities stand for.
    pub fn stages(self) -> (r: Vec<RaytracedShaderStage>)
        ensures
            r@ == raytracing_caps_stages(self),
    {
        match self {
            RaytracingCapabilities::Disabled => Vec::new(),
            RaytracingCapabilities::RayGeneration => vec![RaytracedShaderStage::RayGeneration],
            RaytracingCapabilities::ClosestHit => vec![RaytracedShaderStage::ClosestHit],
            RaytracingCapabilities::Miss => vec![RaytracedShaderStage::Miss],
            RaytracingCapabilities::AnyHit => vec![RaytracedShaderStage::AnyHit],
            RaytracingCapabilities::Intersection => vec![RaytracedShaderStage::Intersection],
            RaytracingCapabilities::Standard => vec![
                RaytracedShaderStage::RayGeneration,
                RaytracedShaderStage::ClosestHit,
                RaytracedShaderStage::Miss,
            ],
            RaytracingCapabilities::All => vec![
                RaytracedShaderStage::RayGeneration,
                RaytracedShaderStage::ClosestHit,
                RaytracedShaderStage::Miss,
                RaytracedShaderStage::AnyHit,
                RaytracedShaderStage::Intersection,
            ],
        }
    }
}

// ── Path-tracing capabilities ───────────────────────────────────────────────

/// What a material needs from a path tracer.
#[derive(Clone, Copy, Debug, PartialEq, Eq, Structural)]
pub enum PathTracingCapabilities {
    /// No path tracing.
    Disabled,
    WithBounces(usize),
    WithBouncesAndSampling(usize, PathTracedImportanceSampling),
    WithBouncesAndTermination(usize, PathTracedTerminationStrategy),
    All,
}

/// Bounce count of a path-tracing capability (`All` means eight).
pub open spec fn path_caps_bounce_count(c: PathTracingCapabilities) -> usize {
    match c {
        PathTracingCapabilities::Disabled => 0,
        PathTracingCapabilities::WithBounces(n) => n,
        PathTracingCapabilities::WithBouncesAndSampling(n, _) => n,
        PathTracingCapabilities::WithBouncesAndTermination(n, _) => n,
        PathTracingCapabilities::All => 8,
    }
}

/// Importance sampling of a path-tracing capability.
pub open spec fn path_caps_sampling(c: PathTracingCapabilities) -> PathTracedImportanceSampling {
    match c {
        PathTracingCapabilities::WithBouncesAndSampling(_, s) => s,
        PathTracingCapabilities::All => PathTracedImportanceSampling::Cosine,
        _ => PathTracedImportanceSampling::Uniform,
    }
}

/// Termination strategy of a path-tracing capability.
pub open spec fn path_caps_termination(c: PathTracingCapabilities) -> PathTracedTerminationStrategy {
    match c {
        PathTracingCapabilities::WithBouncesAndTermination(_, t) => t,
        PathTracingCapabilities::All => PathTracedTerminationStrategy::RadianceThreshold,
        _ => PathTracedTerminationStrategy::BounceCount,
    }
}

/// The capability summarising a bounce configuration: `Disabled` without
/// bounces; the bounce count with its non-default sampling, or else with its
/// non-default termination, or else alone.
pub open spec fn path_caps_for_config(c: PathTracedBounceConfig) -> PathTracingCapabilities {
    if c.bounce_count == 0 {
        PathTracingCapabilities::Disabled
    } else if c.importance_sampling != PathTracedImportanceSampling::Uniform {
        PathTracingCapabilities::WithBouncesAndSampling(c.bounce_count, c.importance_sampling)
    } else if c.termination_strategy != PathTracedTerminationStrategy::BounceCount {
        PathTracingCapabilities::WithBouncesAndTermination(c.bounce_count, c.termination_strategy)
    } else {
        PathTracingCapabilities::WithBounces(c.bounce_count)
    }
}

impl PathTracingCapabilities {
    /// The default (no path tracing).
    pub fn default_caps() -> (r: PathTracingCapabilities)
        ensures
            r == PathTracingCapabilities::Disabled,
    {
        PathTracingCapabilities::Disabled
    }

    /// Summarise a bounce configuration.
    pub fn from_path_traced_bounces(config: &PathTracedBounceConfig) -> (r: PathTracingCapabilities)
        ensures
            r == path_caps_for_config(*config),
    {
        if config.bounce_count == 0 {
            PathTracingCapabilities::Disabled
        } else if config.importance_sampling != PathTracedImportanceSampling::Uniform {
            PathTracingCapabilities::WithBouncesAndSampling(config.bounce_count, config.importance_sampling)
        } else if config.termination_strategy != PathTracedTerminationStrategy::BounceCount {
            PathTracingCapabilities::WithBouncesAndTermination(config.bounce_count, config.termination_strategy)
        } else {
            PathTracingCapabilities::WithBounces(config.bounce_count)
        }
    }

    /// The bounce count.
    pub fn bounce_count(self) -> (r: usize)
        ensures
            r == path_caps_bounce_count(self),
    {
        match self {
            PathTracingCapabilities::Disabled => 0,
            PathTracingCapabilities::WithBounces(n) => n,
            PathTracingCapabilities::WithBouncesAndSampling(n, _) => n,
            PathTracingCapabilities::WithBouncesAndTermination(n, _) => n,
            PathTracingCapabilities::All => 8,
        }
    }

    /// The importance sampling.
    pub fn importance_sampling(self) -> (r: PathTracedImportanceSampling)
        ensures
            r == path_caps_sampling(self),
    {
        match self {
            PathTracingCapabilities::WithBouncesAndSampling(_, s) => s,
            PathTracingCapabilities::All => PathTracedImportanceSampling::Cosine,
            _ => PathTracedImportanceSampling::Uniform,
        }
    }

    /// The termination strategy.
    pub fn termination_strategy(self) -> (r: PathTracedTerminationStrategy)
        ensures
            r == path_caps_termination(self),
    {
        match self {
            PathTracingCapabilities::WithBouncesAndTermination(_, t) => t,
            PathTracingCapabilities::All => PathTracedTerminationStrategy::RadianceThreshold,
            _ => PathTracedTerminationStrategy::BounceCount,
        }
    }
}

/// Summarising a bounce configuration keeps its bounce count, sampling and
/// termination strategy, so the configuration can be read back from the
/// capability whenever it bounces at all.
pub proof fn lemma_path_caps_round_trip(c: PathTracedBounceConfig)
    requires
        c.bounce_count > 0,
        c.importance_sampling == PathTracedImportanceSampling::Uniform
            || c.termination_strategy == PathTracedTerminationStrategy::BounceCount,
    ensures
        path_caps_bounce_count(path_caps_for_config(c)) == c.bounce_count,
        path_caps_sampling(path_caps_for_config(c)) == c.importance_sampling,
        path_caps_termination(path_caps_for_config(c)) == c.termination_strategy,
{
}

} // verus!
