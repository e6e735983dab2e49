//! Rendering modes (rasterized, hybrid, ray-traced, path-traced), what each
//! asks of the pipeline, the configuration a material graph renders with,
//! and how material parameters are streamed to shaders.
use vstd::prelude::*;

use crate::caps::{
    FormatCapabilities, PathTracingCapabilities, RaytracingCapabilities, default_format_caps,
    format_caps_for_hdr_mode, format_caps_for_tone_mapping,
};
use crate::types::{
    Format, HdrMode, ShaderStage, StageMask, ToneMappingOp, UpdateRate, format_is_hdr,
    hdr_mode_is_hdr, hdr_mode_render_format, tone_mapping_is_hdr, STAGE_ALL_BITS,
    STAGE_FRAGMENT_BITS, STAGE_RAY_TRACING_BITS, STAGE_VERTEX_BITS,
};

verus! {

// ── Modes ────────────────────────────────────────────────────────────────────

/// The pipeline a material graph renders through.
#[derive(Clone, Copy, Debug, PartialEq, Eq, Structural)]
pub enum RenderingMode {
    Rasterized,
    Hybrid,
    Raytraced,
    PathTraced,
    All,
}

/// What a rendering mode needs from the device.
#[derive(Clone, Copy, Debug, PartialEq, Eq, Structural)]
pub enum RenderingCapabilities {
    Rasterized,
    Hybrid,
    Raytraced,
    PathTraced,
    All,
}

/// The rendering family of a mode or capability, shared by both enums:
/// 0 rasterized, 1 hybrid, 2 ray-traced, 3 path-traced, 4 all.
pub open spec fn mode_family(m: RenderingMode) -> int {
    match m {
        RenderingMode::Rasterized => 0,
        RenderingMode::Hybrid => 1,
        RenderingMode::Raytraced => 2,
        RenderingMode::PathTraced => 3,
        RenderingMode::All => 4,
    }
}

/// The family of a capability.
pub open spec fn caps_family(c: RenderingCapabilities) -> int {
    match c {
        RenderingCapabilities::Rasterized => 0,
        RenderingCapabilities::Hybrid => 1,
        RenderingCapabilities::Raytraced => 2,
        RenderingCapabilities::PathTraced => 3,
        RenderingCapabilities::All => 4,
    }
}

/// Stage bits of a family: vertex and fragment for rasterized, those plus
/// ray tracing for hybrid, ray tracing alone for the traced families, all
/// stages for `All`.
pub open spec fn family_stage_bits(f: int) -> u32 {
    if f == 0 {
        STAGE_VERTEX_BITS | STAGE_FRAGMENT_BITS
    } else if f == 1 {
        STAGE_VERTEX_BITS | STAGE_FRAGMENT_BITS | STAGE_RAY_TRACING_BITS
    } else if f == 4 {
        STAGE_ALL_BITS
    } else {
        STAGE_RAY_TRACING_BITS
    }
}

/// Shader stages of a family.
pub open spec fn family_stages(f: int) -> Seq<ShaderStage> {
    if f == 0 {
        seq![ShaderStage::Vertex, ShaderStage::Fragment]
    } else if f == 1 || f == 4 {
        seq![ShaderStage::Vertex, ShaderStage::Fragment, ShaderStage::RayGeneration, ShaderStage::ClosestHit, ShaderStage::Miss]
    } else {
        seq![ShaderStage::RayGeneration, ShaderStage::ClosestHit, ShaderStage::Miss]
    }
}

/// Render format of a family: 8-bit for rasterized, 16-bit float otherwise.
pub open spec fn family_render_format(f: int) -> Format {
    if f == 0 { Format::Rgba8Unorm } else { Format::Rgba16Float }
}

/// Output mode of a family: SDR for rasterized, scRGB otherwise.
pub open spec fn family_hdr_mode(f: int) -> HdrMode {
    if f == 0 { HdrMode::Sdr } else { HdrMode::ScRgb }
}

/// Tone mapping of a family: ACES for rasterized, linear otherwise.
pub open spec fn family_tone_mapping(f: int) -> ToneMappingOp {
    if f == 0 { ToneMappingOp::Aces } else { ToneMappingOp::Linear }
}

/// The stage mask of family `f`.
fn family_mask(f: u8) -> (r: StageMask)
    requires
        f <= 4,
    ensures
        r.bits == family_stage_bits(f as int),
{
    if f == 0 {
        StageMask::vertex().union(StageMask::fragment())
    } else if f == 1 {
        StageMask::vertex().union(StageMask::fragment()).union(StageMask::ray_tracing())
    } else if f == 4 {
        StageMask::all()
    } else {
        StageMask::ray_tracing()
    }
}

/// The stages of family `f`.
fn family_stage_list(f: u8) -> (r: Vec<ShaderStage>)
    requires
        f <= 4,
    ensures
        r@ == family_stages(f as int),
{
    if f == 0 {
        vec![ShaderStage::Vertex, ShaderStage::Fragment]
    } else if f == 1 || f == 4 {
        vec![ShaderStage::Vertex, ShaderStage::Fragment, ShaderStage::RayGeneration, ShaderStage::ClosestHit, ShaderStage::Miss]
    } else {
        vec![ShaderStage::RayGeneration, ShaderStage::ClosestHit, ShaderStage::Miss]
    }
}

impl Default for RenderingMode {
    fn default() -> (r: RenderingMode)
        ensures
            r == RenderingMode::Rasterized,
    {
        RenderingMode::Rasterized
    }
}

impl RenderingMode {
    /// The family number of this mode.
    fn family(self) -> (r: u8)
        ensures
            r == mode_family(self),
    {
        match self {
            RenderingMode::Rasterized => 0,
            RenderingMode::Hybrid => 1,
            RenderingMode::Raytraced => 2,
            RenderingMode::PathTraced => 3,
            RenderingMode::All => 4,
        }
    }

    /// The stages this mode runs shaders in, as a mask.
    pub fn stage_mask(self) -> (r: StageMask)
        ensures
            r.bits == family_stage_bits(mode_family(self)),
    {
        family_mask(self.family())
    }

    /// The shader stages this mode runs.
    pub fn stages(self) -> (r: Vec<ShaderStage>)
        ensures
            r@ == family_stages(mode_family(self)),
    {
        family_stage_list(self.family())
    }

    /// The render format.
    pub fn render_format(self) -> (r: Format)
        ensures
            r == family_render_format(mode_family(self)),
    {
        match self {
            RenderingMode::Rasterized => Format::Rgba8Unorm,
            _ => Format::Rgba16Float,
        }
    }

    /// The output mode.
    pub fn hdr_mode(self) -> (r: HdrMode)
        ensures
            r == family_hdr_mode(mode_family(self)),
    {
        match self {
            RenderingMode::Rasterized => HdrMode::Sdr,
            _ => HdrMode::ScRgb,
        }
    }

    /// The tone-mapping operator.
    pub fn tone_mapping(self) -> (r: ToneMappingOp)
        ensures
            r == family_tone_mapping(mode_family(self)),
    {
        match self {
            RenderingMode::Rasterized => ToneMappingOp::Aces,
            _ => ToneMappingOp::Linear,
        }
    }

    /// The capabilities of the same family.
    pub fn rendering_caps(self) -> (r: RenderingCapabilities)
        ensures
            caps_family(r) == mode_family(self),
    {
        match self {
            RenderingMode::Rasterized => RenderingCapabilities::Rasterized,
            RenderingMode::Hybrid => RenderingCapabilities::Hybrid,
            RenderingMode::Raytraced => RenderingCapabilities::Raytraced,
            RenderingMode::PathTraced => RenderingCapabilities::PathTraced,
            RenderingMode::All => RenderingCapabilities::All,
        }
    }

    /// The short name.
    pub fn name(self) -> (r: &'static str)
        ensures
            r@ == rendering_mode_name(self),
    {
        match self {
            RenderingMode::Rasterized => "rasterized",
            RenderingMode::Hybrid => "hybrid",
            RenderingMode::Raytraced => "raytraced",
            RenderingMode::PathTraced => "path_traced",
            RenderingMode::All => "all",
        }
    }
}

/// The short name of each mode.
pub open spec fn rendering_mode_name(m: RenderingMode) -> Seq<char> {
    match m {
        RenderingMode::Rasterized => "rasterized"@,
        RenderingMode::Hybrid => "hybrid"@,
        RenderingMode::Raytraced => "raytraced"@,
        RenderingMode::PathTraced => "path_traced"@,
        RenderingMode::All => "all"@,
    }
}

impl RenderingCapabilities {
    /// The family number of these capabilities.
    fn family(self) -> (r: u8)
        ensures
            r == caps_family(self),
    {
        match self {
            RenderingCapabilities::Rasterized => 0,
            RenderingCapabilities::Hybrid => 1,
            RenderingCapabilities::Raytraced => 2,
            RenderingCapabilities::PathTraced => 3,
            RenderingCapabilities::All => 4,
        }
    }

    /// The stages these capabilities cover, as a mask.
    pub fn stage_mask(self) -> (r: StageMask)
        ensures
            r.bits == family_stage_bits(caps_family(self)),
    {
        family_mask(self.family())
    }

    /// The shader stages these capabilities cover.
    pub fn stages(self) -> (r: Vec<ShaderStage>)
        ensures
            r@ == family_stages(caps_family(self)),
    {
        family_stage_list(self.family())
    }

    /// The render format.
    pub fn render_format(self) -> (r: Format)
        ensures
            r == family_render_format(caps_family(self)),
    {
        match self {
            RenderingCapabilities::Rasterized => Format::Rgba8Unorm,
            _ => Format::Rgba16Float,
        }
    }

    /// The output mode.
    pub fn hdr_mode(self) -> (r: HdrMode)
        ensures
            r == family_hdr_mode(caps_family(self)),
    {
        match self {
            RenderingCapabilities::Rasterized => HdrMode::Sdr,
            _ => HdrMode::ScRgb,
        }
    }

    /// The tone-mapping operator.
    pub fn tone_mapping(self) -> (r: ToneMappingOp)
        ensures
            r == family_tone_mapping(caps_family(self)),
    {
        match self {
            RenderingCapabilities::Rasterized => ToneMappingOp::Aces,
            _ => ToneMappingOp::Linear,
        }
    }
}

/// A mode and the capabilities it maps to agree on stages, format, output
/// mode and tone mapping.
pub proof fn lemma_mode_caps_agree(m: RenderingMode)
    ensures
        caps_family(rendering_caps_of(m)) == mode_family(m),
        family_stage_bits(caps_family(rendering_caps_of(m))) == family_stage_bits(mode_family(m)),
        family_stages(caps_family(rendering_caps_of(m))) == family_stages(mode_family(m)),
        family_render_format(caps_family(rendering_caps_of(m))) == family_render_format(mode_family(m)),
        family_hdr_mode(caps_family(rendering_caps_of(m))) == family_hdr_mode(mode_family(m)),
        family_tone_mapping(caps_family(rendering_caps_of(m))) == family_tone_mapping(mode_family(m)),
{
}

/// The capabilities `RenderingMode::rendering_caps` gives.
pub open spec fn rendering_caps_of(m: RenderingMode) -> RenderingCapabilities {
    match m {
        RenderingMode::Rasterized => RenderingCapabilities::Rasterized,
        RenderingMode::Hybrid => RenderingCapabilities::Hybrid,
        RenderingMode::Raytraced => RenderingCapabilities::Raytraced,
        RenderingMode::PathTraced => RenderingCapabilities::PathTraced,
        RenderingMode::All => RenderingCapabilities::All,
    }
}

/// Whether a mode's output is high dynamic range agrees with its render
/// format, for every mode.
pub proof fn lemma_mode_format_matches_output(m: RenderingMode)
    ensures
        format_is_hdr(family_render_format(mode_family(m))) == hdr_mode_is_hdr(family_hdr_mode(mode_family(m))),
        hdr_mode_render_format(family_hdr_mode(mode_family(m))) == family_render_format(mode_family(m)),
        tone_mapping_is_hdr(family_tone_mapping(mode_family(m))) == hdr_mode_is_hdr(family_hdr_mode(mode_family(m))),
{
}

// ── Rendering configuration ─────────────────────────────────────────────────

/// The modes, output and capabilities a material graph renders with.
#[derive(Clone, Copy, Debug, PartialEq, Eq, Structural)]
pub struct RenderingModeConfig {
    pub primary_mode: RenderingMode,
    pub secondary_mode: RenderingMode,
    pub hdr_mode: HdrMode,
    pub tone_mapping: ToneMappingOp,
    pub render_format: Format,
    pub format_capabilities: FormatCapabilities,
    pub raytracing_caps: RaytracingCapabilities,
    pub path_tracing_caps: PathTracingCapabilities,
}

/// The configuration every field of which is its default: rasterized
/// modes, SDR, ACES, `Rgba8Unorm`, default format capabilities, no ray or
/// path tracing.
pub open spec fn default_rendering_config() -> RenderingModeConfig {
    RenderingModeConfig {
        primary_mode: RenderingMode::Rasterized,
        secondary_mode: RenderingMode::Rasterized,
        hdr_mode: HdrMode::Sdr,
        tone_mapping: ToneMappingOp::Aces,
        render_format: Format::Rgba8Unorm,
        format_capabilities: default_format_caps(),
        raytracing_caps: RaytracingCapabilities::Disabled,
        path_tracing_caps: PathTracingCapabilities::Disabled,
    }
}

impl Default for RenderingModeConfig {
    fn default() -> (r: RenderingModeConfig)
        ensures
            r == default_rendering_config(),
    {
        RenderingModeConfig {
            primary_mode: RenderingMode::Rasterized,
            secondary_mode: RenderingMode::Rasterized,
            hdr_mode: HdrMode::default_mode(),
            tone_mapping: ToneMappingOp::default_op(),
            render_format: Format::default_format(),
            format_capabilities: FormatCapabilities::default_caps(),
            raytracing_caps: RaytracingCapabilities::default_caps(),
            path_tracing_caps: PathTracingCapabilities::default_caps(),
        }
    }
}

impl RenderingModeConfig {
    /// The default configuration with `mode` as the primary mode.
    pub fn with_primary_mode(mode: RenderingMode) -> (r: RenderingModeConfig)
        ensures
            r == (RenderingModeConfig { primary_mode: mode, ..default_rendering_config() }),
    {
        let d = RenderingModeConfig::default();
        RenderingModeConfig { primary_mode: mode, ..d }
    }

    /// The configuration for output mode `mode`: linear tone mapping for HDR
    /// output and ACES otherwise, the mode's render format and format
    /// capabilities, default modes, no ray or path tracing.
    pub fn with_hdr_mode(mode: HdrMode) -> (r: RenderingModeConfig)
        ensures
            r == (RenderingModeConfig {
                hdr_mode: mode,
                tone_mapping: if hdr_mode_is_hdr(mode) { ToneMappingOp::Linear } else { ToneMappingOp::Aces },
                render_format: hdr_mode_render_format(mode),
                format_capabilities: format_caps_for_hdr_mode(mode),
                ..default_rendering_config()
            }),
    {
        let d = RenderingModeConfig::default();
        RenderingModeConfig {
            hdr_mode: mode,
            tone_mapping: if mode.is_hdr() { ToneMappingOp::Linear } else { ToneMappingOp::Aces },
            render_format: mode.render_format(),
            format_capabilities: FormatCapabilities::from_hdr_mode(mode),
            ..d
        }
    }

    /// The configuration for tone-mapping operator `op`: scRGB output in
    /// `Rgba16Float` for the linear operator, SDR in `Rgba8Unorm` otherwise.
    pub fn with_tone_mapping(op: ToneMappingOp) -> (r: RenderingModeConfig)
        ensures
            r == (RenderingModeConfig {
                hdr_mode: if tone_mapping_is_hdr(op) { HdrMode::ScRgb } else { HdrMode::Sdr },
                tone_mapping: op,
                render_format: if tone_mapping_is_hdr(op) { Format::Rgba16Float } else { Format::Rgba8Unorm },
                format_capabilities: format_caps_for_tone_mapping(op),
                ..default_rendering_config()
            }),
    {
        let d = RenderingModeConfig::default();
        let hdr = op.is_hdr();
        RenderingModeConfig {
            hdr_mode: if hdr { HdrMode::ScRgb } else { HdrMode::Sdr },
            tone_mapping: op,
            render_format: if hdr { Format::Rgba16Float } else { Format::Rgba8Unorm },
            format_capabilities: FormatCapabilities::from_tone_mapping(op),
            ..d
        }
    }

    /// The configuration for render format `format`: scRGB with linear tone
    /// mapping for floating-point formats, SDR with ACES otherwise; the
    /// format capabilities stay the default.
    pub fn with_render_format(format: Format) -> (r: RenderingModeConfig)
        ensures
            r == (RenderingModeConfig {
                hdr_mode: if format_is_hdr(format) { HdrMode::ScRgb } else { HdrMode::Sdr },
                tone_mapping: if format_is_hdr(format) { ToneMappingOp::Linear } else { ToneMappingOp::Aces },
                render_format: format,
                ..default_rendering_config()
            }),
    {
        let d = RenderingModeConfig::default();
        let hdr = format.is_hdr();
        RenderingModeConfig {
            hdr_mode: if hdr { HdrMode::ScRgb } else { HdrMode::Sdr },
            tone_mapping: if hdr { ToneMappingOp::Linear } else { ToneMappingOp::Aces },
            render_format: format,
            ..d
        }
    }

    /// The primary mode.
    pub fn primary_mode(&self) -> (r: RenderingMode)
        ensures
            r == self.primary_mode,
    {
        self.primary_mode
    }

    /// The secondary mode.
    pub fn secondary_mode(&self) -> (r: RenderingMode)
        ensures
            r == self.secondary_mode,
    {
        self.secondary_mode
    }

    /// The output mode.
    pub fn hdr_mode(&self) -> (r: HdrMode)
        ensures
            r == self.hdr_mode,
    {
        self.hdr_mode
    }

    /// The tone-mapping operator.
    pub fn tone_mapping(&self) -> (r: ToneMappingOp)
        ensures
            r == self.tone_mapping,
    {
        self.tone_mapping
    }

    /// The render format.
    pub fn render_format(&self) -> (r: Format)
        ensures
            r == self.render_format,
    {
        self.render_format
    }

    /// The format capabilities.
    pub fn format_capabilities(&self) -> (r: &FormatCapabilities)
        ensures
            *r == self.format_capabilities,
    {
        &self.format_capabilities
    }

    /// The ray-tracing capabilities.
    pub fn raytracing_caps(&self) -> (r: RaytracingCapabilities)
        ensures
            r == self.raytracing_caps,
    {
        self.raytracing_caps
    }

    /// The path-tracing capabilities.
    pub fn path_tracing_caps(&self) -> (r: PathTracingCapabilities)
        ensures
            r == self.path_tracing_caps,
    {
        self.path_tracing_caps
    }
}

/// Every single-setting configuration other than the render-format one
/// renders HDR output exactly into a floating-point format, and the
/// render-format one agrees on output mode and tone mapping.
pub proof fn lemma_config_output_consistent(mode: HdrMode, op: ToneMappingOp, format: Format)
    ensures
        format_is_hdr(hdr_mode_render_format(mode)) == hdr_mode_is_hdr(mode),
        ({
            let hdr = tone_mapping_is_hdr(op);
            let out = if hdr { HdrMode::ScRgb } else { HdrMode::Sdr };
            let f = if hdr { Format::Rgba16Float } else { Format::Rgba8Unorm };
            format_is_hdr(f) == hdr_mode_is_hdr(out)
        }),
        ({
            let hdr = format_is_hdr(format);
            let out = if hdr { HdrMode::ScRgb } else { HdrMode::Sdr };
            let t = if hdr { ToneMappingOp::Linear } else { ToneMappingOp::Aces };
            hdr_mode_is_hdr(out) == hdr && tone_mapping_is_hdr(t) == hdr
        }),
{
}

// ── Parameter streaming ──────────────────────────────────────────────────────

/// How material parameters reach the shader.
#[derive(Clone, Copy, Debug, PartialEq, Eq, Structural)]
pub enum ParameterStreamingMode {
    Bindless,
    PushConstant,
    BindGroup,
    StorageBuffer,
    All,
}

/// How often streamed parameters change.
#[derive(Clone, Copy, Debug, PartialEq, Eq, Structural)]
pub enum ParameterStreamingRate {
    Frame,
    Pass,
    Material,
    Draw,
    All,
}

/// The layout streamed parameters are written in.
#[derive(Clone, Copy, Debug, PartialEq, Eq, Structural)]
pub enum ParameterStreamingFormat {
    Bindless,
    PushConstant,
    BindGroup,
    StorageBuffer,
    All,
}

/// The format matching each mode, variant for variant.
pub open spec fn streaming_format_of(m: ParameterStreamingMode) -> ParameterStreamingFormat {
    match m {
        ParameterStreamingMode::Bindless => ParameterStreamingFormat::Bindless,
        ParameterStreamingMode::PushConstant => ParameterStreamingFormat::PushConstant,
        ParameterStreamingMode::BindGroup => ParameterStreamingFormat::BindGroup,
        ParameterStreamingMode::StorageBuffer => ParameterStreamingFormat::StorageBuffer,
        ParameterStreamingMode::All => ParameterStreamingFormat::All,
    }
}

/// The binding update rate of each streaming rate, variant for variant.
pub open spec fn streaming_update_rate(r: ParameterStreamingRate) -> UpdateRate {
    match r {
        ParameterStreamingRate::Frame => UpdateRate::Frame,
        ParameterStreamingRate::Pass => UpdateRate::Pass,
        ParameterStreamingRate::Material => UpdateRate::Material,
        ParameterStreamingRate::Draw => UpdateRate::Draw,
        ParameterStreamingRate::All => UpdateRate::All,
    }
}

/// The short name of a streaming mode.
pub open spec fn streaming_mode_name(m: ParameterStreamingMode) -> Seq<char> {
    match m {
        ParameterStreamingMode::Bindless => "bindless"@,
        ParameterStreamingMode::PushConstant => "push_constant"@,
        ParameterStreamingMode::BindGroup => "bind_group"@,
        ParameterStreamingMode::StorageBuffer => "storage_buffer"@,
        ParameterStreamingMode::All => "all"@,
    }
}

/// The short name of a streaming format.
pub open spec fn streaming_format_name(f: ParameterStreamingFormat) -> Seq<char> {
    match f {
        ParameterStreamingFormat::Bindless => "bindless"@,
        ParameterStreamingFormat::PushConstant => "push_constant"@,
        ParameterStreamingFormat::BindGroup => "bind_group"@,
        ParameterStreamingFormat::StorageBuffer => "storage_buffer"@,
        ParameterStreamingFormat::All => "all"@,
    }
}

/// The short name of a streaming rate.
pub open spec fn streaming_rate_name(r: ParameterStreamingRate) -> Seq<char> {
    match r {
        ParameterStreamingRate::Frame => "frame"@,
        ParameterStreamingRate::Pass => "pass"@,
        ParameterStreamingRate::Material => "material"@,
        ParameterStreamingRate::Draw => "draw"@,
        ParameterStreamingRate::All => "all"@,
    }
}

impl Default for ParameterStreamingMode {
    fn default() -> (r: ParameterStreamingMode)
        ensures
            r == ParameterStreamingMode::Bindless,
    {
        ParameterStreamingMode::Bindless
    }
}

impl Default for ParameterStreamingRate {
    fn default() -> (r: ParameterStreamingRate)
        ensures
            r == ParameterStreamingRate::Frame,
    {
        ParameterStreamingRate::Frame
    }
}

impl Default for ParameterStreamingFormat {
    fn default() -> (r: ParameterStreamingFormat)
        ensures
            r == ParameterStreamingFormat::Bindless,
    {
        ParameterStreamingFormat::Bindless
    }
}

impl ParameterStreamingMode {
    /// Every streaming mode feeds the fragment stage.
    pub fn stage_mask(self) -> (r: StageMask)
        ensures
            r.bits == STAGE_FRAGMENT_BITS,
    {
        StageMask::fragment()
    }

    /// Every streaming mode updates once per material.
    pub fn update_rate(self) -> (r: UpdateRate)
        ensures
            r == UpdateRate::Material,
    {
        UpdateRate::Material
    }

    /// The matching format.
    pub fn streaming_format(self) -> (r: ParameterStreamingFormat)
        ensures
            r == streaming_format_of(self),
    {
        match self {
            ParameterStreamingMode::Bindless => ParameterStreamingFormat::Bindless,
            ParameterStreamingMode::PushConstant => ParameterStreamingFormat::PushConstant,
            ParameterStreamingMode::BindGroup => ParameterStreamingFormat::BindGroup,
            ParameterStreamingMode::StorageBuffer => ParameterStreamingFormat::StorageBuffer,
            ParameterStreamingMode::All => ParameterStreamingFormat::All,
        }
    }

    /// The short name.
    pub fn name(self) -> (r: &'static str)
        ensures
            r@ == streaming_mode_name(self),
    {
        match self {
            ParameterStreamingMode::Bindless => "bindless",
            ParameterStreamingMode::PushConstant => "push_constant",
            ParameterStreamingMode::BindGroup => "bind_group",
            ParameterStreamingMode::StorageBuffer => "storage_buffer",
            ParameterStreamingMode::All => "all",
        }
    }
}

impl ParameterStreamingRate {
    /// The binding update rate.
    pub fn update_rate(self) -> (r: UpdateRate)
        ensures
            r == streaming_update_rate(self),
    {
        match self {
            ParameterStreamingRate::Frame => UpdateRate::Frame,
            ParameterStreamingRate::Pass => UpdateRate::Pass,
            ParameterStreamingRate::Material => UpdateRate::Material,
            ParameterStreamingRate::Draw => UpdateRate::Draw,
            ParameterStreamingRate::All => UpdateRate::All,
        }
    }

    /// The short name.
    pub fn name(self) -> (r: &'static str)
        ensures
            r@ == streaming_rate_name(self),
    {
        match self {
            ParameterStreamingRate::Frame => "frame",
            ParameterStreamingRate::Pass => "pass",
            ParameterStreamingRate::Material => "material",
            ParameterStreamingRate::Draw => "draw",
            ParameterStreamingRate::All => "all",
        }
    }
}

impl ParameterStreamingFormat {
    /// The short name.
    pub fn name(self) -> (r: &'static str)
        ensures
            r@ == streaming_format_name(self),
    {
        match self {
            ParameterStreamingFormat::Bindless => "bindless",
            ParameterStreamingFormat::PushConstant => "push_constant",
            ParameterStreamingFormat::BindGroup => "bind_group",
            ParameterStreamingFormat::StorageBuffer => "storage_buffer",
            ParameterStreamingFormat::All => "all",
        }
    }
}

/// A streaming mode and its format share their name.
pub proof fn lemma_streaming_format_same_name(m: ParameterStreamingMode)
    ensures
        streaming_format_name(streaming_format_of(m)) == streaming_mode_name(m),
{
}

/// How material parameters are streamed: mode, rate and format.
#[derive(Clone, Copy, Debug, PartialEq, Eq, Structural)]
pub struct ParameterStreamingConfig {
    pub streaming_mode: ParameterStreamingMode,
    pub streaming_rate: ParameterStreamingRate,
    pub streaming_format: ParameterStreamingFormat,
}

/// The streaming configuration with every field at its default.
pub open spec fn default_streaming_config() -> ParameterStreamingConfig {
    ParameterStreamingConfig {
        streaming_mode: ParameterStreamingMode::Bindless,
        streaming_rate: ParameterStreamingRate::Frame,
        streaming_format: ParameterStreamingFormat::Bindless,
    }
}

impl Default for ParameterStreamingConfig {
    fn default() -> (r: ParameterStreamingConfig)
        ensures
            r == default_streaming_config(),
    {
        ParameterStreamingConfig {
            streaming_mode: ParameterStreamingMode::Bindless,
            streaming_rate: ParameterStreamingRate::Frame,
            streaming_format: ParameterStreamingFormat::Bindless,
        }
    }
}

impl ParameterStreamingConfig {
    /// The default configuration with mode `mode`.
    pub fn with_streaming_mode(mode: ParameterStreamingMode) -> (r: ParameterStreamingConfig)
        ensures
            r == (ParameterStreamingConfig { streaming_mode: mode, ..default_streaming_config() }),
    {
        ParameterStreamingConfig { streaming_mode: mode, ..ParameterStreamingConfig::default() }
    }

    /// The default configuration with rate `rate`.
    pub fn with_streaming_rate(rate: ParameterStreamingRate) -> (r: ParameterStreamingConfig)
        ensures
            r == (ParameterStreamingConfig { streaming_rate: rate, ..default_streaming_config() }),
    {
        ParameterStreamingConfig { streaming_rate: rate, ..ParameterStreamingConfig::default() }
    }

    /// The default configuration with format `format`.
    pub fn with_streaming_format(format: ParameterStreamingFormat) -> (r: ParameterStreamingConfig)
        ensures
            r == (ParameterStreamingConfig { streaming_format: format, ..default_streaming_config() }),
    {
        ParameterStreamingConfig { streaming_format: format, ..ParameterStreamingConfig::default() }
    }

    /// The mode.
    pub fn streaming_mode(&self) -> (r: ParameterStreamingMode)
        ensures
            r == self.streaming_mode,
    {
        self.streaming_mode
    }

    /// The rate.
    pub fn streaming_rate(&self) -> (r: ParameterStreamingRate)
        ensures
            r == self.streaming_rate,
    {
        self.streaming_rate
    }

    /// The format.
    pub fn streaming_format(&self) -> (r: ParameterStreamingFormat)
        ensures
            r == self.streaming_format,
    {
        self.streaming_format
    }
}

} // verus!
