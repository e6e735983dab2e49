//! Material assets: the description of a material loaded from shader files
//! (shader source, stages, bindings, render state, format and path-tracing
//! configuration), the material built from it, asset metadata, and the
//! material presets.
use vstd::prelude::*;

use crate::binding::{
    AccelerationStructureBindingRegistration, BufferBindingRegistration, PipelineLayoutDesc,
    PushConstantRegistration, RaytracedStageRegistration, TextureBindingRegistration,
    build_pipeline_layout, binding_views, caps_for_stages, layout_bindings_spec,
    push_constant_sizes,
};
use crate::caps::{
    FormatCapabilities, PathTracedBounceConfig, PathTracedImportanceSampling,
    PathTracedTerminationStrategy, PathTracingCapabilities, RaytracingCapabilities,
    default_bounce_config, default_format_caps, format_caps_for_hdr_mode,
    format_caps_for_tone_mapping, path_caps_for_config,
};
use crate::material::{RenderState, default_render_state};
use crate::types::{
    Duplicate, Format, HdrMode, MeshVertexKind, Named, SamplerPreset, ShaderDesc, ShaderSource,
    ShaderStage, ShaderTarget, StageMask, ToneMappingOp, UpdateRate, duplicate_option, duplicate_vec,
    STAGE_FRAGMENT_BITS, STAGE_RAY_TRACING_BITS,
};

verus! {

// ── Asset format and validation status ───────────────────────────────────────

/// The kind of file a material asset is read from.
#[derive(Clone, Copy, Debug, PartialEq, Eq, Structural)]
pub enum MaterialAssetFormat {
    Slang,
    HLSL,
    GLSL,
    MSL,
    Spirv,
    Dxil,
    ParameterData,
    TextureData,
}

/// The target a source format compiles to: DXIL for HLSL and DXIL input, MSL
/// for MSL input, SPIR-V for everything else.
pub open spec fn asset_format_target(f: MaterialAssetFormat) -> ShaderTarget {
    match f {
        MaterialAssetFormat::HLSL => ShaderTarget::Dxil,
        MaterialAssetFormat::Dxil => ShaderTarget::Dxil,
        MaterialAssetFormat::MSL => ShaderTarget::Msl,
        _ => ShaderTarget::Spirv,
    }
}

impl MaterialAssetFormat {
    /// The default format (Slang source).
    pub fn default_format() -> (r: MaterialAssetFormat)
        ensures
            r == MaterialAssetFormat::Slang,
    {
        MaterialAssetFormat::Slang
    }

    /// The shader target this format compiles to.
    pub fn shader_target(self) -> (r: ShaderTarget)
        ensures
            r == asset_format_target(self),
    {
        match self {
            MaterialAssetFormat::HLSL => ShaderTarget::Dxil,
            MaterialAssetFormat::Dxil => ShaderTarget::Dxil,
            MaterialAssetFormat::MSL => ShaderTarget::Msl,
            _ => ShaderTarget::Spirv,
        }
    }

    /// The shader stage of this format: every material source is a fragment shader.
    pub fn shader_stage(self) -> (r: ShaderStage)
        ensures
            r == ShaderStage::Fragment,
    {
        ShaderStage::Fragment
    }
}

/// Where a material asset is in its validation.
#[derive(Clone, Copy, Debug, PartialEq, Eq, Structural)]
pub enum MaterialAssetValidationStatus {
    Unvalidated,
    Validating,
    Validated,
    Error,
}

// ── Metadata ─────────────────────────────────────────────────────────────────

/// Descriptive and structural metadata of a material asset.
#[derive(Clone, Debug)]
pub struct MaterialAssetMetadata {
    pub version: u32,
    pub author: String,
    pub date: String,
    pub license: String,
    pub description: String,
    pub format: MaterialAssetFormat,
    pub shader_target: ShaderTarget,
    pub shader_stage: ShaderStage,
    pub entry_point: String,
    pub push_constants: Vec<PushConstantRegistration>,
    pub texture_bindings: Vec<TextureBindingRegistration>,
    pub buffer_bindings: Vec<BufferBindingRegistration>,
    pub acceleration_structure_bindings: Vec<AccelerationStructureBindingRegistration>,
    pub raytraced_stages: Vec<RaytracedStageRegistration>,
    pub path_traced_bounces: PathTracedBounceConfig,
    pub render_state: RenderState,
    pub format_capabilities: FormatCapabilities,
}

/// Metadata with version zero, empty descriptive fields, a Slang fragment
/// shader for SPIR-V with entry point `main`, no bindings and default states.
pub open spec fn is_default_metadata(m: MaterialAssetMetadata) -> bool {
    &&& m.version == 0
    &&& m.author@ == Seq::<char>::empty()
    &&& m.date@ == Seq::<char>::empty()
    &&& m.license@ == Seq::<char>::empty()
    &&& m.description@ == Seq::<char>::empty()
    &&& m.format == MaterialAssetFormat::Slang
    &&& m.shader_target == ShaderTarget::Spirv
    &&& m.shader_stage == ShaderStage::Fragment
    &&& m.entry_point@ == "main"@
    &&& m.push_constants@.len() == 0
    &&& m.texture_bindings@.len() == 0
    &&& m.buffer_bindings@.len() == 0
    &&& m.acceleration_structure_bindings@.len() == 0
    &&& m.raytraced_stages@.len() == 0
    &&& m.path_traced_bounces == default_bounce_config()
    &&& m.render_state == default_render_state()
    &&& m.format_capabilities == default_format_caps()
}

impl MaterialAssetMetadata {
    /// Default metadata.
    pub fn new() -> (r: MaterialAssetMetadata)
        ensures
            is_default_metadata(r),
    {
        MaterialAssetMetadata {
            version: 0,
            author: String::new(),
            date: String::new(),
            license: String::new(),
            description: String::new(),
            format: MaterialAssetFormat::default_format(),
            shader_target: ShaderTarget::Spirv,
            shader_stage: ShaderStage::Fragment,
            entry_point: String::from_str("main"),
            push_constants: Vec::new(),
            texture_bindings: Vec::new(),
            buffer_bindings: Vec::new(),
            acceleration_structure_bindings: Vec::new(),
            raytraced_stages: Vec::new(),
            path_traced_bounces: PathTracedBounceConfig::default_config(),
            render_state: RenderState::default_state(),
            format_capabilities: FormatCapabilities::default_caps(),
        }
    }

    /// The version.
    pub fn version(&self) -> (r: u32)
        ensures
            r == self.version,
    {
        self.version
    }

    /// The author.
    pub fn author(&self) -> (r: &str)
        ensures
            r@ == self.author@,
    {
        self.author.as_str()
    }

    /// The date.
    pub fn date(&self) -> (r: &str)
        ensures
            r@ == self.date@,
    {
        self.date.as_str()
    }

    /// The license.
    pub fn license(&self) -> (r: &str)
        ensures
            r@ == self.license@,
    {
        self.license.as_str()
    }

    /// The description.
    pub fn description(&self) -> (r: &str)
        ensures
            r@ == self.description@,
    {
        self.description.as_str()
    }

    /// The source format.
    pub fn format(&self) -> (r: MaterialAssetFormat)
        ensures
            r == self.format,
    {
        self.format
    }

    /// The shader target.
    pub fn shader_target(&self) -> (r: ShaderTarget)
        ensures
            r == self.shader_target,
    {
        self.shader_target
    }

    /// The shader stage.
    pub fn shader_stage(&self) -> (r: ShaderStage)
        ensures
            r == self.shader_stage,
    {
        self.shader_stage
    }

    /// The entry point.
    pub fn entry_point(&self) -> (r: &str)
        ensures
            r@ == self.entry_point@,
    {
        self.entry_point.as_str()
    }

    /// The push-constant blocks.
    pub fn push_constants(&self) -> (r: &[PushConstantRegistration])
        ensures
            r@ == self.push_constants@,
    {
        self.push_constants.as_slice()
    }

    /// The texture bindings.
    pub fn texture_bindings(&self) -> (r: &[TextureBindingRegistration])
        ensures
            r@ == self.texture_bindings@,
    {
        self.texture_bindings.as_slice()
    }

    /// The buffer bindings.
    pub fn buffer_bindings(&self) -> (r: &[BufferBindingRegistration])
        ensures
            r@ == self.buffer_bindings@,
    {
        self.buffer_bindings.as_slice()
    }

    /// The acceleration-structure bindings.
    pub fn acceleration_structure_bindings(&self) -> (r: &[AccelerationStructureBindingRegistration])
        ensures
            r@ == self.acceleration_structure_bindings@,
    {
        self.acceleration_structure_bindings.as_slice()
    }

    /// The ray-traced stages.
    pub fn raytraced_stages(&self) -> (r: &[RaytracedStageRegistration])
        ensures
            r@ == self.raytraced_stages@,
    {
        self.raytraced_stages.as_slice()
    }

    /// The path-traced bounce configuration.
    pub fn path_traced_bounces(&self) -> (r: &PathTracedBounceConfig)
        ensures
            *r == self.path_traced_bounces,
    {
        &self.path_traced_bounces
    }

    /// The render state.
    pub fn render_state(&self) -> (r: &RenderState)
        ensures
            *r == self.render_state,
    {
        &self.render_state
    }

    /// The format capabilities.
    pub fn format_capabilities(&self) -> (r: &FormatCapabilities)
        ensures
            *r == self.format_capabilities,
    {
        &self.format_capabilities
    }
}

/// Two metadata values hold the same fields, their lists taken by content.
pub open spec fn same_metadata(a: MaterialAssetMetadata, b: MaterialAssetMetadata) -> bool {
    &&& a.version == b.version
    &&& a.author == b.author
    &&& a.date == b.date
    &&& a.license == b.license
    &&& a.description == b.description
    &&& a.format == b.format
    &&& a.shader_target == b.shader_target
    &&& a.shader_stage == b.shader_stage
    &&& a.entry_point == b.entry_point
    &&& a.push_constants@ == b.push_constants@
    &&& a.texture_bindings@ == b.texture_bindings@
    &&& a.buffer_bindings@ == b.buffer_bindings@
    &&& a.acceleration_structure_bindings@ == b.acceleration_structure_bindings@
    &&& a.raytraced_stages@ == b.raytraced_stages@
    &&& a.path_traced_bounces == b.path_traced_bounces
    &&& a.render_state == b.render_state
    &&& a.format_capabilities == b.format_capabilities
}

impl MaterialAssetMetadata {
    /// A field-by-field copy.
    pub fn duplicate(&self) -> (r: MaterialAssetMetadata)
        ensures
            same_metadata(r, *self),
    {
        MaterialAssetMetadata {
            version: self.version,
            author: self.author.clone(),
            date: self.date.clone(),
            license: self.license.clone(),
            description: self.description.clone(),
            format: self.format,
            shader_target: self.shader_target,
            shader_stage: self.shader_stage,
            entry_point: self.entry_point.clone(),
            push_constants: duplicate_vec(&self.push_constants),
            texture_bindings: duplicate_vec(&self.texture_bindings),
            buffer_bindings: duplicate_vec(&self.buffer_bindings),
            acceleration_structure_bindings: duplicate_vec(&self.acceleration_structure_bindings),
            raytraced_stages: duplicate_vec(&self.raytraced_stages),
            path_traced_bounces: self.path_traced_bounces,
            render_state: self.render_state,
            format_capabilities: self.format_capabilities,
        }
    }
}

// ── Material asset ──────────────────────────────────────────────────────────

/// A material defined by external files: its shader, the bindings the shader
/// reads, and how it is rasterised, traced and presented.
#[derive(Clone, Debug)]
pub struct MaterialAsset {
    pub name: String,
    pub shader_source: ShaderSource,
    pub shader_entry_point: String,
    pub shader_stage: ShaderStage,
    pub shader_target: ShaderTarget,
    pub vertex_kind: MeshVertexKind,
    pub vertex_source: Option<ShaderSource>,
    pub push_constants: Vec<PushConstantRegistration>,
    pub texture_bindings: Vec<TextureBindingRegistration>,
    pub buffer_bindings: Vec<BufferBindingRegistration>,
    pub acceleration_structure_bindings: Vec<AccelerationStructureBindingRegistration>,
    pub render_state: RenderState,
    pub format_capabilities: FormatCapabilities,
    pub raytraced_stages: Vec<RaytracedStageRegistration>,
    pub path_traced_bounces: PathTracedBounceConfig,
    pub asset_path: String,
    pub asset_metadata: MaterialAssetMetadata,
    pub validation_status: MaterialAssetValidationStatus,
}

/// A freshly created asset: fragment stage, entry point `main`, SPIR-V, 2D
/// vertices, no custom vertex shader, no bindings, default states, default
/// metadata, not yet validated.
pub open spec fn is_fresh_asset(a: MaterialAsset) -> bool {
    &&& a.shader_entry_point@ == "main"@
    &&& a.shader_stage == ShaderStage::Fragment
    &&& a.shader_target == ShaderTarget::Spirv
    &&& a.vertex_kind == MeshVertexKind::V2d
    &&& a.vertex_source is None
    &&& a.push_constants@.len() == 0
    &&& a.texture_bindings@.len() == 0
    &&& a.buffer_bindings@.len() == 0
    &&& a.acceleration_structure_bindings@.len() == 0
    &&& a.render_state == default_render_state()
    &&& a.format_capabilities == default_format_caps()
    &&& a.raytraced_stages@.len() == 0
    &&& a.path_traced_bounces == default_bounce_config()
    &&& is_default_metadata(a.asset_metadata)
    &&& a.validation_status == MaterialAssetValidationStatus::Unvalidated
}

/// Sum of the push-constant block sizes.
pub open spec fn push_constant_total(s: Seq<PushConstantRegistration>) -> nat
    decreases s.len(),
{
    if s.len() == 0 {
        0
    } else {
        push_constant_total(s.drop_last()) + s.last().total_bytes as nat
    }
}

/// Union of the push-constant stage masks.
pub open spec fn push_constant_mask(s: Seq<PushConstantRegistration>) -> u32
    decreases s.len(),
{
    if s.len() == 0 {
        0
    } else {
        push_constant_mask(s.drop_last()) | s.last().stage_mask.bits
    }
}

impl Named for MaterialAsset {
    open spec fn name_view(&self) -> Seq<char> {
        self.name@
    }

    fn name_string(&self) -> (r: &String) {
        &self.name
    }
}

fn fresh_asset(name: String, shader_source: ShaderSource, asset_path: String) -> (r: MaterialAsset)
    ensures
        r.name == name,
        r.shader_source == shader_source,
        r.asset_path == asset_path,
        is_fresh_asset(r),
{
    MaterialAsset {
        name,
        shader_source,
        shader_entry_point: String::from_str("main"),
        shader_stage: ShaderStage::Fragment,
        shader_target: ShaderTarget::Spirv,
        vertex_kind: MeshVertexKind::V2d,
        vertex_source: None,
        push_constants: Vec::new(),
        texture_bindings: Vec::new(),
        buffer_bindings: Vec::new(),
        acceleration_structure_bindings: Vec::new(),
        render_state: RenderState::default_state(),
        format_capabilities: FormatCapabilities::default_caps(),
        raytraced_stages: Vec::new(),
        path_traced_bounces: PathTracedBounceConfig::default_config(),
        asset_path,
        asset_metadata: MaterialAssetMetadata::new(),
        validation_status: MaterialAssetValidationStatus::Unvalidated,
    }
}

impl MaterialAsset {
    /// An asset whose fragment shader is read from `shader_path`, which is
    /// also its asset path.
    pub fn new(name: &str, shader_path: &str) -> (r: MaterialAsset)
        ensures
            r.name@ == name@,
            r.shader_source matches ShaderSource::File(p) && p@ == shader_path@,
            r.asset_path@ == shader_path@,
            is_fresh_asset(r),
    {
        fresh_asset(name.to_owned(), ShaderSource::File(shader_path.to_owned()), shader_path.to_owned())
    }

    /// An asset whose fragment shader is the given source text; its asset
    /// path is empty.
    pub fn new_with_source(name: &str, source: &str) -> (r: MaterialAsset)
        ensures
            r.name@ == name@,
            r.shader_source matches ShaderSource::Inline(s) && s@ == source@,
            r.asset_path@ == Seq::<char>::empty(),
            is_fresh_asset(r),
    {
        fresh_asset(name.to_owned(), ShaderSource::Inline(source.to_owned()), String::new())
    }

    /// Replace the entry point.
    pub fn with_entry_point(self, entry_point: &str) -> (r: MaterialAsset)
        ensures
            r == (MaterialAsset { shader_entry_point: r.shader_entry_point, ..self }),
            r.shader_entry_point@ == entry_point@,
    {
        let mut s = self;
        s.shader_entry_point = entry_point.to_owned();
        s
    }

    /// Replace the shader stage.
    pub fn with_shader_stage(self, stage: ShaderStage) -> (r: MaterialAsset)
        ensures
            r == (MaterialAsset { shader_stage: stage, ..self }),
    {
        let mut s = self;
        s.shader_stage = stage;
        s
    }

    /// Replace the shader target.
    pub fn with_shader_target(self, target: ShaderTarget) -> (r: MaterialAsset)
        ensures
            r == (MaterialAsset { shader_target: target, ..self }),
    {
        let mut s = self;
        s.shader_target = target;
        s
    }

    /// Replace the vertex kind.
    pub fn with_vertex_kind(self, kind: MeshVertexKind) -> (r: MaterialAsset)
        ensures
            r == (MaterialAsset { vertex_kind: kind, ..self }),
    {
        let mut s = self;
        s.vertex_kind = kind;
        s
    }

    /// Use the given source text as the custom vertex shader.
    pub fn with_vertex_source(self, source: &str) -> (r: MaterialAsset)
        ensures
            r == (MaterialAsset { vertex_source: r.vertex_source, ..self }),
            r.vertex_source matches Some(ShaderSource::Inline(t)) && t@ == source@,
    {
        let mut s = self;
        s.vertex_source = Some(ShaderSource::Inline(source.to_owned()));
        s
    }

    /// Read the custom vertex shader from `path`.
    pub fn with_vertex_file(self, path: &str) -> (r: MaterialAsset)
        ensures
            r == (MaterialAsset { vertex_source: r.vertex_source, ..self }),
            r.vertex_source matches Some(ShaderSource::File(p)) && p@ == path@,
    {
        let mut s = self;
        s.vertex_source = Some(ShaderSource::File(path.to_owned()));
        s
    }

    /// Register a fragment-stage push-constant block of `total_bytes` bytes.
    pub fn with_push_constant_bytes(self, block_name: &str, total_bytes: u32) -> (r: MaterialAsset)
        ensures
            r == (MaterialAsset { push_constants: r.push_constants, ..self }),
            r.push_constants@.len() == self.push_constants@.len() + 1,
            r.push_constants@.drop_last() == self.push_constants@,
            r.push_constants@.last().block_name@ == block_name@,
            r.push_constants@.last().total_bytes == total_bytes,
            r.push_constants@.last().stage_mask.bits == STAGE_FRAGMENT_BITS,
            r.push_constants@.last().offset == 0,
    {
        self.with_push_constant_bytes_stage(block_name, total_bytes, StageMask::fragment())
    }

    /// Register a push-constant block of `total_bytes` bytes for the given stages.
    pub fn with_push_constant_bytes_stage(self, block_name: &str, total_bytes: u32, stage: StageMask) -> (r: MaterialAsset)
        ensures
            r == (MaterialAsset { push_constants: r.push_constants, ..self }),
            r.push_constants@.len() == self.push_constants@.len() + 1,
            r.push_constants@.drop_last() == self.push_constants@,
            r.push_constants@.last().block_name@ == block_name@,
            r.push_constants@.last().total_bytes == total_bytes,
            r.push_constants@.last().stage_mask == stage,
            r.push_constants@.last().offset == 0,
    {
        let mut s = self;
        let ghost before = s.push_constants@;
        s.push_constants.push(PushConstantRegistration::new(block_name, total_bytes, stage));
        assert(s.push_constants@.drop_last() == before);
        s
    }

    /// Register a fragment-stage texture sampled with `sampler`.
    pub fn with_texture_binding(self, group: &str, path: &str, sampler: SamplerPreset) -> (r: MaterialAsset)
        ensures
            r == (MaterialAsset { texture_bindings: r.texture_bindings, ..self }),
            r.texture_bindings@.len() == self.texture_bindings@.len() + 1,
            r.texture_bindings@.drop_last() == self.texture_bindings@,
            r.texture_bindings@.last().group@ == group@,
            r.texture_bindings@.last().update_rate == UpdateRate::Material,
            r.texture_bindings@.last().path@ == path@,
            r.texture_bindings@.last().sampler_path@ == path@ + "_sampler"@,
            r.texture_bindings@.last().stage_mask.bits == STAGE_FRAGMENT_BITS,
            r.texture_bindings@.last().sampler == sampler,
    {
        self.with_texture_binding_stage(group, path, sampler, StageMask::fragment())
    }

    /// Register a texture sampled with `sampler` for the given stages.
    pub fn with_texture_binding_stage(self, group: &str, path: &str, sampler: SamplerPreset, stage: StageMask) -> (r: MaterialAsset)
        ensures
            r == (MaterialAsset { texture_bindings: r.texture_bindings, ..self }),
            r.texture_bindings@.len() == self.texture_bindings@.len() + 1,
            r.texture_bindings@.drop_last() == self.texture_bindings@,
            r.texture_bindings@.last().group@ == group@,
            r.texture_bindings@.last().update_rate == UpdateRate::Material,
            r.texture_bindings@.last().path@ == path@,
            r.texture_bindings@.last().sampler_path@ == path@ + "_sampler"@,
            r.texture_bindings@.last().stage_mask == stage,
            r.texture_bindings@.last().sampler == sampler,
    {
        let mut s = self;
        let ghost before = s.texture_bindings@;
        s.texture_bindings.push(TextureBindingRegistration::new(group, path, sampler, stage));
        assert(s.texture_bindings@.drop_last() == before);
        s
    }

    /// Register a fragment-stage uniform buffer and its storage buffer.
    pub fn with_buffer_binding(self, group: &str, path: &str, storage_path: &str) -> (r: MaterialAsset)
        ensures
            r == (MaterialAsset { buffer_bindings: r.buffer_bindings, ..self }),
            r.buffer_bindings@.len() == self.buffer_bindings@.len() + 1,
            r.buffer_bindings@.drop_last() == self.buffer_bindings@,
            r.buffer_bindings@.last().group@ == group@,
            r.buffer_bindings@.last().update_rate == UpdateRate::Material,
            r.buffer_bindings@.last().path@ == path@,
            r.buffer_bindings@.last().storage_path@ == storage_path@,
            r.buffer_bindings@.last().stage_mask.bits == STAGE_FRAGMENT_BITS,
    {
        self.with_buffer_binding_stage(group, path, storage_path, StageMask::fragment())
    }

    /// Register a uniform buffer and its storage buffer for the given stages.
    pub fn with_buffer_binding_stage(self, group: &str, path: &str, storage_path: &str, stage: StageMask) -> (r: MaterialAsset)
        ensures
            r == (MaterialAsset { buffer_bindings: r.buffer_bindings, ..self }),
            r.buffer_bindings@.len() == self.buffer_bindings@.len() + 1,
            r.buffer_bindings@.drop_last() == self.buffer_bindings@,
            r.buffer_bindings@.last().group@ == group@,
            r.buffer_bindings@.last().update_rate == UpdateRate::Material,
            r.buffer_bindings@.last().path@ == path@,
            r.buffer_bindings@.last().storage_path@ == storage_path@,
            r.buffer_bindings@.last().stage_mask == stage,
    {
        let mut s = self;
        let ghost before = s.buffer_bindings@;
        s.buffer_bindings.push(BufferBindingRegistration::new(group, path, storage_path, stage));
        assert(s.buffer_bindings@.drop_last() == before);
        s
    }

    /// Register an acceleration structure for the ray-tracing stages.
    pub fn with_acceleration_structure_binding(self, group: &str, path: &str) -> (r: MaterialAsset)
        ensures
            r == (MaterialAsset { acceleration_structure_bindings: r.acceleration_structure_bindings, ..self }),
            r.acceleration_structure_bindings@.len() == self.acceleration_structure_bindings@.len() + 1,
            r.acceleration_structure_bindings@.drop_last() == self.acceleration_structure_bindings@,
            r.acceleration_structure_bindings@.last().group@ == group@,
            r.acceleration_structure_bindings@.last().update_rate == UpdateRate::Material,
            r.acceleration_structure_bindings@.last().path@ == path@,
            r.acceleration_structure_bindings@.last().stage_mask.bits == STAGE_RAY_TRACING_BITS,
    {
        self.with_acceleration_structure_binding_stage(group, path, StageMask::ray_tracing())
    }

    /// Register an acceleration structure for the given stages.
    pub fn with_acceleration_structure_binding_stage(self, group: &str, path: &str, stage: StageMask) -> (r: MaterialAsset)
        ensures
            r == (MaterialAsset { acceleration_structure_bindings: r.acceleration_structure_bindings, ..self }),
            r.acceleration_structure_bindings@.len() == self.acceleration_structure_bindings@.len() + 1,
            r.acceleration_structure_bindings@.drop_last() == self.acceleration_structure_bindings@,
            r.acceleration_structure_bindings@.last().group@ == group@,
            r.acceleration_structure_bindings@.last().update_rate == UpdateRate::Material,
            r.acceleration_structure_bindings@.last().path@ == path@,
            r.acceleration_structure_bindings@.last().stage_mask == stage,
    {
        let mut s = self;
        let ghost before = s.acceleration_structure_bindings@;
        s.acceleration_structure_bindings.push(AccelerationStructureBindingRegistration::new(group, path, stage));
        assert(s.acceleration_structure_bindings@.drop_last() == before);
        s
    }

    /// Replace the render state.
    pub fn with_render_state(self, state: RenderState) -> (r: MaterialAsset)
        ensures
            r == (MaterialAsset { render_state: state, ..self }),
    {
        let mut s = self;
        s.render_state = state;
        s
    }

    /// Replace the format capabilities.
    pub fn with_format_capabilities(self, caps: FormatCapabilities) -> (r: MaterialAsset)
        ensures
            r == (MaterialAsset { format_capabilities: caps, ..self }),
    {
        let mut s = self;
        s.format_capabilities = caps;
        s
    }

    /// Replace the format capabilities with those of an output mode.
    pub fn with_hdr_mode(self, mode: HdrMode) -> (r: MaterialAsset)
        ensures
            r == (MaterialAsset { format_capabilities: format_caps_for_hdr_mode(mode), ..self }),
    {
        let mut s = self;
        s.format_capabilities = FormatCapabilities::from_hdr_mode(mode);
        s
    }

    /// Replace the format capabilities with those of a tone-mapping operator.
    pub fn with_tone_mapping(self, op: ToneMappingOp) -> (r: MaterialAsset)
        ensures
            r == (MaterialAsset { format_capabilities: format_caps_for_tone_mapping(op), ..self }),
    {
        let mut s = self;
        s.format_capabilities = FormatCapabilities::from_tone_mapping(op);
        s
    }

    /// Register a ray-traced stage for the ray-tracing stages.
    pub fn with_raytraced_stage(self, group: &str, path: &str, stage: crate::caps::RaytracedShaderStage) -> (r: MaterialAsset)
        ensures
            r == (MaterialAsset { raytraced_stages: r.raytraced_stages, ..self }),
            r.raytraced_stages@.len() == self.raytraced_stages@.len() + 1,
            r.raytraced_stages@.drop_last() == self.raytraced_stages@,
            r.raytraced_stages@.last().group@ == group@,
            r.raytraced_stages@.last().update_rate == UpdateRate::Material,
            r.raytraced_stages@.last().path@ == path@,
            r.raytraced_stages@.last().stage == stage,
            r.raytraced_stages@.last().stage_mask.bits == STAGE_RAY_TRACING_BITS,
    {
        self.with_raytraced_stage_stage(group, path, stage, StageMask::ray_tracing())
    }

    /// Register a ray-traced stage with the given stage mask.
    pub fn with_raytraced_stage_stage(self, group: &str, path: &str, stage: crate::caps::RaytracedShaderStage, stage_mask: StageMask) -> (r: MaterialAsset)
        ensures
            r == (MaterialAsset { raytraced_stages: r.raytraced_stages, ..self }),
            r.raytraced_stages@.len() == self.raytraced_stages@.len() + 1,
            r.raytraced_stages@.drop_last() == self.raytraced_stages@,
            r.raytraced_stages@.last().group@ == group@,
            r.raytraced_stages@.last().update_rate == UpdateRate::Material,
            r.raytraced_stages@.last().path@ == path@,
            r.raytraced_stages@.last().stage == stage,
            r.raytraced_stages@.last().stage_mask == stage_mask,
    {
        let mut s = self;
        let ghost before = s.raytraced_stages@;
        s.raytraced_stages.push(RaytracedStageRegistration::new(group, path, stage, stage_mask));
        assert(s.raytraced_stages@.drop_last() == before);
        s
    }

    /// Replace the bounce configuration.
    pub fn with_path_traced_bounces(self, config: PathTracedBounceConfig) -> (r: MaterialAsset)
        ensures
            r == (MaterialAsset { path_traced_bounces: config, ..self }),
    {
        let mut s = self;
        s.path_traced_bounces = config;
        s
    }

    /// Set the path-traced bounce configuration to the default one with
    /// `count` bounces.
    pub fn with_path_traced_bounce_count(self, count: usize) -> (r: MaterialAsset)
        ensures
            r == (MaterialAsset {
                path_traced_bounces: PathTracedBounceConfig { bounce_count: count, ..default_bounce_config() },
                ..self
            }),
    {
        let mut s = self;
        s.path_traced_bounces = PathTracedBounceConfig::with_bounce_count(count);
        s
    }

    /// Set the path-traced bounce configuration to the default one with
    /// importance sampling `sampling`.
    pub fn with_path_traced_importance_sampling(self, sampling: PathTracedImportanceSampling) -> (r: MaterialAsset)
        ensures
            r == (MaterialAsset {
                path_traced_bounces: PathTracedBounceConfig { importance_sampling: sampling, ..default_bounce_config() },
                ..self
            }),
    {
        let mut s = self;
        s.path_traced_bounces = PathTracedBounceConfig::with_importance_sampling(sampling);
        s
    }

    /// Set the path-traced bounce configuration to the default one with
    /// termination strategy `strategy`.
    pub fn with_path_traced_termination(self, strategy: PathTracedTerminationStrategy) -> (r: MaterialAsset)
        ensures
            r == (MaterialAsset {
                path_traced_bounces: PathTracedBounceConfig { termination_strategy: strategy, ..default_bounce_config() },
                ..self
            }),
    {
        let mut s = self;
        s.path_traced_bounces = PathTracedBounceConfig::with_termination_strategy(strategy);
        s
    }

    /// The pipeline layout of this asset's bindings.
    pub fn create_pipeline_layout(&self) -> (r: PipelineLayoutDesc)
        ensures
            binding_views(r.bindings@) == layout_bindings_spec(
                self.texture_bindings@, self.buffer_bindings@,
                self.acceleration_structure_bindings@, self.raytraced_stages@),
            r.push_constant_bytes@ == push_constant_sizes(self.push_constants@),
    {
        build_pipeline_layout(
            &self.push_constants,
            &self.texture_bindings,
            &self.buffer_bindings,
            &self.acceleration_structure_bindings,
            &self.raytraced_stages,
        )
    }

    /// The pipeline layout of this asset's bindings.
    pub fn pipeline_layout(&self) -> (r: PipelineLayoutDesc)
        ensures
            binding_views(r.bindings@) == layout_bindings_spec(
                self.texture_bindings@, self.buffer_bindings@,
                self.acceleration_structure_bindings@, self.raytraced_stages@),
            r.push_constant_bytes@ == push_constant_sizes(self.push_constants@),
    {
        self.create_pipeline_layout()
    }

    /// Build the material: the layout of its bindings, its fragment shader
    /// (source, entry point, stage), its custom vertex shader with entry point
    /// `main` if it has one, and its bindings, states and configurations.
    pub fn build(self) -> (r: Material)
        ensures
            built_from(r, self),
            binding_views(r.layout.bindings@) == layout_bindings_spec(
                self.texture_bindings@, self.buffer_bindings@,
                self.acceleration_structure_bindings@, self.raytraced_stages@),
            r.layout.push_constant_bytes@ == push_constant_sizes(self.push_constants@),
            r.name == self.name,
            r.vertex_kind == self.vertex_kind,
            r.fragment_desc.source == self.shader_source,
            r.fragment_desc.entry_point == self.shader_entry_point,
            r.fragment_desc.stage == self.shader_stage,
            match self.vertex_source {
                Some(src) => r.vertex_desc matches Some(d)
                    && d.source == src && d.entry_point@ == "main"@ && d.stage == ShaderStage::Vertex,
                None => r.vertex_desc is None,
            },
            r.push_constants == self.push_constants,
            r.texture_bindings == self.texture_bindings,
            r.buffer_bindings == self.buffer_bindings,
            r.acceleration_structure_bindings == self.acceleration_structure_bindings,
            r.render_state == self.render_state,
            r.format_capabilities == self.format_capabilities,
            r.raytraced_stages == self.raytraced_stages,
            r.path_traced_bounces == self.path_traced_bounces,
    {
        let layout = self.create_pipeline_layout();
        let vertex_desc = match self.vertex_source {
            Some(s) => Some(ShaderDesc { source: s, entry_point: String::from_str("main"), stage: ShaderStage::Vertex }),
            None => None,
        };
        Material {
            layout,
            name: self.name,
            vertex_kind: self.vertex_kind,
            fragment_desc: ShaderDesc {
                source: self.shader_source,
                entry_point: self.shader_entry_point,
                stage: self.shader_stage,
            },
            vertex_desc,
            push_constants: self.push_constants,
            texture_bindings: self.texture_bindings,
            buffer_bindings: self.buffer_bindings,
            acceleration_structure_bindings: self.acceleration_structure_bindings,
            render_state: self.render_state,
            format_capabilities: self.format_capabilities,
            raytraced_stages: self.raytraced_stages,
            path_traced_bounces: self.path_traced_bounces,
        }
    }

    /// The mesh-program description of this asset: its fragment shader, its
    /// custom vertex shader if any, and its vertex kind.
    pub fn create_mesh_program(&self) -> (r: MeshProgramDesc)
        ensures
            r.fragment.source == self.shader_source,
            r.fragment.entry_point == self.shader_entry_point,
            r.fragment.stage == self.shader_stage,
            r.vertex == self.vertex_source,
            r.vertex_kind == self.vertex_kind,
    {
        MeshProgramDesc {
            fragment: ShaderDesc {
                source: self.shader_source.duplicate(),
                entry_point: self.shader_entry_point.clone(),
                stage: self.shader_stage,
            },
            vertex: duplicate_option(&self.vertex_source),
            vertex_kind: self.vertex_kind,
        }
    }

    /// The path a compute program of this asset is loaded from: the shader
    /// file, or the empty path for inline source.
    pub fn create_compute_program(&self) -> (r: String)
        ensures
            match self.shader_source {
                ShaderSource::File(p) => r == p,
                ShaderSource::Inline(_) => r@ == Seq::<char>::empty(),
            },
    {
        match self.shader_source.file_path() {
            Some(p) => p,
            None => String::new(),
        }
    }

    /// The stages a ray-traced program of this asset is built from.
    pub fn create_raytraced_program(&self) -> (r: Vec<RaytracedStageRegistration>)
        ensures
            r@ == self.raytraced_stages@,
    {
        duplicate_vec(&self.raytraced_stages)
    }

    /// The bounce configuration a path-traced program of this asset is built with.
    pub fn create_path_traced_program(&self) -> (r: PathTracedBounceConfig)
        ensures
            r == self.path_traced_bounces,
    {
        self.path_traced_bounces
    }

    /// The render-target format.
    pub fn render_format(&self) -> (r: Format)
        ensures
            r == self.format_capabilities.render_format,
    {
        self.format_capabilities.render_format
    }

    /// The output mode.
    pub fn hdr_mode(&self) -> (r: HdrMode)
        ensures
            r == self.format_capabilities.hdr_mode,
    {
        self.format_capabilities.hdr_mode
    }

    /// The tone-mapping operator.
    pub fn tone_mapping(&self) -> (r: ToneMappingOp)
        ensures
            r == self.format_capabilities.tone_mapping,
    {
        self.format_capabilities.tone_mapping
    }

    /// The ray-tracing capabilities its stages need.
    pub fn raytracing_caps(&self) -> (r: RaytracingCapabilities)
        ensures
            r == caps_for_stages(self.raytraced_stages@),
    {
        RaytracingCapabilities::from_raytraced_stages(&self.raytraced_stages)
    }

    /// The path-tracing capabilities its bounce configuration needs.
    pub fn path_tracing_caps(&self) -> (r: PathTracingCapabilities)
        ensures
            r == path_caps_for_config(self.path_traced_bounces),
    {
        PathTracingCapabilities::from_path_traced_bounces(&self.path_traced_bounces)
    }

    /// Total size of the push-constant blocks; the sum must fit in a `u32`.
    pub fn total_push_constants_bytes(&self) -> (r: u32)
        requires
            push_constant_total(self.push_constants@) <= u32::MAX,
        ensures
            r == push_constant_total(self.push_constants@),
    {
        let mut total: u32 = 0;
        let mut i: usize = 0;
        while i < self.push_constants.len()
            invariant
                i <= self.push_constants.len(),
                push_constant_total(self.push_constants@) <= u32::MAX,
                total == push_constant_total(self.push_constants@.take(i as int)),
            decreases self.push_constants.len() - i,
        {
            proof {
                lemma_push_constant_total_prefix(self.push_constants@, i as int + 1);
                assert(self.push_constants@.take(i as int + 1).drop_last() == self.push_constants@.take(i as int));
            }
            total = total + self.push_constants[i].total_bytes;
            i = i + 1;
        }
        assert(self.push_constants@.take(self.push_constants.len() as int) == self.push_constants@);
        total
    }

    /// Union of the push-constant stage masks (empty without blocks).
    pub fn push_constants_stage_mask(&self) -> (r: StageMask)
        ensures
            r.bits == push_constant_mask(self.push_constants@),
    {
        let mut bits: u32 = 0;
        let mut i: usize = 0;
        while i < self.push_constants.len()
            invariant
                i <= self.push_constants.len(),
                bits == push_constant_mask(self.push_constants@.take(i as int)),
            decreases self.push_constants.len() - i,
        {
            assert(self.push_constants@.take(i as int + 1).drop_last() == self.push_constants@.take(i as int));
            bits = bits | self.push_constants[i].stage_mask.bits;
            i = i + 1;
        }
        assert(self.push_constants@.take(self.push_constants.len() as int) == self.push_constants@);
        StageMask { bits }
    }

    /// Number of texture bindings.
    pub fn texture_binding_count(&self) -> (r: usize)
        ensures
            r == self.texture_bindings@.len(),
    {
        self.texture_bindings.len()
    }

    /// Number of buffer bindings.
    pub fn buffer_binding_count(&self) -> (r: usize)
        ensures
            r == self.buffer_bindings@.len(),
    {
        self.buffer_bindings.len()
    }

    /// Number of acceleration-structure bindings.
    pub fn acceleration_structure_binding_count(&self) -> (r: usize)
        ensures
            r == self.acceleration_structure_bindings@.len(),
    {
        self.acceleration_structure_bindings.len()
    }

    /// Number of ray-traced stages.
    pub fn raytraced_stage_count(&self) -> (r: usize)
        ensures
            r == self.raytraced_stages@.len(),
    {
        self.raytraced_stages.len()
    }

    /// Number of path-traced bounces.
    pub fn path_traced_bounce_count(&self) -> (r: usize)
        ensures
            r == self.path_traced_bounces.bounce_count,
    {
        self.path_traced_bounces.bounce_count
    }

    /// The render state.
    pub fn render_state(&self) -> (r: &RenderState)
        ensures
            *r == self.render_state,
    {
        &self.render_state
    }

    /// The format capabilities.
    pub fn format_capabilities(&self) -> (r: &FormatCapabilities)
        ensures
            *r == self.format_capabilities,
    {
        &self.format_capabilities
    }

    /// The ray-traced stages.
    pub fn raytraced_stages(&self) -> (r: &[RaytracedStageRegistration])
        ensures
            r@ == self.raytraced_stages@,
    {
        self.raytraced_stages.as_slice()
    }

    /// The bounce configuration.
    pub fn path_traced_bounces(&self) -> (r: &PathTracedBounceConfig)
        ensures
            *r == self.path_traced_bounces,
    {
        &self.path_traced_bounces
    }

    /// The fragment shader source.
    pub fn shader_source(&self) -> (r: &ShaderSource)
        ensures
            *r == self.shader_source,
    {
        &self.shader_source
    }

    /// The fragment shader entry point.
    pub fn shader_entry_point(&self) -> (r: &str)
        ensures
            r@ == self.shader_entry_point@,
    {
        self.shader_entry_point.as_str()
    }

    /// The fragment shader stage.
    pub fn shader_stage(&self) -> (r: ShaderStage)
        ensures
            r == self.shader_stage,
    {
        self.shader_stage
    }

    /// The shader target.
    pub fn shader_target(&self) -> (r: ShaderTarget)
        ensures
            r == self.shader_target,
    {
        self.shader_target
    }

    /// The vertex kind.
    pub fn vertex_kind(&self) -> (r: MeshVertexKind)
        ensures
            r == self.vertex_kind,
    {
        self.vertex_kind
    }

    /// The custom vertex shader source, if any.
    pub fn vertex_source(&self) -> (r: Option<&ShaderSource>)
        ensures
            match self.vertex_source {
                Some(s) => r matches Some(x) && *x == s,
                None => r is None,
            },
    {
        match &self.vertex_source {
            Some(s) => Some(s),
            None => None,
        }
    }

    /// The name.
    pub fn name(&self) -> (r: &str)
        ensures
            r@ == self.name@,
    {
        self.name.as_str()
    }

    /// The asset path.
    pub fn asset_path(&self) -> (r: &String)
        ensures
            *r == self.asset_path,
    {
        &self.asset_path
    }

    /// The asset metadata.
    pub fn asset_metadata(&self) -> (r: &MaterialAssetMetadata)
        ensures
            *r == self.asset_metadata,
    {
        &self.asset_metadata
    }

    /// The validation status.
    pub fn validation_status(&self) -> (r: MaterialAssetValidationStatus)
        ensures
            r == self.validation_status,
    {
        self.validation_status
    }
}

/// The push-constant total of a prefix one block longer adds that block.
pub proof fn lemma_push_constant_total_prefix(s: Seq<PushConstantRegistration>, n: int)
    requires
        0 < n <= s.len(),
    ensures
        push_constant_total(s.take(n)) == push_constant_total(s.take(n - 1)) + s[n - 1].total_bytes,
        push_constant_total(s.take(n)) <= push_constant_total(s),
    decreases s.len() - n,
{
    assert(s.take(n).drop_last() == s.take(n - 1));
    if n < s.len() {
        lemma_push_constant_total_prefix(s, n + 1);
    } else {
        assert(s.take(n) == s);
    }
}

/// Two assets hold the same fields, their lists taken by content.
pub open spec fn same_asset(a: MaterialAsset, b: MaterialAsset) -> bool {
    &&& a.name == b.name
    &&& a.shader_source == b.shader_source
    &&& a.shader_entry_point == b.shader_entry_point
    &&& a.shader_stage == b.shader_stage
    &&& a.shader_target == b.shader_target
    &&& a.vertex_kind == b.vertex_kind
    &&& a.vertex_source == b.vertex_source
    &&& a.push_constants@ == b.push_constants@
    &&& a.texture_bindings@ == b.texture_bindings@
    &&& a.buffer_bindings@ == b.buffer_bindings@
    &&& a.acceleration_structure_bindings@ == b.acceleration_structure_bindings@
    &&& a.render_state == b.render_state
    &&& a.format_capabilities == b.format_capabilities
    &&& a.raytraced_stages@ == b.raytraced_stages@
    &&& a.path_traced_bounces == b.path_traced_bounces
    &&& a.asset_path == b.asset_path
    &&& same_metadata(a.asset_metadata, b.asset_metadata)
    &&& a.validation_status == b.validation_status
}

impl Default for MaterialAsset {
    /// The fallback asset: `default_material`, drawn by the pass-through
    /// fragment shader file over 2D vertices.
    fn default() -> (r: MaterialAsset)
        ensures
            r.name@ == "default_material"@,
            r.shader_source matches ShaderSource::File(p) && p@ == "passthrough_fragment.slang"@,
            r.asset_path@ == "passthrough_fragment.slang"@,
            is_fresh_asset(r),
    {
        MaterialAsset::new("default_material", "passthrough_fragment.slang").with_vertex_kind(MeshVertexKind::V2d)
    }
}

impl MaterialAsset {
    /// A field-by-field copy.
    pub fn duplicate(&self) -> (r: MaterialAsset)
        ensures
            same_asset(r, *self),
    {
        MaterialAsset {
            name: self.name.clone(),
            shader_source: self.shader_source.duplicate(),
            shader_entry_point: self.shader_entry_point.clone(),
            shader_stage: self.shader_stage,
            shader_target: self.shader_target,
            vertex_kind: self.vertex_kind,
            vertex_source: duplicate_option(&self.vertex_source),
            push_constants: duplicate_vec(&self.push_constants),
            texture_bindings: duplicate_vec(&self.texture_bindings),
            buffer_bindings: duplicate_vec(&self.buffer_bindings),
            acceleration_structure_bindings: duplicate_vec(&self.acceleration_structure_bindings),
            render_state: self.render_state,
            format_capabilities: self.format_capabilities,
            raytraced_stages: duplicate_vec(&self.raytraced_stages),
            path_traced_bounces: self.path_traced_bounces,
            asset_path: self.asset_path.clone(),
            asset_metadata: self.asset_metadata.duplicate(),
            validation_status: self.validation_status,
        }
    }
}

// ── Material and program descriptions ───────────────────────────────────────

/// `m` is the material built from `a`: the layout of `a`'s bindings and
/// push constants, `a`'s name, vertex kind and fragment shader, a vertex
/// shader with entry point `main` exactly when `a` has a vertex source, and
/// `a`'s registrations, states and configurations.
pub open spec fn built_from(m: Material, a: MaterialAsset) -> bool {
    &&& binding_views(m.layout.bindings@) == layout_bindings_spec(
            a.texture_bindings@, a.buffer_bindings@, a.acceleration_structure_bindings@, a.raytraced_stages@)
    &&& m.layout.push_constant_bytes@ == push_constant_sizes(a.push_constants@)
    &&& m.name@ == a.name@
    &&& m.vertex_kind == a.vertex_kind
    &&& m.fragment_desc.source == a.shader_source
    &&& m.fragment_desc.entry_point@ == a.shader_entry_point@
    &&& m.fragment_desc.stage == a.shader_stage
    &&& match a.vertex_source {
        Some(src) => m.vertex_desc matches Some(d)
            && d.source == src && d.entry_point@ == "main"@ && d.stage == ShaderStage::Vertex,
        None => m.vertex_desc is None,
    }
    &&& m.push_constants@ == a.push_constants@
    &&& m.texture_bindings@ == a.texture_bindings@
    &&& m.buffer_bindings@ == a.buffer_bindings@
    &&& m.acceleration_structure_bindings@ == a.acceleration_structure_bindings@
    &&& m.render_state == a.render_state
    &&& m.format_capabilities == a.format_capabilities
    &&& m.raytraced_stages@ == a.raytraced_stages@
    &&& m.path_traced_bounces == a.path_traced_bounces
}

/// A material ready to draw with: its pipeline layout, shaders, bindings,
/// states and configurations.
#[derive(Clone, Debug)]
pub struct Material {
    pub layout: PipelineLayoutDesc,
    pub name: String,
    pub vertex_kind: MeshVertexKind,
    pub fragment_desc: ShaderDesc,
    pub vertex_desc: Option<ShaderDesc>,
    pub push_constants: Vec<PushConstantRegistration>,
    pub texture_bindings: Vec<TextureBindingRegistration>,
    pub buffer_bindings: Vec<BufferBindingRegistration>,
    pub acceleration_structure_bindings: Vec<AccelerationStructureBindingRegistration>,
    pub render_state: RenderState,
    pub format_capabilities: FormatCapabilities,
    pub raytraced_stages: Vec<RaytracedStageRegistration>,
    pub path_traced_bounces: PathTracedBounceConfig,
}

impl Named for Material {
    open spec fn name_view(&self) -> Seq<char> {
        self.name@
    }

    fn name_string(&self) -> (r: &String) {
        &self.name
    }
}

/// A mesh program: fragment shader, optional custom vertex shader, vertex kind.
#[derive(Clone, Debug)]
pub struct MeshProgramDesc {
    pub fragment: ShaderDesc,
    pub vertex: Option<ShaderSource>,
    pub vertex_kind: MeshVertexKind,
}

} // verus!
