//! Render state, material classification, binding registrations, format and
//! path-tracing configuration, and the pipeline-layout description a material
//! is built with.
use vstd::prelude::*;

use crate::types::{CompareOp, CullMode, Format, FrontFace, PolygonMode, PrimitiveTopology, RasterState};

verus! {

// ── Render state ─────────────────────────────────────────────────────────────

/// Fixed-function state a material is drawn with.
#[derive(Clone, Copy, Debug, PartialEq, Eq, Structural)]
pub struct RenderState {
    pub cull_mode: CullMode,
    pub front_face: FrontFace,
    pub depth_write: bool,
    pub depth_compare: Option<CompareOp>,
    pub topology: PrimitiveTopology,
    pub raster: RasterState,
}

/// The default render state: back-face culling, counter-clockwise front faces,
/// depth writes on with a `Less` test, triangle lists.
pub open spec fn default_render_state() -> RenderState {
    RenderState {
        cull_mode: CullMode::Back,
        front_face: FrontFace::CounterClockwise,
        depth_write: true,
        depth_compare: Some(CompareOp::Less),
        topology: PrimitiveTopology::TriangleList,
        raster: RasterState {
            polygon_mode: PolygonMode::Fill,
            depth_clamp: false,
            rasterizer_discard: false,
            cull_mode: CullMode::Back,
            front_face: FrontFace::CounterClockwise,
        },
    }
}

impl Default for RenderState {
    fn default() -> (r: RenderState)
        ensures
            r == default_render_state(),
    {
        RenderState::default_state()
    }
}

impl RenderState {
    /// The default render state.
    pub fn default_state() -> (r: RenderState)
        ensures
            r == default_render_state(),
    {
        RenderState {
            cull_mode: CullMode::Back,
            front_face: FrontFace::CounterClockwise,
            depth_write: true,
            depth_compare: Some(CompareOp::Less),
            topology: PrimitiveTopology::TriangleList,
            raster: RasterState::default_state(),
        }
    }

    /// Replace the cull mode.
    pub fn with_cull_mode(self, cull: CullMode) -> (r: RenderState)
        ensures
            r == (RenderState { cull_mode: cull, ..self }),
    {
        let mut s = self;
        s.cull_mode = cull;
        s
    }

    /// Replace the front-face winding.
    pub fn with_front_face(self, face: FrontFace) -> (r: RenderState)
        ensures
            r == (RenderState { front_face: face, ..self }),
    {
        let mut s = self;
        s.front_face = face;
        s
    }

    /// Turn depth writes on or off.
    pub fn with_depth_write(self, write: bool) -> (r: RenderState)
        ensures
            r == (RenderState { depth_write: write, ..self }),
    {
        let mut s = self;
        s.depth_write = write;
        s
    }

    /// Enable the depth test with the given comparison.
    pub fn with_depth_compare(self, compare: CompareOp) -> (r: RenderState)
        ensures
            r == (RenderState { depth_compare: Some(compare), ..self }),
    {
        let mut s = self;
        s.depth_compare = Some(compare);
        s
    }

    /// Replace the primitive topology.
    pub fn with_topology(self, topology: PrimitiveTopology) -> (r: RenderState)
        ensures
            r == (RenderState { topology: topology, ..self }),
    {
        let mut s = self;
        s.topology = topology;
        s
    }
}

// ── Material domain and shading model ───────────────────────────────────────

/// How a material's surface takes part in blending.
#[derive(Clone, Copy, Debug, PartialEq, Eq, Structural)]
pub enum MaterialDomain {
    Opaque,
    Masked,
    Translucent,
    Decal,
}

/// The lighting model a material is shaded with.
#[derive(Clone, Copy, Debug, PartialEq, Eq, Structural)]
pub enum ShadingModel {
    Unlit,
    Lambert,
    PbrMetallicRoughness,
    PbrClearcoat,
    PbrSubsurface,
    PbrTransmission,
}

impl MaterialDomain {
    /// The default domain (`Opaque`).
    pub fn default_domain() -> (r: MaterialDomain)
        ensures
            r == MaterialDomain::Opaque,
    {
        MaterialDomain::Opaque
    }
}

impl ShadingModel {
    /// The default shading model (`PbrMetallicRoughness`).
    pub fn default_model() -> (r: ShadingModel)
        ensures
            r == ShadingModel::PbrMetallicRoughness,
    {
        ShadingModel::PbrMetallicRoughness
    }
}

// ── Texture sampling code generation ────────────────────────────────────────

/// The Slang swizzle that narrows a `float4` sample to the given type name.
pub open spec fn swizzle_suffix(ty: Seq<char>) -> Seq<char> {
    if ty == "float"@ {
        ".r"@
    } else if ty == "float2"@ {
        ".rg"@
    } else if ty == "float3"@ {
        ".rgb"@
    } else {
        Seq::empty()
    }
}

/// `(<name>.Sample(material_sampler, <uv>)<swizzle>)`.
pub open spec fn texture_sample_spec(name: Seq<char>, uv: Seq<char>, ty: Seq<char>) -> Seq<char> {
    "("@ + name + ".Sample(material_sampler, "@ + uv + ")"@ + swizzle_suffix(ty) + ")"@
}

fn str_equals(a: &str, b: &str) -> (r: bool)
    ensures
        r == (a@ == b@),
{
    let sa = a.to_owned();
    let sb = b.to_owned();
    sa == sb
}

/// Slang expression that samples texture `name` at `uv_expr` through the
/// shared `material_sampler` and swizzles the `float4` result down to the
/// scalar or vector type named by `ty` (`float`, `float2`, `float3`; any other
/// name keeps all four channels).
pub fn texture_sample_expr(name: &str, uv_expr: &str, ty: &str) -> (r: String)
    ensures
        r@ == texture_sample_spec(name@, uv_expr@, ty@),
{
    let mut s = String::from_str("(");
    s.append(name);
    s.append(".Sample(material_sampler, ");
    s.append(uv_expr);
    s.append(")");
    if str_equals(ty, "float") {
        s.append(".r");
    } else if str_equals(ty, "float2") {
        s.append(".rg");
    } else if str_equals(ty, "float3") {
        s.append(".rgb");
    }
    s.append(")");
    s
}

// ── G-buffer layout ──────────────────────────────────────────────────────────
//
// G0  RGBA8Unorm   base_color.rgb (linear) | metallic
// G1  RGBA16Float  world-normal.xy (oct-encoded) | roughness | 0
// G2  RGBA16Float  emissive.rgb (linear HDR, unclamped) | 0
// G3  RGBA16Float  world_pos.xyz | 0
// D   Depth32Float hardware depth

/// Attachment slot of the base colour and metallic target.
pub const GBUFFER_SLOT_BASE_COLOR_METALLIC: u32 = 0;
/// Attachment slot of the normal, roughness and occlusion target.
pub const GBUFFER_SLOT_NORMAL_ROUGHNESS_OCCLUSION: u32 = 1;
/// Attachment slot of the emissive and shading target.
pub const GBUFFER_SLOT_EMISSIVE_SHADING: u32 = 2;
/// Attachment slot of the depth target.
pub const GBUFFER_SLOT_DEPTH: u32 = 3;

/// Format of the base colour and metallic target.
pub const GBUFFER_FORMAT_BASE_COLOR_METALLIC: Format = Format::Rgba8Unorm;
/// Format of the normal, roughness and occlusion target.
pub const GBUFFER_FORMAT_NORMAL_ROUGHNESS_OCCLUSION: Format = Format::Rgba16Float;
/// Format of the emissive and shading target.
pub const GBUFFER_FORMAT_EMISSIVE_SHADING: Format = Format::Rgba16Float;
/// Format of the depth target.
pub const GBUFFER_FORMAT_DEPTH: Format = Format::Depth32Float;

/// Number of colour attachments of the G-buffer.
pub const GBUFFER_COLOR_ATTACHMENT_COUNT: u32 = 3;

} // verus!
