//! Ready-made materials: unlit, PBR, transparent, emissive, the ray-traced,
//! path-traced and hybrid PBR variants, sprites and plain meshes.
use vstd::prelude::*;

use crate::binding::{
    TextureBindingRegistration, RaytracedStageRegistration, binding_views, layout_bindings_spec,
    push_constant_sizes,
};
use crate::caps::{
    PathTracedBounceConfig, PathTracingCapabilities, RaytracedShaderStage, RaytracingCapabilities,
    default_bounce_config, default_format_caps,
};
use crate::material::{RenderState, default_render_state};
use crate::material_asset::{Material, MaterialAsset};
use crate::types::{
    CullMode, HdrMode, MeshVertexKind, SamplerPreset, ShaderSource, UpdateRate,
    STAGE_FRAGMENT_BITS, STAGE_RAY_TRACING_BITS,
};

verus! {

/// A built-in material configuration.
#[derive(Clone, Copy, Debug, PartialEq, Eq, Structural)]
pub enum MaterialPreset {
    Unlit,
    Pbr,
    Transparent,
    Emissive,
    RaytracedPbr,
    PathTracedPbr,
    HybridPbr,
    Sprite,
    Mesh,
}

/// The short name of a preset.
pub open spec fn preset_name(p: MaterialPreset) -> Seq<char> {
    match p {
        MaterialPreset::Unlit => "unlit"@,
        MaterialPreset::Pbr => "pbr"@,
        MaterialPreset::Transparent => "transparent"@,
        MaterialPreset::Emissive => "emissive"@,
        MaterialPreset::RaytracedPbr => "raytraced_pbr"@,
        MaterialPreset::PathTracedPbr => "path_traced_pbr"@,
        MaterialPreset::HybridPbr => "hybrid_pbr"@,
        MaterialPreset::Sprite => "sprite"@,
        MaterialPreset::Mesh => "mesh"@,
    }
}

/// The name of the material a preset builds.
pub open spec fn preset_material_name(p: MaterialPreset) -> Seq<char> {
    match p {
        MaterialPreset::Unlit => "unlit_material"@,
        MaterialPreset::Pbr => "pbr_material"@,
        MaterialPreset::Transparent => "transparent_material"@,
        MaterialPreset::Emissive => "emissive_material"@,
        MaterialPreset::RaytracedPbr => "raytraced_pbr_material"@,
        MaterialPreset::PathTracedPbr => "path_traced_pbr_material"@,
        MaterialPreset::HybridPbr => "hybrid_pbr_material"@,
        MaterialPreset::Sprite => "sprite_material"@,
        MaterialPreset::Mesh => "mesh_material"@,
    }
}

/// The fragment shader text a preset names.
pub open spec fn preset_fragment(p: MaterialPreset) -> Seq<char> {
    match p {
        MaterialPreset::Unlit => "passthrough_fragment.slang"@,
        MaterialPreset::Pbr => "pbr_fragment.slang"@,
        MaterialPreset::Transparent => "transparent_fragment.slang"@,
        MaterialPreset::Emissive => "emissive_fragment.slang"@,
        MaterialPreset::RaytracedPbr => "raytraced_pbr_fragment.slang"@,
        MaterialPreset::PathTracedPbr => "path_traced_pbr_fragment.slang"@,
        MaterialPreset::HybridPbr => "hybrid_pbr_fragment.slang"@,
        MaterialPreset::Sprite => "sprite_fragment.slang"@,
        MaterialPreset::Mesh => "mesh_fragment.slang"@,
    }
}

/// Whether a preset's fragment shader is given inline (the unlit, sprite and
/// mesh presets) rather than as a file.
pub open spec fn preset_fragment_inline(p: MaterialPreset) -> bool {
    p == MaterialPreset::Unlit || p == MaterialPreset::Sprite || p == MaterialPreset::Mesh
}

/// Whether a preset draws 2D vertices (unlit and sprite) rather than 3D ones.
pub open spec fn preset_vertex_kind(p: MaterialPreset) -> MeshVertexKind {
    if p == MaterialPreset::Unlit || p == MaterialPreset::Sprite {
        MeshVertexKind::V2d
    } else {
        MeshVertexKind::V3d
    }
}

/// The output mode of a preset: SDR for unlit, sprite and mesh, scRGB otherwise.
pub open spec fn preset_hdr_mode(p: MaterialPreset) -> HdrMode {
    if p == MaterialPreset::Unlit || p == MaterialPreset::Sprite || p == MaterialPreset::Mesh {
        HdrMode::Sdr
    } else {
        HdrMode::ScRgb
    }
}

/// Whether a preset traces rays (the ray-traced, path-traced and hybrid PBR presets).
pub open spec fn preset_is_traced(p: MaterialPreset) -> bool {
    p == MaterialPreset::RaytracedPbr || p == MaterialPreset::PathTracedPbr || p == MaterialPreset::HybridPbr
}

/// Whether a preset registers the frame-constants push-constant block.
pub open spec fn preset_uses_frame_constants(p: MaterialPreset) -> bool {
    !preset_fragment_inline(p)
}

/// The textures a preset samples, in registration order.
pub open spec fn preset_textures(p: MaterialPreset) -> Seq<Seq<char>> {
    match p {
        MaterialPreset::Transparent => seq!["base_color"@, "alpha"@],
        MaterialPreset::Emissive => seq!["base_color"@, "emission"@],
        MaterialPreset::Pbr | MaterialPreset::RaytracedPbr | MaterialPreset::PathTracedPbr
        | MaterialPreset::HybridPbr => seq!["base_color"@, "normal_map"@, "roughness"@, "metallic"@],
        _ => seq!["base_color"@],
    }
}

/// The sampler a preset's textures use: linear for unlit, pixel art for
/// sprites, trilinear otherwise.
pub open spec fn preset_sampler(p: MaterialPreset) -> SamplerPreset {
    match p {
        MaterialPreset::Unlit => SamplerPreset::Linear,
        MaterialPreset::Sprite => SamplerPreset::PixelArt,
        _ => SamplerPreset::Trilinear,
    }
}

/// The render state of a preset: the transparent preset neither writes depth
/// nor culls; every other preset uses the default state.
pub open spec fn preset_render_state(p: MaterialPreset) -> RenderState {
    if p == MaterialPreset::Transparent {
        RenderState { depth_write: false, cull_mode: CullMode::Disabled, ..default_render_state() }
    } else {
        default_render_state()
    }
}

/// The bounce configuration of a preset: eight bounces for the path-traced
/// preset, the default otherwise.
pub open spec fn preset_bounces(p: MaterialPreset) -> PathTracedBounceConfig {
    if p == MaterialPreset::PathTracedPbr {
        PathTracedBounceConfig { bounce_count: 8, ..default_bounce_config() }
    } else {
        default_bounce_config()
    }
}

/// The ray-traced stages of a traced preset, in registration order.
pub open spec fn traced_stage_list() -> Seq<(Seq<char>, RaytracedShaderStage)> {
    seq![
        ("closest_hit"@, RaytracedShaderStage::ClosestHit),
        ("miss"@, RaytracedShaderStage::Miss),
        ("ray_generation"@, RaytracedShaderStage::RayGeneration),
    ]
}

/// `s` holds material-group, fragment-stage textures at `paths` sampled with `smp`.
pub open spec fn textures_match(s: Seq<TextureBindingRegistration>, paths: Seq<Seq<char>>, smp: SamplerPreset) -> bool {
    &&& s.len() == paths.len()
    &&& forall|i: int| 0 <= i < s.len() ==> {
        &&& #[trigger] s[i].group@ == "material"@
        &&& s[i].path@ == paths[i]
        &&& s[i].sampler_path@ == paths[i] + "_sampler"@
        &&& s[i].sampler == smp
        &&& s[i].stage_mask.bits == STAGE_FRAGMENT_BITS
        &&& s[i].update_rate == UpdateRate::Material
    }
}

/// `s` holds material-group ray-tracing stages named and typed as in `list`.
pub open spec fn stages_match(s: Seq<RaytracedStageRegistration>, list: Seq<(Seq<char>, RaytracedShaderStage)>) -> bool {
    &&& s.len() == list.len()
    &&& forall|i: int| 0 <= i < s.len() ==> {
        &&& #[trigger] s[i].group@ == "material"@
        &&& s[i].path@ == list[i].0
        &&& s[i].stage == list[i].1
        &&& s[i].stage_mask.bits == STAGE_RAY_TRACING_BITS
        &&& s[i].update_rate == UpdateRate::Material
    }
}

/// The material a preset builds, described field by field.
pub open spec fn is_preset_material(p: MaterialPreset, m: Material, fc_name: Seq<char>, fc_bytes: u32) -> bool {
    &&& m.name@ == preset_material_name(p)
    &&& m.vertex_kind == preset_vertex_kind(p)
    &&& (if preset_fragment_inline(p) {
            m.fragment_desc.source matches ShaderSource::Inline(t) && t@ == preset_fragment(p)
        } else {
            m.fragment_desc.source matches ShaderSource::File(f) && f@ == preset_fragment(p)
        })
    &&& m.fragment_desc.entry_point@ == "main"@
    &&& m.vertex_desc is None
    &&& (if preset_uses_frame_constants(p) {
            &&& m.push_constants@.len() == 1
            &&& m.push_constants@[0].block_name@ == fc_name
            &&& m.push_constants@[0].total_bytes == fc_bytes
            &&& m.push_constants@[0].stage_mask.bits == STAGE_FRAGMENT_BITS
        } else {
            m.push_constants@.len() == 0
        })
    &&& textures_match(m.texture_bindings@, preset_textures(p), preset_sampler(p))
    &&& m.buffer_bindings@.len() == 0
    &&& (if preset_is_traced(p) {
            &&& m.acceleration_structure_bindings@.len() == 1
            &&& m.acceleration_structure_bindings@[0].group@ == "material"@
            &&& m.acceleration_structure_bindings@[0].path@ == "acceleration_structure"@
            &&& m.acceleration_structure_bindings@[0].stage_mask.bits == STAGE_RAY_TRACING_BITS
            &&& stages_match(m.raytraced_stages@, traced_stage_list())
        } else {
            &&& m.acceleration_structure_bindings@.len() == 0
            &&& m.raytraced_stages@.len() == 0
        })
    &&& m.render_state == preset_render_state(p)
    &&& m.path_traced_bounces == preset_bounces(p)
    &&& m.format_capabilities == default_format_caps()
    &&& binding_views(m.layout.bindings@) == layout_bindings_spec(
            m.texture_bindings@, m.buffer_bindings@, m.acceleration_structure_bindings@, m.raytraced_stages@)
    &&& m.layout.push_constant_bytes@ == push_constant_sizes(m.push_constants@)
}

/// The asset a preset stands for, described field by field.
pub open spec fn is_preset_asset(p: MaterialPreset, m: MaterialAsset, fc_name: Seq<char>, fc_bytes: u32) -> bool {
    &&& m.name@ == preset_material_name(p)
    &&& m.vertex_kind == preset_vertex_kind(p)
    &&& (if preset_fragment_inline(p) {
            m.shader_source matches ShaderSource::Inline(t) && t@ == preset_fragment(p)
        } else {
            m.shader_source matches ShaderSource::File(f) && f@ == preset_fragment(p)
        })
    &&& m.shader_entry_point@ == "main"@
    &&& m.vertex_source is None
    &&& (if preset_uses_frame_constants(p) {
            &&& m.push_constants@.len() == 1
            &&& m.push_constants@[0].block_name@ == fc_name
            &&& m.push_constants@[0].total_bytes == fc_bytes
            &&& m.push_constants@[0].stage_mask.bits == STAGE_FRAGMENT_BITS
        } else {
            m.push_constants@.len() == 0
        })
    &&& textures_match(m.texture_bindings@, preset_textures(p), preset_sampler(p))
    &&& m.buffer_bindings@.len() == 0
    &&& (if preset_is_traced(p) {
            &&& m.acceleration_structure_bindings@.len() == 1
            &&& m.acceleration_structure_bindings@[0].group@ == "material"@
            &&& m.acceleration_structure_bindings@[0].path@ == "acceleration_structure"@
            &&& m.acceleration_structure_bindings@[0].stage_mask.bits == STAGE_RAY_TRACING_BITS
            &&& stages_match(m.raytraced_stages@, traced_stage_list())
        } else {
            &&& m.acceleration_structure_bindings@.len() == 0
            &&& m.raytraced_stages@.len() == 0
        })
    &&& m.render_state == preset_render_state(p)
    &&& m.path_traced_bounces == preset_bounces(p)
    &&& m.format_capabilities == default_format_caps()
}

fn add_texture(a: MaterialAsset, path: &str, smp: SamplerPreset, Ghost(paths): Ghost<Seq<Seq<char>>>) -> (r: MaterialAsset)
    requires
        textures_match(a.texture_bindings@, paths, smp),
    ensures
        r == (MaterialAsset { texture_bindings: r.texture_bindings, ..a }),
        textures_match(r.texture_bindings@, paths.push(path@), smp),
{
    let r = a.with_texture_binding("material", path, smp);
    assert forall|i: int| 0 <= i < r.texture_bindings@.len() implies {
        &&& #[trigger] r.texture_bindings@[i].group@ == "material"@
        &&& r.texture_bindings@[i].path@ == paths.push(path@)[i]
        &&& r.texture_bindings@[i].sampler_path@ == paths.push(path@)[i] + "_sampler"@
        &&& r.texture_bindings@[i].sampler == smp
        &&& r.texture_bindings@[i].stage_mask.bits == STAGE_FRAGMENT_BITS
        &&& r.texture_bindings@[i].update_rate == UpdateRate::Material
    } by {
        if i < paths.len() {
            assert(r.texture_bindings@[i] == r.texture_bindings@.drop_last()[i]);
            assert(a.texture_bindings@[i].group@ == "material"@);
        } else {
            assert(r.texture_bindings@[i] == r.texture_bindings@.last());
        }
    }
    r
}

fn add_stage(a: MaterialAsset, path: &str, stage: RaytracedShaderStage, Ghost(list): Ghost<Seq<(Seq<char>, RaytracedShaderStage)>>) -> (r: MaterialAsset)
    requires
        stages_match(a.raytraced_stages@, list),
    ensures
        r == (MaterialAsset { raytraced_stages: r.raytraced_stages, ..a }),
        stages_match(r.raytraced_stages@, list.push((path@, stage))),
{
    let r = a.with_raytraced_stage("material", path, stage);
    assert forall|i: int| 0 <= i < r.raytraced_stages@.len() implies {
        &&& #[trigger] r.raytraced_stages@[i].group@ == "material"@
        &&& r.raytraced_stages@[i].path@ == list.push((path@, stage))[i].0
        &&& r.raytraced_stages@[i].stage == list.push((path@, stage))[i].1
        &&& r.raytraced_stages@[i].stage_mask.bits == STAGE_RAY_TRACING_BITS
        &&& r.raytraced_stages@[i].update_rate == UpdateRate::Material
    } by {
        if i < list.len() {
            assert(r.raytraced_stages@[i] == r.raytraced_stages@.drop_last()[i]);
            assert(a.raytraced_stages@[i].group@ == "material"@);
        } else {
            assert(r.raytraced_stages@[i] == r.raytraced_stages@.last());
        }
    }
    r
}

fn add_pbr_textures(a: MaterialAsset) -> (r: MaterialAsset)
    requires
        a.texture_bindings@.len() == 0,
    ensures
        r == (MaterialAsset { texture_bindings: r.texture_bindings, ..a }),
        textures_match(r.texture_bindings@, seq!["base_color"@, "normal_map"@, "roughness"@, "metallic"@], SamplerPreset::Trilinear),
{
    let smp = SamplerPreset::Trilinear;
    let a = add_texture(a, "base_color", smp, Ghost(Seq::empty()));
    let a = add_texture(a, "normal_map", smp, Ghost(Seq::empty().push("base_color"@)));
    let a = add_texture(a, "roughness", smp, Ghost(Seq::empty().push("base_color"@).push("normal_map"@)));
    let a = add_texture(a, "metallic", smp, Ghost(Seq::empty().push("base_color"@).push("normal_map"@).push("roughness"@)));
    assert(Seq::<Seq<char>>::empty().push("base_color"@).push("normal_map"@).push("roughness"@).push("metallic"@)
        =~= seq!["base_color"@, "normal_map"@, "roughness"@, "metallic"@]);
    a
}

fn add_tracing(a: MaterialAsset) -> (r: MaterialAsset)
    requires
        a.acceleration_structure_bindings@.len() == 0,
        a.raytraced_stages@.len() == 0,
    ensures
        r == (MaterialAsset {
            acceleration_structure_bindings: r.acceleration_structure_bindings,
            raytraced_stages: r.raytraced_stages,
            ..a
        }),
        r.acceleration_structure_bindings@.len() == 1,
        r.acceleration_structure_bindings@[0].group@ == "material"@,
        r.acceleration_structure_bindings@[0].path@ == "acceleration_structure"@,
        r.acceleration_structure_bindings@[0].stage_mask.bits == STAGE_RAY_TRACING_BITS,
        stages_match(r.raytraced_stages@, traced_stage_list()),
{
    let a = a.with_acceleration_structure_binding("material", "acceleration_structure");
    let a = add_stage(a, "closest_hit", RaytracedShaderStage::ClosestHit, Ghost(Seq::empty()));
    let a = add_stage(a, "miss", RaytracedShaderStage::Miss, Ghost(Seq::empty().push(("closest_hit"@, RaytracedShaderStage::ClosestHit))));
    let a = add_stage(a, "ray_generation", RaytracedShaderStage::RayGeneration,
        Ghost(Seq::empty().push(("closest_hit"@, RaytracedShaderStage::ClosestHit)).push(("miss"@, RaytracedShaderStage::Miss))));
    assert(Seq::<(Seq<char>, RaytracedShaderStage)>::empty().push(("closest_hit"@, RaytracedShaderStage::ClosestHit))
        .push(("miss"@, RaytracedShaderStage::Miss))
        .push(("ray_generation"@, RaytracedShaderStage::RayGeneration)) =~= traced_stage_list());
    a
}

impl MaterialPreset {
    /// The material asset a preset stands for. `frame_constants_name` and
    /// `frame_constants_bytes` describe the host's per-frame push-constant
    /// block, which the file-backed presets register.
    pub fn asset(self, frame_constants_name: &str, frame_constants_bytes: u32) -> (r: MaterialAsset)
        ensures
            is_preset_asset(self, r, frame_constants_name@, frame_constants_bytes),
    {
        let a = match self {
            MaterialPreset::Unlit => MaterialAsset::new_with_source("unlit_material", "passthrough_fragment.slang"),
            MaterialPreset::Pbr => MaterialAsset::new("pbr_material", "pbr_fragment.slang"),
            MaterialPreset::Transparent => MaterialAsset::new("transparent_material", "transparent_fragment.slang"),
            MaterialPreset::Emissive => MaterialAsset::new("emissive_material", "emissive_fragment.slang"),
            MaterialPreset::RaytracedPbr => MaterialAsset::new("raytraced_pbr_material", "raytraced_pbr_fragment.slang"),
            MaterialPreset::PathTracedPbr => MaterialAsset::new("path_traced_pbr_material", "path_traced_pbr_fragment.slang"),
            MaterialPreset::HybridPbr => MaterialAsset::new("hybrid_pbr_material", "hybrid_pbr_fragment.slang"),
            MaterialPreset::Sprite => MaterialAsset::new_with_source("sprite_material", "sprite_fragment.slang"),
            MaterialPreset::Mesh => MaterialAsset::new_with_source("mesh_material", "mesh_fragment.slang"),
        };
        let kind = match self {
            MaterialPreset::Unlit | MaterialPreset::Sprite => MeshVertexKind::V2d,
            _ => MeshVertexKind::V3d,
        };
        let a = a.with_vertex_kind(kind);
        let inline = match self {
            MaterialPreset::Unlit | MaterialPreset::Sprite | MaterialPreset::Mesh => true,
            _ => false,
        };
        let a = if inline { a } else { a.with_push_constant_bytes(frame_constants_name, frame_constants_bytes) };
        let a = match self {
            MaterialPreset::Unlit => add_texture(a, "base_color", SamplerPreset::Linear, Ghost(Seq::empty())),
            MaterialPreset::Sprite => add_texture(a, "base_color", SamplerPreset::PixelArt, Ghost(Seq::empty())),
            MaterialPreset::Mesh => add_texture(a, "base_color", SamplerPreset::Trilinear, Ghost(Seq::empty())),
            MaterialPreset::Transparent => {
                let a = add_texture(a, "base_color", SamplerPreset::Trilinear, Ghost(Seq::empty()));
                add_texture(a, "alpha", SamplerPreset::Trilinear, Ghost(Seq::empty().push("base_color"@)))
            },
            MaterialPreset::Emissive => {
                let a = add_texture(a, "base_color", SamplerPreset::Trilinear, Ghost(Seq::empty()));
                add_texture(a, "emission", SamplerPreset::Trilinear, Ghost(Seq::empty().push("base_color"@)))
            },
            _ => add_pbr_textures(a),
        };
        assert(Seq::<Seq<char>>::empty().push("base_color"@) =~= seq!["base_color"@]);
        assert(Seq::<Seq<char>>::empty().push("base_color"@).push("alpha"@) =~= seq!["base_color"@, "alpha"@]);
        assert(Seq::<Seq<char>>::empty().push("base_color"@).push("emission"@) =~= seq!["base_color"@, "emission"@]);
        let traced = match self {
            MaterialPreset::RaytracedPbr | MaterialPreset::PathTracedPbr | MaterialPreset::HybridPbr => true,
            _ => false,
        };
        let a = if traced { add_tracing(a) } else { a };
        let a = match self {
            MaterialPreset::Transparent => {
                let state = RenderState::default_state().with_depth_write(false).with_cull_mode(CullMode::Disabled);
                a.with_render_state(state)
            },
            MaterialPreset::PathTracedPbr => a.with_path_traced_bounces(PathTracedBounceConfig::with_bounce_count(8)),
            _ => a,
        };
        a
    }

    /// Build the material of this preset.
    pub fn build(self, frame_constants_name: &str, frame_constants_bytes: u32) -> (r: Material)
        ensures
            is_preset_material(self, r, frame_constants_name@, frame_constants_bytes),
    {
        self.asset(frame_constants_name, frame_constants_bytes).build()
    }

    /// The short name.
    pub fn name(self) -> (r: &'static str)
        ensures
            r@ == preset_name(self),
    {
        match self {
            MaterialPreset::Unlit => "unlit",
            MaterialPreset::Pbr => "pbr",
            MaterialPreset::Transparent => "transparent",
            MaterialPreset::Emissive => "emissive",
            MaterialPreset::RaytracedPbr => "raytraced_pbr",
            MaterialPreset::PathTracedPbr => "path_traced_pbr",
            MaterialPreset::HybridPbr => "hybrid_pbr",
            MaterialPreset::Sprite => "sprite",
            MaterialPreset::Mesh => "mesh",
        }
    }

    /// The vertex kind.
    pub fn vertex_kind(self) -> (r: MeshVertexKind)
        ensures
            r == preset_vertex_kind(self),
    {
        match self {
            MaterialPreset::Unlit | MaterialPreset::Sprite => MeshVertexKind::V2d,
            _ => MeshVertexKind::V3d,
        }
    }

    /// The output mode.
    pub fn hdr_mode(self) -> (r: HdrMode)
        ensures
            r == preset_hdr_mode(self),
    {
        match self {
            MaterialPreset::Unlit | MaterialPreset::Sprite | MaterialPreset::Mesh => HdrMode::Sdr,
            _ => HdrMode::ScRgb,
        }
    }

    /// The ray-tracing capabilities: ray generation, closest hit and miss for
    /// the traced presets, none otherwise.
    pub fn raytracing_caps(self) -> (r: RaytracingCapabilities)
        ensures
            r == if preset_is_traced(self) { RaytracingCapabilities::Standard } else { RaytracingCapabilities::Disabled },
    {
        match self {
            MaterialPreset::RaytracedPbr | MaterialPreset::PathTracedPbr | MaterialPreset::HybridPbr => RaytracingCapabilities::Standard,
            _ => RaytracingCapabilities::Disabled,
        }
    }

    /// The path-tracing capabilities: eight bounces for the path-traced preset,
    /// none otherwise.
    pub fn path_tracing_caps(self) -> (r: PathTracingCapabilities)
        ensures
            r == if self == MaterialPreset::PathTracedPbr { PathTracingCapabilities::WithBounces(8) } else { PathTracingCapabilities::Disabled },
    {
        match self {
            MaterialPreset::PathTracedPbr => PathTracingCapabilities::WithBounces(8),
            _ => PathTracingCapabilities::Disabled,
        }
    }
}

/// Sprites are sampled with the pixel-art (nearest) sampler, unlit
/// materials with the linear one and every other preset with the
/// trilinear one: every texture a preset's asset registers uses that
/// sampler, and a sprite registers exactly its `base_color` texture.
pub proof fn lemma_preset_asset_samplers(p: MaterialPreset, m: MaterialAsset, fc_name: Seq<char>, fc_bytes: u32)
    requires
        is_preset_asset(p, m, fc_name, fc_bytes),
    ensures
        forall|i: int| 0 <= i < m.texture_bindings@.len() ==> #[trigger] m.texture_bindings@[i].sampler == (
            if p == MaterialPreset::Sprite {
                SamplerPreset::PixelArt
            } else if p == MaterialPreset::Unlit {
                SamplerPreset::Linear
            } else {
                SamplerPreset::Trilinear
            }),
        p == MaterialPreset::Sprite ==> m.texture_bindings@.len() == 1 && m.texture_bindings@[0].path@ == "base_color"@
            && m.texture_bindings@[0].sampler == SamplerPreset::PixelArt,
{
    let smp = if p == MaterialPreset::Sprite {
        SamplerPreset::PixelArt
    } else if p == MaterialPreset::Unlit {
        SamplerPreset::Linear
    } else {
        SamplerPreset::Trilinear
    };
    assert(preset_sampler(p) == smp);
    assert forall|i: int| 0 <= i < m.texture_bindings@.len() implies #[trigger] m.texture_bindings@[i].sampler == smp by {
        assert(m.texture_bindings@[i].group@ == "material"@);
    }
    if p == MaterialPreset::Sprite {
        assert(preset_textures(p) == seq!["base_color"@]);
        assert(m.texture_bindings@[0].group@ == "material"@);
    }
}

/// The materials the presets build use the same samplers: pixel art for
/// sprites (exactly one `base_color` texture), linear for unlit, trilinear
/// for every other preset.
pub proof fn lemma_preset_material_samplers(p: MaterialPreset, m: Material, fc_name: Seq<char>, fc_bytes: u32)
    requires
        is_preset_material(p, m, fc_name, fc_bytes),
    ensures
        forall|i: int| 0 <= i < m.texture_bindings@.len() ==> #[trigger] m.texture_bindings@[i].sampler == (
            if p == MaterialPreset::Sprite {
                SamplerPreset::PixelArt
            } else if p == MaterialPreset::Unlit {
                SamplerPreset::Linear
            } else {
                SamplerPreset::Trilinear
            }),
        p == MaterialPreset::Sprite ==> m.texture_bindings@.len() == 1 && m.texture_bindings@[0].path@ == "base_color"@
            && m.texture_bindings@[0].sampler == SamplerPreset::PixelArt,
{
    let smp = if p == MaterialPreset::Sprite {
        SamplerPreset::PixelArt
    } else if p == MaterialPreset::Unlit {
        SamplerPreset::Linear
    } else {
        SamplerPreset::Trilinear
    };
    assert(preset_sampler(p) == smp);
    assert forall|i: int| 0 <= i < m.texture_bindings@.len() implies #[trigger] m.texture_bindings@[i].sampler == smp by {
        assert(m.texture_bindings@[i].group@ == "material"@);
    }
    if p == MaterialPreset::Sprite {
        assert(preset_textures(p) == seq!["base_color"@]);
        assert(m.texture_bindings@[0].group@ == "material"@);
    }
}

/// The textures each preset's asset registers, in order: base colour and
/// alpha for the transparent preset, base colour and emission for the
/// emissive one, base colour, normal map, roughness and metallic for the
/// PBR presets (rasterized, ray-traced, path-traced and hybrid), and base
/// colour alone for unlit materials, sprites and plain meshes.
pub proof fn lemma_preset_texture_paths(p: MaterialPreset, m: MaterialAsset, fc_name: Seq<char>, fc_bytes: u32)
    requires
        is_preset_asset(p, m, fc_name, fc_bytes),
    ensures
        ({
            let paths: Seq<Seq<char>> = match p {
                MaterialPreset::Transparent => seq!["base_color"@, "alpha"@],
                MaterialPreset::Emissive => seq!["base_color"@, "emission"@],
                MaterialPreset::Pbr | MaterialPreset::RaytracedPbr | MaterialPreset::PathTracedPbr
                | MaterialPreset::HybridPbr => seq!["base_color"@, "normal_map"@, "roughness"@, "metallic"@],
                MaterialPreset::Unlit | MaterialPreset::Sprite | MaterialPreset::Mesh => seq!["base_color"@],
            };
            &&& m.texture_bindings@.len() == paths.len()
            &&& forall|i: int| 0 <= i < paths.len() ==> #[trigger] m.texture_bindings@[i].path@ == paths[i]
        }),
{
    assert forall|i: int| 0 <= i < m.texture_bindings@.len() implies #[trigger] m.texture_bindings@[i].path@
        == preset_textures(p)[i] by {
        assert(m.texture_bindings@[i].group@ == "material"@);
    }
}

} // verus!
