//! Binding registrations a material declares (push constants, textures,
//! buffers, acceleration structures, ray-traced stages) and the pipeline
//! layout description built from them.
use vstd::prelude::*;

use crate::caps::{RaytracedShaderStage, RaytracingCapabilities, caps_for_stage_kinds, caps_from_stage_kinds};
use crate::types::{Duplicate, SamplerPreset, StageMask, UpdateRate, STAGE_FRAGMENT_BITS, STAGE_VERTEX_BITS};

verus! {

// ── Registrations ────────────────────────────────────────────────────────────

/// A push-constant block: its type name, size in bytes, stages and offset.
#[derive(Clone, Debug)]
pub struct PushConstantRegistration {
    pub block_name: String,
    pub total_bytes: u32,
    pub stage_mask: StageMask,
    pub offset: u32,
}

/// A sampled texture and its sampler.
#[derive(Clone, Debug)]
pub struct TextureBindingRegistration {
    pub group: String,
    pub path: String,
    pub sampler_path: String,
    pub stage_mask: StageMask,
    pub update_rate: UpdateRate,
    pub sampler: SamplerPreset,
}

/// A uniform buffer together with its storage buffer.
#[derive(Clone, Debug)]
pub struct BufferBindingRegistration {
    pub group: String,
    pub path: String,
    pub storage_path: String,
    pub stage_mask: StageMask,
    pub update_rate: UpdateRate,
}

/// A ray-tracing acceleration structure.
#[derive(Clone, Debug)]
pub struct AccelerationStructureBindingRegistration {
    pub group: String,
    pub path: String,
    pub stage_mask: StageMask,
    pub update_rate: UpdateRate,
}

/// A ray-traced shader stage and the storage image it writes.
#[derive(Clone, Debug)]
pub struct RaytracedStageRegistration {
    pub group: String,
    pub path: String,
    pub stage: RaytracedShaderStage,
    pub stage_mask: StageMask,
    pub update_rate: UpdateRate,
}

/// `path` followed by `_sampler`.
pub open spec fn sampler_path_for(path: Seq<char>) -> Seq<char> {
    path + "_sampler"@
}

impl PushConstantRegistration {
    /// A push-constant block of `total_bytes` bytes at offset zero.
    pub fn new(block_name: &str, total_bytes: u32, stage_mask: StageMask) -> (r: PushConstantRegistration)
        ensures
            r.block_name@ == block_name@,
            r.total_bytes == total_bytes,
            r.stage_mask == stage_mask,
            r.offset == 0,
    {
        PushConstantRegistration { block_name: block_name.to_owned(), total_bytes, stage_mask, offset: 0 }
    }

}

impl Duplicate for PushConstantRegistration {
    fn duplicate(&self) -> (r: PushConstantRegistration)
        ensures
            r == *self,
    {
        PushConstantRegistration {
            block_name: self.block_name.clone(),
            total_bytes: self.total_bytes,
            stage_mask: self.stage_mask,
            offset: self.offset,
        }
    }
}

impl TextureBindingRegistration {
    /// A material-rate texture binding whose sampler is named `<path>_sampler`.
    pub fn new(group: &str, path: &str, sampler: SamplerPreset, stage_mask: StageMask) -> (r: TextureBindingRegistration)
        ensures
            r.group@ == group@,
            r.path@ == path@,
            r.sampler_path@ == sampler_path_for(path@),
            r.stage_mask == stage_mask,
            r.update_rate == UpdateRate::Material,
            r.sampler == sampler,
    {
        let sampler_path = String::from_str(path).concat("_sampler");
        TextureBindingRegistration {
            group: group.to_owned(),
            path: path.to_owned(),
            sampler_path,
            stage_mask,
            update_rate: UpdateRate::Material,
            sampler,
        }
    }

}

impl Duplicate for TextureBindingRegistration {
    fn duplicate(&self) -> (r: TextureBindingRegistration)
        ensures
            r == *self,
    {
        TextureBindingRegistration {
            group: self.group.clone(),
            path: self.path.clone(),
            sampler_path: self.sampler_path.clone(),
            stage_mask: self.stage_mask,
            update_rate: self.update_rate,
            sampler: self.sampler,
        }
    }
}

impl BufferBindingRegistration {
    /// A material-rate buffer binding.
    pub fn new(group: &str, path: &str, storage_path: &str, stage_mask: StageMask) -> (r: BufferBindingRegistration)
        ensures
            r.group@ == group@,
            r.path@ == path@,
            r.storage_path@ == storage_path@,
            r.stage_mask == stage_mask,
            r.update_rate == UpdateRate::Material,
    {
        BufferBindingRegistration {
            group: group.to_owned(),
            path: path.to_owned(),
            storage_path: storage_path.to_owned(),
            stage_mask,
            update_rate: UpdateRate::Material,
        }
    }

}

impl Duplicate for BufferBindingRegistration {
    fn duplicate(&self) -> (r: BufferBindingRegistration)
        ensures
            r == *self,
    {
        BufferBindingRegistration {
            group: self.group.clone(),
            path: self.path.clone(),
            storage_path: self.storage_path.clone(),
            stage_mask: self.stage_mask,
            update_rate: self.update_rate,
        }
    }
}

impl AccelerationStructureBindingRegistration {
    /// A material-rate acceleration-structure binding.
    pub fn new(group: &str, path: &str, stage_mask: StageMask) -> (r: AccelerationStructureBindingRegistration)
        ensures
            r.group@ == group@,
            r.path@ == path@,
            r.stage_mask == stage_mask,
            r.update_rate == UpdateRate::Material,
    {
        AccelerationStructureBindingRegistration {
            group: group.to_owned(),
            path: path.to_owned(),
            stage_mask,
            update_rate: UpdateRate::Material,
        }
    }

}

impl Duplicate for AccelerationStructureBindingRegistration {
    fn duplicate(&self) -> (r: AccelerationStructureBindingRegistration)
        ensures
            r == *self,
    {
        AccelerationStructureBindingRegistration {
            group: self.group.clone(),
            path: self.path.clone(),
            stage_mask: self.stage_mask,
            update_rate: self.update_rate,
        }
    }
}

impl RaytracedStageRegistration {
    /// A material-rate ray-traced stage.
    pub fn new(group: &str, path: &str, stage: RaytracedShaderStage, stage_mask: StageMask) -> (r: RaytracedStageRegistration)
        ensures
            r.group@ == group@,
            r.path@ == path@,
            r.stage == stage,
            r.stage_mask == stage_mask,
            r.update_rate == UpdateRate::Material,
    {
        RaytracedStageRegistration {
            group: group.to_owned(),
            path: path.to_owned(),
            stage,
            stage_mask,
            update_rate: UpdateRate::Material,
        }
    }

}

impl Duplicate for RaytracedStageRegistration {
    fn duplicate(&self) -> (r: RaytracedStageRegistration)
        ensures
            r == *self,
    {
        RaytracedStageRegistration {
            group: self.group.clone(),
            path: self.path.clone(),
            stage: self.stage,
            stage_mask: self.stage_mask,
            update_rate: self.update_rate,
        }
    }
}

// ── Stage summaries ──────────────────────────────────────────────────────────

/// Whether some registration in `s` is of stage kind `k`.
pub open spec fn has_stage_kind(s: Seq<RaytracedStageRegistration>, k: RaytracedShaderStage) -> bool {
    exists|i: int| 0 <= i < s.len() && #[trigger] s[i].stage == k
}

/// The ray-tracing capability summarising the stage kinds that occur in `s`.
pub open spec fn caps_for_stages(s: Seq<RaytracedStageRegistration>) -> RaytracingCapabilities {
    caps_for_stage_kinds(
        has_stage_kind(s, RaytracedShaderStage::RayGeneration),
        has_stage_kind(s, RaytracedShaderStage::ClosestHit),
        has_stage_kind(s, RaytracedShaderStage::Miss),
        has_stage_kind(s, RaytracedShaderStage::AnyHit),
        has_stage_kind(s, RaytracedShaderStage::Intersection),
    )
}

impl RaytracingCapabilities {
    /// Summarise the stage kinds that occur among `stages`.
    pub fn from_raytraced_stages(stages: &Vec<RaytracedStageRegistration>) -> (r: RaytracingCapabilities)
        ensures
            r == caps_for_stages(stages@),
    {
        let mut rg = false;
        let mut ch = false;
        let mut ms = false;
        let mut ah = false;
        let mut ix = false;
        let mut i: usize = 0;
        while i < stages.len()
            invariant
                i <= stages.len(),
                rg == has_stage_kind(stages@.take(i as int), RaytracedShaderStage::RayGeneration),
                ch == has_stage_kind(stages@.take(i as int), RaytracedShaderStage::ClosestHit),
                ms == has_stage_kind(stages@.take(i as int), RaytracedShaderStage::Miss),
                ah == has_stage_kind(stages@.take(i as int), RaytracedShaderStage::AnyHit),
                ix == has_stage_kind(stages@.take(i as int), RaytracedShaderStage::Intersection),
            decreases stages.len() - i,
        {
            let ghost prev = stages@.take(i as int);
            let ghost next = stages@.take(i as int + 1);
            assert(next == prev.push(stages@[i as int]));
            match stages[i].stage {
                RaytracedShaderStage::RayGeneration => { rg = true; },
                RaytracedShaderStage::ClosestHit => { ch = true; },
                RaytracedShaderStage::Miss => { ms = true; },
                RaytracedShaderStage::AnyHit => { ah = true; },
                RaytracedShaderStage::Intersection => { ix = true; },
            }
            assert forall|k: RaytracedShaderStage| has_stage_kind(next, k)
                == (has_stage_kind(prev, k) || stages@[i as int].stage == k) by {
                if has_stage_kind(next, k) {
                    let j = choose|j: int| 0 <= j < next.len() && #[trigger] next[j].stage == k;
                    if j < prev.len() {
                        assert(prev[j] == next[j]);
                    }
                }
                if has_stage_kind(prev, k) {
                    let j = choose|j: int| 0 <= j < prev.len() && #[trigger] prev[j].stage == k;
                    assert(next[j] == prev[j]);
                }
                if stages@[i as int].stage == k {
                    assert(next[prev.len() as int] == stages@[i as int]);
                }
            }
            i = i + 1;
        }
        assert(stages@.take(stages.len() as int) == stages@);
        caps_from_stage_kinds(rg, ch, ms, ah, ix)
    }
}

// ── Pipeline layout ──────────────────────────────────────────────────────────

/// Kind of a resource binding in a pipeline layout.
#[derive(Clone, Copy, Debug, PartialEq, Eq, Structural)]
pub enum BindingKind {
    StorageBuffer,
    UniformBuffer,
    SampledImage,
    Sampler,
    StorageImage,
    AccelerationStructure,
}

/// One resource binding of a pipeline layout.
#[derive(Clone, Debug)]
pub struct LayoutBinding {
    pub group: String,
    pub path: String,
    pub kind: BindingKind,
    pub stage_mask: StageMask,
    pub update_rate: UpdateRate,
}

/// A layout binding with its names taken as character sequences.
pub struct LayoutBindingView {
    pub group: Seq<char>,
    pub path: Seq<char>,
    pub kind: BindingKind,
    pub stage_mask: StageMask,
    pub update_rate: UpdateRate,
}

impl View for LayoutBinding {
    type V = LayoutBindingView;

    open spec fn view(&self) -> LayoutBindingView {
        LayoutBindingView {
            group: self.group@,
            path: self.path@,
            kind: self.kind,
            stage_mask: self.stage_mask,
            update_rate: self.update_rate,
        }
    }
}

/// The bindings and push-constant ranges a material's pipeline is laid out with.
#[derive(Clone, Debug)]
pub struct PipelineLayoutDesc {
    pub bindings: Vec<LayoutBinding>,
    pub push_constant_bytes: Vec<u32>,
}

/// Views of a sequence of layout bindings.
pub open spec fn binding_views(s: Seq<LayoutBinding>) -> Seq<LayoutBindingView> {
    s.map_values(|b: LayoutBinding| b@)
}

/// A binding view built from its parts.
pub open spec fn lbv(group: Seq<char>, path: Seq<char>, kind: BindingKind, stage_mask: StageMask, update_rate: UpdateRate) -> LayoutBindingView {
    LayoutBindingView { group, path, kind, stage_mask, update_rate }
}

/// The per-instance storage buffer every material layout starts with.
pub open spec fn instance_binding() -> LayoutBindingView {
    lbv("material"@, "instances"@, BindingKind::StorageBuffer,
        StageMask { bits: STAGE_VERTEX_BITS | STAGE_FRAGMENT_BITS }, UpdateRate::Material)
}

/// Each texture contributes its sampled image followed by its sampler.
pub open spec fn texture_bindings_spec(s: Seq<TextureBindingRegistration>) -> Seq<LayoutBindingView>
    decreases s.len(),
{
    if s.len() == 0 {
        Seq::empty()
    } else {
        let t = s.last();
        texture_bindings_spec(s.drop_last())
            + seq![
                lbv(t.group@, t.path@, BindingKind::SampledImage, t.stage_mask, t.update_rate),
                lbv(t.group@, t.sampler_path@, BindingKind::Sampler, t.stage_mask, t.update_rate),
            ]
    }
}

/// Each buffer contributes its uniform buffer followed by its storage buffer.
pub open spec fn buffer_bindings_spec(s: Seq<BufferBindingRegistration>) -> Seq<LayoutBindingView>
    decreases s.len(),
{
    if s.len() == 0 {
        Seq::empty()
    } else {
        let b = s.last();
        buffer_bindings_spec(s.drop_last())
            + seq![
                lbv(b.group@, b.path@, BindingKind::UniformBuffer, b.stage_mask, b.update_rate),
                lbv(b.group@, b.storage_path@, BindingKind::StorageBuffer, b.stage_mask, b.update_rate),
            ]
    }
}

/// Each acceleration structure contributes one binding.
pub open spec fn accel_bindings_spec(s: Seq<AccelerationStructureBindingRegistration>) -> Seq<LayoutBindingView> {
    s.map_values(|a: AccelerationStructureBindingRegistration|
        lbv(a.group@, a.path@, BindingKind::AccelerationStructure, a.stage_mask, a.update_rate))
}

/// Each ray-traced stage contributes a storage image.
pub open spec fn stage_bindings_spec(s: Seq<RaytracedStageRegistration>) -> Seq<LayoutBindingView> {
    s.map_values(|r: RaytracedStageRegistration|
        lbv(r.group@, r.path@, BindingKind::StorageImage, r.stage_mask, r.update_rate))
}

/// The full binding list: the instance buffer, then textures, buffers,
/// acceleration structures and ray-traced stages, each in registration order.
pub open spec fn layout_bindings_spec(
    tex: Seq<TextureBindingRegistration>,
    buf: Seq<BufferBindingRegistration>,
    acc: Seq<AccelerationStructureBindingRegistration>,
    rts: Seq<RaytracedStageRegistration>,
) -> Seq<LayoutBindingView> {
    seq![instance_binding()] + texture_bindings_spec(tex) + buffer_bindings_spec(buf)
        + accel_bindings_spec(acc) + stage_bindings_spec(rts)
}

/// The push-constant range sizes, one per block, in registration order.
pub open spec fn push_constant_sizes(s: Seq<PushConstantRegistration>) -> Seq<u32> {
    s.map_values(|p: PushConstantRegistration| p.total_bytes)
}

fn push_binding(out: &mut Vec<LayoutBinding>, group: &String, path: &String, kind: BindingKind, stage_mask: StageMask, update_rate: UpdateRate)
    ensures
        binding_views(final(out)@) == binding_views(old(out)@).push(lbv(group@, path@, kind, stage_mask, update_rate)),
{
    let ghost before = out@;
    out.push(LayoutBinding { group: group.clone(), path: path.clone(), kind, stage_mask, update_rate });
    assert(binding_views(out@) =~= binding_views(before).push(lbv(group@, path@, kind, stage_mask, update_rate)));
}

/// Lay out a material's bindings: the per-instance storage buffer
/// (`material`/`instances`, vertex and fragment stages), then for each texture
/// its sampled image and sampler, for each buffer its uniform and storage
/// buffer, each acceleration structure, and a storage image per ray-traced
/// stage; plus one push-constant range per registered block.
pub fn build_pipeline_layout(
    push_constants: &Vec<PushConstantRegistration>,
    tex: &Vec<TextureBindingRegistration>,
    buf: &Vec<BufferBindingRegistration>,
    acc: &Vec<AccelerationStructureBindingRegistration>,
    rts: &Vec<RaytracedStageRegistration>,
) -> (r: PipelineLayoutDesc)
    ensures
        binding_views(r.bindings@) == layout_bindings_spec(tex@, buf@, acc@, rts@),
        r.push_constant_bytes@ == push_constant_sizes(push_constants@),
{
    let mut bindings: Vec<LayoutBinding> = Vec::new();
    push_binding(&mut bindings, &String::from_str("material"), &String::from_str("instances"),
        BindingKind::StorageBuffer, StageMask::vertex().union(StageMask::fragment()), UpdateRate::Material);
    assert(binding_views(bindings@) =~= seq![instance_binding()]);

    let mut pcs: Vec<u32> = Vec::new();
    let mut i: usize = 0;
    while i < push_constants.len()
        invariant
            i <= push_constants.len(),
            pcs@ == push_constant_sizes(push_constants@.take(i as int)),
        decreases push_constants.len() - i,
    {
        pcs.push(push_constants[i].total_bytes);
        assert(push_constants@.take(i as int + 1) == push_constants@.take(i as int).push(push_constants@[i as int]));
        assert(pcs@ =~= push_constant_sizes(push_constants@.take(i as int + 1)));
        i = i + 1;
    }
    assert(push_constants@.take(push_constants.len() as int) == push_constants@);

    let ghost base = binding_views(bindings@);
    let mut i: usize = 0;
    while i < tex.len()
        invariant
            i <= tex.len(),
            binding_views(bindings@) == base + texture_bindings_spec(tex@.take(i as int)),
        decreases tex.len() - i,
    {
        let t = &tex[i];
        push_binding(&mut bindings, &t.group, &t.path, BindingKind::SampledImage, t.stage_mask, t.update_rate);
        push_binding(&mut bindings, &t.group, &t.sampler_path, BindingKind::Sampler, t.stage_mask, t.update_rate);
        let ghost next = tex@.take(i as int + 1);
        assert(next.drop_last() == tex@.take(i as int));
        assert(next.last() == tex@[i as int]);
        assert(binding_views(bindings@) =~= base + texture_bindings_spec(next));
        i = i + 1;
    }
    assert(tex@.take(tex.len() as int) == tex@);

    let ghost base = binding_views(bindings@);
    let mut i: usize = 0;
    while i < buf.len()
        invariant
            i <= buf.len(),
            binding_views(bindings@) == base + buffer_bindings_spec(buf@.take(i as int)),
        decreases buf.len() - i,
    {
        let b = &buf[i];
        push_binding(&mut bindings, &b.group, &b.path, BindingKind::UniformBuffer, b.stage_mask, b.update_rate);
        push_binding(&mut bindings, &b.group, &b.storage_path, BindingKind::StorageBuffer, b.stage_mask, b.update_rate);
        let ghost next = buf@.take(i as int + 1);
        assert(next.drop_last() == buf@.take(i as int));
        assert(next.last() == buf@[i as int]);
        assert(binding_views(bindings@) =~= base + buffer_bindings_spec(next));
        i = i + 1;
    }
    assert(buf@.take(buf.len() as int) == buf@);

    let ghost base = binding_views(bindings@);
    let mut i: usize = 0;
    while i < acc.len()
        invariant
            i <= acc.len(),
            binding_views(bindings@) == base + accel_bindings_spec(acc@.take(i as int)),
        decreases acc.len() - i,
    {
        let a = &acc[i];
        push_binding(&mut bindings, &a.group, &a.path, BindingKind::AccelerationStructure, a.stage_mask, a.update_rate);
        assert(acc@.take(i as int + 1) == acc@.take(i as int).push(acc@[i as int]));
        assert(binding_views(bindings@) =~= base + accel_bindings_spec(acc@.take(i as int + 1)));
        i = i + 1;
    }
    assert(acc@.take(acc.len() as int) == acc@);

    let ghost base = binding_views(bindings@);
    let mut i: usize = 0;
    while i < rts.len()
        invariant
            i <= rts.len(),
            binding_views(bindings@) == base + stage_bindings_spec(rts@.take(i as int)),
        decreases rts.len() - i,
    {
        let s = &rts[i];
        push_binding(&mut bindings, &s.group, &s.path, BindingKind::StorageImage, s.stage_mask, s.update_rate);
        assert(rts@.take(i as int + 1) == rts@.take(i as int).push(rts@[i as int]));
        assert(binding_views(bindings@) =~= base + stage_bindings_spec(rts@.take(i as int + 1)));
        i = i + 1;
    }
    assert(rts@.take(rts.len() as int) == rts@);
    assert(binding_views(bindings@) =~= layout_bindings_spec(tex@, buf@, acc@, rts@));
    PipelineLayoutDesc { bindings, push_constant_bytes: pcs }
}

/// Length of the texture part of a layout: two bindings per texture.
pub proof fn lemma_texture_bindings_len(s: Seq<TextureBindingRegistration>)
    ensures
        texture_bindings_spec(s).len() == 2 * s.len(),
    decreases s.len(),
{
    if s.len() > 0 {
        lemma_texture_bindings_len(s.drop_last());
    }
}

/// Length of the buffer part of a layout: two bindings per buffer.
pub proof fn lemma_buffer_bindings_len(s: Seq<BufferBindingRegistration>)
    ensures
        buffer_bindings_spec(s).len() == 2 * s.len(),
    decreases s.len(),
{
    if s.len() > 0 {
        lemma_buffer_bindings_len(s.drop_last());
    }
}

/// A layout holds one binding for the instance buffer, two per texture, two
/// per buffer, one per acceleration structure and one per ray-traced stage.
pub proof fn lemma_layout_binding_count(
    tex: Seq<TextureBindingRegistration>,
    buf: Seq<BufferBindingRegistration>,
    acc: Seq<AccelerationStructureBindingRegistration>,
    rts: Seq<RaytracedStageRegistration>,
)
    ensures
        layout_bindings_spec(tex, buf, acc, rts).len()
            == 1 + 2 * tex.len() + 2 * buf.len() + acc.len() + rts.len(),
{
    lemma_texture_bindings_len(tex);
    lemma_buffer_bindings_len(buf);
}

} // verus!
