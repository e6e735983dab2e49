//! Scene handles, objects and offscreen render targets: the identifiers of
//! meshes, objects and cameras, whether an object moves, an object's
//! transform and upload flag, and the persistent images a camera renders
//! into.
use vstd::prelude::*;

use crate::transform_bits::{lemma_unpack_pack, pack_transform, packed, unpack_transform};
use crate::screenshot::{format_debug_name, format_debug_text};
use crate::types::{EngineError, Format};

verus! {

/// Stable handle to a mesh and program pair registered with a scene.
#[derive(Clone, Copy, Debug, PartialEq, Eq, Structural)]
pub struct MeshId(pub u32);

/// Stable handle to an object instance within a scene.
#[derive(Clone, Copy, Debug, PartialEq, Eq, Structural)]
pub struct ObjectId(pub u32);

/// Stable handle to a camera within a scene.
#[derive(Clone, Copy, Debug, PartialEq, Eq, Structural)]
pub struct CameraId(pub u32);

/// Whether an object stays fixed (its instance data is uploaded once) or
/// moves every frame.
#[derive(Clone, Copy, Debug, PartialEq, Eq, Structural)]
pub enum ObjectKind {
    Static,
    Dynamic,
}

/// The sixteen words held by eight packed words, entry `2i` in the low and
/// entry `2i + 1` in the high half of word `i`.
pub open spec fn unpacked_words(words: Seq<u64>) -> Seq<u32> {
    Seq::new(16, |k: int| if k % 2 == 0 {
        (words[k / 2] & 0xffff_ffffu64) as u32
    } else {
        (words[k / 2] >> 32u64) as u32
    })
}

/// Eight words packed from `cols` hold `cols`.
proof fn lemma_packed_holds(cols: Seq<u32>, words: Seq<u64>)
    requires
        cols.len() == 16,
        words.len() == 8,
        forall|i: int| 0 <= i < 8 ==> #[trigger] words[i] == packed(cols[2 * i], cols[2 * i + 1]),
    ensures
        unpacked_words(words) == cols,
{
    assert forall|k: int| 0 <= k < 16 implies #[trigger] unpacked_words(words)[k] == cols[k] by {
        let i = k / 2;
        assert(words[i] == packed(cols[2 * i], cols[2 * i + 1]));
        lemma_unpack_pack(cols[2 * i], cols[2 * i + 1]);
    }
    assert(unpacked_words(words) =~= cols);
}

/// A renderable instance: its mesh, its transform (the bit patterns of the
/// sixteen column-major matrix entries, held as eight packed words),
/// whether its instance data must be uploaded again, and the render
/// metadata it was given: its material, if any, and its visibility flags.
#[derive(Clone, Copy)]
pub struct SceneObject {
    pub mesh_id: MeshId,
    pub transform: [u64; 8],
    pub kind: ObjectKind,
    pub static_dirty: bool,
    pub material: Option<u32>,
    pub visibility_flags: u32,
}

impl SceneObject {
    /// The transform this object holds.
    pub open spec fn transform_spec(&self) -> Seq<u32> {
        unpacked_words(self.transform@)
    }

    /// A new object; its instance data is yet to be uploaded, and it has
    /// no material and no visibility flags yet.
    pub fn new(mesh_id: MeshId, transform: [u32; 16], kind: ObjectKind) -> (r: SceneObject)
        ensures
            r.mesh_id == mesh_id,
            r.kind == kind,
            r.transform_spec() == transform@,
            r.static_dirty,
            r.material is None,
            r.visibility_flags == 0,
    {
        let words = pack_transform(&transform);
        proof {
            lemma_packed_holds(transform@, words@);
        }
        SceneObject { mesh_id, transform: words, kind, static_dirty: true, material: None, visibility_flags: 0 }
    }

    /// The current transform.
    pub fn get_transform(&self) -> (r: [u32; 16])
        ensures
            r@ == self.transform_spec(),
    {
        let r = unpack_transform(&self.transform);
        assert(r@ =~= unpacked_words(self.transform@)) by {
            assert forall|k: int| 0 <= k < 16 implies #[trigger] r@[k] == unpacked_words(self.transform@)[k] by {
                let i = k / 2;
                assert(k == 2 * i || k == 2 * i + 1);
                assert(r@[2 * i] == (self.transform@[i] & 0xffff_ffffu64) as u32);
            }
        }
        r
    }

    /// Replace the transform. A static object's instance data must then be
    /// uploaded again; a dynamic object's flag is left as it was.
    pub fn set_transform_atomic(&mut self, transform: [u32; 16])
        ensures
            final(self).transform_spec() == transform@,
            final(self).mesh_id == old(self).mesh_id,
            final(self).kind == old(self).kind,
            final(self).static_dirty == (old(self).static_dirty || old(self).kind == ObjectKind::Static),
            final(self).material == old(self).material,
            final(self).visibility_flags == old(self).visibility_flags,
    {
        let words = pack_transform(&transform);
        proof {
            lemma_packed_holds(transform@, words@);
        }
        self.transform = words;
        if self.kind == ObjectKind::Static {
            self.static_dirty = true;
        }
    }

    /// Give the object the render metadata of the render-world object it
    /// mirrors: its material and its visibility flags.
    pub fn set_render_metadata(&mut self, material: Option<u32>, visibility_flags: u32)
        ensures
            *final(self) == (SceneObject { material, visibility_flags, ..*old(self) }),
    {
        self.material = material;
        self.visibility_flags = visibility_flags;
    }
}

/// `after` is `before` with its transform replaced by `transform`: the mesh
/// and kind are kept, and a static object is marked for upload.
pub open spec fn transform_replaced(before: SceneObject, after: SceneObject, transform: Seq<u32>) -> bool {
    &&& after.transform_spec() == transform
    &&& after.mesh_id == before.mesh_id
    &&& after.kind == before.kind
    &&& after.static_dirty == (before.static_dirty || before.kind == ObjectKind::Static)
    &&& after.material == before.material
    &&& after.visibility_flags == before.visibility_flags
}

/// The mesh id a removed object is redirected to; no batch ever has it.
pub const REMOVED_MESH_ID: u32 = 0xffff_ffff;

/// The words of the identity transform: `1.0` on the diagonal, `0.0`
/// elsewhere.
pub open spec fn identity_transform_spec() -> Seq<u32> {
    Seq::new(16, |k: int| if k % 5 == 0 { 0x3f80_0000u32 } else { 0u32 })
}

/// The identity transform's words.
pub fn identity_transform_bits() -> (r: [u32; 16])
    ensures
        r@ == identity_transform_spec(),
{
    let one: u32 = 0x3f80_0000;
    let r: [u32; 16] = [one, 0, 0, 0, 0, one, 0, 0, 0, 0, one, 0, 0, 0, 0, one];
    assert(r@ =~= identity_transform_spec());
    r
}

/// The objects of a scene, addressed by their ids, and the id the next
/// object gets.
pub struct SceneObjectTable {
    pub objects: Vec<SceneObject>,
    pub next_object_id: u32,
}

impl SceneObjectTable {
    /// Every id handed out so far addresses its object: the next id is the
    /// number of objects.
    pub open spec fn wf(&self) -> bool {
        self.next_object_id == self.objects@.len()
    }

    /// A table with no objects.
    pub fn new() -> (r: SceneObjectTable)
        ensures
            r.objects@.len() == 0,
            r.next_object_id == 0,
            r.wf(),
    {
        SceneObjectTable { objects: Vec::new(), next_object_id: 0 }
    }

    /// Add an object of mesh `mesh_id` with the identity transform.
    pub fn add_object(&mut self, mesh_id: MeshId, kind: ObjectKind) -> (r: ObjectId)
        ensures
            r == ObjectId(old(self).next_object_id),
            final(self).next_object_id == old(self).next_object_id.wrapping_add(1),
            final(self).objects@.len() == old(self).objects@.len() + 1,
            final(self).objects@.drop_last() == old(self).objects@,
            final(self).objects@.last().mesh_id == mesh_id,
            final(self).objects@.last().kind == kind,
            final(self).objects@.last().transform_spec() == identity_transform_spec(),
            final(self).objects@.last().static_dirty,
    {
        let t = identity_transform_bits();
        self.add_object_at(mesh_id, t, kind)
    }

    /// Add an object of mesh `mesh_id` with the transform `transform`; it
    /// gets the next id, and the id after it (wrapping) becomes the next.
    pub fn add_object_at(&mut self, mesh_id: MeshId, transform: [u32; 16], kind: ObjectKind) -> (r: ObjectId)
        ensures
            r == ObjectId(old(self).next_object_id),
            final(self).next_object_id == old(self).next_object_id.wrapping_add(1),
            final(self).objects@.len() == old(self).objects@.len() + 1,
            final(self).objects@.drop_last() == old(self).objects@,
            final(self).objects@.last().mesh_id == mesh_id,
            final(self).objects@.last().kind == kind,
            final(self).objects@.last().transform_spec() == transform@,
            final(self).objects@.last().static_dirty,
    {
        let id = ObjectId(self.next_object_id);
        self.next_object_id = self.next_object_id.wrapping_add(1);
        let o = SceneObject::new(mesh_id, transform, kind);
        self.objects.push(o);
        assert(self.objects@.drop_last() =~= old(self).objects@);
        id
    }

    /// Replace the transform of object `id`; an id no object has is ignored.
    pub fn set_transform(&mut self, id: ObjectId, transform: [u32; 16])
        ensures
            final(self).next_object_id == old(self).next_object_id,
            final(self).objects@.len() == old(self).objects@.len(),
            forall|j: int| 0 <= j < old(self).objects@.len() && j != id.0 as int
                ==> #[trigger] final(self).objects@[j] == old(self).objects@[j],
            id.0 < old(self).objects@.len() ==> transform_replaced(
                old(self).objects@[id.0 as int], final(self).objects@[id.0 as int], transform@),
    {
        let i = id.0 as usize;
        if i < self.objects.len() {
            let mut o = self.objects[i];
            o.set_transform_atomic(transform);
            self.objects.set(i, o);
        }
    }

    /// The transform of object `id`, if there is one.
    pub fn get_transform(&self, id: ObjectId) -> (r: Option<[u32; 16]>)
        ensures
            match r {
                Some(t) => id.0 < self.objects@.len() && t@ == self.objects@[id.0 as int].transform_spec(),
                None => id.0 >= self.objects@.len(),
            },
    {
        let i = id.0 as usize;
        if i < self.objects.len() {
            Some(self.objects[i].get_transform())
        } else {
            None
        }
    }

    /// Mark object `id` removed: it is redirected to a mesh no batch has, so
    /// it contributes no instances. An id no object has is ignored.
    pub fn remove_object_deferred(&mut self, id: ObjectId)
        ensures
            final(self).next_object_id == old(self).next_object_id,
            final(self).objects@.len() == old(self).objects@.len(),
            forall|j: int| 0 <= j < old(self).objects@.len() && j != id.0 as int
                ==> #[trigger] final(self).objects@[j] == old(self).objects@[j],
            id.0 < old(self).objects@.len() ==> final(self).objects@[id.0 as int]
                == (SceneObject { mesh_id: MeshId(REMOVED_MESH_ID), ..old(self).objects@[id.0 as int] }),
    {
        let i = id.0 as usize;
        if i < self.objects.len() {
            let mut o = self.objects[i];
            o.mesh_id = MeshId(REMOVED_MESH_ID);
            self.objects.set(i, o);
        }
    }

    /// The number of object slots, removed ones included.
    pub fn object_count(&self) -> (r: usize)
        ensures
            r == self.objects@.len(),
    {
        self.objects.len()
    }
}

/// The kind a mirrored object gets: static when flagged static and not
/// dynamic, dynamic otherwise.
pub fn sync_kind(static_flag: bool, dynamic_flag: bool) -> (r: ObjectKind)
    ensures
        r == if static_flag && !dynamic_flag { ObjectKind::Static } else { ObjectKind::Dynamic },
{
    if static_flag && !dynamic_flag { ObjectKind::Static } else { ObjectKind::Dynamic }
}

/// A render-world object with mesh `mesh` is drawn: it has a mesh, the
/// scene has that mesh, and it is visible.
pub open spec fn drawn_mesh(mesh: Option<u32>, visible: bool, mesh_count: usize) -> bool {
    mesh matches Some(m) && visible && (m as int) < mesh_count as int
}

/// The index a mapped object id addresses (`-1` for none).
pub open spec fn object_index(mapped: Option<ObjectId>) -> int {
    match mapped {
        Some(id) => id.0 as int,
        None => -1,
    }
}

/// `after` is object `before` brought up to date with mesh `m`, kind
/// `kind`, transform `transform`, material `material` and visibility flags
/// `flags`: marked for upload when its mesh or kind changed or it is
/// static.
pub open spec fn synced_object(before: SceneObject, after: SceneObject, m: u32, kind: ObjectKind, transform: Seq<u32>,
    material: Option<u32>, flags: u32) -> bool {
    &&& after.mesh_id == MeshId(m)
    &&& after.kind == kind
    &&& after.transform_spec() == transform
    &&& after.static_dirty == (before.static_dirty || before.mesh_id != MeshId(m) || before.kind != kind
        || kind == ObjectKind::Static)
    &&& after.material == material
    &&& after.visibility_flags == flags
}

/// `o` is a new object holding mesh `m`, kind `kind`, transform
/// `transform`, material `material` and visibility flags `flags`, its
/// instance data yet to be uploaded.
pub open spec fn fresh_object(o: SceneObject, m: u32, kind: ObjectKind, transform: Seq<u32>, material: Option<u32>, flags: u32) -> bool {
    &&& o.mesh_id == MeshId(m)
    &&& o.kind == kind
    &&& o.transform_spec() == transform
    &&& o.static_dirty
    &&& o.material == material
    &&& o.visibility_flags == flags
}

impl SceneObjectTable {
    /// Mirror one render-world object into the table. `mapped` is the scene
    /// object it was mirrored to before, if any. An object without a mesh,
    /// hidden, or whose mesh the scene does not have is not drawn: its
    /// mapped object, if any, is removed and it is left unmapped (`None`).
    /// Otherwise it keeps its mapped object while that id addresses one, or
    /// gets a new object; that object takes its mesh, kind, transform,
    /// material and visibility flags, and is marked for upload when its
    /// mesh or kind changed. The result is the object it is now mapped to.
    pub fn sync_object(
        &mut self,
        mapped: Option<ObjectId>,
        mesh: Option<u32>,
        visible: bool,
        kind: ObjectKind,
        mesh_count: usize,
        transform: [u32; 16],
        material: Option<u32>,
        flags: u32,
    ) -> (r: Option<ObjectId>)
        ensures
            !drawn_mesh(mesh, visible, mesh_count) ==> {
                &&& r is None
                &&& final(self).next_object_id == old(self).next_object_id
                &&& final(self).objects@.len() == old(self).objects@.len()
                &&& forall|j: int| 0 <= j < old(self).objects@.len()
                    && j != object_index(mapped)
                    ==> #[trigger] final(self).objects@[j] == old(self).objects@[j]
                &&& 0 <= object_index(mapped) < old(self).objects@.len() ==> final(self).objects@[object_index(mapped)]
                    == (SceneObject { mesh_id: MeshId(REMOVED_MESH_ID), ..old(self).objects@[object_index(mapped)] })
            },
            drawn_mesh(mesh, visible, mesh_count) ==> {
                let kept = 0 <= object_index(mapped) < old(self).objects@.len();
                &&& kept ==> {
                    &&& r == mapped
                    &&& final(self).next_object_id == old(self).next_object_id
                    &&& final(self).objects@.len() == old(self).objects@.len()
                    &&& forall|j: int| 0 <= j < old(self).objects@.len() && j != object_index(mapped)
                        ==> #[trigger] final(self).objects@[j] == old(self).objects@[j]
                    &&& synced_object(old(self).objects@[object_index(mapped)], final(self).objects@[object_index(mapped)],
                        mesh->0, kind, transform@, material, flags)
                }
                &&& !kept ==> {
                    &&& r == Some(ObjectId(old(self).next_object_id))
                    &&& final(self).next_object_id == old(self).next_object_id.wrapping_add(1)
                    &&& final(self).objects@.len() == old(self).objects@.len() + 1
                    &&& final(self).objects@.drop_last() == old(self).objects@
                    &&& fresh_object(final(self).objects@.last(), mesh->0, kind, transform@, material, flags)
                }
            },
    {
        let drawn = match mesh {
            Some(m) => visible && (m as usize) < mesh_count,
            None => false,
        };
        if !drawn {
            if let Some(id) = mapped {
                self.remove_object_deferred(id);
            }
            return None;
        }
        let m = match mesh {
            Some(m) => m,
            None => 0,
        };
        match mapped {
            Some(id) => {
                if (id.0 as usize) < self.objects.len() {
                    let i = id.0 as usize;
                    let mut o = self.objects[i];
                    if o.mesh_id != MeshId(m) || o.kind != kind {
                        o.mesh_id = MeshId(m);
                        o.kind = kind;
                        o.static_dirty = true;
                    }
                    o.set_transform_atomic(transform);
                    o.set_render_metadata(material, flags);
                    self.objects.set(i, o);
                    return Some(id);
                }
            },
            None => {},
        }
        let id = self.add_object_at(MeshId(m), transform, kind);
        let ghost added = self.objects@;
        let last = self.objects.len() - 1;
        let mut o = self.objects[last];
        o.set_render_metadata(material, flags);
        self.objects.set(last, o);
        assert(self.objects@.drop_last() =~= added.drop_last());
        Some(id)
    }
}

/// One render-world object as the scene mirrors it: its id, its mesh if
/// any, whether it is visible, its kind, its transform's words, its
/// material if any, and its visibility flags.
#[derive(Clone, Copy, Debug)]
pub struct RenderObjectState {
    pub object: u64,
    pub mesh: Option<u32>,
    pub visible: bool,
    pub kind: ObjectKind,
    pub transform: [u32; 16],
    pub material: Option<u32>,
    pub flags: u32,
}

/// Entry `e` is drawn: it has a mesh the scene has, and it is visible.
pub open spec fn entry_drawn(e: RenderObjectState, mesh_count: usize) -> bool {
    drawn_mesh(e.mesh, e.visible, mesh_count)
}

/// How many entries of `snap` are drawn.
pub open spec fn drawn_count(snap: Seq<RenderObjectState>, mesh_count: usize) -> nat
    decreases snap.len(),
{
    if snap.len() == 0 {
        0
    } else {
        drawn_count(snap.drop_last(), mesh_count) + if entry_drawn(snap.last(), mesh_count) { 1nat } else { 0nat }
    }
}

/// Some drawn entry of `snap` is render-world object `o`.
pub open spec fn draws_object(snap: Seq<RenderObjectState>, mesh_count: usize, o: u64) -> bool {
    exists|i: int| 0 <= i < snap.len() && #[trigger] snap[i].object == o && entry_drawn(snap[i], mesh_count)
}

/// The mapping `m` from render-world objects to scene objects is one to
/// one, and every scene object it names is in a table of `len` objects.
pub open spec fn mapping_wf(m: Seq<(u64, ObjectId)>, len: nat) -> bool {
    &&& forall|p: int, q: int| 0 <= p < q < m.len() ==> m[p].0 != m[q].0 && m[p].1 != m[q].1
    &&& forall|p: int| 0 <= p < m.len() ==> (#[trigger] m[p].1.0 as int) < len
}

/// Entry `e` is mirrored to scene object `id` of `after`: `id` is the
/// object `e` was mapped to in `map` before, brought up to date from `e`,
/// or, when it was not mapped, a new object beyond the `before` ones that
/// holds `e`'s mesh, kind and transform and awaits upload.
pub open spec fn entry_mirrored(before: Seq<SceneObject>, after: Seq<SceneObject>, map: Seq<(u64, ObjectId)>, e: RenderObjectState, id: ObjectId) -> bool {
    ||| exists|p: int| 0 <= p < map.len() && #[trigger] map[p].0 == e.object && map[p].1 == id
            && synced_object(before[id.0 as int], after[id.0 as int], e.mesh->0, e.kind, e.transform@, e.material, e.flags)
    ||| (forall|p: int| 0 <= p < map.len() ==> #[trigger] map[p].0 != e.object)
            && before.len() <= id.0 < after.len()
            && fresh_object(after[id.0 as int], e.mesh->0, e.kind, e.transform@, e.material, e.flags)
}

/// Whether entry `e` is drawn.
fn entry_is_drawn(e: &RenderObjectState, mesh_count: usize) -> (r: bool)
    ensures
        r == entry_drawn(*e, mesh_count),
{
    match e.mesh {
        Some(m) => e.visible && (m as usize) < mesh_count,
        None => false,
    }
}

/// The position of render-world object `o` in `m`, if mapped.
fn find_mapping(m: &Vec<(u64, ObjectId)>, o: u64) -> (r: Option<usize>)
    ensures
        match r {
            Some(p) => p < m@.len() && m@[p as int].0 == o,
            None => forall|p: int| 0 <= p < m@.len() ==> #[trigger] m@[p].0 != o,
        },
{
    let mut p: usize = 0;
    while p < m.len()
        invariant
            p <= m@.len(),
            forall|q: int| 0 <= q < p ==> #[trigger] m@[q].0 != o,
        decreases m@.len() - p,
    {
        if m[p].0 == o {
            return Some(p);
        }
        p = p + 1;
    }
    None
}

/// Whether some drawn entry of `snap` is render-world object `o`.
fn snapshot_draws(snap: &Vec<RenderObjectState>, mesh_count: usize, o: u64) -> (r: bool)
    ensures
        r == draws_object(snap@, mesh_count, o),
{
    let mut i: usize = 0;
    while i < snap.len()
        invariant
            i <= snap@.len(),
            forall|j: int| 0 <= j < i ==> !(#[trigger] snap@[j].object == o && entry_drawn(snap@[j], mesh_count)),
        decreases snap@.len() - i,
    {
        if snap[i].object == o && entry_is_drawn(&snap[i], mesh_count) {
            return true;
        }
        i = i + 1;
    }
    false
}

/// Entry `e` is mirrored to scene object `id`, with `kp` the position of
/// its earlier mapping in `map` (negative when it had none).
spec fn mirrored_at(before: Seq<SceneObject>, after: Seq<SceneObject>, map: Seq<(u64, ObjectId)>, e: RenderObjectState, id: ObjectId, kp: int) -> bool {
    if kp >= 0 {
        &&& kp < map.len()
        &&& map[kp].0 == e.object
        &&& map[kp].1 == id
        &&& synced_object(before[id.0 as int], after[id.0 as int], e.mesh->0, e.kind, e.transform@, e.material, e.flags)
    } else {
        &&& forall|p: int| 0 <= p < map.len() ==> #[trigger] map[p].0 != e.object
        &&& before.len() <= id.0 < after.len()
        &&& fresh_object(after[id.0 as int], e.mesh->0, e.kind, e.transform@, e.material, e.flags)
    }
}

/// Some entry of `m` names scene object `k`.
pub open spec fn ids_contain(m: Seq<(u64, ObjectId)>, k: int) -> bool {
    exists|t: int| 0 <= t < m.len() && #[trigger] m[t].1.0 == k
}

/// Render-world object `o` has an entry in `m`.
pub open spec fn is_mapped(m: Seq<(u64, ObjectId)>, o: u64) -> bool {
    exists|p: int| 0 <= p < m.len() && #[trigger] m[p].0 == o
}

/// How many entries of `snap` are drawn and have no entry in `m`: the
/// scene objects mirroring `snap` adds.
pub open spec fn fresh_count(snap: Seq<RenderObjectState>, mesh_count: usize, m: Seq<(u64, ObjectId)>) -> nat
    decreases snap.len(),
{
    if snap.len() == 0 {
        0
    } else {
        fresh_count(snap.drop_last(), mesh_count, m)
            + if entry_drawn(snap.last(), mesh_count) && !is_mapped(m, snap.last().object) { 1nat } else { 0nat }
    }
}

/// Among the first `p` entries of `map`, one whose render-world object is
/// not drawn names scene object `k`.
spec fn stale_upto(map: Seq<(u64, ObjectId)>, snap: Seq<RenderObjectState>, mesh_count: usize, p: int, k: int) -> bool {
    exists|q: int| 0 <= q < p && !draws_object(snap, mesh_count, map[q].0) && #[trigger] map[q].1.0 == k
}

proof fn lemma_mirrored_at(before: Seq<SceneObject>, after: Seq<SceneObject>, map: Seq<(u64, ObjectId)>, e: RenderObjectState, id: ObjectId, kp: int)
    requires
        mirrored_at(before, after, map, e, id, kp),
    ensures
        entry_mirrored(before, after, map, e, id),
{
    if kp >= 0 {
        assert(map[kp].0 == e.object);
    }
}

/// One step of mirroring: entry `i` of `snap` was drawn and is now mirrored
/// to scene object `id`; the facts kept about the earlier entries carry
/// over to the table after the step.
proof fn lemma_sync_step(
    old_objs: Seq<SceneObject>,
    before: Seq<SceneObject>,
    after: Seq<SceneObject>,
    old_map: Seq<(u64, ObjectId)>,
    nb: Seq<(u64, ObjectId)>,
    src: Seq<int>,
    kps: Seq<int>,
    snap: Seq<RenderObjectState>,
    mesh_count: usize,
    i: int,
    kp: int,
    id: ObjectId,
)
    requires
        mapping_wf(old_map, old_objs.len()),
        forall|a: int, b: int| 0 <= a < b < snap.len() ==> snap[a].object != snap[b].object,
        0 <= i < snap.len(),
        entry_drawn(snap[i], mesh_count),
        old_objs.len() <= before.len(),
        src.len() == nb.len(),
        kps.len() == nb.len(),
        mapping_wf(nb, before.len()),
        forall|t: int| 0 <= t < nb.len() ==> 0 <= #[trigger] src[t] < i
            && entry_drawn(snap[src[t]], mesh_count) && nb[t].0 == snap[src[t]].object
            && mirrored_at(old_objs, before, old_map, snap[src[t]], nb[t].1, kps[t]),
        forall|k: int| 0 <= k < old_objs.len() && !ids_contain(nb, k) ==> #[trigger] before[k] == old_objs[k],
        kp >= 0 ==> kp < old_map.len() && old_map[kp].0 == snap[i].object && old_map[kp].1 == id
            && after.len() == before.len()
            && (forall|j: int| 0 <= j < before.len() && j != id.0 ==> #[trigger] after[j] == before[j])
            && synced_object(before[id.0 as int], after[id.0 as int], snap[i].mesh->0, snap[i].kind, snap[i].transform@,
                snap[i].material, snap[i].flags),
        kp < 0 ==> (forall|p: int| 0 <= p < old_map.len() ==> #[trigger] old_map[p].0 != snap[i].object)
            && id.0 == before.len()
            && after.len() == before.len() + 1
            && after.drop_last() == before
            && fresh_object(after.last(), snap[i].mesh->0, snap[i].kind, snap[i].transform@, snap[i].material, snap[i].flags),
    ensures
        old_objs.len() <= after.len(),
        mapping_wf(nb.push((snap[i].object, id)), after.len()),
        forall|t: int| 0 <= t < nb.len() + 1 ==> 0 <= #[trigger] src.push(i)[t] < i + 1
            && entry_drawn(snap[src.push(i)[t]], mesh_count)
            && nb.push((snap[i].object, id))[t].0 == snap[src.push(i)[t]].object
            && mirrored_at(old_objs, after, old_map, snap[src.push(i)[t]], nb.push((snap[i].object, id))[t].1,
                kps.push(kp)[t]),
        forall|k: int| 0 <= k < old_objs.len() && !ids_contain(nb.push((snap[i].object, id)), k)
            ==> #[trigger] after[k] == old_objs[k],
{
    let nn = nb.push((snap[i].object, id));
    let ns = src.push(i);
    let nk = kps.push(kp);
    // The new entry's scene object differs from every earlier one.
    assert forall|t: int| 0 <= t < nb.len() implies #[trigger] nb[t].1 != id by {
        let e = snap[src[t]];
        assert(mirrored_at(old_objs, before, old_map, e, nb[t].1, kps[t]));
        if kp >= 0 {
            if kps[t] >= 0 {
                assert(old_map[kps[t]].0 == e.object);
                assert(e.object != snap[i].object);
                assert(kps[t] != kp);
                if kps[t] < kp {
                    assert(old_map[kps[t]].1 != old_map[kp].1);
                } else {
                    assert(old_map[kp].1 != old_map[kps[t]].1);
                }
            } else {
                assert((old_map[kp].1.0 as int) < old_objs.len());
            }
        } else {
            assert((nb[t].1.0 as int) < before.len());
        }
    }
    if kp >= 0 {
        assert((id.0 as int) < old_objs.len()) by {
            assert((old_map[kp].1.0 as int) < old_objs.len());
        }
    }
    assert forall|t: int| 0 <= t < nb.len() + 1 implies 0 <= #[trigger] ns[t] < i + 1
        && entry_drawn(snap[ns[t]], mesh_count) && nn[t].0 == snap[ns[t]].object
        && mirrored_at(old_objs, after, old_map, snap[ns[t]], nn[t].1, nk[t]) by {
        if t < nb.len() {
            let e = snap[src[t]];
            assert(ns[t] == src[t] && nn[t] == nb[t] && nk[t] == kps[t]);
            assert(mirrored_at(old_objs, before, old_map, e, nb[t].1, kps[t]));
            assert(nb[t].1 != id);
            if kps[t] >= 0 {
                assert((nb[t].1.0 as int) < before.len());
                if kp >= 0 {
                    assert(after[nb[t].1.0 as int] == before[nb[t].1.0 as int]);
                } else {
                    assert(after.drop_last()[nb[t].1.0 as int] == before[nb[t].1.0 as int]);
                }
            } else {
                assert((nb[t].1.0 as int) < before.len());
                if kp >= 0 {
                    assert(after[nb[t].1.0 as int] == before[nb[t].1.0 as int]);
                } else {
                    assert(after.drop_last()[nb[t].1.0 as int] == before[nb[t].1.0 as int]);
                }
            }
        } else {
            assert(ns[t] == i && nn[t] == (snap[i].object, id) && nk[t] == kp);
            if kp >= 0 {
                let k = id.0 as int;
                assert(!ids_contain(nb, k));
                assert(before[k] == old_objs[k]);
            } else {
                assert(after[id.0 as int] == after.last());
            }
        }
    }
    // The new mapping stays one to one and within the table.
    assert forall|p: int, q: int| 0 <= p < q < nn.len() implies nn[p].0 != nn[q].0 && nn[p].1 != nn[q].1 by {
        if q == nb.len() {
            assert(nn[p] == nb[p]);
            assert(nb[p].1 != id);
            assert(nb[p].0 == snap[src[p]].object);
            assert(src[p] < i);
        } else {
            assert(nn[p] == nb[p] && nn[q] == nb[q]);
        }
    }
    assert forall|p: int| 0 <= p < nn.len() implies (#[trigger] nn[p].1.0 as int) < after.len() by {
        if p < nb.len() {
            assert(nn[p] == nb[p]);
        }
    }
    // Scene objects no entry names are as they were.
    assert forall|k: int| 0 <= k < old_objs.len() && !ids_contain(nn, k) implies #[trigger] after[k] == old_objs[k] by {
        assert(!ids_contain(nb, k)) by {
            if ids_contain(nb, k) {
                let t = choose|t: int| 0 <= t < nb.len() && #[trigger] nb[t].1.0 == k;
                assert(nn[t].1.0 == k);
            }
        }
        assert(nn[nb.len() as int].1.0 == id.0);
        assert(k != id.0);
        if kp >= 0 {
            assert(after[k] == before[k]);
        } else {
            assert(after.drop_last()[k] == before[k]);
        }
    }
}

/// What the removal pass and the mirroring pass together leave: the
/// contract of [`SceneObjectTable::sync_all`] over the mirrored entries,
/// the stale objects and the untouched ones.
proof fn lemma_sync_finish(
    old_objs: Seq<SceneObject>,
    mid: Seq<SceneObject>,
    fin: Seq<SceneObject>,
    old_map: Seq<(u64, ObjectId)>,
    next: Seq<(u64, ObjectId)>,
    src: Seq<int>,
    kps: Seq<int>,
    snap: Seq<RenderObjectState>,
    mesh_count: usize,
)
    requires
        mapping_wf(old_map, old_objs.len()),
        old_objs.len() <= mid.len(),
        fin.len() == mid.len(),
        src.len() == next.len(),
        kps.len() == next.len(),
        forall|t: int| 0 <= t < next.len() ==> 0 <= #[trigger] src[t] < snap.len()
            && entry_drawn(snap[src[t]], mesh_count) && next[t].0 == snap[src[t]].object
            && mirrored_at(old_objs, mid, old_map, snap[src[t]], next[t].1, kps[t]),
        forall|j: int| 0 <= j < snap.len() && entry_drawn(#[trigger] snap[j], mesh_count)
            ==> exists|t: int| 0 <= t < next.len() && src[t] == j,
        forall|k: int| 0 <= k < old_objs.len() && !ids_contain(next, k) ==> #[trigger] mid[k] == old_objs[k],
        forall|q: int| 0 <= q < old_map.len() && !draws_object(snap, mesh_count, #[trigger] old_map[q].0)
            ==> fin[old_map[q].1.0 as int] == (SceneObject { mesh_id: MeshId(REMOVED_MESH_ID), ..mid[old_map[q].1.0 as int] }),
        forall|k: int| 0 <= k < mid.len() && !stale_upto(old_map, snap, mesh_count, old_map.len() as int, k)
            ==> #[trigger] fin[k] == mid[k],
    ensures
        forall|p: int| 0 <= p < next.len() ==> draws_object(snap, mesh_count, #[trigger] next[p].0),
        forall|i: int| 0 <= i < snap.len() && entry_drawn(#[trigger] snap[i], mesh_count) ==>
            exists|p: int| 0 <= p < next.len() && #[trigger] next[p].0 == snap[i].object
                && entry_mirrored(old_objs, fin, old_map, snap[i], next[p].1),
        forall|p: int| 0 <= p < old_map.len() && !draws_object(snap, mesh_count, #[trigger] old_map[p].0)
            ==> fin[old_map[p].1.0 as int]
                == (SceneObject { mesh_id: MeshId(REMOVED_MESH_ID), ..old_objs[old_map[p].1.0 as int] }),
        forall|k: int| 0 <= k < old_objs.len()
            && (forall|p: int| 0 <= p < old_map.len() ==> #[trigger] old_map[p].1.0 != k)
            ==> #[trigger] fin[k] == old_objs[k],
{
    assert forall|p: int| 0 <= p < next.len() implies draws_object(snap, mesh_count, #[trigger] next[p].0) by {
        assert(snap[src[p]].object == next[p].0);
    }
    // A mirrored entry's scene object is not stale.
    assert forall|t: int| 0 <= t < next.len() implies !stale_upto(old_map, snap, mesh_count, old_map.len() as int, #[trigger] next[t].1.0 as int) by {
        let e = snap[src[t]];
        let k = next[t].1.0 as int;
        if stale_upto(old_map, snap, mesh_count, old_map.len() as int, k) {
            let q = choose|q: int| 0 <= q < old_map.len() as int && !draws_object(snap, mesh_count, old_map[q].0) && #[trigger] old_map[q].1.0 == k;
            assert((old_map[q].1.0 as int) < old_objs.len());
            if kps[t] >= 0 {
                let kq = kps[t];
                if kq != q {
                    if kq < q {
                        assert(old_map[kq].1 != old_map[q].1);
                    } else {
                        assert(old_map[q].1 != old_map[kq].1);
                    }
                }
                assert(snap[src[t]].object == old_map[q].0);
            }
        }
    }
    assert forall|i: int| 0 <= i < snap.len() && entry_drawn(#[trigger] snap[i], mesh_count) implies
        exists|p: int| 0 <= p < next.len() && #[trigger] next[p].0 == snap[i].object
            && entry_mirrored(old_objs, fin, old_map, snap[i], next[p].1) by {
        let t = choose|t: int| 0 <= t < next.len() && src[t] == i;
        let k = next[t].1.0 as int;
        assert(!stale_upto(old_map, snap, mesh_count, old_map.len() as int, next[t].1.0 as int));
        assert(mirrored_at(old_objs, mid, old_map, snap[i], next[t].1, kps[t]));
        if kps[t] >= 0 {
            assert(k < old_objs.len()) by {
                assert((old_map[kps[t]].1.0 as int) < old_objs.len());
            }
        }
        assert(fin[k] == mid[k]);
        assert(mirrored_at(old_objs, fin, old_map, snap[i], next[t].1, kps[t]));
        lemma_mirrored_at(old_objs, fin, old_map, snap[i], next[t].1, kps[t]);
        assert(next[t].0 == snap[i].object);
    }
    // A stale scene object no mirrored entry names.
    assert forall|p: int| 0 <= p < old_map.len() && !draws_object(snap, mesh_count, #[trigger] old_map[p].0)
        implies fin[old_map[p].1.0 as int]
            == (SceneObject { mesh_id: MeshId(REMOVED_MESH_ID), ..old_objs[old_map[p].1.0 as int] }) by {
        let k = old_map[p].1.0 as int;
        assert(k < old_objs.len());
        assert(!ids_contain(next, k)) by {
            if ids_contain(next, k) {
                let t = choose|t: int| 0 <= t < next.len() && #[trigger] next[t].1.0 == k;
                assert(mirrored_at(old_objs, mid, old_map, snap[src[t]], next[t].1, kps[t]));
                if kps[t] >= 0 {
                    let kq = kps[t];
                    if kq != p {
                        if kq < p {
                            assert(old_map[kq].1 != old_map[p].1);
                        } else {
                            assert(old_map[p].1 != old_map[kq].1);
                        }
                    }
                    assert(snap[src[t]].object == old_map[p].0);
                }
            }
        }
        assert(mid[k] == old_objs[k]);
    }
    // Scene objects the old mapping never named are untouched.
    assert forall|k: int| 0 <= k < old_objs.len()
        && (forall|p: int| 0 <= p < old_map.len() ==> #[trigger] old_map[p].1.0 != k)
        implies #[trigger] fin[k] == old_objs[k] by {
        assert(!ids_contain(next, k)) by {
            if ids_contain(next, k) {
                let t = choose|t: int| 0 <= t < next.len() && #[trigger] next[t].1.0 == k;
                assert(mirrored_at(old_objs, mid, old_map, snap[src[t]], next[t].1, kps[t]));
                if kps[t] >= 0 {
                    assert(old_map[kps[t]].1.0 == k);
                }
            }
        }
        assert(!stale_upto(old_map, snap, mesh_count, old_map.len() as int, k)) by {
            if stale_upto(old_map, snap, mesh_count, old_map.len() as int, k) {
                let q = choose|q: int| 0 <= q < old_map.len() as int && !draws_object(snap, mesh_count, old_map[q].0) && #[trigger] old_map[q].1.0 == k;
                assert(old_map[q].1.0 != k);
            }
        }
    }
}

impl SceneObjectTable {
    /// Mirror a render-world snapshot into the table. `mapped` maps
    /// render-world objects to the scene objects they were mirrored to.
    /// Each drawn entry (it has a mesh the scene has and is visible) keeps
    /// its scene object, brought up to date from it, or gets a new one; the
    /// scene object of every mapped render-world object that is absent,
    /// hidden or without a valid mesh is marked removed. Afterwards
    /// `mapped` holds exactly the drawn entries. The only objects added are
    /// the new ones of drawn entries that were not mapped, one each, and
    /// each is named by `mapped`. The result is the number of drawn
    /// entries.
    pub fn sync_all(&mut self, mapped: &mut Vec<(u64, ObjectId)>, snapshot: &Vec<RenderObjectState>, mesh_count: usize) -> (synced: usize)
        requires
            old(self).wf(),
            old(self).objects@.len() + snapshot@.len() < u32::MAX,
            mapping_wf(old(mapped)@, old(self).objects@.len()),
            forall|i: int, j: int| 0 <= i < j < snapshot@.len() ==> snapshot@[i].object != snapshot@[j].object,
        ensures
            synced == drawn_count(snapshot@, mesh_count),
            final(self).wf(),
            final(self).objects@.len() == old(self).objects@.len() + fresh_count(snapshot@, mesh_count, old(mapped)@),
            forall|k: int| old(self).objects@.len() <= k < final(self).objects@.len()
                ==> #[trigger] ids_contain(final(mapped)@, k),
            mapping_wf(final(mapped)@, final(self).objects@.len()),
            forall|p: int| 0 <= p < final(mapped)@.len() ==> draws_object(snapshot@, mesh_count, #[trigger] final(mapped)@[p].0),
            forall|i: int| 0 <= i < snapshot@.len() && entry_drawn(#[trigger] snapshot@[i], mesh_count) ==>
                exists|p: int| 0 <= p < final(mapped)@.len() && #[trigger] final(mapped)@[p].0 == snapshot@[i].object
                    && entry_mirrored(old(self).objects@, final(self).objects@, old(mapped)@, snapshot@[i], final(mapped)@[p].1),
            forall|p: int| 0 <= p < old(mapped)@.len() && !draws_object(snapshot@, mesh_count, #[trigger] old(mapped)@[p].0)
                ==> final(self).objects@[old(mapped)@[p].1.0 as int]
                    == (SceneObject { mesh_id: MeshId(REMOVED_MESH_ID), ..old(self).objects@[old(mapped)@[p].1.0 as int] }),
            forall|k: int| 0 <= k < old(self).objects@.len()
                && (forall|p: int| 0 <= p < old(mapped)@.len() ==> #[trigger] old(mapped)@[p].1.0 != k)
                ==> #[trigger] final(self).objects@[k] == old(self).objects@[k],
    {
        let ghost old_objs = self.objects@;
        let ghost old_map = mapped@;
        let mut next: Vec<(u64, ObjectId)> = Vec::new();
        let ghost mut src: Seq<int> = Seq::empty();
        let ghost mut kps: Seq<int> = Seq::empty();
        let mut count: usize = 0;
        let mut i: usize = 0;
        while i < snapshot.len()
            invariant
                i <= snapshot@.len(),
                old_objs == old(self).objects@,
                old_map == old(mapped)@,
                mapped@ == old_map,
                mapping_wf(old_map, old_objs.len()),
                forall|a: int, b: int| 0 <= a < b < snapshot@.len() ==> snapshot@[a].object != snapshot@[b].object,
                old_objs.len() + snapshot@.len() < u32::MAX,
                self.wf(),
                old_objs.len() <= self.objects@.len() <= old_objs.len() + i,
                self.objects@.len() == old_objs.len() + fresh_count(snapshot@.take(i as int), mesh_count, old_map),
                forall|k: int| old_objs.len() <= k < self.objects@.len() ==> #[trigger] ids_contain(next@, k),
                count == drawn_count(snapshot@.take(i as int), mesh_count),
                count <= i,
                src.len() == next@.len(),
                kps.len() == next@.len(),
                mapping_wf(next@, self.objects@.len()),
                forall|t: int| 0 <= t < next@.len() ==> 0 <= #[trigger] src[t] < i
                    && entry_drawn(snapshot@[src[t]], mesh_count) && next@[t].0 == snapshot@[src[t]].object
                    && mirrored_at(old_objs, self.objects@, old_map, snapshot@[src[t]], next@[t].1, kps[t]),
                forall|j: int| 0 <= j < i && entry_drawn(#[trigger] snapshot@[j], mesh_count)
                    ==> exists|t: int| 0 <= t < next@.len() && src[t] == j,
                forall|k: int| 0 <= k < old_objs.len() && !ids_contain(next@, k)
                    ==> #[trigger] self.objects@[k] == old_objs[k],
            decreases snapshot@.len() - i,
        {
            let e = snapshot[i];
            proof {
                assert(snapshot@.take(i as int + 1).drop_last() =~= snapshot@.take(i as int));
                assert(snapshot@.take(i as int + 1).last() == snapshot@[i as int]);
            }
            if entry_is_drawn(&e, mesh_count) {
                let ghost before = self.objects@;
                let ghost nb = next@;
                assert(forall|k: int| old_objs.len() <= k < before.len() ==> #[trigger] ids_contain(nb, k));
                let found = find_mapping(mapped, e.object);
                let prior = match found {
                    Some(p) => Some(mapped[p].1),
                    None => None,
                };
                let r = self.sync_object(prior, e.mesh, e.visible, e.kind, mesh_count, e.transform, e.material, e.flags);
                let id = match r {
                    Some(id) => id,
                    None => ObjectId(0),
                };
                next.push((e.object, id));
                proof {
                    let kp: int = match found {
                        Some(p) => p as int,
                        None => -1,
                    };
                    if kp >= 0 {
                        assert((old_map[kp].1.0 as int) < old_objs.len());
                    }
                    lemma_sync_step(old_objs, before, self.objects@, old_map, nb, src, kps, snapshot@, mesh_count,
                        i as int, kp, id);
                    assert(next@ == nb.push((snapshot@[i as int].object, id)));
                    if kp >= 0 {
                        assert(is_mapped(old_map, snapshot@[i as int].object)) by {
                            assert(old_map[kp].0 == snapshot@[i as int].object);
                        }
                    } else {
                        assert(!is_mapped(old_map, snapshot@[i as int].object));
                        assert(next@[nb.len() as int].1.0 == before.len());
                    }
                    assert forall|k: int| old_objs.len() <= k < self.objects@.len() implies #[trigger] ids_contain(next@, k) by {
                        if k < before.len() {
                            assert(ids_contain(nb, k));
                            let t = choose|t: int| 0 <= t < nb.len() && #[trigger] nb[t].1.0 == k;
                            assert(next@[t] == nb[t]);
                        } else {
                            assert(next@[nb.len() as int].1.0 == k);
                        }
                    }
                    let old_src = src;
                    src = src.push(i as int);
                    kps = kps.push(kp);
                    assert forall|j: int| 0 <= j < i + 1 && entry_drawn(#[trigger] snapshot@[j], mesh_count)
                        implies exists|t: int| 0 <= t < next@.len() && src[t] == j by {
                        if j < i {
                            let t = choose|t: int| 0 <= t < nb.len() && old_src[t] == j;
                            assert(src[t] == j);
                        } else {
                            assert(src[nb.len() as int] == j);
                        }
                    }
                }
                count = count + 1;
            } else {
                proof {
                    assert forall|j: int| 0 <= j < i + 1 && entry_drawn(#[trigger] snapshot@[j], mesh_count)
                        implies exists|t: int| 0 <= t < next@.len() && src[t] == j by {
                        assert(j != i);
                    }
                }
            }
            i = i + 1;
        }
        proof {
            assert(snapshot@.take(i as int) =~= snapshot@);
        }
        let ghost mid = self.objects@;
        let mut p: usize = 0;
        while p < mapped.len()
            invariant
                p <= mapped@.len(),
                mapped@ == old_map,
                old_objs == old(self).objects@,
                mapping_wf(old_map, old_objs.len()),
                old_objs.len() <= mid.len(),
                self.wf(),
                self.objects@.len() == mid.len(),
                forall|q: int| 0 <= q < p && !draws_object(snapshot@, mesh_count, #[trigger] old_map[q].0)
                    ==> self.objects@[old_map[q].1.0 as int]
                        == (SceneObject { mesh_id: MeshId(REMOVED_MESH_ID), ..mid[old_map[q].1.0 as int] }),
                forall|k: int| 0 <= k < mid.len() && !stale_upto(old_map, snapshot@, mesh_count, p as int, k)
                    ==> #[trigger] self.objects@[k] == mid[k],
            decreases mapped@.len() - p,
        {
            let (o, id) = mapped[p];
            let ghost before = self.objects@;
            let drawn = snapshot_draws(snapshot, mesh_count, o);
            if !drawn {
                self.remove_object_deferred(id);
            }
            proof {
                let k0 = id.0 as int;
                assert(k0 < old_objs.len()) by {
                    assert((old_map[p as int].1.0 as int) < old_objs.len());
                }
                assert forall|q: int| 0 <= q < p + 1 && !draws_object(snapshot@, mesh_count, #[trigger] old_map[q].0)
                    implies self.objects@[old_map[q].1.0 as int]
                        == (SceneObject { mesh_id: MeshId(REMOVED_MESH_ID), ..mid[old_map[q].1.0 as int] }) by {
                    if q < p {
                        assert(old_map[q].1 != old_map[p as int].1);
                    } else {
                        assert(!stale_upto(old_map, snapshot@, mesh_count, p as int, k0)) by {
                            if stale_upto(old_map, snapshot@, mesh_count, p as int, k0) {
                                let w = choose|w: int| 0 <= w < p && !draws_object(snapshot@, mesh_count, old_map[w].0) && #[trigger] old_map[w].1.0 == k0;
                                assert(old_map[w].1 != old_map[p as int].1);
                            }
                        }
                        assert(before[k0] == mid[k0]);
                    }
                }
                assert forall|k: int| 0 <= k < mid.len() && !stale_upto(old_map, snapshot@, mesh_count, p + 1, k)
                    implies #[trigger] self.objects@[k] == mid[k] by {
                    assert(!stale_upto(old_map, snapshot@, mesh_count, p as int, k)) by {
                        if stale_upto(old_map, snapshot@, mesh_count, p as int, k) {
                            let w = choose|w: int| 0 <= w < p && !draws_object(snapshot@, mesh_count, old_map[w].0) && #[trigger] old_map[w].1.0 == k;
                            assert(old_map[w].1.0 == k);
                        }
                    }
                    if !drawn {
                        assert(old_map[p as int].1.0 == k0);
                        assert(k != k0);
                    }
                }
            }
            p = p + 1;
        }
        proof {
            lemma_sync_finish(old_objs, mid, self.objects@, old_map, next@, src, kps, snapshot@, mesh_count);
        }
        *mapped = next;
        count
    }
}

/// The message a draw into output `name` of depth format `format` is
/// refused with.
pub open spec fn depth_output_message(name: Seq<char>, format: Format) -> Seq<char> {
    "Scene::draw output '"@ + name + "' has depth format "@ + format_debug_text(format)
        + "; use a colour-renderable format"@
}

/// The message a draw into output `name` that is no render target is
/// refused with; `usage` is the text of the usage it was created with.
pub open spec fn usage_output_message(name: Seq<char>, usage: Seq<char>) -> Seq<char> {
    "Scene::draw output '"@ + name + "' requires ImageUsage::RENDER_TARGET but was created with "@ + usage
}

/// Whether a format is a depth format, which a scene cannot be drawn into.
pub open spec fn is_depth_format(f: Format) -> bool {
    f == Format::Depth32Float || f == Format::Depth24Stencil8
}

/// Check that a scene can be drawn into output `name` of format `format`:
/// a depth format is refused first, then an output not usable as a render
/// target (`usage` is the text of the usage it has); otherwise it passes.
pub fn check_draw_output(name: &str, format: Format, render_target: bool, usage: &str) -> (r: Result<(), EngineError>)
    ensures
        is_depth_format(format) ==> (r matches Err(EngineError::InvalidInput(m))
            && m@ == depth_output_message(name@, format)),
        !is_depth_format(format) && !render_target ==> (r matches Err(EngineError::InvalidInput(m))
            && m@ == usage_output_message(name@, usage@)),
        !is_depth_format(format) && render_target ==> r is Ok,
{
    if format == Format::Depth32Float || format == Format::Depth24Stencil8 {
        let m = String::from_str("Scene::draw output '").concat(name).concat("' has depth format ")
            .concat(format_debug_name(format)).concat("; use a colour-renderable format");
        return Err(EngineError::InvalidInput(m));
    }
    if !render_target {
        let m = String::from_str("Scene::draw output '").concat(name)
            .concat("' requires ImageUsage::RENDER_TARGET but was created with ").concat(usage);
        return Err(EngineError::InvalidInput(m));
    }
    Ok(())
}

/// In a table whose ids address their objects and that has room for one
/// more id, adding an object keeps ids addressing objects, and reading the
/// new object's transform gives back the one it was added with.
pub proof fn lemma_added_object_is_addressed(before: SceneObjectTable, after: SceneObjectTable, id: ObjectId, transform: Seq<u32>)
    requires
        before.wf(),
        before.objects@.len() < u32::MAX,
        id == ObjectId(before.next_object_id),
        after.next_object_id == before.next_object_id.wrapping_add(1),
        after.objects@.len() == before.objects@.len() + 1,
        after.objects@.last().transform_spec() == transform,
    ensures
        after.wf(),
        id.0 < after.objects@.len(),
        after.objects@[id.0 as int].transform_spec() == transform,
{
}

/// The most samples a render target is created with.
pub const MAX_RENDER_TARGET_SAMPLES: u8 = 16;

/// The sample count a render target gets: the requested count clamped to at
/// least one and at most the device's colour sample limit (itself taken as
/// at least one), then capped at sixteen.
pub open spec fn clamped_samples(requested: u8, device_max: u8) -> u8 {
    let hi: u8 = if device_max < 1 { 1 } else { device_max };
    let c: u8 = if requested < 1 { 1 } else if requested > hi { hi } else { requested };
    if c > MAX_RENDER_TARGET_SAMPLES { MAX_RENDER_TARGET_SAMPLES } else { c }
}

/// A persistent image a camera renders into and later passes sample by name.
#[derive(Clone, Debug)]
pub struct RenderTarget {
    pub name: String,
    pub width: u32,
    pub height: u32,
    pub format: Format,
    pub samples: u8,
}

impl RenderTarget {
    /// A single-sampled target named `name` of `width` by `height` in `format`.
    pub fn new(name: &str, width: u32, height: u32, format: Format, device_max_samples: u8) -> (r: RenderTarget)
        ensures
            r.name@ == name@,
            r.width == width,
            r.height == height,
            r.format == format,
            r.samples == clamped_samples(1, device_max_samples),
            r.samples == 1,
    {
        RenderTarget::with_samples(name, width, height, format, 1, device_max_samples)
    }

    /// A target with `samples` samples per pixel, clamped to what the device
    /// (whose colour sample limit is `device_max_samples`) supports and to
    /// sixteen.
    pub fn with_samples(name: &str, width: u32, height: u32, format: Format, samples: u8, device_max_samples: u8) -> (r: RenderTarget)
        ensures
            r.name@ == name@,
            r.width == width,
            r.height == height,
            r.format == format,
            r.samples == clamped_samples(samples, device_max_samples),
            1 <= r.samples <= MAX_RENDER_TARGET_SAMPLES,
    {
        let hi: u8 = if device_max_samples < 1 { 1 } else { device_max_samples };
        let c: u8 = if samples < 1 { 1 } else if samples > hi { hi } else { samples };
        let s: u8 = if c > MAX_RENDER_TARGET_SAMPLES { MAX_RENDER_TARGET_SAMPLES } else { c };
        RenderTarget { name: name.to_string(), width, height, format, samples: s }
    }

    /// The target's name.
    pub fn name(&self) -> (r: &str)
        ensures
            r@ == self.name@,
    {
        self.name.as_str()
    }

    /// The width in pixels.
    pub fn width(&self) -> (r: u32)
        ensures
            r == self.width,
    {
        self.width
    }

    /// The height in pixels.
    pub fn height(&self) -> (r: u32)
        ensures
            r == self.height,
    {
        self.height
    }

    /// The samples per pixel.
    pub fn samples(&self) -> (r: u8)
        ensures
            r == self.samples,
    {
        self.samples
    }
}

/// The sample count is a clamp: a request the device supports, up to
/// sixteen, is kept as it is; any request ends between one and the device
/// limit (and sixteen).
pub proof fn lemma_samples_clamp(requested: u8, device_max: u8)
    ensures
        1 <= requested <= device_max && requested <= MAX_RENDER_TARGET_SAMPLES ==> clamped_samples(requested, device_max) == requested,
        1 <= clamped_samples(requested, device_max) <= MAX_RENDER_TARGET_SAMPLES,
        device_max >= 1 ==> clamped_samples(requested, device_max) <= device_max,
        clamped_samples(clamped_samples(requested, device_max), device_max) == clamped_samples(requested, device_max),
{
}

/// Where a camera writes its output: an offscreen render target.
#[derive(Clone, Debug)]
pub enum CameraOutput {
    Offscreen(RenderTarget),
}

} // verus!
