//! Instance batches: how many static and dynamic instances of one mesh are
//! drawn, and when their GPU buffers (instances, indirect commands, bounds)
//! must be reallocated or re-uploaded. Buffers grow to the next power of two
//! (at least four elements) so that steady growth reallocates rarely. The
//! buffers themselves are created and written by the caller, which reports
//! back what it did. A frame's batches are planned from the scene's
//! objects: which objects each mesh's batch draws, static apart from dynamic.
use vstd::prelude::*;

verus! {

/// Whether `p` is a power of two.
pub open spec fn is_power_of_two(p: nat) -> bool
    decreases p,
{
    if p == 1 {
        true
    } else if p == 0 || p % 2 != 0 {
        false
    } else {
        is_power_of_two(p / 2)
    }
}

/// `p` is the smallest power of two at least `n`.
pub open spec fn is_next_power_of_two(n: nat, p: nat) -> bool {
    &&& is_power_of_two(p)
    &&& p >= n
    &&& (p == 1 || p / 2 < n)
}

/// The smallest power of two at least `n` (one for zero), as
/// `usize::next_power_of_two` computes it. Inputs whose result does not
/// fit are left out.
pub fn next_power_of_two(n: usize) -> (r: usize)
    requires
        n <= usize::MAX / 2 + 1,
    ensures
        is_next_power_of_two(n as nat, r as nat),
{
    let mut p: usize = 1;
    while p < n
        invariant
            n <= usize::MAX / 2 + 1,
            is_power_of_two(p as nat),
            p == 1 || p / 2 < n,
            p >= 1,
        decreases usize::MAX - p,
    {
        assert(p <= usize::MAX / 2);
        let q = p * 2;
        assert(q % 2 == 0 && q / 2 == p);
        p = q;
    }
    p
}

/// The capacity a buffer for `count` elements grows to: the next power of
/// two, at least four.
pub open spec fn grown_capacity(count: nat, p: nat) -> nat {
    if p < 4 { 4 } else { p }
}

/// The capacity for `count` elements.
pub fn grow_capacity(count: usize) -> (r: usize)
    requires
        count <= usize::MAX / 2 + 1,
    ensures
        exists|p: nat| is_next_power_of_two(count as nat, p) && r == grown_capacity(count as nat, p),
        r >= count,
        r >= 4,
{
    let p = next_power_of_two(count);
    if p < 4 { 4 } else { p }
}

/// The instances of one mesh and the state of their GPU buffers.
#[derive(Clone, Copy, Debug, PartialEq, Eq, Structural)]
pub struct InstanceBatch {
    pub mesh_idx: u32,
    /// Number of static instances (uploaded once, then when they change).
    pub static_count: usize,
    /// Number of dynamic instances (uploaded every frame, after the static ones).
    pub dynamic_count: usize,
    pub has_buffer: bool,
    /// Instance slots the instance buffer holds.
    pub buffer_capacity: usize,
    /// Whether the static instances must be uploaded again.
    pub static_dirty: bool,
    pub has_indirect_buffer: bool,
    pub indirect_capacity: usize,
    pub has_bounds_buffer: bool,
    pub bounds_capacity: usize,
}

impl InstanceBatch {
    /// The instance count fits the `u32` a draw takes, and a buffer grown
    /// for it fits in memory.
    pub open spec fn wf(&self) -> bool {
        &&& self.static_count + self.dynamic_count <= u32::MAX
        &&& self.static_count + self.dynamic_count <= usize::MAX / 2 + 1
    }

    /// The number of instances drawn.
    pub open spec fn total(&self) -> nat {
        (self.static_count + self.dynamic_count) as nat
    }

    /// An empty batch for mesh `mesh_idx`, with no buffers.
    pub fn new(mesh_idx: u32) -> (r: InstanceBatch)
        ensures
            r.wf(),
            r == (InstanceBatch {
                mesh_idx,
                static_count: 0,
                dynamic_count: 0,
                has_buffer: false,
                buffer_capacity: 0,
                static_dirty: false,
                has_indirect_buffer: false,
                indirect_capacity: 0,
                has_bounds_buffer: false,
                bounds_capacity: 0,
            }),
    {
        InstanceBatch {
            mesh_idx,
            static_count: 0,
            dynamic_count: 0,
            has_buffer: false,
            buffer_capacity: 0,
            static_dirty: false,
            has_indirect_buffer: false,
            indirect_capacity: 0,
            has_bounds_buffer: false,
            bounds_capacity: 0,
        }
    }

    /// The number of instances drawn.
    pub fn total_count(&self) -> (r: u32)
        requires
            self.wf(),
        ensures
            r == self.total(),
    {
        (self.static_count + self.dynamic_count) as u32
    }

    /// Before an upload: the capacity to allocate a new instance buffer with,
    /// or `None` when the current one holds every instance (or there is
    /// nothing to draw).
    pub fn instance_allocation(&self) -> (r: Option<usize>)
        requires
            self.wf(),
        ensures
            self.total() == 0 ==> r is None,
            self.total() > 0 ==> (r is Some <==> (self.total() > self.buffer_capacity || !self.has_buffer)),
            r matches Some(c) ==> c >= self.total() && c >= 4
                && exists|p: nat| is_next_power_of_two(self.total(), p) && c == grown_capacity(self.total(), p),
    {
        let total = (self.static_count + self.dynamic_count) as usize;
        if total == 0 {
            return None;
        }
        if total > self.buffer_capacity || !self.has_buffer {
            Some(grow_capacity(total))
        } else {
            None
        }
    }

    /// A new instance buffer of `capacity` slots was created: every static
    /// instance must be uploaded to it.
    pub fn instance_buffer_allocated(&mut self, capacity: usize)
        ensures
            *final(self) == (InstanceBatch { has_buffer: true, buffer_capacity: capacity, static_dirty: true, ..*old(self) }),
    {
        self.has_buffer = true;
        self.buffer_capacity = capacity;
        self.static_dirty = true;
    }

    /// Whether the static instances must be uploaded now: there are some,
    /// and they changed (or the buffer is new).
    pub fn static_upload_needed(&self) -> (r: bool)
        ensures
            r == (self.static_dirty && self.static_count > 0),
    {
        self.static_dirty && self.static_count > 0
    }

    /// The static instances were uploaded.
    pub fn static_uploaded(&mut self)
        ensures
            *final(self) == (InstanceBatch { static_dirty: false, ..*old(self) }),
    {
        self.static_dirty = false;
    }

    /// The slot the dynamic instances are uploaded at (right after the
    /// static ones), or `None` when there are none.
    pub fn dynamic_upload_slot(&self) -> (r: Option<usize>)
        ensures
            r == (if self.dynamic_count > 0 { Some(self.static_count) } else { None::<usize> }),
    {
        if self.dynamic_count > 0 { Some(self.static_count) } else { None }
    }

    /// The capacity to allocate a new indirect-command buffer with for
    /// `count` commands, or `None` when the current one holds them (or there
    /// are none).
    pub fn indirect_allocation(&self, count: usize) -> (r: Option<usize>)
        requires
            count <= usize::MAX / 2 + 1,
        ensures
            count == 0 ==> r is None,
            count > 0 ==> (r is Some <==> (count > self.indirect_capacity || !self.has_indirect_buffer)),
            r matches Some(c) ==> c >= count && c >= 4
                && exists|p: nat| is_next_power_of_two(count as nat, p) && c == grown_capacity(count as nat, p),
    {
        if count == 0 {
            return None;
        }
        if count > self.indirect_capacity || !self.has_indirect_buffer {
            Some(grow_capacity(count))
        } else {
            None
        }
    }

    /// A new indirect-command buffer of `capacity` commands was created.
    pub fn indirect_buffer_allocated(&mut self, capacity: usize)
        ensures
            *final(self) == (InstanceBatch { has_indirect_buffer: true, indirect_capacity: capacity, ..*old(self) }),
    {
        self.has_indirect_buffer = true;
        self.indirect_capacity = capacity;
    }

    /// The capacity to allocate a new bounds buffer with for `count`
    /// bounding spheres, or `None` when the current one holds them (or there
    /// are none).
    pub fn bounds_allocation(&self, count: usize) -> (r: Option<usize>)
        requires
            count <= usize::MAX / 2 + 1,
        ensures
            count == 0 ==> r is None,
            count > 0 ==> (r is Some <==> (count > self.bounds_capacity || !self.has_bounds_buffer)),
            r matches Some(c) ==> c >= count && c >= 4
                && exists|p: nat| is_next_power_of_two(count as nat, p) && c == grown_capacity(count as nat, p),
    {
        if count == 0 {
            return None;
        }
        if count > self.bounds_capacity || !self.has_bounds_buffer {
            Some(grow_capacity(count))
        } else {
            None
        }
    }

    /// A new bounds buffer of `capacity` spheres was created.
    pub fn bounds_buffer_allocated(&mut self, capacity: usize)
        ensures
            *final(self) == (InstanceBatch { has_bounds_buffer: true, bounds_capacity: capacity, ..*old(self) }),
    {
        self.has_bounds_buffer = true;
        self.bounds_capacity = capacity;
    }
}

/// Once the buffer a batch asked for is allocated, the batch asks for no
/// other until it grows, and its static instances are uploaded next.
pub proof fn lemma_allocation_settles(b: InstanceBatch, c: usize)
    requires
        b.wf(),
        b.total() > 0,
        c >= b.total(),
    ensures
        ({
            let a = InstanceBatch { has_buffer: true, buffer_capacity: c, static_dirty: true, ..b };
            &&& !(a.total() > a.buffer_capacity || !a.has_buffer)
            &&& (a.static_dirty && a.static_count > 0) == (b.static_count > 0)
        }),
{
}

/// The next power of two is unique.
pub proof fn lemma_next_power_of_two_unique(n: nat, p: nat, q: nat)
    requires
        is_next_power_of_two(n, p),
        is_next_power_of_two(n, q),
    ensures
        p == q,
{
    if p < q {
        lemma_pow2_le_half(p, q);
    } else if q < p {
        lemma_pow2_le_half(q, p);
    }
}

/// A power of two below another is at most half of it.
proof fn lemma_pow2_le_half(p: nat, q: nat)
    requires
        is_power_of_two(p),
        is_power_of_two(q),
        p < q,
    ensures
        p <= q / 2,
    decreases q,
{
    if q / 2 > 1 && p < q / 2 {
        lemma_pow2_le_half(p, q / 2);
    } else if p > q / 2 {
        // q is even with q / 2 a power of two; p lies strictly between them
        if p > 1 {
            lemma_pow2_le_half(q / 2, p);
        }
    }
}

// ── Batch planning ───────────────────────────────────────────────────────────

/// The objects one mesh's batch draws this frame, by index into the scene's
/// objects, static ones apart from dynamic ones, each list in object order.
#[derive(Clone, Debug)]
pub struct BatchPlan {
    pub mesh_id: u32,
    pub static_objects: Vec<usize>,
    pub dynamic_objects: Vec<usize>,
}

/// Object `i` of `objs` (mesh id, static, visible) is drawn with mesh `m`:
/// its mesh is `m`, the scene has that mesh, and it is visible.
pub open spec fn drawn_with(objs: Seq<(u32, bool, bool)>, mesh_count: usize, i: int, m: u32) -> bool {
    &&& 0 <= i < objs.len()
    &&& objs[i].0 == m
    &&& (objs[i].0 as int) < mesh_count as int
    &&& objs[i].2
}

/// The indices of `s` increase.
pub open spec fn increasing(s: Seq<usize>) -> bool {
    forall|a: int, b: int| 0 <= a < b < s.len() ==> s[a] < s[b]
}

/// `plans` is the batch plan of the objects before index `n` of `objs`:
/// one batch per mesh with drawn objects, holding exactly those objects,
/// static and dynamic apart and in order.
pub open spec fn planned_upto(plans: Seq<BatchPlan>, objs: Seq<(u32, bool, bool)>, mesh_count: usize, n: int) -> bool {
    &&& forall|k1: int, k2: int| 0 <= k1 < k2 < plans.len() ==> plans[k1].mesh_id != plans[k2].mesh_id
    &&& forall|k: int, j: usize| 0 <= k < plans.len() ==> (#[trigger] plans[k].static_objects@.contains(j)
        <==> ((j as int) < n && drawn_with(objs, mesh_count, j as int, plans[k].mesh_id) && objs[j as int].1))
    &&& forall|k: int, j: usize| 0 <= k < plans.len() ==> (#[trigger] plans[k].dynamic_objects@.contains(j)
        <==> ((j as int) < n && drawn_with(objs, mesh_count, j as int, plans[k].mesh_id) && !objs[j as int].1))
    &&& forall|k: int| 0 <= k < plans.len() ==> increasing(#[trigger] plans[k].static_objects@)
        && increasing(plans[k].dynamic_objects@)
    &&& forall|j: int| 0 <= j < n && drawn_with(objs, mesh_count, j, objs[j].0)
        ==> exists|k: int| 0 <= k < plans.len() && #[trigger] plans[k].mesh_id == objs[j].0
}

/// Some object before index `n` is drawn with mesh `m`.
pub open spec fn drawn_before(objs: Seq<(u32, bool, bool)>, mesh_count: usize, m: u32, n: int) -> bool {
    exists|i: int| i < n && #[trigger] drawn_with(objs, mesh_count, i, m)
}

/// Batches come in the order their meshes are first drawn: every batch's
/// mesh is drawn, and every object drawn with a later batch's mesh comes
/// after some object drawn with each earlier batch's mesh.
pub open spec fn first_use_order(plans: Seq<BatchPlan>, objs: Seq<(u32, bool, bool)>, mesh_count: usize) -> bool {
    &&& forall|k: int| 0 <= k < plans.len() ==> drawn_before(objs, mesh_count, #[trigger] plans[k].mesh_id, objs.len() as int)
    &&& forall|k1: int, k2: int, i2: int| #![trigger drawn_with(objs, mesh_count, i2, plans[k2].mesh_id), plans[k1]]
        0 <= k1 < k2 < plans.len() && drawn_with(objs, mesh_count, i2, plans[k2].mesh_id)
        ==> drawn_before(objs, mesh_count, plans[k1].mesh_id, i2)
}

/// Plan this frame's batches from the scene's objects, each given as
/// (mesh id, static, visible): an object is drawn when its mesh is one of
/// the scene's `mesh_count` meshes and it is visible; each mesh with a drawn
/// object gets one batch, in the order its mesh is first drawn.
pub fn plan_batches(objects: &Vec<(u32, bool, bool)>, mesh_count: usize) -> (r: Vec<BatchPlan>)
    ensures
        planned_upto(r@, objects@, mesh_count, objects@.len() as int),
        first_use_order(r@, objects@, mesh_count),
{
    let mut plans: Vec<BatchPlan> = Vec::new();
    let ghost mut firsts: Seq<int> = Seq::empty();
    let mut i: usize = 0;
    while i < objects.len()
        invariant
            i <= objects@.len(),
            planned_upto(plans@, objects@, mesh_count, i as int),
            firsts.len() == plans@.len(),
            forall|k: int| 0 <= k < plans@.len() ==> 0 <= #[trigger] firsts[k] < i
                && drawn_with(objects@, mesh_count, firsts[k], plans@[k].mesh_id)
                && forall|j: int| 0 <= j < firsts[k] ==> !drawn_with(objects@, mesh_count, j, plans@[k].mesh_id),
            forall|k1: int, k2: int| 0 <= k1 < k2 < plans@.len() ==> firsts[k1] < firsts[k2],
        decreases objects@.len() - i,
    {
        let (m, is_static, visible) = objects[i];
        if (m as usize) < mesh_count && visible {
            let mut k: usize = 0;
            while k < plans.len() && plans[k].mesh_id != m
                invariant
                    k <= plans@.len(),
                    forall|q: int| 0 <= q < k ==> (#[trigger] plans@[q]).mesh_id != m,
                decreases plans@.len() - k,
            {
                k = k + 1;
            }
            let ghost before = plans@;
            let ghost before_firsts = firsts;
            if k == plans.len() {
                proof {
                    assert forall|j: int| 0 <= j < i implies !drawn_with(objects@, mesh_count, j, m) by {
                        if drawn_with(objects@, mesh_count, j, m) {
                            assert(objects@[j].0 == m);
                            let q = choose|q: int| 0 <= q < plans@.len() && #[trigger] plans@[q].mesh_id == objects@[j].0;
                        }
                    }
                }
                let mut sv: Vec<usize> = Vec::new();
                let mut dv: Vec<usize> = Vec::new();
                if is_static {
                    sv.push(i);
                } else {
                    dv.push(i);
                }
                plans.push(BatchPlan { mesh_id: m, static_objects: sv, dynamic_objects: dv });
                proof {
                    firsts = firsts.push(i as int);
                    lemma_plan_new_batch(before, plans@, objects@, mesh_count, i);
                }
            } else {
                let ghost old_b = plans@[k as int];
                let mut b = plans.remove(k);
                if is_static {
                    b.static_objects.push(i);
                } else {
                    b.dynamic_objects.push(i);
                }
                plans.insert(k, b);
                proof {
                    lemma_plan_extend_batch(before, plans@, objects@, mesh_count, i, k as int);
                    assert forall|q: int| 0 <= q < plans@.len() implies 0 <= #[trigger] firsts[q] < i + 1
                        && drawn_with(objects@, mesh_count, firsts[q], plans@[q].mesh_id)
                        && forall|j: int| 0 <= j < firsts[q] ==> !drawn_with(objects@, mesh_count, j, plans@[q].mesh_id) by {
                        assert(plans@[q].mesh_id == before[q].mesh_id);
                    }
                }
            }
        } else {
            proof {
                lemma_plan_skip(plans@, objects@, mesh_count, i);
            }
        }
        i = i + 1;
    }
    proof {
        lemma_first_use(plans@, objects@, mesh_count, firsts);
    }
    plans
}

/// Batches whose meshes are first drawn at increasing indices `firsts` come
/// in first-use order.
proof fn lemma_first_use(plans: Seq<BatchPlan>, objs: Seq<(u32, bool, bool)>, mesh_count: usize, firsts: Seq<int>)
    requires
        firsts.len() == plans.len(),
        forall|k: int| 0 <= k < plans.len() ==> 0 <= #[trigger] firsts[k]
            && drawn_with(objs, mesh_count, firsts[k], plans[k].mesh_id)
            && forall|j: int| 0 <= j < firsts[k] ==> !drawn_with(objs, mesh_count, j, plans[k].mesh_id),
        forall|k1: int, k2: int| 0 <= k1 < k2 < plans.len() ==> firsts[k1] < firsts[k2],
    ensures
        first_use_order(plans, objs, mesh_count),
{
    assert forall|k: int| 0 <= k < plans.len() implies drawn_before(objs, mesh_count, #[trigger] plans[k].mesh_id, objs.len() as int) by {
        assert(drawn_with(objs, mesh_count, firsts[k], plans[k].mesh_id));
    }
    assert forall|k1: int, k2: int, i2: int| #![trigger drawn_with(objs, mesh_count, i2, plans[k2].mesh_id), plans[k1]]
        0 <= k1 < k2 < plans.len() && drawn_with(objs, mesh_count, i2, plans[k2].mesh_id)
        implies drawn_before(objs, mesh_count, plans[k1].mesh_id, i2) by {
        assert(firsts[k1] < firsts[k2]);
        if i2 < firsts[k2] {
            assert(!drawn_with(objs, mesh_count, i2, plans[k2].mesh_id));
        }
        assert(drawn_with(objs, mesh_count, firsts[k1], plans[k1].mesh_id));
    }
}

/// A batch opened for the first drawn object of its mesh, at index `i`,
/// keeps the plan a plan of one more object.
proof fn lemma_plan_new_batch(before: Seq<BatchPlan>, after: Seq<BatchPlan>, objs: Seq<(u32, bool, bool)>, mesh_count: usize, i: usize)
    requires
        (i as int) < objs.len(),
        planned_upto(before, objs, mesh_count, i as int),
        drawn_with(objs, mesh_count, i as int, objs[i as int].0),
        forall|q: int| 0 <= q < before.len() ==> before[q].mesh_id != objs[i as int].0,
        after.len() == before.len() + 1,
        forall|q: int| 0 <= q < before.len() ==> #[trigger] after[q] == before[q],
        after.last().mesh_id == objs[i as int].0,
        after.last().static_objects@ == if objs[i as int].1 { seq![i] } else { Seq::<usize>::empty() },
        after.last().dynamic_objects@ == if objs[i as int].1 { Seq::<usize>::empty() } else { seq![i] },
    ensures
        planned_upto(after, objs, mesh_count, i + 1),
{
    let n = before.len() as int;
    assert forall|k: int, j: usize| 0 <= k < after.len() implies (#[trigger] after[k].static_objects@.contains(j)
        <==> ((j as int) < i + 1 && drawn_with(objs, mesh_count, j as int, after[k].mesh_id) && objs[j as int].1)) by {
        if k < n {
            assert(after[k] == before[k]);
        } else {
            if after[k].static_objects@.contains(j) {
                let x = choose|x: int| 0 <= x < after[k].static_objects@.len() && after[k].static_objects@[x] == j;
            }
            if (j as int) < i + 1 && drawn_with(objs, mesh_count, j as int, after[k].mesh_id) && objs[j as int].1 {
                assert(after[k].static_objects@[0] == i);
            }
        }
    }
    assert forall|k: int, j: usize| 0 <= k < after.len() implies (#[trigger] after[k].dynamic_objects@.contains(j)
        <==> ((j as int) < i + 1 && drawn_with(objs, mesh_count, j as int, after[k].mesh_id) && !objs[j as int].1)) by {
        if k < n {
            assert(after[k] == before[k]);
        } else {
            if after[k].dynamic_objects@.contains(j) {
                let x = choose|x: int| 0 <= x < after[k].dynamic_objects@.len() && after[k].dynamic_objects@[x] == j;
            }
            if (j as int) < i + 1 && drawn_with(objs, mesh_count, j as int, after[k].mesh_id) && !objs[j as int].1 {
                assert(after[k].dynamic_objects@[0] == i);
            }
        }
    }
    assert forall|k: int| 0 <= k < after.len() implies increasing(#[trigger] after[k].static_objects@)
        && increasing(after[k].dynamic_objects@) by {
        if k < n {
            assert(after[k] == before[k]);
        }
    }
    assert forall|j: int| 0 <= j < i + 1 && drawn_with(objs, mesh_count, j, objs[j].0)
        implies exists|k: int| 0 <= k < after.len() && #[trigger] after[k].mesh_id == objs[j].0 by {
        if j < i {
            let q = choose|q: int| 0 <= q < before.len() && #[trigger] before[q].mesh_id == objs[j].0;
            assert(after[q] == before[q]);
        } else {
            assert(after[n].mesh_id == objs[j].0);
        }
    }
    assert forall|k1: int, k2: int| 0 <= k1 < k2 < after.len() implies after[k1].mesh_id != after[k2].mesh_id by {
        assert(after[k1] == before[k1]);
        if k2 < n {
            assert(after[k2] == before[k2]);
        }
    }
}

/// Adding object `i` to the list `s0` of batch `k` keeps the list exactly
/// the batch's objects of that kind up to `i` and increasing.
proof fn lemma_plan_push(s0: Seq<usize>, s1: Seq<usize>, objs: Seq<(u32, bool, bool)>, mesh_count: usize, i: usize, m: u32, kind: bool)
    requires
        (i as int) < objs.len(),
        drawn_with(objs, mesh_count, i as int, m),
        forall|j: usize| #[trigger] s0.contains(j)
            <==> ((j as int) < i && drawn_with(objs, mesh_count, j as int, m) && objs[j as int].1 == kind),
        increasing(s0),
        s1 == if objs[i as int].1 == kind { s0.push(i) } else { s0 },
    ensures
        forall|j: usize| #[trigger] s1.contains(j)
            <==> ((j as int) < i + 1 && drawn_with(objs, mesh_count, j as int, m) && objs[j as int].1 == kind),
        increasing(s1),
{
    assert forall|x: int| 0 <= x < s0.len() implies (s0[x] as int) < i by {
        assert(s0.contains(s0[x]));
    }
    assert forall|j: usize| #[trigger] s1.contains(j)
        <==> ((j as int) < i + 1 && drawn_with(objs, mesh_count, j as int, m) && objs[j as int].1 == kind) by {
        if s1.contains(j) {
            let x = choose|x: int| 0 <= x < s1.len() && s1[x] == j;
            if x < s0.len() {
                assert(s0[x] == j);
                assert(s0.contains(j));
            }
        }
        if (j as int) < i + 1 && drawn_with(objs, mesh_count, j as int, m) && objs[j as int].1 == kind {
            if (j as int) < i {
                assert(s0.contains(j));
                let x = choose|x: int| 0 <= x < s0.len() && s0[x] == j;
                assert(s1[x] == j);
            } else {
                assert(s1[s0.len() as int] == i);
            }
        }
        if !(objs[i as int].1 == kind) && j == i {
            assert(!s0.contains(i));
        }
    }
}

/// Adding object `i` to the batch `k` of its mesh keeps the plan a plan of
/// one more object.
proof fn lemma_plan_extend_batch(before: Seq<BatchPlan>, after: Seq<BatchPlan>, objs: Seq<(u32, bool, bool)>, mesh_count: usize, i: usize, k: int)
    requires
        (i as int) < objs.len(),
        planned_upto(before, objs, mesh_count, i as int),
        drawn_with(objs, mesh_count, i as int, objs[i as int].0),
        0 <= k < before.len(),
        before[k].mesh_id == objs[i as int].0,
        after.len() == before.len(),
        forall|q: int| 0 <= q < before.len() && q != k ==> #[trigger] after[q] == before[q],
        after[k].mesh_id == before[k].mesh_id,
        after[k].static_objects@ == if objs[i as int].1 { before[k].static_objects@.push(i) } else { before[k].static_objects@ },
        after[k].dynamic_objects@ == if objs[i as int].1 { before[k].dynamic_objects@ } else { before[k].dynamic_objects@.push(i) },
    ensures
        planned_upto(after, objs, mesh_count, i + 1),
{
    let m = before[k].mesh_id;
    assert forall|j: usize| #[trigger] before[k].static_objects@.contains(j)
        <==> ((j as int) < i && drawn_with(objs, mesh_count, j as int, m) && objs[j as int].1 == true) by {}
    assert forall|j: usize| #[trigger] before[k].dynamic_objects@.contains(j)
        <==> ((j as int) < i && drawn_with(objs, mesh_count, j as int, m) && objs[j as int].1 == false) by {}
    lemma_plan_push(before[k].static_objects@, after[k].static_objects@, objs, mesh_count, i, m, true);
    lemma_plan_push(before[k].dynamic_objects@, after[k].dynamic_objects@, objs, mesh_count, i, m, false);
    assert forall|q: int, j: usize| 0 <= q < after.len() implies (#[trigger] after[q].static_objects@.contains(j)
        <==> ((j as int) < i + 1 && drawn_with(objs, mesh_count, j as int, after[q].mesh_id) && objs[j as int].1)) by {
        if q != k {
            assert(after[q] == before[q]);
            if j == i {
                assert(before[q].mesh_id != before[k].mesh_id);
            }
        }
    }
    assert forall|q: int, j: usize| 0 <= q < after.len() implies (#[trigger] after[q].dynamic_objects@.contains(j)
        <==> ((j as int) < i + 1 && drawn_with(objs, mesh_count, j as int, after[q].mesh_id) && !objs[j as int].1)) by {
        if q != k {
            assert(after[q] == before[q]);
            if j == i {
                assert(before[q].mesh_id != before[k].mesh_id);
            }
        }
    }
    assert forall|q: int| 0 <= q < after.len() implies increasing(#[trigger] after[q].static_objects@)
        && increasing(after[q].dynamic_objects@) by {
        if q != k {
            assert(after[q] == before[q]);
        }
    }
    assert forall|j: int| 0 <= j < i + 1 && drawn_with(objs, mesh_count, j, objs[j].0)
        implies exists|q: int| 0 <= q < after.len() && #[trigger] after[q].mesh_id == objs[j].0 by {
        if j < i {
            let q = choose|q: int| 0 <= q < before.len() && #[trigger] before[q].mesh_id == objs[j].0;
            if q != k {
                assert(after[q] == before[q]);
            } else {
                assert(after[k].mesh_id == objs[j].0);
            }
        } else {
            assert(after[k].mesh_id == objs[j].0);
        }
    }
    assert forall|k1: int, k2: int| 0 <= k1 < k2 < after.len() implies after[k1].mesh_id != after[k2].mesh_id by {
        if k1 != k {
            assert(after[k1] == before[k1]);
        }
        if k2 != k {
            assert(after[k2] == before[k2]);
        }
    }
}

/// An object that is not drawn keeps the plan a plan of one more object.
proof fn lemma_plan_skip(plans: Seq<BatchPlan>, objs: Seq<(u32, bool, bool)>, mesh_count: usize, i: usize)
    requires
        (i as int) < objs.len(),
        planned_upto(plans, objs, mesh_count, i as int),
        !drawn_with(objs, mesh_count, i as int, objs[i as int].0),
    ensures
        planned_upto(plans, objs, mesh_count, i + 1),
{
    assert forall|k: int, j: usize| 0 <= k < plans.len() implies (#[trigger] plans[k].static_objects@.contains(j)
        <==> ((j as int) < i + 1 && drawn_with(objs, mesh_count, j as int, plans[k].mesh_id) && objs[j as int].1)) by {
        if j == i && drawn_with(objs, mesh_count, j as int, plans[k].mesh_id) {
            assert(objs[i as int].0 == plans[k].mesh_id);
        }
    }
    assert forall|k: int, j: usize| 0 <= k < plans.len() implies (#[trigger] plans[k].dynamic_objects@.contains(j)
        <==> ((j as int) < i + 1 && drawn_with(objs, mesh_count, j as int, plans[k].mesh_id) && !objs[j as int].1)) by {
        if j == i && drawn_with(objs, mesh_count, j as int, plans[k].mesh_id) {
            assert(objs[i as int].0 == plans[k].mesh_id);
        }
    }
}

} // verus!
