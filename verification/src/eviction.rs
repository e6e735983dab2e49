//! Bounded caches: which entry an eviction strategy removes, and the
//! insert-with-eviction step every cache of the library performs.
use vstd::prelude::*;

verus! {

/// The position an eviction strategy removes from: the oldest entry, the
/// newest entry, or the middle entry (`len / 2`).
#[derive(Clone, Copy, Debug, PartialEq, Eq, Structural)]
pub enum EvictionSlot {
    First,
    Last,
    Middle,
}

/// Index of the entry evicted from a cache of `len` entries.
pub open spec fn slot_index(slot: EvictionSlot, len: nat) -> int {
    match slot {
        EvictionSlot::First => 0,
        EvictionSlot::Last => len - 1,
        EvictionSlot::Middle => (len / 2) as int,
    }
}

/// The entries left after one eviction.
pub open spec fn evicted<T>(s: Seq<T>, slot: EvictionSlot) -> Seq<T> {
    s.remove(slot_index(slot, s.len()))
}

/// The entries after inserting `x` into a cache limited to `limit` entries:
/// one entry is evicted first when the cache is already at or over its limit.
pub open spec fn insert_bounded<T>(s: Seq<T>, limit: nat, slot: EvictionSlot, x: T) -> Seq<T> {
    (if s.len() >= limit { evicted(s, slot) } else { s }).push(x)
}

/// Remove the entry `slot` designates.
pub fn evict_slot<T>(v: &mut Vec<T>, slot: EvictionSlot)
    requires
        old(v).len() > 0,
    ensures
        final(v)@ == evicted(old(v)@, slot),
{
    let len = v.len();
    let index = match slot {
        EvictionSlot::First => 0,
        EvictionSlot::Last => len - 1,
        EvictionSlot::Middle => len / 2,
    };
    v.remove(index);
}

/// Insert `x`, evicting one entry first when the cache holds `limit` or more.
/// An empty cache with a zero limit has nothing to evict: that input is
/// left out.
pub fn push_bounded<T>(v: &mut Vec<T>, limit: usize, slot: EvictionSlot, x: T)
    requires
        old(v).len() > 0 || limit > 0,
    ensures
        final(v)@ == insert_bounded(old(v)@, limit as nat, slot, x),
{
    if v.len() >= limit {
        evict_slot(v, slot);
    }
    v.push(x);
}

/// A cache that starts within a positive limit stays within it after an
/// insertion.
pub proof fn lemma_insert_bounded_within_limit<T>(s: Seq<T>, limit: nat, slot: EvictionSlot, x: T)
    requires
        limit > 0,
        s.len() <= limit,
    ensures
        insert_bounded(s, limit, slot, x).len() <= limit,
{
}

/// The inserted entry is always the newest one.
pub proof fn lemma_insert_bounded_keeps_newest<T>(s: Seq<T>, limit: nat, slot: EvictionSlot, x: T)
    requires
        s.len() > 0 || limit > 0,
    ensures
        insert_bounded(s, limit, slot, x).len() > 0,
        insert_bounded(s, limit, slot, x).last() == x,
{
}

/// An insertion grows the cache by one entry below its limit and keeps its
/// size at or over it.
pub proof fn lemma_insert_bounded_len<T>(s: Seq<T>, limit: nat, slot: EvictionSlot, x: T)
    requires
        s.len() > 0 || limit > 0,
    ensures
        insert_bounded(s, limit, slot, x).len() == if s.len() >= limit { s.len() } else { s.len() + 1 },
{
}

/// Evicting the first slot at the limit drops the oldest entry and keeps the
/// order of the others.
pub proof fn lemma_insert_bounded_first_drops_oldest<T>(s: Seq<T>, limit: nat, x: T)
    requires
        s.len() >= limit,
        s.len() > 0,
    ensures
        insert_bounded(s, limit, EvictionSlot::First, x) == s.drop_first().push(x),
{
    assert(s.remove(0) =~= s.drop_first());
}

/// Below the limit nothing is evicted: the old entries are kept in order.
pub proof fn lemma_insert_bounded_below_limit<T>(s: Seq<T>, limit: nat, slot: EvictionSlot, x: T)
    requires
        s.len() < limit,
    ensures
        insert_bounded(s, limit, slot, x) == s.push(x),
{
}

} // verus!
