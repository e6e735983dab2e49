//! Material expression trees: which textures they sample (plain 2D
//! textures and texture arrays), whether they depend on time, the Slang
//! expression each one computes, and the G-buffer shader a set of channels
//! makes. Constant values, scales and speeds are held as the Slang text
//! they are written as.
use vstd::prelude::*;

use crate::material::{texture_sample_expr, texture_sample_spec};
use crate::shader_data::{decimal_string, decimal_text};

verus! {

// ── Time dependence of source text ───────────────────────────────────────────

/// The token through which shader code reads the frame time.
pub open spec fn time_token() -> Seq<char> {
    seq!['c', 'a', 'm', '.', 't', 'i', 'm', 'e']
}

/// Whether `s` contains `p` as a contiguous run.
pub open spec fn has_substring(s: Seq<char>, p: Seq<char>) -> bool {
    exists|i: int| 0 <= i && i + p.len() <= s.len() && #[trigger] s.subrange(i, i + p.len()) == p
}

/// Whether `s` mentions the frame time.
pub fn mentions_time(s: &str) -> (r: bool)
    ensures
        r == has_substring(s@, time_token()),
{
    let pat: [char; 8] = ['c', 'a', 'm', '.', 't', 'i', 'm', 'e'];
    assert(pat@ == time_token());
    let n = s.unicode_len();
    if n < 8 {
        assert forall|i: int| 0 <= i && i + 8 <= s@.len() implies #[trigger] s@.subrange(i, i + 8) != time_token() by {}
        return false;
    }
    let mut i: usize = 0;
    while i <= n - 8
        invariant
            n == s@.len(),
            pat@ == time_token(),
            n >= 8,
            i <= n - 7,
            forall|k: int| 0 <= k < i ==> #[trigger] s@.subrange(k, k + 8) != time_token(),
        decreases n - i,
    {
        let mut j: usize = 0;
        let mut same = true;
        while j < 8
            invariant
                n == s@.len(),
                i + 8 <= n,
                j <= 8,
                pat@ == time_token(),
                same == (forall|m: int| 0 <= m < j ==> s@[i + m] == pat@[m]),
            decreases 8 - j,
        {
            if s.get_char(i + j) != pat[j] {
                same = false;
            }
            j = j + 1;
        }
        if same {
            assert(s@.subrange(i as int, i + 8) =~= time_token());
            return true;
        }
        assert(s@.subrange(i as int, i + 8) != time_token()) by {
            let m = choose|m: int| 0 <= m < 8 && s@[i + m] != pat@[m];
            assert(s@.subrange(i as int, i + 8)[m] == s@[i + m]);
        }
        i = i + 1;
    }
    false
}

// ── Expression shapes ───────────────────────────────────────────────────────

/// Where a texture lookup takes its coordinates from: the mesh's UVs,
/// tiled, scrolled over time, both, or custom shader code.
#[derive(Clone, Debug)]
pub enum UvSourceKind {
    MeshUv0,
    Tiled,
    Scrolled,
    TiledScrolled,
    Custom(String),
}

/// Whether a UV source depends on the frame time: scrolling ones do, and
/// custom code that mentions the time does.
pub open spec fn uv_uses_time(uv: UvSourceKind) -> bool {
    match uv {
        UvSourceKind::Scrolled | UvSourceKind::TiledScrolled => true,
        UvSourceKind::Custom(s) => has_substring(s@, time_token()),
        _ => false,
    }
}

impl UvSourceKind {
    /// Whether this UV source depends on the frame time.
    pub fn uses_time(&self) -> (r: bool)
        ensures
            r == uv_uses_time(*self),
    {
        match self {
            UvSourceKind::Scrolled | UvSourceKind::TiledScrolled => true,
            UvSourceKind::Custom(s) => mentions_time(s.as_str()),
            _ => false,
        }
    }
}

/// A material expression tree with its constants, scalings and speeds
/// already written as Slang text: its operators, texture names, UV sources
/// (their kind and their Slang text), procedural code, and channel
/// selections (`Swizzle`) of a four-channel expression.
#[derive(Debug)]
pub enum MaterialExprTree {
    Constant(String),
    Texture { name: String, uv: UvSourceKind, uv_slang: String },
    TextureFactor { name: String, uv: UvSourceKind, uv_slang: String, factor: String },
    ImageSequence { name: String, frame_count: u32, fps: String, uv: UvSourceKind, uv_slang: String },
    Procedural(String),
    Multiply(Box<MaterialExprTree>, Box<MaterialExprTree>),
    Add(Box<MaterialExprTree>, Box<MaterialExprTree>),
    Mix { a: Box<MaterialExprTree>, b: Box<MaterialExprTree>, t: Box<MaterialExprTree> },
    Clamp { value: Box<MaterialExprTree>, min: String, max: String },
    Pow(Box<MaterialExprTree>, String),
    Swizzle { input: Box<MaterialExprTree>, components: String },
}

/// Every texture name an expression samples, image sequences included.
pub open spec fn textures_of(e: MaterialExprTree) -> Set<Seq<char>>
    decreases e,
{
    match e {
        MaterialExprTree::Constant(_) | MaterialExprTree::Procedural(_) => Set::empty(),
        MaterialExprTree::Texture { name, .. } => set![name@],
        MaterialExprTree::TextureFactor { name, .. } => set![name@],
        MaterialExprTree::ImageSequence { name, .. } => set![name@],
        MaterialExprTree::Multiply(a, b) => textures_of(*a) + textures_of(*b),
        MaterialExprTree::Add(a, b) => textures_of(*a) + textures_of(*b),
        MaterialExprTree::Mix { a, b, t } => textures_of(*a) + textures_of(*b) + textures_of(*t),
        MaterialExprTree::Clamp { value, .. } => textures_of(*value),
        MaterialExprTree::Pow(value, _) => textures_of(*value),
        MaterialExprTree::Swizzle { input, .. } => textures_of(*input),
    }
}

/// The texture names an expression samples as texture arrays (its image
/// sequences).
pub open spec fn array_textures_of(e: MaterialExprTree) -> Set<Seq<char>>
    decreases e,
{
    match e {
        MaterialExprTree::ImageSequence { name, .. } => set![name@],
        MaterialExprTree::Multiply(a, b) => array_textures_of(*a) + array_textures_of(*b),
        MaterialExprTree::Add(a, b) => array_textures_of(*a) + array_textures_of(*b),
        MaterialExprTree::Mix { a, b, t } => array_textures_of(*a) + array_textures_of(*b) + array_textures_of(*t),
        MaterialExprTree::Clamp { value, .. } => array_textures_of(*value),
        MaterialExprTree::Pow(value, _) => array_textures_of(*value),
        MaterialExprTree::Swizzle { input, .. } => array_textures_of(*input),
        _ => Set::empty(),
    }
}

/// Whether an expression depends on the frame time: procedural code that
/// mentions it, texture lookups whose UVs do, and every image sequence
/// (its frame index follows the time).
pub open spec fn uses_time_of(e: MaterialExprTree) -> bool
    decreases e,
{
    match e {
        MaterialExprTree::Procedural(s) => has_substring(s@, time_token()),
        MaterialExprTree::Texture { uv, .. } => uv_uses_time(uv),
        MaterialExprTree::TextureFactor { uv, .. } => uv_uses_time(uv),
        MaterialExprTree::ImageSequence { .. } => true,
        MaterialExprTree::Multiply(a, b) => uses_time_of(*a) || uses_time_of(*b),
        MaterialExprTree::Add(a, b) => uses_time_of(*a) || uses_time_of(*b),
        MaterialExprTree::Mix { a, b, t } => uses_time_of(*a) || uses_time_of(*b) || uses_time_of(*t),
        MaterialExprTree::Clamp { value, .. } => uses_time_of(*value),
        MaterialExprTree::Pow(value, _) => uses_time_of(*value),
        MaterialExprTree::Swizzle { input, .. } => uses_time_of(*input),
        MaterialExprTree::Constant(_) => false,
    }
}

/// The textures an expression samples, in evaluation order, with repeats.
pub open spec fn texture_list(e: MaterialExprTree) -> Seq<Seq<char>>
    decreases e,
{
    match e {
        MaterialExprTree::Constant(_) | MaterialExprTree::Procedural(_) => Seq::empty(),
        MaterialExprTree::Texture { name, .. } => seq![name@],
        MaterialExprTree::TextureFactor { name, .. } => seq![name@],
        MaterialExprTree::ImageSequence { name, .. } => seq![name@],
        MaterialExprTree::Multiply(a, b) => texture_list(*a) + texture_list(*b),
        MaterialExprTree::Add(a, b) => texture_list(*a) + texture_list(*b),
        MaterialExprTree::Mix { a, b, t } => texture_list(*a) + texture_list(*b) + texture_list(*t),
        MaterialExprTree::Clamp { value, .. } => texture_list(*value),
        MaterialExprTree::Pow(value, _) => texture_list(*value),
        MaterialExprTree::Swizzle { input, .. } => texture_list(*input),
    }
}

/// The texture arrays (image sequences) an expression samples, in
/// evaluation order, with repeats.
pub open spec fn array_texture_list(e: MaterialExprTree) -> Seq<Seq<char>>
    decreases e,
{
    match e {
        MaterialExprTree::ImageSequence { name, .. } => seq![name@],
        MaterialExprTree::Multiply(a, b) => array_texture_list(*a) + array_texture_list(*b),
        MaterialExprTree::Add(a, b) => array_texture_list(*a) + array_texture_list(*b),
        MaterialExprTree::Mix { a, b, t } => array_texture_list(*a) + array_texture_list(*b) + array_texture_list(*t),
        MaterialExprTree::Clamp { value, .. } => array_texture_list(*value),
        MaterialExprTree::Pow(value, _) => array_texture_list(*value),
        MaterialExprTree::Swizzle { input, .. } => array_texture_list(*input),
        _ => Seq::empty(),
    }
}

/// The names held by `v`.
pub open spec fn names(v: Seq<String>) -> Seq<Seq<char>> {
    v.map_values(|s: String| s@)
}

/// No name occurs twice.
pub open spec fn distinct_names(s: Seq<Seq<char>>) -> bool {
    forall|i: int, j: int| 0 <= i < j < s.len() ==> s[i] != s[j]
}

/// `after` extends `before` by names not in it, without repeating one, and
/// holds exactly the names of `before` and of `added`.
pub open spec fn extended_with(before: Seq<String>, after: Seq<String>, added: Set<Seq<char>>) -> bool {
    &&& after.len() >= before.len()
    &&& after.take(before.len() as int) == before
    &&& distinct_names(names(after))
    &&& forall|n: Seq<char>| #[trigger] names(after).contains(n) <==> names(before).contains(n) || added.contains(n)
}

/// `o` with `x` appended unless it already holds it.
pub open spec fn add_one(o: Seq<Seq<char>>, x: Seq<char>) -> Seq<Seq<char>> {
    if o.contains(x) { o } else { o.push(x) }
}

/// `o` with each name of `xs`, in order, appended unless already there:
/// new names in order of first occurrence.
pub open spec fn add_new(o: Seq<Seq<char>>, xs: Seq<Seq<char>>) -> Seq<Seq<char>>
    decreases xs.len(),
{
    if xs.len() == 0 { o } else { add_one(add_new(o, xs.drop_last()), xs.last()) }
}

/// Adding two lists of names one after the other adds their concatenation.
proof fn lemma_add_new_concat(o: Seq<Seq<char>>, xs: Seq<Seq<char>>, ys: Seq<Seq<char>>)
    ensures
        add_new(o, xs + ys) == add_new(add_new(o, xs), ys),
    decreases ys.len(),
{
    if ys.len() == 0 {
        assert(xs + ys =~= xs);
    } else {
        assert((xs + ys).drop_last() =~= xs + ys.drop_last());
        assert((xs + ys).last() == ys.last());
        lemma_add_new_concat(o, xs, ys.drop_last());
    }
}

/// What a sequence of names holds after a push.
proof fn lemma_push_contains(s: Seq<Seq<char>>, x: Seq<char>)
    ensures
        forall|y: Seq<char>| #[trigger] s.push(x).contains(y) <==> s.contains(y) || y == x,
{
    assert forall|y: Seq<char>| #[trigger] s.push(x).contains(y) <==> s.contains(y) || y == x by {
        if s.push(x).contains(y) {
            let k = choose|k: int| 0 <= k < s.len() + 1 && s.push(x)[k] == y;
            if k < s.len() {
                assert(s[k] == y);
            }
        }
        if s.contains(y) {
            let k = choose|k: int| 0 <= k < s.len() && s[k] == y;
            assert(s.push(x)[k] == y);
        }
        if y == x {
            assert(s.push(x)[s.len() as int] == y);
        }
    }
}

/// Add `name` to the set of names `out` unless it is already there.
fn insert_name(out: &mut Vec<String>, name: &String)
    requires
        distinct_names(names(old(out)@)),
    ensures
        extended_with(old(out)@, final(out)@, set![name@]),
        names(final(out)@) == add_one(names(old(out)@), name@),
{
    let mut i: usize = 0;
    while i < out.len()
        invariant
            i <= out@.len(),
            out@ == old(out)@,
            distinct_names(names(out@)),
            forall|k: int| 0 <= k < i ==> (#[trigger] out@[k])@ != name@,
        decreases out@.len() - i,
    {
        if out[i] == *name {
            assert(names(out@)[i as int] == name@);
            assert(names(out@).contains(name@));
            assert(names(out@) == add_one(names(old(out)@), name@));
            assert(out@.take(out@.len() as int) =~= out@);
            assert forall|n: Seq<char>| #[trigger] names(out@).contains(n) <==> names(out@).contains(n) || set![name@].contains(n) by {
                if set![name@].contains(n) {
                    assert(n == name@);
                }
            }
            return;
        }
        i = i + 1;
    }
    let ghost before = out@;
    out.push(name.clone());
    assert(out@.take(before.len() as int) =~= before);
    assert(names(out@) =~= names(before).push(name@));
    assert(!names(before).contains(name@)) by {
        if names(before).contains(name@) {
            let k = choose|k: int| 0 <= k < names(before).len() && names(before)[k] == name@;
            assert(before[k]@ != name@);
        }
    }
    assert forall|n: Seq<char>| #[trigger] names(out@).contains(n) <==> names(before).contains(n) || set![name@].contains(n) by {
        if names(out@).contains(n) {
            let k = choose|k: int| 0 <= k < names(out@).len() && names(out@)[k] == n;
            if k < before.len() {
                assert(names(before)[k] == n);
            }
        }
        if names(before).contains(n) {
            let k = choose|k: int| 0 <= k < names(before).len() && names(before)[k] == n;
            assert(names(out@)[k] == n);
        }
        if n == name@ {
            assert(names(out@)[before.len() as int] == n);
        }
    }
}

/// Extending twice is extending once with both sets.
proof fn lemma_extended_trans(a: Seq<String>, b: Seq<String>, c: Seq<String>, x: Set<Seq<char>>, y: Set<Seq<char>>)
    requires
        extended_with(a, b, x),
        extended_with(b, c, y),
    ensures
        extended_with(a, c, x + y),
{
    assert(c.take(a.len() as int) =~= b.take(a.len() as int));
}

/// Extending with nothing.
proof fn lemma_extended_refl(a: Seq<String>)
    requires
        distinct_names(names(a)),
    ensures
        extended_with(a, a, Set::empty()),
{
    assert(a.take(a.len() as int) =~= a);
}

impl MaterialExprTree {
    /// Add every texture this expression samples to `out`, a list of
    /// distinct names, keeping the names already there first and appending
    /// new ones in the order the expression first samples them.
    pub fn collect_textures(&self, out: &mut Vec<String>)
        requires
            distinct_names(names(old(out)@)),
        ensures
            extended_with(old(out)@, final(out)@, textures_of(*self)),
            names(final(out)@) == add_new(names(old(out)@), texture_list(*self)),
        decreases self,
    {
        let ghost start = out@;
        match self {
            MaterialExprTree::Texture { name, .. } => {
                insert_name(out, name);
                proof {
                    assert(texture_list(*self) == seq![name@]);
                    assert(texture_list(*self).drop_last() =~= Seq::<Seq<char>>::empty());
                    assert(add_new(names(start), Seq::<Seq<char>>::empty()) == names(start));
                    assert(add_new(names(start), texture_list(*self)) == add_one(names(start), name@));
                }
            },
            MaterialExprTree::TextureFactor { name, .. } => {
                insert_name(out, name);
                proof {
                    assert(texture_list(*self) == seq![name@]);
                    assert(texture_list(*self).drop_last() =~= Seq::<Seq<char>>::empty());
                    assert(add_new(names(start), Seq::<Seq<char>>::empty()) == names(start));
                    assert(add_new(names(start), texture_list(*self)) == add_one(names(start), name@));
                }
            },
            MaterialExprTree::ImageSequence { name, .. } => {
                insert_name(out, name);
                proof {
                    assert(texture_list(*self) == seq![name@]);
                    assert(texture_list(*self).drop_last() =~= Seq::<Seq<char>>::empty());
                    assert(add_new(names(start), Seq::<Seq<char>>::empty()) == names(start));
                    assert(add_new(names(start), texture_list(*self)) == add_one(names(start), name@));
                }
            },
            MaterialExprTree::Multiply(a, b) => {
                a.collect_textures(out);
                let ghost mid = out@;
                b.collect_textures(out);
                proof {
                    lemma_extended_trans(start, mid, out@, textures_of(**a), textures_of(**b));
                    lemma_add_new_concat(names(start), texture_list(**a), texture_list(**b));
                }
            },
            MaterialExprTree::Add(a, b) => {
                a.collect_textures(out);
                let ghost mid = out@;
                b.collect_textures(out);
                proof {
                    lemma_extended_trans(start, mid, out@, textures_of(**a), textures_of(**b));
                    lemma_add_new_concat(names(start), texture_list(**a), texture_list(**b));
                }
            },
            MaterialExprTree::Mix { a, b, t } => {
                a.collect_textures(out);
                let ghost m1 = out@;
                b.collect_textures(out);
                let ghost m2 = out@;
                t.collect_textures(out);
                proof {
                    lemma_extended_trans(start, m1, m2, textures_of(**a), textures_of(**b));
                    lemma_extended_trans(start, m2, out@, textures_of(**a) + textures_of(**b), textures_of(**t));
                    lemma_add_new_concat(names(start), texture_list(**a), texture_list(**b));
                    lemma_add_new_concat(names(start), texture_list(**a) + texture_list(**b), texture_list(**t));
                }
            },
            MaterialExprTree::Clamp { value, .. } => {
                value.collect_textures(out);
            },
            MaterialExprTree::Pow(value, _) => {
                value.collect_textures(out);
            },
            MaterialExprTree::Swizzle { input, .. } => {
                input.collect_textures(out);
            },
            _ => {
                proof {
                    lemma_extended_refl(start);
                    assert(texture_list(*self) =~= Seq::<Seq<char>>::empty());
                }
            },
        }
    }

    /// Add every texture this expression samples as a texture array to `out`, a list of
    /// distinct names, keeping the names already there first and appending
    /// new ones in the order the expression first samples them.
    pub fn collect_array_textures(&self, out: &mut Vec<String>)
        requires
            distinct_names(names(old(out)@)),
        ensures
            extended_with(old(out)@, final(out)@, array_textures_of(*self)),
            names(final(out)@) == add_new(names(old(out)@), array_texture_list(*self)),
        decreases self,
    {
        let ghost start = out@;
        match self {
            MaterialExprTree::ImageSequence { name, .. } => {
                insert_name(out, name);
                proof {
                    assert(array_texture_list(*self) == seq![name@]);
                    assert(array_texture_list(*self).drop_last() =~= Seq::<Seq<char>>::empty());
                    assert(add_new(names(start), Seq::<Seq<char>>::empty()) == names(start));
                    assert(add_new(names(start), array_texture_list(*self)) == add_one(names(start), name@));
                }
            },
            MaterialExprTree::Multiply(a, b) => {
                a.collect_array_textures(out);
                let ghost mid = out@;
                b.collect_array_textures(out);
                proof {
                    lemma_extended_trans(start, mid, out@, array_textures_of(**a), array_textures_of(**b));
                    lemma_add_new_concat(names(start), array_texture_list(**a), array_texture_list(**b));
                }
            },
            MaterialExprTree::Add(a, b) => {
                a.collect_array_textures(out);
                let ghost mid = out@;
                b.collect_array_textures(out);
                proof {
                    lemma_extended_trans(start, mid, out@, array_textures_of(**a), array_textures_of(**b));
                    lemma_add_new_concat(names(start), array_texture_list(**a), array_texture_list(**b));
                }
            },
            MaterialExprTree::Mix { a, b, t } => {
                a.collect_array_textures(out);
                let ghost m1 = out@;
                b.collect_array_textures(out);
                let ghost m2 = out@;
                t.collect_array_textures(out);
                proof {
                    lemma_extended_trans(start, m1, m2, array_textures_of(**a), array_textures_of(**b));
                    lemma_extended_trans(start, m2, out@, array_textures_of(**a) + array_textures_of(**b), array_textures_of(**t));
                    lemma_add_new_concat(names(start), array_texture_list(**a), array_texture_list(**b));
                    lemma_add_new_concat(names(start), array_texture_list(**a) + array_texture_list(**b), array_texture_list(**t));
                }
            },
            MaterialExprTree::Clamp { value, .. } => {
                value.collect_array_textures(out);
            },
            MaterialExprTree::Pow(value, _) => {
                value.collect_array_textures(out);
            },
            MaterialExprTree::Swizzle { input, .. } => {
                input.collect_array_textures(out);
            },
            _ => {
                proof {
                    lemma_extended_refl(start);
                    assert(array_texture_list(*self) =~= Seq::<Seq<char>>::empty());
                }
            },
        }
    }

    /// Whether this expression depends on the frame time.
    pub fn uses_time(&self) -> (r: bool)
        ensures
            r == uses_time_of(*self),
        decreases self,
    {
        match self {
            MaterialExprTree::Procedural(s) => mentions_time(s.as_str()),
            MaterialExprTree::Texture { uv, .. } => uv.uses_time(),
            MaterialExprTree::TextureFactor { uv, .. } => uv.uses_time(),
            MaterialExprTree::ImageSequence { .. } => true,
            MaterialExprTree::Multiply(a, b) => a.uses_time() || b.uses_time(),
            MaterialExprTree::Add(a, b) => a.uses_time() || b.uses_time(),
            MaterialExprTree::Mix { a, b, t } => a.uses_time() || b.uses_time() || t.uses_time(),
            MaterialExprTree::Clamp { value, .. } => value.uses_time(),
            MaterialExprTree::Pow(value, _) => value.uses_time(),
            MaterialExprTree::Swizzle { input, .. } => input.uses_time(),
            MaterialExprTree::Constant(_) => false,
        }
    }
}

/// Every texture array is also among the textures: image sequences are
/// counted by both.
pub proof fn lemma_array_textures_are_textures(e: MaterialExprTree)
    ensures
        array_textures_of(e).subset_of(textures_of(e)),
    decreases e,
{
    match e {
        MaterialExprTree::Multiply(a, b) => {
            lemma_array_textures_are_textures(*a);
            lemma_array_textures_are_textures(*b);
        },
        MaterialExprTree::Add(a, b) => {
            lemma_array_textures_are_textures(*a);
            lemma_array_textures_are_textures(*b);
        },
        MaterialExprTree::Mix { a, b, t } => {
            lemma_array_textures_are_textures(*a);
            lemma_array_textures_are_textures(*b);
            lemma_array_textures_are_textures(*t);
        },
        MaterialExprTree::Clamp { value, .. } => {
            lemma_array_textures_are_textures(*value);
        },
        MaterialExprTree::Pow(value, _) => {
            lemma_array_textures_are_textures(*value);
        },
        MaterialExprTree::Swizzle { input, .. } => {
            lemma_array_textures_are_textures(*input);
        },
        _ => {},
    }
}

/// An expression with a texture array depends on the frame time.
pub proof fn lemma_arrays_use_time(e: MaterialExprTree)
    requires
        !array_textures_of(e).is_empty(),
    ensures
        uses_time_of(e),
    decreases e,
{
    match e {
        MaterialExprTree::Multiply(a, b) => {
            if !array_textures_of(*a).is_empty() { lemma_arrays_use_time(*a); }
            else {
                assert(array_textures_of(e) =~= array_textures_of(*b));
                lemma_arrays_use_time(*b);
            }
        },
        MaterialExprTree::Add(a, b) => {
            if !array_textures_of(*a).is_empty() { lemma_arrays_use_time(*a); }
            else {
                assert(array_textures_of(e) =~= array_textures_of(*b));
                lemma_arrays_use_time(*b);
            }
        },
        MaterialExprTree::Mix { a, b, t } => {
            if !array_textures_of(*a).is_empty() { lemma_arrays_use_time(*a); }
            else if !array_textures_of(*b).is_empty() { lemma_arrays_use_time(*b); }
            else {
                assert(array_textures_of(e) =~= array_textures_of(*t));
                lemma_arrays_use_time(*t);
            }
        },
        MaterialExprTree::Clamp { value, .. } => { lemma_arrays_use_time(*value); },
        MaterialExprTree::Pow(value, _) => { lemma_arrays_use_time(*value); },
        MaterialExprTree::Swizzle { input, .. } => { lemma_arrays_use_time(*input); },
        MaterialExprTree::ImageSequence { .. } => {},
        _ => {
            assert(array_textures_of(e) =~= Set::empty());
        },
    }
}

// ── G-buffer texture declarations ───────────────────────────────────────────

/// Every texture the channels sample.
pub open spec fn channel_textures(cs: Seq<MaterialExprTree>) -> Set<Seq<char>>
    decreases cs.len(),
{
    if cs.len() == 0 { Set::empty() } else { channel_textures(cs.drop_last()) + textures_of(cs.last()) }
}

/// Every texture the channels sample as arrays.
pub open spec fn channel_array_textures(cs: Seq<MaterialExprTree>) -> Set<Seq<char>>
    decreases cs.len(),
{
    if cs.len() == 0 { Set::empty() } else { channel_array_textures(cs.drop_last()) + array_textures_of(cs.last()) }
}

/// One declaration line per name, `prefix name;` each.
pub open spec fn declaration_lines(ns: Seq<Seq<char>>, prefix: Seq<char>) -> Seq<char>
    decreases ns.len(),
{
    if ns.len() == 0 {
        Seq::empty()
    } else {
        declaration_lines(ns.drop_last(), prefix) + prefix + ns.last() + ";\n"@
    }
}

/// The declarations a G-buffer shader over the channels starts with: the
/// shared sampler, one `Texture2D<float4>` per texture sampled as a plain
/// texture (`plain`, distinct, each once), and one `Texture2DArray<float4>`
/// per texture sampled as an array (`arrays`, distinct, each once).
pub open spec fn gbuffer_declarations(cs: Seq<MaterialExprTree>, plain: Seq<Seq<char>>, arrays: Seq<Seq<char>>) -> Seq<char> {
    "SamplerState material_sampler;\n"@ + declaration_lines(plain, "Texture2D<float4> "@)
        + declaration_lines(arrays, "Texture2DArray<float4> "@)
}

/// `plain` and `arrays` list the channels' plain textures (sampled, and not
/// as an array) and array textures, each exactly once.
pub open spec fn declared_sets(cs: Seq<MaterialExprTree>, plain: Seq<Seq<char>>, arrays: Seq<Seq<char>>) -> bool {
    &&& distinct_names(plain)
    &&& distinct_names(arrays)
    &&& forall|n: Seq<char>| #[trigger] plain.contains(n) <==> channel_textures(cs).contains(n) && !channel_array_textures(cs).contains(n)
    &&& forall|n: Seq<char>| #[trigger] arrays.contains(n) <==> channel_array_textures(cs).contains(n)
}

/// Append `prefix name;\n` for every name of `ns` to `s`.
fn append_declarations(s: &mut String, ns: &Vec<String>, prefix: &str)
    ensures
        final(s)@ == old(s)@ + declaration_lines(names(ns@), prefix@),
{
    let mut i: usize = 0;
    while i < ns.len()
        invariant
            i <= ns@.len(),
            s@ == old(s)@ + declaration_lines(names(ns@).take(i as int), prefix@),
        decreases ns@.len() - i,
    {
        assert(names(ns@).take(i as int + 1).drop_last() == names(ns@).take(i as int));
        assert(names(ns@).take(i as int + 1).last() == ns@[i as int]@);
        s.append(prefix);
        s.append(ns[i].as_str());
        s.append(";\n");
        i = i + 1;
    }
    assert(names(ns@).take(i as int) == names(ns@));
}

/// The textures the channels sample, channel by channel in evaluation
/// order, with repeats.
pub open spec fn channels_texture_list(cs: Seq<MaterialExprTree>) -> Seq<Seq<char>>
    decreases cs.len(),
{
    if cs.len() == 0 { Seq::empty() } else { channels_texture_list(cs.drop_last()) + texture_list(cs.last()) }
}

/// The texture arrays the channels sample, channel by channel in
/// evaluation order, with repeats.
pub open spec fn channels_array_list(cs: Seq<MaterialExprTree>) -> Seq<Seq<char>>
    decreases cs.len(),
{
    if cs.len() == 0 { Seq::empty() } else { channels_array_list(cs.drop_last()) + array_texture_list(cs.last()) }
}

/// The names of `xs` that `ys` does not hold, in order.
pub open spec fn without(xs: Seq<Seq<char>>, ys: Seq<Seq<char>>) -> Seq<Seq<char>>
    decreases xs.len(),
{
    if xs.len() == 0 {
        Seq::empty()
    } else if ys.contains(xs.last()) {
        without(xs.drop_last(), ys)
    } else {
        without(xs.drop_last(), ys).push(xs.last())
    }
}

/// The texture arrays the channels declare, in order of first use.
pub open spec fn declared_arrays(cs: Seq<MaterialExprTree>) -> Seq<Seq<char>> {
    add_new(Seq::empty(), channels_array_list(cs))
}

/// The plain textures the channels declare, in order of first use: every
/// sampled texture that is not also sampled as an array.
pub open spec fn declared_plain(cs: Seq<MaterialExprTree>) -> Seq<Seq<char>> {
    without(add_new(Seq::empty(), channels_texture_list(cs)), declared_arrays(cs))
}

/// The texture declarations of a G-buffer shader whose channels have the
/// shapes `channels`: the shared sampler, then every texture sampled as a
/// plain texture and every texture sampled as an array, each declared once,
/// in the order the channels first sample them. A texture sampled both
/// ways is declared as an array only.
pub fn gbuffer_texture_declarations(channels: &Vec<MaterialExprTree>) -> (r: String)
    ensures
        declared_sets(channels@, declared_plain(channels@), declared_arrays(channels@)),
        r@ == gbuffer_declarations(channels@, declared_plain(channels@), declared_arrays(channels@)),
{
    let mut all: Vec<String> = Vec::new();
    let mut arrays: Vec<String> = Vec::new();
    let mut i: usize = 0;
    proof {
        lemma_extended_refl(all@);
        assert(channels@.take(0) =~= Seq::<MaterialExprTree>::empty());
        assert(names(all@) =~= Seq::<Seq<char>>::empty());
        assert(names(arrays@) =~= Seq::<Seq<char>>::empty());
    }
    while i < channels.len()
        invariant
            i <= channels@.len(),
            distinct_names(names(all@)),
            distinct_names(names(arrays@)),
            forall|n: Seq<char>| #[trigger] names(all@).contains(n) <==> channel_textures(channels@.take(i as int)).contains(n),
            forall|n: Seq<char>| #[trigger] names(arrays@).contains(n) <==> channel_array_textures(channels@.take(i as int)).contains(n),
            names(all@) == add_new(Seq::empty(), channels_texture_list(channels@.take(i as int))),
            names(arrays@) == add_new(Seq::empty(), channels_array_list(channels@.take(i as int))),
        decreases channels@.len() - i,
    {
        let ghost t0 = channels@.take(i as int);
        let ghost t1 = channels@.take(i as int + 1);
        assert(t1.drop_last() == t0);
        assert(t1.last() == channels@[i as int]);
        channels[i].collect_textures(&mut all);
        channels[i].collect_array_textures(&mut arrays);
        proof {
            lemma_add_new_concat(Seq::empty(), channels_texture_list(t0), texture_list(channels@[i as int]));
            lemma_add_new_concat(Seq::empty(), channels_array_list(t0), array_texture_list(channels@[i as int]));
        }
        i = i + 1;
    }
    assert(channels@.take(i as int) == channels@);
    let mut plain: Vec<String> = Vec::new();
    let mut k: usize = 0;
    assert(names(all@).take(0) =~= Seq::<Seq<char>>::empty());
    assert(names(plain@) =~= Seq::<Seq<char>>::empty());
    while k < all.len()
        invariant
            k <= all@.len(),
            distinct_names(names(all@)),
            distinct_names(names(plain@)),
            forall|n: Seq<char>| #[trigger] names(plain@).contains(n) <==> names(all@).take(k as int).contains(n)
                && !names(arrays@).contains(n),
            names(plain@) == without(names(all@).take(k as int), names(arrays@)),
        decreases all@.len() - k,
    {
        let ghost before = plain@;
        let ghost nk = all@[k as int]@;
        assert(names(all@).take(k as int + 1) =~= names(all@).take(k as int).push(nk));
        assert(names(all@).take(k as int + 1).drop_last() =~= names(all@).take(k as int));
        proof {
            lemma_push_contains(names(all@).take(k as int), nk);
            lemma_push_contains(names(before), nk);
        }
        if !contains_name(&arrays, &all[k]) {
            assert(!names(all@).take(k as int).contains(nk)) by {
                if names(all@).take(k as int).contains(nk) {
                    let j = choose|j: int| 0 <= j < k && names(all@).take(k as int)[j] == nk;
                    assert(names(all@)[j] == names(all@)[k as int]);
                }
            }
            plain.push(all[k].clone());
            assert(names(plain@) =~= names(before).push(nk));
            assert forall|a: int, b: int| 0 <= a < b < names(plain@).len() implies names(plain@)[a] != names(plain@)[b] by {
                if b == before.len() {
                    assert(names(before).contains(names(before)[a]));
                }
            }
        } else {
            assert(names(plain@) =~= names(before));
        }
        k = k + 1;
    }
    assert(names(all@).take(k as int) =~= names(all@));
    let mut s = String::from_str("SamplerState material_sampler;\n");
    append_declarations(&mut s, &plain, "Texture2D<float4> ");
    append_declarations(&mut s, &arrays, "Texture2DArray<float4> ");
    proof {
        assert(declared_sets(channels@, names(plain@), names(arrays@)));
        assert(s@ =~= gbuffer_declarations(channels@, names(plain@), names(arrays@)));
    }
    s
}

/// Whether `v` holds `name`.
fn contains_name(v: &Vec<String>, name: &String) -> (r: bool)
    ensures
        r == names(v@).contains(name@),
{
    let mut i: usize = 0;
    while i < v.len()
        invariant
            i <= v@.len(),
            forall|k: int| 0 <= k < i ==> (#[trigger] v@[k])@ != name@,
        decreases v@.len() - i,
    {
        if v[i] == *name {
            assert(names(v@)[i as int] == name@);
            return true;
        }
        i = i + 1;
    }
    assert forall|k: int| 0 <= k < names(v@).len() implies names(v@)[k] != name@ by {
        assert(v@[k]@ != name@);
    }
    false
}


// ── Slang code generation ───────────────────────────────────────────────────

/// The Slang expression an expression of value type `ty` (`float`,
/// `float2`, `float3` or `float4`) computes. A blend factor is always a
/// `float`, and the input of a channel selection a `float4`.
pub open spec fn expr_slang(e: MaterialExprTree, ty: Seq<char>) -> Seq<char>
    decreases e,
{
    match e {
        MaterialExprTree::Constant(c) => c@,
        MaterialExprTree::Texture { name, uv_slang, .. } => texture_sample_spec(name@, uv_slang@, ty),
        MaterialExprTree::TextureFactor { name, uv_slang, factor, .. } =>
            "("@ + texture_sample_spec(name@, uv_slang@, ty) + " * "@ + factor@ + ")"@,
        MaterialExprTree::ImageSequence { name, frame_count, fps, uv_slang, .. } =>
            name@ + ".Sample(material_sampler, float3("@ + uv_slang@ + ", float(int(cam.time * "@ + fps@
                + ") % "@ + decimal_text(frame_count as nat) + ")))"@,
        MaterialExprTree::Procedural(code) => "("@ + code@ + ")"@,
        MaterialExprTree::Multiply(a, b) => "(("@ + expr_slang(*a, ty) + ") * ("@ + expr_slang(*b, ty) + "))"@,
        MaterialExprTree::Add(a, b) => "(("@ + expr_slang(*a, ty) + ") + ("@ + expr_slang(*b, ty) + "))"@,
        MaterialExprTree::Mix { a, b, t } => "lerp(("@ + expr_slang(*a, ty) + "), ("@ + expr_slang(*b, ty) + "), ("@
            + expr_slang(*t, "float"@) + "))"@,
        MaterialExprTree::Clamp { value, min, max } => "clamp(("@ + expr_slang(*value, ty) + "), "@ + min@ + ", "@
            + max@ + ")"@,
        MaterialExprTree::Pow(base, exp) => "pow(("@ + expr_slang(*base, ty) + "), "@ + exp@ + ")"@,
        MaterialExprTree::Swizzle { input, components } => "(("@ + expr_slang(*input, "float4"@) + ")."@ + components@
            + ")"@,
    }
}

impl MaterialExprTree {
    /// The Slang expression this expression computes, its values being of
    /// Slang type `ty`.
    pub fn to_slang_expr(&self, ty: &str) -> (r: String)
        ensures
            r@ == expr_slang(*self, ty@),
        decreases self,
    {
        match self {
            MaterialExprTree::Constant(c) => c.clone(),
            MaterialExprTree::Texture { name, uv_slang, .. } => texture_sample_expr(name.as_str(), uv_slang.as_str(), ty),
            MaterialExprTree::TextureFactor { name, uv_slang, factor, .. } => {
                let sample = texture_sample_expr(name.as_str(), uv_slang.as_str(), ty);
                let mut s = String::from_str("(");
                s.append(sample.as_str());
                s.append(" * ");
                s.append(factor.as_str());
                s.append(")");
                s
            },
            MaterialExprTree::ImageSequence { name, frame_count, fps, uv_slang, .. } => {
                let mut s = name.clone();
                s.append(".Sample(material_sampler, float3(");
                s.append(uv_slang.as_str());
                s.append(", float(int(cam.time * ");
                s.append(fps.as_str());
                s.append(") % ");
                s.append(decimal_string(*frame_count as u64).as_str());
                s.append(")))");
                s
            },
            MaterialExprTree::Procedural(code) => {
                let mut s = String::from_str("(");
                s.append(code.as_str());
                s.append(")");
                s
            },
            MaterialExprTree::Multiply(a, b) => {
                let mut s = String::from_str("((");
                s.append(a.to_slang_expr(ty).as_str());
                s.append(") * (");
                s.append(b.to_slang_expr(ty).as_str());
                s.append("))");
                s
            },
            MaterialExprTree::Add(a, b) => {
                let mut s = String::from_str("((");
                s.append(a.to_slang_expr(ty).as_str());
                s.append(") + (");
                s.append(b.to_slang_expr(ty).as_str());
                s.append("))");
                s
            },
            MaterialExprTree::Mix { a, b, t } => {
                let mut s = String::from_str("lerp((");
                s.append(a.to_slang_expr(ty).as_str());
                s.append("), (");
                s.append(b.to_slang_expr(ty).as_str());
                s.append("), (");
                s.append(t.to_slang_expr("float").as_str());
                s.append("))");
                s
            },
            MaterialExprTree::Clamp { value, min, max } => {
                let mut s = String::from_str("clamp((");
                s.append(value.to_slang_expr(ty).as_str());
                s.append("), ");
                s.append(min.as_str());
                s.append(", ");
                s.append(max.as_str());
                s.append(")");
                s
            },
            MaterialExprTree::Pow(base, exp) => {
                let mut s = String::from_str("pow((");
                s.append(base.to_slang_expr(ty).as_str());
                s.append("), ");
                s.append(exp.as_str());
                s.append(")");
                s
            },
            MaterialExprTree::Swizzle { input, components } => {
                let mut s = String::from_str("((");
                s.append(input.to_slang_expr("float4").as_str());
                s.append(").");
                s.append(components.as_str());
                s.append(")");
                s
            },
        }
    }
}


// ── G-buffer shader ──────────────────────────────────────────────────────────

/// G-buffer shader text before the material name.
pub const GBUFFER_OPEN: &'static str = "\n// ── Material: ";

/// G-buffer shader text from the material name to the texture declarations.
pub const GBUFFER_BINDINGS: &'static str = " ──────────────────────────────────────────────────────────\n// Auto-generated by UnifiedMaterial::generate_gbuffer_source().\n// DO NOT EDIT — regenerated when the material is modified.\n\n// ── Vertex data ──────────────────────────────────────────────────────────────\nstruct InstanceData { float4x4 model; };\nStructuredBuffer<InstanceData> instances;\n\nstruct CameraConstants {\n    float4x4 view_proj;\n    float4x4 previous_view_proj;\n    float    time;\n    float3   _pad;\n};\nuniform CameraConstants cam;\n\nstruct VSOut {\n    float4 position  : SV_POSITION;\n    float3 normal    : NORMAL;\n    float2 uv        : TEXCOORD0;\n    float3 world_pos : TEXCOORD1;\n    float4 tangent   : TANGENT;\n};\n\n// ── Texture and sampler bindings ─────────────────────────────────────────────\n";

/// G-buffer shader text from the declarations to the channel evaluations.
pub const GBUFFER_MAIN: &'static str = "\n// ── Octahedral normal encoding ────────────────────────────────────────────────\nfloat2 oct_encode(float3 n) {\n    float3 a = abs(n);\n    n /= a.x + a.y + a.z;\n    if (n.z < 0.0) {\n        float2 s = float2(n.x >= 0.0 ? 1.0 : -1.0,\n                          n.y >= 0.0 ? 1.0 : -1.0);\n        n.xy = (1.0 - abs(n.yx)) * s;\n    }\n    return n.xy;\n}\n\n// ── G-Buffer output ──────────────────────────────────────────────────────────\nstruct GBufferOut {\n    float4 g0 : SV_TARGET0; // base_color.rgb | metallic\n    float4 g1 : SV_TARGET1; // oct-normal.xy | roughness | 0\n    float4 g2 : SV_TARGET2; // emissive.rgb | 0\n    float4 g3 : SV_TARGET3; // world_pos.xyz | 0\n};\n\n// ── Material evaluation ──────────────────────────────────────────────────────\nGBufferOut main(VSOut v) {\n    // Evaluate all material channels.\n";

/// G-buffer shader text before the base colour expression.
pub const GBUFFER_BASE_COLOR: &'static str = "    float4 base_color = ";

/// G-buffer shader text before the metallic expression.
pub const GBUFFER_METALLIC: &'static str = ";\n    float metallic = ";

/// G-buffer shader text before the roughness expression.
pub const GBUFFER_ROUGHNESS: &'static str = ";\n    float roughness = ";

/// G-buffer shader text before the tangent-space normal expression.
pub const GBUFFER_NORMAL: &'static str = ";\n    float3 normal_ts = ";

/// G-buffer shader text before the emissive expression.
pub const GBUFFER_EMISSIVE: &'static str = ";  // tangent-space normal\n    float3 emissive = ";

/// G-buffer shader text ending the emissive assignment.
pub const GBUFFER_EMISSIVE_END: &'static str = ";\n";

/// G-buffer shader text after the emissive assignment.
pub const GBUFFER_CLOSE: &'static str = "\n    // Apply TBN to produce world-space normal.\n    // When normal_ts == float3(0,0,1) (no normal map), this returns the geometric normal.\n    float3 N = normalize(v.normal);\n    float3 T = normalize(v.tangent.xyz);\n    T = normalize(T - N * dot(N, T));       // Gram-Schmidt re-orthogonalise\n    float3 B = cross(N, T) * v.tangent.w;\n    float3x3 tbn = float3x3(T, B, N);\n    N = normalize(mul(normal_ts, tbn));\n\n    float2 oct_n = oct_encode(N);\n\n    GBufferOut o;\n    o.g0 = float4(base_color.rgb, metallic);\n    o.g1 = float4(oct_n, roughness, 0.0);\n    o.g2 = float4(emissive, 0.0);\n    o.g3 = float4(v.world_pos, 0.0);\n    return o;\n}\n";

/// The G-buffer fragment shader of material `name`, given its texture
/// declarations and the Slang expressions of its base colour, metallic,
/// roughness, tangent-space normal and emissive channels.
pub open spec fn gbuffer_source_text(
    name: Seq<char>,
    decls: Seq<char>,
    base_color: Seq<char>,
    metallic: Seq<char>,
    roughness: Seq<char>,
    normal: Seq<char>,
    emissive: Seq<char>,
) -> Seq<char> {
    GBUFFER_OPEN@ + name + GBUFFER_BINDINGS@ + decls + GBUFFER_MAIN@ + GBUFFER_BASE_COLOR@ + base_color
        + GBUFFER_METALLIC@ + metallic + GBUFFER_ROUGHNESS@ + roughness + GBUFFER_NORMAL@ + normal
        + GBUFFER_EMISSIVE@ + emissive + GBUFFER_EMISSIVE_END@ + GBUFFER_CLOSE@
}

/// The G-buffer shader text of material `name` with the six channels
/// `channels`, as [`gbuffer_source`] builds it.
pub open spec fn gbuffer_text(name: Seq<char>, channels: Seq<MaterialExprTree>) -> Seq<char> {
    gbuffer_source_text(
        name,
        gbuffer_declarations(channels, declared_plain(channels), declared_arrays(channels)),
        expr_slang(channels[0], "float4"@),
        expr_slang(channels[1], "float"@),
        expr_slang(channels[2], "float"@),
        expr_slang(channels[3], "float3"@),
        expr_slang(channels[5], "float3"@),
    )
}

/// The G-buffer fragment shader of material `name` whose channels are, in
/// this order, base colour (`float4`), metallic (`float`), roughness
/// (`float`), tangent-space normal (`float3`), occlusion (`float`) and
/// emissive (`float3`). Every channel's textures are declared; occlusion
/// takes no part in the shader's outputs.
pub fn gbuffer_source(name: &str, channels: &Vec<MaterialExprTree>) -> (r: String)
    requires
        channels@.len() == 6,
    ensures
        r@ == gbuffer_text(name@, channels@),
        has_substring(r@, "    float4 base_color = "@ + expr_slang(channels@[0], "float4"@) + ";\n"@),
        has_substring(r@, "    float metallic = "@ + expr_slang(channels@[1], "float"@) + ";\n"@),
        has_substring(r@, "    float roughness = "@ + expr_slang(channels@[2], "float"@) + ";\n"@),
        has_substring(r@, "    float3 normal_ts = "@ + expr_slang(channels@[3], "float3"@) + ";"@),
        has_substring(r@, "    float3 emissive = "@ + expr_slang(channels@[5], "float3"@) + ";\n"@),
{
    let decls = gbuffer_texture_declarations(channels);
    let base_color = channels[0].to_slang_expr("float4");
    let metallic = channels[1].to_slang_expr("float");
    let roughness = channels[2].to_slang_expr("float");
    let normal = channels[3].to_slang_expr("float3");
    let emissive = channels[5].to_slang_expr("float3");
    let mut s = String::from_str(GBUFFER_OPEN);
    s.append(name);
    s.append(GBUFFER_BINDINGS);
    s.append(decls.as_str());
    s.append(GBUFFER_MAIN);
    s.append(GBUFFER_BASE_COLOR);
    s.append(base_color.as_str());
    s.append(GBUFFER_METALLIC);
    s.append(metallic.as_str());
    s.append(GBUFFER_ROUGHNESS);
    s.append(roughness.as_str());
    s.append(GBUFFER_NORMAL);
    s.append(normal.as_str());
    s.append(GBUFFER_EMISSIVE);
    s.append(emissive.as_str());
    s.append(GBUFFER_EMISSIVE_END);
    s.append(GBUFFER_CLOSE);
    proof {
        assert(s@ =~= gbuffer_source_text(name@,
            gbuffer_declarations(channels@, declared_plain(channels@), declared_arrays(channels@)),
            base_color@, metallic@, roughness@, normal@, emissive@));
        lemma_gbuffer_assigns_channels(name@, channels@);
    }
    s
}

/// `e` samples channel `components` of texture `name` at the mesh's first
/// UV set.
pub open spec fn packed_channel(e: MaterialExprTree, name: Seq<char>, components: Seq<char>) -> bool {
    match e {
        MaterialExprTree::Swizzle { input, components: c } => c@ == components && match *input {
            MaterialExprTree::Texture { name: n, uv, uv_slang } =>
                n@ == name && uv == UvSourceKind::MeshUv0 && uv_slang@ == "v.uv"@,
            _ => false,
        },
        _ => false,
    }
}

fn packed_texture_channel(name: &str, components: &str) -> (r: MaterialExprTree)
    ensures
        packed_channel(r, name@, components@),
{
    let texture = MaterialExprTree::Texture {
        name: String::from_str(name),
        uv: UvSourceKind::MeshUv0,
        uv_slang: String::from_str("v.uv"),
    };
    MaterialExprTree::Swizzle { input: Box::new(texture), components: String::from_str(components) }
}

/// The metallic and roughness channels of a GLTF-style packed
/// metallic-roughness texture `name`: one texture, metallic read from its
/// blue channel and roughness from its green one.
pub fn metallic_roughness_channels(name: &str) -> (r: (MaterialExprTree, MaterialExprTree))
    ensures
        packed_channel(r.0, name@, "b"@),
        packed_channel(r.1, name@, "g"@),
{
    (packed_texture_channel(name, "b"), packed_texture_channel(name, "g"))
}

/// A copy of UV source `u`.
fn duplicate_uv(u: &UvSourceKind) -> (r: UvSourceKind)
    ensures
        r == *u,
{
    match u {
        UvSourceKind::MeshUv0 => UvSourceKind::MeshUv0,
        UvSourceKind::Tiled => UvSourceKind::Tiled,
        UvSourceKind::Scrolled => UvSourceKind::Scrolled,
        UvSourceKind::TiledScrolled => UvSourceKind::TiledScrolled,
        UvSourceKind::Custom(s) => UvSourceKind::Custom(s.clone()),
    }
}

/// A copy of expression `e`.
pub fn duplicate_tree(e: &MaterialExprTree) -> (r: MaterialExprTree)
    ensures
        r == *e,
    decreases e,
{
    match e {
        MaterialExprTree::Constant(s) => MaterialExprTree::Constant(s.clone()),
        MaterialExprTree::Texture { name, uv, uv_slang } =>
            MaterialExprTree::Texture { name: name.clone(), uv: duplicate_uv(uv), uv_slang: uv_slang.clone() },
        MaterialExprTree::TextureFactor { name, uv, uv_slang, factor } => MaterialExprTree::TextureFactor {
            name: name.clone(),
            uv: duplicate_uv(uv),
            uv_slang: uv_slang.clone(),
            factor: factor.clone(),
        },
        MaterialExprTree::ImageSequence { name, frame_count, fps, uv, uv_slang } => MaterialExprTree::ImageSequence {
            name: name.clone(),
            frame_count: *frame_count,
            fps: fps.clone(),
            uv: duplicate_uv(uv),
            uv_slang: uv_slang.clone(),
        },
        MaterialExprTree::Procedural(s) => MaterialExprTree::Procedural(s.clone()),
        MaterialExprTree::Multiply(a, b) =>
            MaterialExprTree::Multiply(Box::new(duplicate_tree(a)), Box::new(duplicate_tree(b))),
        MaterialExprTree::Add(a, b) => MaterialExprTree::Add(Box::new(duplicate_tree(a)), Box::new(duplicate_tree(b))),
        MaterialExprTree::Mix { a, b, t } => MaterialExprTree::Mix {
            a: Box::new(duplicate_tree(a)),
            b: Box::new(duplicate_tree(b)),
            t: Box::new(duplicate_tree(t)),
        },
        MaterialExprTree::Clamp { value, min, max } =>
            MaterialExprTree::Clamp { value: Box::new(duplicate_tree(value)), min: min.clone(), max: max.clone() },
        MaterialExprTree::Pow(value, exp) => MaterialExprTree::Pow(Box::new(duplicate_tree(value)), exp.clone()),
        MaterialExprTree::Swizzle { input, components } =>
            MaterialExprTree::Swizzle { input: Box::new(duplicate_tree(input)), components: components.clone() },
    }
}

/// What `std::collections::hash_map::DefaultHasher::new()` gives for the
/// text `s` hashed as a `str`: a function of the text alone (the hasher
/// starts from fixed keys), not stated further.
pub uninterp spec fn default_str_hash(s: Seq<char>) -> u64;

/// Hashes `s` with a new `DefaultHasher` through `str`'s `Hash` and returns
/// `finish()`; the result is named by [`default_str_hash`].
#[verifier::external_body]
fn default_hash_str(s: &str) -> (r: u64)
    ensures
        r == default_str_hash(s@),
{
    let mut h = std::collections::hash_map::DefaultHasher::new();
    std::hash::Hash::hash(s, &mut h);
    std::hash::Hasher::finish(&h)
}

/// A hash of the G-buffer shader of material `name` with the six channels
/// `channels`, for caching compiled variants: the default hasher's hash of
/// the shader text.
pub fn gbuffer_content_hash(name: &str, channels: &Vec<MaterialExprTree>) -> (r: u64)
    requires
        channels@.len() == 6,
    ensures
        r == default_str_hash(gbuffer_text(name@, channels@)),
{
    let source = gbuffer_source(name, channels);
    default_hash_str(source.as_str())
}

/// A texture multiplied by a constant factor is printed as the texture's
/// own sample multiplied by the factor: `(<sample> * <factor>)`, the
/// sample being what the plain texture lookup prints; at value type
/// `float4` the sample is `(<name>.Sample(material_sampler, <uv>))`.
pub proof fn lemma_texture_factor_multiplies(name: String, uv: UvSourceKind, uv_slang: String, factor: String, ty: Seq<char>)
    ensures
        expr_slang(MaterialExprTree::TextureFactor { name, uv, uv_slang, factor }, ty)
            == "("@ + expr_slang(MaterialExprTree::Texture { name, uv, uv_slang }, ty) + " * "@ + factor@ + ")"@,
        expr_slang(MaterialExprTree::Texture { name, uv, uv_slang }, "float4"@)
            == "("@ + name@ + ".Sample(material_sampler, "@ + uv_slang@ + "))"@,
{
    reveal_strlit("float4");
    reveal_strlit("float");
    reveal_strlit("float2");
    reveal_strlit("float3");
    assert("float4"@.len() != "float"@.len());
    assert("float4"@[5] != "float2"@[5]);
    assert("float4"@[5] != "float3"@[5]);
    reveal_strlit(")");
    reveal_strlit("))");
    assert(crate::material::swizzle_suffix("float4"@) == Seq::<char>::empty());
    assert(expr_slang(MaterialExprTree::Texture { name, uv, uv_slang }, "float4"@)
        =~= "("@ + name@ + ".Sample(material_sampler, "@ + uv_slang@ + "))"@);
}

/// `p` occurs in `pre + p + post`.
proof fn lemma_occurs_between(pre: Seq<char>, p: Seq<char>, post: Seq<char>)
    ensures
        has_substring(pre + p + post, p),
{
    let s = pre + p + post;
    assert(s.subrange(pre.len() as int, (pre.len() + p.len()) as int) =~= p);
}

/// The G-buffer shader assigns every channel its expression at the
/// channel's value type, each on its own line: the base colour as a
/// `float4`, metallic and roughness as `float`s, the tangent-space normal
/// and the emissive colour as `float3`s.
pub proof fn lemma_gbuffer_assigns_channels(name: Seq<char>, channels: Seq<MaterialExprTree>)
    requires
        channels.len() == 6,
    ensures
        has_substring(gbuffer_text(name, channels), "    float4 base_color = "@ + expr_slang(channels[0], "float4"@) + ";\n"@),
        has_substring(gbuffer_text(name, channels), "    float metallic = "@ + expr_slang(channels[1], "float"@) + ";\n"@),
        has_substring(gbuffer_text(name, channels), "    float roughness = "@ + expr_slang(channels[2], "float"@) + ";\n"@),
        has_substring(gbuffer_text(name, channels), "    float3 normal_ts = "@ + expr_slang(channels[3], "float3"@) + ";"@),
        has_substring(gbuffer_text(name, channels), "    float3 emissive = "@ + expr_slang(channels[5], "float3"@) + ";\n"@),
{
    let decls = gbuffer_declarations(channels, declared_plain(channels), declared_arrays(channels));
    let bc = expr_slang(channels[0], "float4"@);
    let met = expr_slang(channels[1], "float"@);
    let rough = expr_slang(channels[2], "float"@);
    let nrm = expr_slang(channels[3], "float3"@);
    let emi = expr_slang(channels[5], "float3"@);
    let head = GBUFFER_OPEN@ + name + GBUFFER_BINDINGS@ + decls + GBUFFER_MAIN@;
    reveal_strlit("    float4 base_color = ");
    reveal_strlit(";\n    float metallic = ");
    reveal_strlit(";\n    float roughness = ");
    reveal_strlit(";\n    float3 normal_ts = ");
    reveal_strlit(";  // tangent-space normal\n    float3 emissive = ");
    reveal_strlit(";\n");
    reveal_strlit(";");
    reveal_strlit("    float metallic = ");
    reveal_strlit("    float roughness = ");
    reveal_strlit("    float3 normal_ts = ");
    reveal_strlit("    float3 emissive = ");
    reveal_strlit(";  // tangent-space normal\n");
    assert(GBUFFER_METALLIC@ =~= ";\n"@ + "    float metallic = "@);
    assert(GBUFFER_ROUGHNESS@ =~= ";\n"@ + "    float roughness = "@);
    assert(GBUFFER_NORMAL@ =~= ";\n"@ + "    float3 normal_ts = "@);
    assert(GBUFFER_EMISSIVE@ =~= ";"@ + ";  // tangent-space normal\n"@.subrange(1, 27) + "    float3 emissive = "@);
    let text = gbuffer_text(name, channels);
    let tail_e = GBUFFER_CLOSE@;
    let line_e = "    float3 emissive = "@ + emi + ";\n"@;
    let pre_e = head + GBUFFER_BASE_COLOR@ + bc + GBUFFER_METALLIC@ + met + GBUFFER_ROUGHNESS@ + rough
        + GBUFFER_NORMAL@ + nrm + ";"@ + ";  // tangent-space normal\n"@.subrange(1, 27);
    assert(text =~= pre_e + line_e + tail_e);
    lemma_occurs_between(pre_e, line_e, tail_e);
    let line_n = "    float3 normal_ts = "@ + nrm + ";"@;
    let pre_n = head + GBUFFER_BASE_COLOR@ + bc + GBUFFER_METALLIC@ + met + GBUFFER_ROUGHNESS@ + rough + ";\n"@;
    let post_n = ";  // tangent-space normal\n"@.subrange(1, 27) + "    float3 emissive = "@ + emi + GBUFFER_EMISSIVE_END@
        + GBUFFER_CLOSE@;
    assert(text =~= pre_n + line_n + post_n);
    lemma_occurs_between(pre_n, line_n, post_n);
    let line_r = "    float roughness = "@ + rough + ";\n"@;
    let pre_r = head + GBUFFER_BASE_COLOR@ + bc + GBUFFER_METALLIC@ + met + ";\n"@;
    let post_r = "    float3 normal_ts = "@ + nrm + GBUFFER_EMISSIVE@ + emi + GBUFFER_EMISSIVE_END@ + GBUFFER_CLOSE@;
    assert(text =~= pre_r + line_r + post_r);
    lemma_occurs_between(pre_r, line_r, post_r);
    let line_m = "    float metallic = "@ + met + ";\n"@;
    let pre_m = head + GBUFFER_BASE_COLOR@ + bc + ";\n"@;
    let post_m = "    float roughness = "@ + rough + GBUFFER_NORMAL@ + nrm + GBUFFER_EMISSIVE@ + emi + GBUFFER_EMISSIVE_END@
        + GBUFFER_CLOSE@;
    assert(text =~= pre_m + line_m + post_m);
    lemma_occurs_between(pre_m, line_m, post_m);
    let line_b = "    float4 base_color = "@ + bc + ";\n"@;
    let post_b = "    float metallic = "@ + met + GBUFFER_ROUGHNESS@ + rough + GBUFFER_NORMAL@ + nrm + GBUFFER_EMISSIVE@ + emi
        + GBUFFER_EMISSIVE_END@ + GBUFFER_CLOSE@;
    assert(GBUFFER_BASE_COLOR@ =~= "    float4 base_color = "@);
    assert(text =~= head + line_b + post_b);
    lemma_occurs_between(head, line_b, post_b);
}

/// How the operators print, each around its operands' own expressions: a
/// product as `((a) * (b))`, a sum as `((a) + (b))`, a mix as
/// `lerp((a), (b), (t))` with its weight printed as a `float`, a clamp as
/// `clamp((v), lo, hi)`, a power as `pow((v), e)`, a channel selection as
/// `((v).c)` with its input printed as a `float4`, procedural code in
/// parentheses and a constant as it is.
pub proof fn lemma_operators_print(a: MaterialExprTree, b: MaterialExprTree, t: MaterialExprTree, lo: String, hi: String, ty: Seq<char>)
    ensures
        expr_slang(MaterialExprTree::Multiply(Box::new(a), Box::new(b)), ty)
            == "(("@ + expr_slang(a, ty) + ") * ("@ + expr_slang(b, ty) + "))"@,
        expr_slang(MaterialExprTree::Add(Box::new(a), Box::new(b)), ty)
            == "(("@ + expr_slang(a, ty) + ") + ("@ + expr_slang(b, ty) + "))"@,
        expr_slang(MaterialExprTree::Mix { a: Box::new(a), b: Box::new(b), t: Box::new(t) }, ty)
            == "lerp(("@ + expr_slang(a, ty) + "), ("@ + expr_slang(b, ty) + "), ("@ + expr_slang(t, "float"@) + "))"@,
        expr_slang(MaterialExprTree::Clamp { value: Box::new(a), min: lo, max: hi }, ty)
            == "clamp(("@ + expr_slang(a, ty) + "), "@ + lo@ + ", "@ + hi@ + ")"@,
        expr_slang(MaterialExprTree::Pow(Box::new(a), lo), ty) == "pow(("@ + expr_slang(a, ty) + "), "@ + lo@ + ")"@,
        expr_slang(MaterialExprTree::Swizzle { input: Box::new(a), components: lo }, ty)
            == "(("@ + expr_slang(a, "float4"@) + ")."@ + lo@ + ")"@,
        expr_slang(MaterialExprTree::Procedural(lo), ty) == "("@ + lo@ + ")"@,
        expr_slang(MaterialExprTree::Constant(lo), ty) == lo@,
{
}

/// A texture lookup samples through the shared `material_sampler` and
/// keeps the channels its value type has: `.r` for a `float`, `.rg` for a
/// `float2`, `.rgb` for a `float3`.
pub proof fn lemma_texture_channels(name: String, uv: UvSourceKind, uv_slang: String)
    ensures
        expr_slang(MaterialExprTree::Texture { name, uv, uv_slang }, "float"@)
            == "("@ + name@ + ".Sample(material_sampler, "@ + uv_slang@ + ").r)"@,
        expr_slang(MaterialExprTree::Texture { name, uv, uv_slang }, "float2"@)
            == "("@ + name@ + ".Sample(material_sampler, "@ + uv_slang@ + ").rg)"@,
        expr_slang(MaterialExprTree::Texture { name, uv, uv_slang }, "float3"@)
            == "("@ + name@ + ".Sample(material_sampler, "@ + uv_slang@ + ").rgb)"@,
{
    reveal_strlit("float");
    reveal_strlit("float2");
    reveal_strlit("float3");
    reveal_strlit(")");
    reveal_strlit(".r");
    reveal_strlit(".rg");
    reveal_strlit(".rgb");
    reveal_strlit(").r)");
    reveal_strlit(").rg)");
    reveal_strlit(").rgb)");
    assert("float2"@.len() != "float"@.len());
    assert("float3"@.len() != "float"@.len());
    assert("float3"@[5] != "float2"@[5]);
    let pre = "("@ + name@ + ".Sample(material_sampler, "@ + uv_slang@;
    assert(pre + ")"@ + ".r"@ + ")"@ =~= pre + ").r)"@);
    assert(pre + ")"@ + ".rg"@ + ")"@ =~= pre + ").rg)"@);
    assert(pre + ")"@ + ".rgb"@ + ")"@ =~= pre + ").rgb)"@);
}

} // verus!
