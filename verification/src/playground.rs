//! The shader playground's parameters: the push-constant fields of a
//! fullscreen shader exposed as named, editable values, packed into the
//! push-constant bytes the shader reads, and saved and restored as named
//! presets. Floating-point values are held as their IEEE 754 bit patterns,
//! which is all the packing reads of them.
use vstd::prelude::*;

use crate::types::{Named, has_named, is_first_named, position_named};

verus! {

// ── Values ───────────────────────────────────────────────────────────────────

/// The type of a push-constant field.
#[derive(Clone, Copy, Debug, PartialEq, Eq, Structural)]
pub enum PcFieldKind {
    Float,
    Float2,
    Float3,
    Float4,
    Int,
    Uint,
    Bool,
    Mat4,
    Other { byte_size: u32 },
}

/// The current value of one playground parameter; floating-point
/// components are held as their bit patterns.
#[derive(Clone, Debug)]
pub enum PlaygroundValue {
    Float(u32),
    Float2([u32; 2]),
    Float3([u32; 3]),
    Float4([u32; 4]),
    Int(i32),
    Uint(u32),
    Bool(bool),
    /// Raw bytes for types without a dedicated variant (matrices, arrays, structs).
    Raw(Vec<u8>),
}

/// A value as plain data.
pub enum PlaygroundValueView {
    Float(u32),
    Float2(Seq<u32>),
    Float3(Seq<u32>),
    Float4(Seq<u32>),
    Int(i32),
    Uint(u32),
    Bool(bool),
    Raw(Seq<u8>),
}

impl View for PlaygroundValue {
    type V = PlaygroundValueView;

    open spec fn view(&self) -> PlaygroundValueView {
        match self {
            PlaygroundValue::Float(b) => PlaygroundValueView::Float(*b),
            PlaygroundValue::Float2(a) => PlaygroundValueView::Float2(a@),
            PlaygroundValue::Float3(a) => PlaygroundValueView::Float3(a@),
            PlaygroundValue::Float4(a) => PlaygroundValueView::Float4(a@),
            PlaygroundValue::Int(i) => PlaygroundValueView::Int(*i),
            PlaygroundValue::Uint(u) => PlaygroundValueView::Uint(*u),
            PlaygroundValue::Bool(b) => PlaygroundValueView::Bool(*b),
            PlaygroundValue::Raw(v) => PlaygroundValueView::Raw(v@),
        }
    }
}

/// The four little-endian bytes of `v`.
pub open spec fn le32(v: u32) -> Seq<u8> {
    seq![(v % 256) as u8, ((v / 256) % 256) as u8, ((v / 65536) % 256) as u8, ((v / 16777216) % 256) as u8]
}

/// The bytes a value is written as: each 32-bit component little-endian in
/// order (a boolean as 0 or 1), raw bytes as they are.
pub open spec fn value_bytes(v: PlaygroundValueView) -> Seq<u8> {
    match v {
        PlaygroundValueView::Float(b) => le32(b),
        PlaygroundValueView::Float2(a) => le32(a[0]) + le32(a[1]),
        PlaygroundValueView::Float3(a) => le32(a[0]) + le32(a[1]) + le32(a[2]),
        PlaygroundValueView::Float4(a) => le32(a[0]) + le32(a[1]) + le32(a[2]) + le32(a[3]),
        PlaygroundValueView::Int(i) => le32(i as u32),
        PlaygroundValueView::Uint(u) => le32(u),
        PlaygroundValueView::Bool(b) => le32(if b { 1u32 } else { 0u32 }),
        PlaygroundValueView::Raw(s) => s,
    }
}

/// The little-endian bytes of `v`.
fn le32_bytes(v: u32) -> (r: [u8; 4])
    ensures
        r@ == le32(v),
{
    let r = [(v % 256) as u8, ((v / 256) % 256) as u8, ((v / 65536) % 256) as u8, ((v / 16777216) % 256) as u8];
    assert(r@ =~= le32(v));
    r
}

/// Append the little-endian bytes of `v` to `out`.
fn push_le32(out: &mut Vec<u8>, v: u32)
    ensures
        final(out)@ == old(out)@ + le32(v),
{
    let b = le32_bytes(v);
    out.push(b[0]);
    out.push(b[1]);
    out.push(b[2]);
    out.push(b[3]);
    assert(out@ =~= old(out)@ + le32(v));
}

/// The zero value of each field type: zero numbers and `false`, and zeroed
/// raw bytes for matrices (64) and other types (their size).
pub open spec fn default_value(k: PcFieldKind) -> PlaygroundValueView {
    match k {
        PcFieldKind::Float => PlaygroundValueView::Float(0),
        PcFieldKind::Float2 => PlaygroundValueView::Float2(seq![0u32, 0u32]),
        PcFieldKind::Float3 => PlaygroundValueView::Float3(seq![0u32, 0u32, 0u32]),
        PcFieldKind::Float4 => PlaygroundValueView::Float4(seq![0u32, 0u32, 0u32, 0u32]),
        PcFieldKind::Int => PlaygroundValueView::Int(0),
        PcFieldKind::Uint => PlaygroundValueView::Uint(0),
        PcFieldKind::Bool => PlaygroundValueView::Bool(false),
        PcFieldKind::Mat4 => PlaygroundValueView::Raw(Seq::new(64, |i: int| 0u8)),
        PcFieldKind::Other { byte_size } => PlaygroundValueView::Raw(Seq::new(byte_size as nat, |i: int| 0u8)),
    }
}

/// `n` zero bytes.
fn zeros(n: usize) -> (r: Vec<u8>)
    ensures
        r@ == Seq::new(n as nat, |i: int| 0u8),
{
    let mut v: Vec<u8> = Vec::new();
    let mut i: usize = 0;
    while i < n
        invariant
            i <= n,
            v@ == Seq::new(i as nat, |k: int| 0u8),
        decreases n - i,
    {
        v.push(0);
        i = i + 1;
        assert(v@ =~= Seq::new(i as nat, |k: int| 0u8));
    }
    v
}

impl PlaygroundValue {
    /// The number of bytes this value occupies.
    pub fn byte_size(&self) -> (r: usize)
        ensures
            r == value_bytes(self@).len(),
    {
        match self {
            PlaygroundValue::Float(_) | PlaygroundValue::Int(_) | PlaygroundValue::Uint(_) | PlaygroundValue::Bool(_) => 4,
            PlaygroundValue::Float2(_) => 8,
            PlaygroundValue::Float3(_) => 12,
            PlaygroundValue::Float4(_) => 16,
            PlaygroundValue::Raw(v) => v.len(),
        }
    }

    /// The bytes this value is written as.
    pub fn to_bytes(&self) -> (r: Vec<u8>)
        ensures
            r@ == value_bytes(self@),
    {
        let mut out: Vec<u8> = Vec::new();
        match self {
            PlaygroundValue::Float(b) => push_le32(&mut out, *b),
            PlaygroundValue::Float2(a) => {
                push_le32(&mut out, a[0]);
                push_le32(&mut out, a[1]);
            },
            PlaygroundValue::Float3(a) => {
                push_le32(&mut out, a[0]);
                push_le32(&mut out, a[1]);
                push_le32(&mut out, a[2]);
            },
            PlaygroundValue::Float4(a) => {
                push_le32(&mut out, a[0]);
                push_le32(&mut out, a[1]);
                push_le32(&mut out, a[2]);
                push_le32(&mut out, a[3]);
            },
            PlaygroundValue::Int(i) => push_le32(&mut out, *i as u32),
            PlaygroundValue::Uint(u) => push_le32(&mut out, *u),
            PlaygroundValue::Bool(b) => push_le32(&mut out, if *b { 1 } else { 0 }),
            PlaygroundValue::Raw(v) => {
                let mut i: usize = 0;
                while i < v.len()
                    invariant
                        i <= v@.len(),
                        out@ == v@.take(i as int),
                    decreases v@.len() - i,
                {
                    out.push(v[i]);
                    assert(v@.take(i as int + 1) =~= v@.take(i as int).push(v@[i as int]));
                    i = i + 1;
                }
                assert(v@.take(i as int) =~= v@);
            },
        }
        out
    }

    /// The zero value of a field of type `kind`.
    pub fn default_for(kind: &PcFieldKind) -> (r: PlaygroundValue)
        ensures
            r@ == default_value(*kind),
    {
        match kind {
            PcFieldKind::Float => PlaygroundValue::Float(0),
            PcFieldKind::Float2 => {
                let a: [u32; 2] = [0, 0];
                assert(a@ =~= seq![0u32, 0u32]);
                PlaygroundValue::Float2(a)
            },
            PcFieldKind::Float3 => {
                let a: [u32; 3] = [0, 0, 0];
                assert(a@ =~= seq![0u32, 0u32, 0u32]);
                PlaygroundValue::Float3(a)
            },
            PcFieldKind::Float4 => {
                let a: [u32; 4] = [0, 0, 0, 0];
                assert(a@ =~= seq![0u32, 0u32, 0u32, 0u32]);
                PlaygroundValue::Float4(a)
            },
            PcFieldKind::Int => PlaygroundValue::Int(0),
            PcFieldKind::Uint => PlaygroundValue::Uint(0),
            PcFieldKind::Bool => PlaygroundValue::Bool(false),
            PcFieldKind::Mat4 => PlaygroundValue::Raw(zeros(64)),
            PcFieldKind::Other { byte_size } => PlaygroundValue::Raw(zeros(*byte_size as usize)),
        }
    }

    /// A copy equal in value.
    pub fn duplicate(&self) -> (r: PlaygroundValue)
        ensures
            r@ == self@,
    {
        match self {
            PlaygroundValue::Float(b) => PlaygroundValue::Float(*b),
            PlaygroundValue::Float2(a) => PlaygroundValue::Float2(*a),
            PlaygroundValue::Float3(a) => PlaygroundValue::Float3(*a),
            PlaygroundValue::Float4(a) => PlaygroundValue::Float4(*a),
            PlaygroundValue::Int(i) => PlaygroundValue::Int(*i),
            PlaygroundValue::Uint(u) => PlaygroundValue::Uint(*u),
            PlaygroundValue::Bool(b) => PlaygroundValue::Bool(*b),
            PlaygroundValue::Raw(v) => {
                let mut out: Vec<u8> = Vec::new();
                let mut i: usize = 0;
                while i < v.len()
                    invariant
                        i <= v@.len(),
                        out@ == v@.take(i as int),
                    decreases v@.len() - i,
                {
                    out.push(v[i]);
                    assert(v@.take(i as int + 1) =~= v@.take(i as int).push(v@[i as int]));
                    i = i + 1;
                }
                assert(v@.take(i as int) =~= v@);
                PlaygroundValue::Raw(out)
            },
        }
    }
}

// ── Packing ──────────────────────────────────────────────────────────────────

/// `buf` with `bytes` written at `off`, when they fit; unchanged otherwise.
pub open spec fn write_at(buf: Seq<u8>, off: int, bytes: Seq<u8>) -> Seq<u8> {
    if off + bytes.len() <= buf.len() {
        buf.subrange(0, off) + bytes + buf.subrange(off + bytes.len(), buf.len() as int)
    } else {
        buf
    }
}

/// Write `bytes` into `buf` at `off` when they fit.
fn write_bytes_at(buf: &mut Vec<u8>, off: usize, bytes: &Vec<u8>)
    ensures
        final(buf)@ == write_at(old(buf)@, off as int, bytes@),
{
    if off <= buf.len() && bytes.len() <= buf.len() - off {
        let n = buf.len();
        let mut i: usize = 0;
        while i < bytes.len()
            invariant
                n == buf@.len(),
                off + bytes@.len() <= buf@.len(),
                buf@.len() == old(buf)@.len(),
                i <= bytes@.len(),
                forall|k: int| 0 <= k < off ==> buf@[k] == old(buf)@[k],
                forall|k: int| off + bytes@.len() <= k < buf@.len() ==> buf@[k] == old(buf)@[k],
                forall|k: int| 0 <= k < i ==> buf@[off + k] == bytes@[k],
                forall|k: int| off + i <= k < off + bytes@.len() ==> buf@[k] == old(buf)@[k],
            decreases bytes@.len() - i,
        {
            buf.set(off + i, bytes[i]);
            i = i + 1;
        }
        assert(buf@ =~= write_at(old(buf)@, off as int, bytes@));
    }
}


// ── Parameters ───────────────────────────────────────────────────────────────

/// A push-constant field found by reflection: its name, byte offset in the
/// push-constant block, and type.
#[derive(Clone, Debug)]
pub struct PushConstantField {
    pub name: String,
    pub byte_offset: u32,
    pub kind: PcFieldKind,
}

impl PushConstantField {
    /// A field-by-field copy.
    pub fn duplicate(&self) -> (r: PushConstantField)
        ensures
            r == *self,
    {
        PushConstantField { name: self.name.clone(), byte_offset: self.byte_offset, kind: self.kind }
    }
}

/// Bit pattern of the default slider minimum, `0.0`.
pub const RANGE_MIN_BITS: u32 = 0;
/// Bit pattern of the default slider maximum, `1.0`.
pub const RANGE_MAX_BITS: u32 = 0x3f80_0000;

/// One push-constant field exposed as a live-editable parameter: the field,
/// its display label, its current value and its slider range (bit patterns
/// of the bounds).
#[derive(Clone, Debug)]
pub struct PlaygroundParam {
    pub field: PushConstantField,
    pub label: String,
    pub value: PlaygroundValue,
    pub min: u32,
    pub max: u32,
}

impl Named for PlaygroundParam {
    open spec fn name_view(&self) -> Seq<char> {
        self.field.name@
    }

    fn name_string(&self) -> (r: &String) {
        &self.field.name
    }
}

/// A parameter as `field` starts out: labelled with the field's name,
/// holding the zero value of its type, with the range zero to one.
pub open spec fn fresh_param(p: PlaygroundParam, field: PushConstantField) -> bool {
    &&& p.field == field
    &&& p.label@ == field.name@
    &&& p.value@ == default_value(field.kind)
    &&& p.min == RANGE_MIN_BITS
    &&& p.max == RANGE_MAX_BITS
}

impl PlaygroundParam {
    /// The parameter of `field`, as it starts out.
    pub fn new(field: PushConstantField) -> (r: PlaygroundParam)
        ensures
            fresh_param(r, field),
    {
        let label = field.name.clone();
        let value = PlaygroundValue::default_for(&field.kind);
        PlaygroundParam { field, label, value, min: RANGE_MIN_BITS, max: RANGE_MAX_BITS }
    }
}

/// A named snapshot of every parameter value, in parameter order.
#[derive(Clone, Debug)]
pub struct PlaygroundPreset {
    pub name: String,
    pub values: Vec<PlaygroundValue>,
}

impl Named for PlaygroundPreset {
    open spec fn name_view(&self) -> Seq<char> {
        self.name@
    }

    fn name_string(&self) -> (r: &String) {
        &self.name
    }
}

/// The values of a sequence of parameters.
pub open spec fn param_values(ps: Seq<PlaygroundParam>) -> Seq<PlaygroundValueView> {
    ps.map_values(|p: PlaygroundParam| p.value@)
}

/// The values a preset holds.
pub open spec fn preset_values(p: PlaygroundPreset) -> Seq<PlaygroundValueView> {
    p.values@.map_values(|v: PlaygroundValue| v@)
}

/// The fields of a sequence of parameters.
pub open spec fn param_fields(ps: Seq<PlaygroundParam>) -> Seq<PushConstantField> {
    ps.map_values(|p: PlaygroundParam| p.field)
}

/// Fields in non-decreasing byte-offset order.
pub open spec fn sorted_by_offset(s: Seq<PushConstantField>) -> bool {
    forall|a: int, b: int| 0 <= a < b < s.len() ==> s[a].byte_offset <= s[b].byte_offset
}

/// The push-constant bytes after writing the first `k` parameters' values
/// at their offsets, in order, into `total` zero bytes; a value that would
/// run past the end is skipped.
pub open spec fn packed_upto(ps: Seq<PlaygroundParam>, total: nat, k: int) -> Seq<u8>
    decreases k,
{
    if k <= 0 {
        Seq::new(total, |i: int| 0u8)
    } else {
        write_at(packed_upto(ps, total, k - 1), ps[k - 1].field.byte_offset as int, value_bytes(ps[k - 1].value@))
    }
}

/// The push-constant bytes of the parameters.
pub open spec fn packed(ps: Seq<PlaygroundParam>, total: nat) -> Seq<u8> {
    if total == 0 { Seq::empty() } else { packed_upto(ps, total, ps.len() as int) }
}

/// The parameters after loading preset values `vals`: each parameter with a
/// value at its position takes it, the others keep theirs; nothing else
/// changes.
pub open spec fn loaded_params(before: Seq<PlaygroundParam>, after: Seq<PlaygroundParam>, vals: Seq<PlaygroundValueView>) -> bool {
    &&& after.len() == before.len()
    &&& forall|k: int| 0 <= k < after.len() ==> (#[trigger] after[k]).field == before[k].field
        && after[k].label == before[k].label && after[k].min == before[k].min && after[k].max == before[k].max
        && after[k].value@ == (if k < vals.len() { vals[k] } else { before[k].value@ })
}

/// Sort fields by byte offset, keeping the order of fields at equal offsets.
pub fn sort_fields_by_offset(fields: &Vec<PushConstantField>) -> (r: Vec<PushConstantField>)
    ensures
        sorted_by_offset(r@),
        r@.to_multiset() == fields@.to_multiset(),
{
    let mut out: Vec<PushConstantField> = Vec::new();
    let mut i: usize = 0;
    assert(fields@.take(0) =~= out@);
    while i < fields.len()
        invariant
            i <= fields@.len(),
            sorted_by_offset(out@),
            out@.to_multiset() == fields@.take(i as int).to_multiset(),
        decreases fields@.len() - i,
    {
        let f = fields[i].duplicate();
        let mut j: usize = 0;
        while j < out.len() && out[j].byte_offset <= f.byte_offset
            invariant
                j <= out@.len(),
                forall|k: int| 0 <= k < j ==> out@[k].byte_offset <= f.byte_offset,
            decreases out@.len() - j,
        {
            j = j + 1;
        }
        let ghost before = out@;
        out.insert(j, f);
        proof {
            vstd::seq_lib::to_multiset_insert(before, j as int, f);
            assert(fields@.take(i as int + 1) =~= fields@.take(i as int).push(fields@[i as int]));
            vstd::seq_lib::to_multiset_build(fields@.take(i as int), fields@[i as int]);
            assert forall|a: int, b: int| 0 <= a < b < out@.len() implies out@[a].byte_offset <= out@[b].byte_offset by {
                if b < j {
                    assert(out@[a] == before[a] && out@[b] == before[b]);
                } else if b == j {
                    assert(out@[a] == before[a]);
                } else if a == j {
                    assert(out@[b] == before[b - 1]);
                    if j < before.len() {
                        assert(before[j as int].byte_offset > f.byte_offset);
                        assert(before[j as int].byte_offset <= before[b - 1].byte_offset);
                    }
                } else if a < j {
                    assert(out@[a] == before[a] && out@[b] == before[b - 1]);
                } else {
                    assert(out@[a] == before[a - 1] && out@[b] == before[b - 1]);
                }
            }
        }
        i = i + 1;
    }
    assert(fields@.take(i as int) =~= fields@);
    out
}

/// Whether a value of this variant can be stored in a field of `kind`:
/// scalars and vectors in their own kind, raw bytes in a matrix or any
/// other field.
pub open spec fn fits_kind(kind: PcFieldKind, v: PlaygroundValue) -> bool {
    match (kind, v) {
        (PcFieldKind::Float, PlaygroundValue::Float(_)) => true,
        (PcFieldKind::Float2, PlaygroundValue::Float2(_)) => true,
        (PcFieldKind::Float3, PlaygroundValue::Float3(_)) => true,
        (PcFieldKind::Float4, PlaygroundValue::Float4(_)) => true,
        (PcFieldKind::Int, PlaygroundValue::Int(_)) => true,
        (PcFieldKind::Uint, PlaygroundValue::Uint(_)) => true,
        (PcFieldKind::Bool, PlaygroundValue::Bool(_)) => true,
        (PcFieldKind::Mat4, PlaygroundValue::Raw(_)) => true,
        (PcFieldKind::Other { .. }, PlaygroundValue::Raw(_)) => true,
        _ => false,
    }
}

/// Whether `v` fits a field of `kind`.
pub fn value_fits_kind(kind: &PcFieldKind, v: &PlaygroundValue) -> (r: bool)
    ensures
        r == fits_kind(*kind, *v),
{
    match (kind, v) {
        (PcFieldKind::Float, PlaygroundValue::Float(_)) => true,
        (PcFieldKind::Float2, PlaygroundValue::Float2(_)) => true,
        (PcFieldKind::Float3, PlaygroundValue::Float3(_)) => true,
        (PcFieldKind::Float4, PlaygroundValue::Float4(_)) => true,
        (PcFieldKind::Int, PlaygroundValue::Int(_)) => true,
        (PcFieldKind::Uint, PlaygroundValue::Uint(_)) => true,
        (PcFieldKind::Bool, PlaygroundValue::Bool(_)) => true,
        (PcFieldKind::Mat4, PlaygroundValue::Raw(_)) => true,
        (PcFieldKind::Other { .. }, PlaygroundValue::Raw(_)) => true,
        _ => false,
    }
}

/// Parameter `i` of `ps` is named `name` and `v` fits its kind.
pub open spec fn settable_at(ps: Seq<PlaygroundParam>, name: Seq<char>, v: PlaygroundValue, i: int) -> bool {
    &&& 0 <= i < ps.len()
    &&& ps[i].field.name@ == name
    &&& fits_kind(ps[i].field.kind, v)
}

/// Parameter `i` is the first of `ps` that is named `name` and whose kind
/// `v` fits.
pub open spec fn first_settable(ps: Seq<PlaygroundParam>, name: Seq<char>, v: PlaygroundValue, i: int) -> bool {
    &&& settable_at(ps, name, v, i)
    &&& forall|j: int| 0 <= j < i ==> !#[trigger] settable_at(ps, name, v, j)
}

/// A fullscreen shader's push-constant parameters, their packed size, and
/// the saved presets.
#[derive(Clone, Debug)]
pub struct ShaderPlayground {
    pub params: Vec<PlaygroundParam>,
    pub total_bytes: u32,
    pub presets: Vec<PlaygroundPreset>,
}

impl ShaderPlayground {
    /// The playground of a shader whose push-constant block is
    /// `total_bytes` long and holds `fields`: one fresh parameter per field,
    /// in byte-offset order, and no presets.
    pub fn new(fields: &Vec<PushConstantField>, total_bytes: u32) -> (r: ShaderPlayground)
        ensures
            r.total_bytes == total_bytes,
            r.presets@.len() == 0,
            sorted_by_offset(param_fields(r.params@)),
            param_fields(r.params@).to_multiset() == fields@.to_multiset(),
            forall|k: int| 0 <= k < r.params@.len() ==> fresh_param(#[trigger] r.params@[k], r.params@[k].field),
    {
        let sorted = sort_fields_by_offset(fields);
        let mut params: Vec<PlaygroundParam> = Vec::new();
        let mut k: usize = 0;
        while k < sorted.len()
            invariant
                k <= sorted@.len(),
                params@.len() == k,
                forall|j: int| 0 <= j < k ==> fresh_param(#[trigger] params@[j], sorted@[j]),
            decreases sorted@.len() - k,
        {
            params.push(PlaygroundParam::new(sorted[k].duplicate()));
            k = k + 1;
        }
        assert(param_fields(params@) =~= sorted@);
        ShaderPlayground { params, total_bytes, presets: Vec::new() }
    }

    /// The parameters, in byte-offset order.
    pub fn params(&self) -> (r: &[PlaygroundParam])
        ensures
            r@ == self.params@,
    {
        self.params.as_slice()
    }

    /// Size of the push-constant block in bytes.
    pub fn total_bytes(&self) -> (r: u32)
        ensures
            r == self.total_bytes,
    {
        self.total_bytes
    }

    /// The saved presets.
    pub fn presets(&self) -> (r: &[PlaygroundPreset])
        ensures
            r@ == self.presets@,
    {
        self.presets.as_slice()
    }

    /// Set the first parameter named `name` whose kind `value` fits to
    /// `value`; `false`, with nothing changed, when no parameter of that
    /// name has a kind that fits.
    pub fn set(&mut self, name: &str, value: PlaygroundValue) -> (r: bool)
        ensures
            r == exists|i: int| settable_at(old(self).params@, name@, value, i),
            final(self).total_bytes == old(self).total_bytes,
            final(self).presets@ == old(self).presets@,
            r ==> exists|i: int| first_settable(old(self).params@, name@, value, i)
                && final(self).params@ == old(self).params@.update(i, PlaygroundParam { value, ..old(self).params@[i] }),
            !r ==> final(self).params@ == old(self).params@,
    {
        let wanted = name.to_owned();
        let mut i: usize = 0;
        while i < self.params.len()
            invariant
                i <= self.params@.len(),
                wanted@ == name@,
                self.params@ == old(self).params@,
                self.total_bytes == old(self).total_bytes,
                self.presets@ == old(self).presets@,
                forall|j: int| 0 <= j < i ==> !#[trigger] settable_at(self.params@, name@, value, j),
            decreases self.params@.len() - i,
        {
            if self.params[i].field.name == wanted && value_fits_kind(&self.params[i].field.kind, &value) {
                let mut p = self.params.remove(i);
                p.value = value;
                self.params.insert(i, p);
                proof {
                    assert(first_settable(old(self).params@, name@, value, i as int));
                    assert(self.params@ =~= old(self).params@.update(i as int, PlaygroundParam { value, ..old(self).params@[i as int] }));
                }
                return true;
            }
            i = i + 1;
        }
        false
    }

    /// The value of the first parameter named `name`.
    pub fn get(&self, name: &str) -> (r: Option<&PlaygroundValue>)
        ensures
            match r {
                Some(v) => exists|i: int| is_first_named(self.params@, name@, i) && *v == self.params@[i].value,
                None => !has_named(self.params@, name@),
            },
    {
        match position_named(&self.params, name) {
            Some(i) => Some(&self.params[i].value),
            None => None,
        }
    }

    /// Relabel the first parameter named `name`; nothing happens when there
    /// is none.
    pub fn set_label(&mut self, name: &str, label: &str)
        ensures
            final(self).total_bytes == old(self).total_bytes,
            final(self).presets@ == old(self).presets@,
            match position_of(old(self).params@, name@) {
                Some(i) => final(self).params@.len() == old(self).params@.len()
                    && final(self).params@[i].label@ == label@
                    && final(self).params@[i].field == old(self).params@[i].field
                    && final(self).params@[i].value == old(self).params@[i].value
                    && final(self).params@[i].min == old(self).params@[i].min
                    && final(self).params@[i].max == old(self).params@[i].max
                    && forall|k: int| 0 <= k < final(self).params@.len() && k != i ==> #[trigger] final(self).params@[k] == old(self).params@[k],
                None => final(self).params@ == old(self).params@,
            },
    {
        match position_named(&self.params, name) {
            Some(i) => {
                proof { lemma_position_of(old(self).params@, name@, i as int); }
                let mut p = self.params.remove(i);
                p.label = label.to_string();
                self.params.insert(i, p);
            },
            None => {
                proof { lemma_position_of_none(old(self).params@, name@); }
            },
        }
    }

    /// Set the slider range (bit patterns of the bounds) of the first
    /// parameter named `name`; nothing happens when there is none.
    pub fn set_range(&mut self, name: &str, min: u32, max: u32)
        ensures
            final(self).total_bytes == old(self).total_bytes,
            final(self).presets@ == old(self).presets@,
            match position_of(old(self).params@, name@) {
                Some(i) => final(self).params@ == old(self).params@.update(i, PlaygroundParam { min, max, ..old(self).params@[i] }),
                None => final(self).params@ == old(self).params@,
            },
    {
        match position_named(&self.params, name) {
            Some(i) => {
                proof { lemma_position_of(old(self).params@, name@, i as int); }
                let mut p = self.params.remove(i);
                p.min = min;
                p.max = max;
                self.params.insert(i, p);
                proof {
                    assert(self.params@ =~= old(self).params@.update(i as int, PlaygroundParam { min, max, ..old(self).params@[i as int] }));
                }
            },
            None => {
                proof { lemma_position_of_none(old(self).params@, name@); }
            },
        }
    }

    /// The push-constant bytes: `total_bytes` bytes, zero but where each
    /// parameter's value is written at its offset (in parameter order, later
    /// values over earlier ones; a value that would run past the end is
    /// skipped). Empty for an empty block.
    pub fn pack_bytes(&self) -> (r: Vec<u8>)
        ensures
            r@ == packed(self.params@, self.total_bytes as nat),
    {
        if self.total_bytes == 0 {
            return Vec::new();
        }
        let mut buf = zeros(self.total_bytes as usize);
        let mut k: usize = 0;
        while k < self.params.len()
            invariant
                k <= self.params@.len(),
                self.total_bytes > 0,
                buf@ == packed_upto(self.params@, self.total_bytes as nat, k as int),
            decreases self.params@.len() - k,
        {
            let bytes = self.params[k].value.to_bytes();
            write_bytes_at(&mut buf, self.params[k].field.byte_offset as usize, &bytes);
            k = k + 1;
        }
        buf
    }

    /// Save every parameter's current value as preset `name`, replacing the
    /// values of the first preset already so named, or adding a preset.
    pub fn save_preset(&mut self, name: &str)
        ensures
            final(self).params@ == old(self).params@,
            final(self).total_bytes == old(self).total_bytes,
            match position_of(old(self).presets@, name@) {
                Some(i) => final(self).presets@.len() == old(self).presets@.len()
                    && final(self).presets@[i].name == old(self).presets@[i].name
                    && preset_values(final(self).presets@[i]) == param_values(old(self).params@)
                    && forall|k: int| 0 <= k < final(self).presets@.len() && k != i ==> #[trigger] final(self).presets@[k] == old(self).presets@[k],
                None => final(self).presets@.len() == old(self).presets@.len() + 1
                    && final(self).presets@.drop_last() == old(self).presets@
                    && final(self).presets@.last().name@ == name@
                    && preset_values(final(self).presets@.last()) == param_values(old(self).params@),
            },
    {
        let values = self.current_values();
        match position_named(&self.presets, name) {
            Some(i) => {
                proof { lemma_position_of(old(self).presets@, name@, i as int); }
                let mut p = self.presets.remove(i);
                p.values = values;
                self.presets.insert(i, p);
            },
            None => {
                proof { lemma_position_of_none(old(self).presets@, name@); }
                self.presets.push(PlaygroundPreset { name: name.to_string(), values });
                assert(self.presets@.drop_last() =~= old(self).presets@);
            },
        }
    }

    /// Copies of every parameter's current value.
    fn current_values(&self) -> (r: Vec<PlaygroundValue>)
        ensures
            r@.map_values(|v: PlaygroundValue| v@) == param_values(self.params@),
    {
        let mut out: Vec<PlaygroundValue> = Vec::new();
        let mut k: usize = 0;
        while k < self.params.len()
            invariant
                k <= self.params@.len(),
                out@.len() == k,
                forall|j: int| 0 <= j < k ==> (#[trigger] out@[j])@ == self.params@[j].value@,
            decreases self.params@.len() - k,
        {
            out.push(self.params[k].value.duplicate());
            k = k + 1;
        }
        assert(out@.map_values(|v: PlaygroundValue| v@) =~= param_values(self.params@));
        out
    }

    /// Restore preset `name` (the first so named): each parameter takes the
    /// preset's value at its position. `false`, with nothing changed, when
    /// there is no such preset.
    pub fn load_preset(&mut self, name: &str) -> (r: bool)
        ensures
            r == has_named(old(self).presets@, name@),
            final(self).presets@ == old(self).presets@,
            final(self).total_bytes == old(self).total_bytes,
            match position_of(old(self).presets@, name@) {
                Some(i) => loaded_params(old(self).params@, final(self).params@, preset_values(old(self).presets@[i])),
                None => final(self).params@ == old(self).params@,
            },
    {
        match position_named(&self.presets, name) {
            Some(i) => {
                proof { lemma_position_of(old(self).presets@, name@, i as int); }
                let ghost vals = preset_values(old(self).presets@[i as int]);
                let n = self.params.len();
                let mut k: usize = 0;
                while k < n
                    invariant
                        n == self.params@.len(),
                        n == old(self).params@.len(),
                        self.total_bytes == old(self).total_bytes,
                        k <= n,
                        self.presets@ == old(self).presets@,
                        i < self.presets@.len(),
                        vals == preset_values(self.presets@[i as int]),
                        forall|j: int| 0 <= j < n ==> (#[trigger] self.params@[j]).field == old(self).params@[j].field
                            && self.params@[j].label == old(self).params@[j].label
                            && self.params@[j].min == old(self).params@[j].min
                            && self.params@[j].max == old(self).params@[j].max,
                        forall|j: int| 0 <= j < k ==> (#[trigger] self.params@[j]).value@ == (if j < vals.len() { vals[j] } else { old(self).params@[j].value@ }),
                        forall|j: int| k <= j < n ==> (#[trigger] self.params@[j]).value == old(self).params@[j].value,
                    decreases n - k,
                {
                    if k < self.presets[i].values.len() {
                        let v = self.presets[i].values[k].duplicate();
                        let mut p = self.params.remove(k);
                        p.value = v;
                        self.params.insert(k, p);
                    }
                    k = k + 1;
                }
                true
            },
            None => {
                proof { lemma_position_of_none(old(self).presets@, name@); }
                false
            },
        }
    }
}

// ── Name positions ───────────────────────────────────────────────────────────

/// The position of the first element named `name`, if any.
pub open spec fn position_of<T: Named>(s: Seq<T>, name: Seq<char>) -> Option<int> {
    if has_named(s, name) {
        Some(choose|i: int| is_first_named(s, name, i))
    } else {
        None
    }
}

/// The first position of a name is unique.
proof fn lemma_position_of<T: Named>(s: Seq<T>, name: Seq<char>, i: int)
    requires
        is_first_named(s, name, i),
    ensures
        position_of(s, name) == Some(i),
{
    assert(s[i].name_view() == name);
    assert(has_named(s, name));
    let j = choose|j: int| is_first_named(s, name, j);
    if j < i {
        assert(s[j].name_view() != name);
    } else if i < j {
        assert(s[i].name_view() != name);
    }
}

/// No position without the name.
proof fn lemma_position_of_none<T: Named>(s: Seq<T>, name: Seq<char>)
    requires
        !has_named(s, name),
    ensures
        position_of(s, name) is None,
{
}

/// Loading a preset whose values cover every parameter sets each parameter's
/// value to the preset's: what was saved is what is restored, whatever was
/// set in between.
pub proof fn lemma_load_restores_saved(
    before: Seq<PlaygroundParam>,
    after: Seq<PlaygroundParam>,
    saved: Seq<PlaygroundValueView>,
)
    requires
        saved.len() == before.len(),
        loaded_params(before, after, saved),
    ensures
        param_values(after) == saved,
{
    assert(param_values(after) =~= saved);
}

/// Setting a parameter keeps the number of parameters, so a preset saved
/// before still covers every parameter.
pub proof fn lemma_set_keeps_count(ps: Seq<PlaygroundParam>, i: int, v: PlaygroundValue)
    requires
        0 <= i < ps.len(),
    ensures
        ps.update(i, PlaygroundParam { value: v, ..ps[i] }).len() == ps.len(),
        param_values(ps).len() == ps.len(),
{
}

/// Bytes `b` hold the 32-bit words `w` in order, each little-endian: word
/// `k` fills bytes `4k` to `4k + 3`, its least significant byte first.
pub open spec fn words_le(b: Seq<u8>, w: Seq<u32>) -> bool {
    &&& b.len() == 4 * w.len()
    &&& forall|k: int| 0 <= k < w.len() ==> {
        &&& b[4 * k] == #[trigger] w[k] % 256
        &&& b[4 * k + 1] == (w[k] / 256) % 256
        &&& b[4 * k + 2] == (w[k] / 65536) % 256
        &&& b[4 * k + 3] == w[k] / 16777216
    }
}

proof fn lemma_le32_words(x: u32)
    ensures
        words_le(le32(x), seq![x]),
{
    assert(seq![x][0] == x);
}

proof fn lemma_concat_words(b1: Seq<u8>, w1: Seq<u32>, b2: Seq<u8>, w2: Seq<u32>)
    requires
        words_le(b1, w1),
        words_le(b2, w2),
    ensures
        words_le(b1 + b2, w1 + w2),
{
    let b = b1 + b2;
    let w = w1 + w2;
    assert forall|k: int| 0 <= k < w.len() implies {
        &&& b[4 * k] == #[trigger] w[k] % 256
        &&& b[4 * k + 1] == (w[k] / 256) % 256
        &&& b[4 * k + 2] == (w[k] / 65536) % 256
        &&& b[4 * k + 3] == w[k] / 16777216
    } by {
        if k < w1.len() {
            assert(w[k] == w1[k]);
        } else {
            let k2 = k - w1.len();
            assert(w[k] == w2[k2]);
            assert(w2[k2] % 256 == b2[4 * k2]);
            assert(4 * k - b1.len() == 4 * k2);
        }
    }
}

/// Every value other than raw bytes is written as its 32-bit components
/// in order, each little-endian: a scalar as one word (an integer by its
/// two's-complement bits, a boolean as 0 or 1), a vector of `n`
/// components as `n` words, component `k` at bytes `4k` to `4k + 3`. Raw
/// bytes are written as they are.
pub proof fn lemma_value_bytes_little_endian(v: PlaygroundValueView)
    ensures
        v matches PlaygroundValueView::Float(x) ==> words_le(value_bytes(v), seq![x]),
        v matches PlaygroundValueView::Float2(a) ==> (a.len() == 2 ==> words_le(value_bytes(v), a)),
        v matches PlaygroundValueView::Float3(a) ==> (a.len() == 3 ==> words_le(value_bytes(v), a)),
        v matches PlaygroundValueView::Float4(a) ==> (a.len() == 4 ==> words_le(value_bytes(v), a)),
        v matches PlaygroundValueView::Int(i) ==> words_le(value_bytes(v), seq![i as u32]),
        v matches PlaygroundValueView::Uint(u) ==> words_le(value_bytes(v), seq![u]),
        v matches PlaygroundValueView::Bool(b) ==> words_le(value_bytes(v), seq![if b { 1u32 } else { 0u32 }]),
        v matches PlaygroundValueView::Raw(r) ==> value_bytes(v) == r,
{
    match v {
        PlaygroundValueView::Float(x) => lemma_le32_words(x),
        PlaygroundValueView::Int(i) => lemma_le32_words(i as u32),
        PlaygroundValueView::Uint(u) => lemma_le32_words(u),
        PlaygroundValueView::Bool(b) => lemma_le32_words(if b { 1u32 } else { 0u32 }),
        PlaygroundValueView::Raw(_) => {},
        PlaygroundValueView::Float2(a) => {
            if a.len() == 2 {
                lemma_le32_words(a[0]);
                lemma_le32_words(a[1]);
                lemma_concat_words(le32(a[0]), seq![a[0]], le32(a[1]), seq![a[1]]);
                assert(seq![a[0]] + seq![a[1]] =~= a);
            }
        },
        PlaygroundValueView::Float3(a) => {
            if a.len() == 3 {
                lemma_le32_words(a[0]);
                lemma_le32_words(a[1]);
                lemma_le32_words(a[2]);
                lemma_concat_words(le32(a[0]), seq![a[0]], le32(a[1]), seq![a[1]]);
                lemma_concat_words(le32(a[0]) + le32(a[1]), seq![a[0]] + seq![a[1]], le32(a[2]), seq![a[2]]);
                assert(seq![a[0]] + seq![a[1]] + seq![a[2]] =~= a);
            }
        },
        PlaygroundValueView::Float4(a) => {
            if a.len() == 4 {
                lemma_le32_words(a[0]);
                lemma_le32_words(a[1]);
                lemma_le32_words(a[2]);
                lemma_le32_words(a[3]);
                lemma_concat_words(le32(a[0]), seq![a[0]], le32(a[1]), seq![a[1]]);
                lemma_concat_words(le32(a[0]) + le32(a[1]), seq![a[0]] + seq![a[1]], le32(a[2]), seq![a[2]]);
                lemma_concat_words(le32(a[0]) + le32(a[1]) + le32(a[2]), seq![a[0]] + seq![a[1]] + seq![a[2]],
                    le32(a[3]), seq![a[3]]);
                assert(seq![a[0]] + seq![a[1]] + seq![a[2]] + seq![a[3]] =~= a);
            }
        },
    }
}

/// Parameter `p` is written into a block of `total` bytes (its value fits
/// there) and covers byte `j`.
pub open spec fn param_covers(p: PlaygroundParam, total: nat, j: int) -> bool {
    let off = p.field.byte_offset as int;
    let n = value_bytes(p.value@).len() as int;
    &&& off + n <= total
    &&& off <= j < off + n
}

proof fn lemma_packed_upto_layout(ps: Seq<PlaygroundParam>, total: nat, k: int)
    requires
        0 <= k <= ps.len(),
    ensures
        packed_upto(ps, total, k).len() == total,
        forall|j: int| 0 <= j < total && (forall|q: int| 0 <= q < k ==> !#[trigger] param_covers(ps[q], total, j))
            ==> packed_upto(ps, total, k)[j] == 0,
    decreases k,
{
    if k > 0 {
        lemma_packed_upto_layout(ps, total, k - 1);
        let prev = packed_upto(ps, total, k - 1);
        let off = ps[k - 1].field.byte_offset as int;
        let bytes = value_bytes(ps[k - 1].value@);
        assert forall|j: int| 0 <= j < total && (forall|q: int| 0 <= q < k ==> !#[trigger] param_covers(ps[q], total, j))
            implies packed_upto(ps, total, k)[j] == 0 by {
            assert(!param_covers(ps[k - 1], total, j));
            assert forall|q: int| 0 <= q < k - 1 implies !#[trigger] param_covers(ps[q], total, j) by {
                assert(!param_covers(ps[q], total, j));
            }
            if off + bytes.len() <= prev.len() {
                let w = prev.subrange(0, off) + bytes + prev.subrange(off + bytes.len(), prev.len() as int);
                if j < off {
                    assert(w[j] == prev[j]);
                } else {
                    assert(j >= off + bytes.len());
                    assert(w[j] == prev.subrange(off + bytes.len(), prev.len() as int)[j - off - bytes.len()]);
                }
            }
        }
    }
}

/// Packing gives `total` bytes: the bytes of the last parameter, when its
/// value fits, lie at its offset, and every byte that no fitting parameter
/// covers is zero.
pub proof fn lemma_packed_layout(ps: Seq<PlaygroundParam>, total: nat)
    requires
        total > 0,
    ensures
        packed(ps, total).len() == total,
        ps.len() > 0 && ps.last().field.byte_offset + value_bytes(ps.last().value@).len() <= total ==>
            packed(ps, total).subrange(ps.last().field.byte_offset as int,
                ps.last().field.byte_offset + value_bytes(ps.last().value@).len()) == value_bytes(ps.last().value@),
        forall|j: int| 0 <= j < total && (forall|q: int| 0 <= q < ps.len() ==> !#[trigger] param_covers(ps[q], total, j))
            ==> packed(ps, total)[j] == 0,
{
    lemma_packed_upto_layout(ps, total, ps.len() as int);
    if ps.len() > 0 {
        let k = ps.len() as int;
        lemma_packed_upto_layout(ps, total, k - 1);
        let prev = packed_upto(ps, total, k - 1);
        let off = ps.last().field.byte_offset as int;
        let bytes = value_bytes(ps.last().value@);
        if off + bytes.len() <= total {
            assert(ps[k - 1] == ps.last());
            let w = prev.subrange(0, off) + bytes + prev.subrange(off + bytes.len(), prev.len() as int);
            assert(w.subrange(off, off + bytes.len()) =~= bytes);
        }
    }
}

} // verus!
