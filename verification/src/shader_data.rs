//! Typed shader data blocks: the bookkeeping of a storage or uniform buffer
//! that holds shader-readable data (how many elements and bytes were last
//! written, how large the allocation is), and when a write is refused.
use vstd::prelude::*;

use crate::types::EngineError;

verus! {

// ── Decimal text ─────────────────────────────────────────────────────────────

/// The decimal digit `d` as text.
pub open spec fn digit_text(d: nat) -> Seq<char> {
    if d == 0 { "0"@ } else if d == 1 { "1"@ } else if d == 2 { "2"@ } else if d == 3 { "3"@ }
    else if d == 4 { "4"@ } else if d == 5 { "5"@ } else if d == 6 { "6"@ } else if d == 7 { "7"@ }
    else if d == 8 { "8"@ } else { "9"@ }
}

/// The decimal text of `n`, most significant digit first, without leading
/// zeros (`"0"` for zero).
pub open spec fn decimal_text(n: nat) -> Seq<char>
    decreases n,
{
    if n < 10 {
        digit_text(n)
    } else {
        decimal_text(n / 10) + digit_text(n % 10)
    }
}

fn digit_str(d: u64) -> (r: &'static str)
    requires
        d < 10,
    ensures
        r@ == digit_text(d as nat),
{
    if d == 0 { "0" } else if d == 1 { "1" } else if d == 2 { "2" } else if d == 3 { "3" }
    else if d == 4 { "4" } else if d == 5 { "5" } else if d == 6 { "6" } else if d == 7 { "7" }
    else if d == 8 { "8" } else { "9" }
}

/// The decimal text of `n`.
pub fn decimal_string(n: u64) -> (r: String)
    ensures
        r@ == decimal_text(n as nat),
    decreases n,
{
    if n < 10 {
        String::from_str(digit_str(n))
    } else {
        let mut s = decimal_string(n / 10);
        s.append(digit_str(n % 10));
        s
    }
}

// ── Buffer usage ─────────────────────────────────────────────────────────────

/// Storage-buffer usage bit.
pub const BUFFER_USAGE_STORAGE: u32 = 1;
/// Uniform-buffer usage bit.
pub const BUFFER_USAGE_UNIFORM: u32 = 2;
/// Copy-destination usage bit.
pub const BUFFER_USAGE_COPY_DST: u32 = 4;

/// How a GPU buffer may be used, one bit per use.
#[derive(Clone, Copy, Debug, PartialEq, Eq, Structural)]
pub struct BufferUsage {
    pub bits: u32,
}

impl BufferUsage {
    /// Storage-buffer use alone.
    pub fn storage() -> (r: BufferUsage)
        ensures
            r.bits == BUFFER_USAGE_STORAGE,
    {
        BufferUsage { bits: BUFFER_USAGE_STORAGE }
    }

    /// Uniform-buffer use alone.
    pub fn uniform() -> (r: BufferUsage)
        ensures
            r.bits == BUFFER_USAGE_UNIFORM,
    {
        BufferUsage { bits: BUFFER_USAGE_UNIFORM }
    }

    /// Copy-destination use alone.
    pub fn copy_dst() -> (r: BufferUsage)
        ensures
            r.bits == BUFFER_USAGE_COPY_DST,
    {
        BufferUsage { bits: BUFFER_USAGE_COPY_DST }
    }

    /// The uses of both.
    pub fn union(self, other: BufferUsage) -> (r: BufferUsage)
        ensures
            r.bits == self.bits | other.bits,
    {
        BufferUsage { bits: self.bits | other.bits }
    }

    /// Whether every use of `other` is in `self`.
    pub fn contains(self, other: BufferUsage) -> (r: bool)
        ensures
            r == (self.bits & other.bits == other.bits),
    {
        self.bits & other.bits == other.bits
    }
}

/// Whether a usage allows reading the buffer from a shader.
pub open spec fn shader_readable(u: BufferUsage) -> bool {
    u.bits & BUFFER_USAGE_STORAGE == BUFFER_USAGE_STORAGE || u.bits & BUFFER_USAGE_UNIFORM == BUFFER_USAGE_UNIFORM
}

// ── Shader data ──────────────────────────────────────────────────────────────

/// The message a zero-sized element type is refused with at creation.
pub open spec fn zero_stride_create_message() -> Seq<char> {
    "shader data cannot be created for zero-sized element types"@
}

/// The message a usage without storage or uniform use is refused with.
pub open spec fn bad_usage_message() -> Seq<char> {
    "shader data usage must include STORAGE or UNIFORM"@
}

/// The message a zero-sized element type is refused with on a write.
pub open spec fn zero_stride_write_message() -> Seq<char> {
    "shader data cannot be written with zero-sized element types"@
}

/// The message a write larger than the allocation is refused with.
pub open spec fn over_capacity_message(needed: nat, capacity: nat) -> Seq<char> {
    "shader data write needs "@ + decimal_text(needed) + " bytes but buffer capacity is "@
        + decimal_text(capacity) + "; use resize_and_write_* to grow it"@
}

/// The bookkeeping of a shader-readable data buffer: its usage, the number
/// of elements and bytes last written, the allocated capacity and the size
/// of one element.
#[derive(Clone, Copy, Debug, PartialEq, Eq, Structural)]
pub struct ShaderData {
    pub usage: BufferUsage,
    pub len: usize,
    pub byte_len: u64,
    pub capacity_bytes: u64,
    pub element_stride: u64,
}

impl ShaderData {
    /// What every shader data block keeps: the bytes written fit the
    /// allocation, the allocation holds at least one byte, elements have a
    /// size, and the buffer is shader-readable and a copy destination.
    pub open spec fn wf(&self) -> bool {
        &&& self.byte_len <= self.capacity_bytes
        &&& self.capacity_bytes >= 1
        &&& self.element_stride > 0
        &&& shader_readable(self.usage)
        &&& self.usage.bits & BUFFER_USAGE_COPY_DST == BUFFER_USAGE_COPY_DST
    }

    /// A block of `len` elements of `element_stride` bytes holding `bytes`,
    /// with `usage` plus copy-destination use; the allocation is the byte
    /// count, at least one. A zero stride, then a usage that is neither
    /// storage nor uniform, is refused with `InvalidInput`.
    pub fn with_usage_bytes(usage: BufferUsage, len: usize, element_stride: u64, bytes: &[u8]) -> (r: Result<ShaderData, EngineError>)
        ensures
            element_stride == 0 ==> (r matches Err(EngineError::InvalidInput(m)) && m@ == zero_stride_create_message()),
            element_stride != 0 && !shader_readable(usage) ==> (r matches Err(EngineError::InvalidInput(m))
                && m@ == bad_usage_message()),
            element_stride != 0 && shader_readable(usage) ==> (r matches Ok(d)
                && d.wf()
                && d.usage.bits == usage.bits | BUFFER_USAGE_COPY_DST
                && d.len == len
                && d.byte_len == bytes@.len()
                && d.capacity_bytes == (if bytes@.len() == 0 { 1 } else { bytes@.len() })
                && d.element_stride == element_stride),
    {
        if element_stride == 0 {
            return Err(EngineError::InvalidInput(String::from_str("shader data cannot be created for zero-sized element types")));
        }
        if !usage.contains(BufferUsage::storage()) && !usage.contains(BufferUsage::uniform()) {
            return Err(EngineError::InvalidInput(String::from_str("shader data usage must include STORAGE or UNIFORM")));
        }
        let ob = usage.bits;
        let usage = usage.union(BufferUsage::copy_dst());
        assert((ob | 4u32) & 4u32 == 4u32) by (bit_vector);
        assert(ob & 1u32 == 1u32 ==> (ob | 4u32) & 1u32 == 1u32) by (bit_vector);
        assert(ob & 2u32 == 2u32 ==> (ob | 4u32) & 2u32 == 2u32) by (bit_vector);
        let byte_len = bytes.len() as u64;
        let capacity_bytes = if byte_len < 1 { 1 } else { byte_len };
        Ok(ShaderData { usage, len, byte_len, capacity_bytes, element_stride })
    }

    /// Record a write of `len` elements of `element_stride` bytes held in
    /// `bytes`. A zero stride, then more bytes than the allocation holds,
    /// is refused with `InvalidInput` and nothing changes.
    pub fn write_bytes(&mut self, len: usize, element_stride: u64, bytes: &[u8]) -> (r: Result<(), EngineError>)
        requires
            old(self).wf(),
        ensures
            final(self).wf(),
            element_stride == 0 ==> (r matches Err(EngineError::InvalidInput(m)) && m@ == zero_stride_write_message()),
            element_stride != 0 && bytes@.len() > old(self).capacity_bytes ==> (r matches Err(EngineError::InvalidInput(m))
                && m@ == over_capacity_message(bytes@.len(), old(self).capacity_bytes as nat)),
            r is Err ==> *final(self) == *old(self),
            element_stride != 0 && bytes@.len() <= old(self).capacity_bytes ==> (r is Ok
                && *final(self) == (ShaderData { len, byte_len: bytes@.len() as u64, element_stride, ..*old(self) })),
    {
        if element_stride == 0 {
            return Err(EngineError::InvalidInput(String::from_str("shader data cannot be written with zero-sized element types")));
        }
        let n = bytes.len() as u64;
        if n > self.capacity_bytes {
            let mut m = String::from_str("shader data write needs ");
            m.append(decimal_string(n).as_str());
            m.append(" bytes but buffer capacity is ");
            m.append(decimal_string(self.capacity_bytes).as_str());
            m.append("; use resize_and_write_* to grow it");
            return Err(EngineError::InvalidInput(m));
        }
        self.len = len;
        self.byte_len = n;
        self.element_stride = element_stride;
        Ok(())
    }

    /// Grow the allocation to the byte count (at least one) when it is too
    /// small, then record the write as [`ShaderData::write_bytes`] does. A
    /// zero stride is refused with `InvalidInput` and nothing changes.
    pub fn resize_and_write_bytes(&mut self, len: usize, element_stride: u64, bytes: &[u8]) -> (r: Result<(), EngineError>)
        requires
            old(self).wf(),
        ensures
            final(self).wf(),
            element_stride == 0 ==> (r matches Err(EngineError::InvalidInput(m)) && m@ == zero_stride_write_message()
                && *final(self) == *old(self)),
            element_stride != 0 ==> (r is Ok
                && *final(self) == (ShaderData {
                    len,
                    byte_len: bytes@.len() as u64,
                    element_stride,
                    capacity_bytes: if bytes@.len() > old(self).capacity_bytes { bytes@.len() as u64 } else { old(self).capacity_bytes },
                    ..*old(self)
                })),
    {
        if element_stride == 0 {
            return Err(EngineError::InvalidInput(String::from_str("shader data cannot be written with zero-sized element types")));
        }
        let n = bytes.len() as u64;
        let needed: u64 = if n < 1 { 1 } else { n };
        if needed > self.capacity_bytes {
            self.capacity_bytes = needed;
        }
        self.write_bytes(len, element_stride, bytes)
    }

    /// Number of elements last written.
    pub fn len(&self) -> (r: usize)
        ensures
            r == self.len,
    {
        self.len
    }

    /// Whether no element was written.
    pub fn is_empty(&self) -> (r: bool)
        ensures
            r == (self.len == 0),
    {
        self.len == 0
    }

    /// Number of meaningful bytes last written.
    pub fn byte_len(&self) -> (r: u64)
        ensures
            r == self.byte_len,
    {
        self.byte_len
    }

    /// Allocated bytes.
    pub fn capacity_bytes(&self) -> (r: u64)
        ensures
            r == self.capacity_bytes,
    {
        self.capacity_bytes
    }

    /// Bytes per element.
    pub fn element_stride(&self) -> (r: u64)
        ensures
            r == self.element_stride,
    {
        self.element_stride
    }

    /// The usage.
    pub fn usage(&self) -> (r: BufferUsage)
        ensures
            r == self.usage,
    {
        self.usage
    }
}

/// After a resizing write the bytes written always fit, and a write that
/// fits the old allocation leaves the allocation as it was.
pub proof fn lemma_resize_write_fits(capacity: u64, n: u64)
    requires
        capacity >= 1,
    ensures
        ({
            let cap = if n > capacity { n } else { capacity };
            &&& n <= cap
            &&& cap >= 1
            &&& n <= capacity ==> cap == capacity
        }),
{
}

} // verus!
