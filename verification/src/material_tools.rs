//! Material composition modes, the bounded material cache, and the
//! inspection, debugging, serialization and optimization records kept for a
//! material.
use vstd::prelude::*;

use crate::asset_cache::CompiledShaderArtifact;
use crate::eviction::{EvictionSlot, evict_slot, insert_bounded, push_bounded, slot_index};
use crate::material_asset::Material;
use crate::types::{EngineError, ShaderSource, find_named, has_named, is_first_named};

verus! {

// ── Blend modes ──────────────────────────────────────────────────────────────

/// How two material layers are blended.
#[derive(Clone, Copy, Debug, PartialEq, Eq, Structural)]
pub enum MaterialBlendMode {
    Additive,
    Multiplicative,
    Alpha,
    Screen,
    Overlay,
    Darken,
    Lighten,
    Difference,
    Subtract,
    Divide,
}

/// The blend formula of each mode, over the two layers `a` and `b`.
pub open spec fn blend_formula(m: MaterialBlendMode) -> Seq<char> {
    match m {
        MaterialBlendMode::Additive => "a + b"@,
        MaterialBlendMode::Multiplicative => "a * b"@,
        MaterialBlendMode::Alpha => "a * alpha + b * (1 - alpha)"@,
        MaterialBlendMode::Screen => "1 - (1 - a) * (1 - b)"@,
        MaterialBlendMode::Overlay => "a < 0.5 ? 2 * a * b : 1 - 2 * (1 - a) * (1 - b)"@,
        MaterialBlendMode::Darken => "min(a, b)"@,
        MaterialBlendMode::Lighten => "max(a, b)"@,
        MaterialBlendMode::Difference => "abs(a - b)"@,
        MaterialBlendMode::Subtract => "a - b"@,
        MaterialBlendMode::Divide => "a / b"@,
    }
}

impl Default for MaterialBlendMode {
    fn default() -> (r: MaterialBlendMode)
        ensures
            r == MaterialBlendMode::Additive,
    {
        MaterialBlendMode::Additive
    }
}

impl MaterialBlendMode {
    /// The blend formula of this mode.
    pub fn formula(self) -> (r: &'static str)
        ensures
            r@ == blend_formula(self),
    {
        match self {
            MaterialBlendMode::Additive => "a + b",
            MaterialBlendMode::Multiplicative => "a * b",
            MaterialBlendMode::Alpha => "a * alpha + b * (1 - alpha)",
            MaterialBlendMode::Screen => "1 - (1 - a) * (1 - b)",
            MaterialBlendMode::Overlay => "a < 0.5 ? 2 * a * b : 1 - 2 * (1 - a) * (1 - b)",
            MaterialBlendMode::Darken => "min(a, b)",
            MaterialBlendMode::Lighten => "max(a, b)",
            MaterialBlendMode::Difference => "abs(a - b)",
            MaterialBlendMode::Subtract => "a - b",
            MaterialBlendMode::Divide => "a / b",
        }
    }
}

// ── Layering order ───────────────────────────────────────────────────────────

/// The order in which base and overlay layers are composed.
#[derive(Clone, Copy, Debug, PartialEq, Eq, Structural)]
pub enum MaterialLayeringOrder {
    BaseFirst,
    OverlayFirst,
    Alternating,
    Random,
}

/// The layering formula of each order.
pub open spec fn layering_formula(o: MaterialLayeringOrder) -> Seq<char> {
    match o {
        MaterialLayeringOrder::BaseFirst => "base + overlay"@,
        MaterialLayeringOrder::OverlayFirst => "overlay + base"@,
        MaterialLayeringOrder::Alternating => "base, overlay, base, overlay"@,
        MaterialLayeringOrder::Random => "random layering"@,
    }
}

impl Default for MaterialLayeringOrder {
    fn default() -> (r: MaterialLayeringOrder)
        ensures
            r == MaterialLayeringOrder::BaseFirst,
    {
        MaterialLayeringOrder::BaseFirst
    }
}

impl MaterialLayeringOrder {
    /// The layering formula of this order.
    pub fn formula(self) -> (r: &'static str)
        ensures
            r@ == layering_formula(self),
    {
        match self {
            MaterialLayeringOrder::BaseFirst => "base + overlay",
            MaterialLayeringOrder::OverlayFirst => "overlay + base",
            MaterialLayeringOrder::Alternating => "base, overlay, base, overlay",
            MaterialLayeringOrder::Random => "random layering",
        }
    }
}

// ── Material cache ───────────────────────────────────────────────────────────

/// Which material a full material cache evicts.
#[derive(Clone, Copy, Debug, PartialEq, Eq, Structural)]
pub enum MaterialCacheEvictionStrategy {
    /// The oldest material.
    LRU,
    /// The newest material.
    SizeBased,
    /// The middle material.
    Random,
}

/// The slot each strategy removes.
pub open spec fn cache_strategy_slot(s: MaterialCacheEvictionStrategy) -> EvictionSlot {
    match s {
        MaterialCacheEvictionStrategy::LRU => EvictionSlot::First,
        MaterialCacheEvictionStrategy::SizeBased => EvictionSlot::Last,
        MaterialCacheEvictionStrategy::Random => EvictionSlot::Middle,
    }
}

/// The description of each strategy.
pub open spec fn cache_strategy_formula(s: MaterialCacheEvictionStrategy) -> Seq<char> {
    match s {
        MaterialCacheEvictionStrategy::LRU => "evict least recently used"@,
        MaterialCacheEvictionStrategy::SizeBased => "evict largest material"@,
        MaterialCacheEvictionStrategy::Random => "evict random material"@,
    }
}

impl Default for MaterialCacheEvictionStrategy {
    fn default() -> (r: MaterialCacheEvictionStrategy)
        ensures
            r == MaterialCacheEvictionStrategy::LRU,
    {
        MaterialCacheEvictionStrategy::LRU
    }
}

impl MaterialCacheEvictionStrategy {
    /// The description of this strategy.
    pub fn formula(self) -> (r: &'static str)
        ensures
            r@ == cache_strategy_formula(self),
    {
        match self {
            MaterialCacheEvictionStrategy::LRU => "evict least recently used",
            MaterialCacheEvictionStrategy::SizeBased => "evict largest material",
            MaterialCacheEvictionStrategy::Random => "evict random material",
        }
    }

    /// The slot this strategy removes.
    pub fn slot(self) -> (r: EvictionSlot)
        ensures
            r == cache_strategy_slot(self),
    {
        match self {
            MaterialCacheEvictionStrategy::LRU => EvictionSlot::First,
            MaterialCacheEvictionStrategy::SizeBased => EvictionSlot::Last,
            MaterialCacheEvictionStrategy::Random => EvictionSlot::Middle,
        }
    }
}

/// A bounded cache of built materials.
#[derive(Clone, Debug)]
pub struct MaterialCache {
    pub materials: Vec<Material>,
    pub size_limit: usize,
    pub eviction_strategy: MaterialCacheEvictionStrategy,
    pub hit_count: usize,
    pub miss_count: usize,
}

impl Default for MaterialCache {
    fn default() -> (r: MaterialCache)
        ensures
            r.materials@.len() == 0,
            r.size_limit == 100,
            r.eviction_strategy == MaterialCacheEvictionStrategy::LRU,
            r.hit_count == 0,
            r.miss_count == 0,
    {
        MaterialCache::new(100)
    }
}

impl MaterialCache {
    /// An empty cache of up to `size_limit` materials, evicting the oldest
    /// first.
    pub fn new(size_limit: usize) -> (r: MaterialCache)
        ensures
            r.materials@.len() == 0,
            r.size_limit == size_limit,
            r.eviction_strategy == MaterialCacheEvictionStrategy::LRU,
            r.hit_count == 0,
            r.miss_count == 0,
    {
        MaterialCache {
            materials: Vec::new(),
            size_limit,
            eviction_strategy: MaterialCacheEvictionStrategy::LRU,
            hit_count: 0,
            miss_count: 0,
        }
    }

    /// Add `material`, evicting one material first when the cache is full.
    /// Adding always succeeds; an empty cache with a zero limit has nothing
    /// to evict and is left out.
    pub fn add(self, material: Material) -> (r: Result<MaterialCache, EngineError>)
        requires
            self.materials@.len() > 0 || self.size_limit > 0,
        ensures
            r matches Ok(c) && c.materials@ == insert_bounded(self.materials@, self.size_limit as nat,
                cache_strategy_slot(self.eviction_strategy), material)
                && c.size_limit == self.size_limit && c.eviction_strategy == self.eviction_strategy
                && c.hit_count == self.hit_count && c.miss_count == self.miss_count,
    {
        let mut c = self;
        let slot = c.eviction_strategy.slot();
        push_bounded(&mut c.materials, c.size_limit, slot, material);
        Ok(c)
    }

    /// The first cached material named `name`.
    pub fn get(&self, name: &str) -> (r: Option<&Material>)
        ensures
            match r {
                Some(x) => exists|i: int| is_first_named(self.materials@, name@, i) && *x == self.materials@[i],
                None => !has_named(self.materials@, name@),
            },
    {
        find_named(&self.materials, name)
    }

    /// Evict one material as the eviction strategy says.
    pub fn evict(&mut self)
        requires
            old(self).materials@.len() > 0,
        ensures
            final(self).materials@ == old(self).materials@.remove(
                slot_index(cache_strategy_slot(old(self).eviction_strategy), old(self).materials@.len())),
            final(self).size_limit == old(self).size_limit,
            final(self).eviction_strategy == old(self).eviction_strategy,
            final(self).hit_count == old(self).hit_count,
            final(self).miss_count == old(self).miss_count,
    {
        let slot = self.eviction_strategy.slot();
        evict_slot(&mut self.materials, slot);
    }

    /// Number of cached materials.
    pub fn size(&self) -> (r: usize)
        ensures
            r == self.materials@.len(),
    {
        self.materials.len()
    }

    /// The size limit.
    pub fn size_limit(&self) -> (r: usize)
        ensures
            r == self.size_limit,
    {
        self.size_limit
    }

    /// The eviction strategy.
    pub fn eviction_strategy(&self) -> (r: MaterialCacheEvictionStrategy)
        ensures
            r == self.eviction_strategy,
    {
        self.eviction_strategy
    }

    /// The hit count.
    pub fn hit_count(&self) -> (r: usize)
        ensures
            r == self.hit_count,
    {
        self.hit_count
    }

    /// The miss count.
    pub fn miss_count(&self) -> (r: usize)
        ensures
            r == self.miss_count,
    {
        self.miss_count
    }
}

// ── Inspection and debugging records ─────────────────────────────────────────

/// The text of a shader source: the code of an inline source, the path of a
/// file source.
pub open spec fn source_text(s: ShaderSource) -> Seq<char> {
    match s {
        ShaderSource::Inline(code) => code@,
        ShaderSource::File(path) => path@,
    }
}

/// The text of `source`.
pub fn source_string(source: &ShaderSource) -> (r: String)
    ensures
        r@ == source_text(*source),
{
    match source {
        ShaderSource::Inline(code) => code.clone(),
        ShaderSource::File(path) => path.clone(),
    }
}

/// What is known of a material's fragment shader while inspecting it.
#[derive(Clone, Debug)]
pub struct MaterialShaderInspection {
    pub material: Material,
    pub shader_source: String,
    pub shader_artifacts: Vec<CompiledShaderArtifact>,
    pub shader_diagnostics: Vec<String>,
}

impl MaterialShaderInspection {
    /// Inspect `material`: the text of its fragment source, no compiled
    /// artifacts and no diagnostics yet.
    pub fn new(material: Material) -> (r: MaterialShaderInspection)
        ensures
            r.material == material,
            r.shader_source@ == source_text(material.fragment_desc.source),
            r.shader_artifacts@.len() == 0,
            r.shader_diagnostics@.len() == 0,
    {
        let shader_source = source_string(&material.fragment_desc.source);
        MaterialShaderInspection {
            material,
            shader_source,
            shader_artifacts: Vec::new(),
            shader_diagnostics: Vec::new(),
        }
    }

    /// The inspected material.
    pub fn material(&self) -> (r: &Material)
        ensures
            *r == self.material,
    {
        &self.material
    }

    /// The fragment source text.
    pub fn shader_source(&self) -> (r: &str)
        ensures
            r@ == self.shader_source@,
    {
        self.shader_source.as_str()
    }

    /// The compiled artifacts.
    pub fn shader_artifacts(&self) -> (r: &[CompiledShaderArtifact])
        ensures
            r@ == self.shader_artifacts@,
    {
        self.shader_artifacts.as_slice()
    }

    /// The diagnostics.
    pub fn shader_diagnostics(&self) -> (r: &[String])
        ensures
            r@ == self.shader_diagnostics@,
    {
        self.shader_diagnostics.as_slice()
    }
}

/// Messages collected while debugging a material.
#[derive(Clone, Debug)]
pub struct MaterialDebuggingOutput {
    pub material: Material,
    pub debugging_messages: Vec<String>,
    pub debugging_errors: Vec<String>,
    pub debugging_warnings: Vec<String>,
    pub debugging_info: Vec<String>,
}

impl MaterialDebuggingOutput {
    /// Debugging output for `material`, with no messages yet.
    pub fn new(material: Material) -> (r: MaterialDebuggingOutput)
        ensures
            r.material == material,
            r.debugging_messages@.len() == 0,
            r.debugging_errors@.len() == 0,
            r.debugging_warnings@.len() == 0,
            r.debugging_info@.len() == 0,
    {
        MaterialDebuggingOutput {
            material,
            debugging_messages: Vec::new(),
            debugging_errors: Vec::new(),
            debugging_warnings: Vec::new(),
            debugging_info: Vec::new(),
        }
    }

    /// The material.
    pub fn material(&self) -> (r: &Material)
        ensures
            *r == self.material,
    {
        &self.material
    }

    /// The messages.
    pub fn debugging_messages(&self) -> (r: &[String])
        ensures
            r@ == self.debugging_messages@,
    {
        self.debugging_messages.as_slice()
    }

    /// The errors.
    pub fn debugging_errors(&self) -> (r: &[String])
        ensures
            r@ == self.debugging_errors@,
    {
        self.debugging_errors.as_slice()
    }

    /// The warnings.
    pub fn debugging_warnings(&self) -> (r: &[String])
        ensures
            r@ == self.debugging_warnings@,
    {
        self.debugging_warnings.as_slice()
    }

    /// The informational messages.
    pub fn debugging_info(&self) -> (r: &[String])
        ensures
            r@ == self.debugging_info@,
    {
        self.debugging_info.as_slice()
    }
}

// ── Serialization and optimization records ───────────────────────────────────

/// The format a material is saved in.
#[derive(Clone, Copy, Debug, PartialEq, Eq, Structural)]
pub enum MaterialSerializationFormat {
    JSON,
    Binary,
    XML,
    YAML,
}

impl Default for MaterialSerializationFormat {
    fn default() -> (r: MaterialSerializationFormat)
        ensures
            r == MaterialSerializationFormat::JSON,
    {
        MaterialSerializationFormat::JSON
    }
}

/// A material together with its saved form.
#[derive(Clone, Debug)]
pub struct MaterialSerialization {
    pub serialized_material: Material,
    pub serialization_format: MaterialSerializationFormat,
    pub serialization_data: Vec<u8>,
}

impl MaterialSerialization {
    /// The record for `material`: JSON format, no data yet.
    pub fn new(material: Material) -> (r: MaterialSerialization)
        ensures
            r.serialized_material == material,
            r.serialization_format == MaterialSerializationFormat::JSON,
            r.serialization_data@.len() == 0,
    {
        MaterialSerialization {
            serialized_material: material,
            serialization_format: MaterialSerializationFormat::JSON,
            serialization_data: Vec::new(),
        }
    }

    /// The material.
    pub fn serialized_material(&self) -> (r: &Material)
        ensures
            *r == self.serialized_material,
    {
        &self.serialized_material
    }

    /// The format.
    pub fn serialization_format(&self) -> (r: MaterialSerializationFormat)
        ensures
            r == self.serialization_format,
    {
        self.serialization_format
    }

    /// The saved bytes.
    pub fn serialization_data(&self) -> (r: &[u8])
        ensures
            r@ == self.serialization_data@,
    {
        self.serialization_data.as_slice()
    }
}

/// How a material's shaders are optimized.
#[derive(Clone, Copy, Debug, PartialEq, Eq, Structural)]
pub enum MaterialShaderOptimizationStrategy {
    /// No optimization.
    Disabled,
    Compilation,
    Runtime,
    Pipeline,
}

impl Default for MaterialShaderOptimizationStrategy {
    fn default() -> (r: MaterialShaderOptimizationStrategy)
        ensures
            r == MaterialShaderOptimizationStrategy::Disabled,
    {
        MaterialShaderOptimizationStrategy::Disabled
    }
}

/// A material together with its optimized shader artifacts.
#[derive(Clone, Debug)]
pub struct MaterialShaderOptimization {
    pub optimized_material: Material,
    pub optimization_strategy: MaterialShaderOptimizationStrategy,
    pub optimized_artifacts: Vec<CompiledShaderArtifact>,
}

impl MaterialShaderOptimization {
    /// The record for `material`: no optimization, no artifacts yet.
    pub fn new(material: Material) -> (r: MaterialShaderOptimization)
        ensures
            r.optimized_material == material,
            r.optimization_strategy == MaterialShaderOptimizationStrategy::Disabled,
            r.optimized_artifacts@.len() == 0,
    {
        MaterialShaderOptimization {
            optimized_material: material,
            optimization_strategy: MaterialShaderOptimizationStrategy::Disabled,
            optimized_artifacts: Vec::new(),
        }
    }

    /// The material.
    pub fn optimized_material(&self) -> (r: &Material)
        ensures
            *r == self.optimized_material,
    {
        &self.optimized_material
    }

    /// The strategy.
    pub fn optimization_strategy(&self) -> (r: MaterialShaderOptimizationStrategy)
        ensures
            r == self.optimization_strategy,
    {
        self.optimization_strategy
    }

    /// The optimized artifacts.
    pub fn optimized_artifacts(&self) -> (r: &[CompiledShaderArtifact])
        ensures
            r@ == self.optimized_artifacts@,
    {
        self.optimized_artifacts.as_slice()
    }
}

} // verus!
