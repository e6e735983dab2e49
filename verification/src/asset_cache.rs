//! Bounded caches of material assets, shader compilations and shader
//! validations, and the compilation and validation records they hold.
use vstd::prelude::*;

use crate::eviction::{EvictionSlot, evict_slot, insert_bounded, push_bounded};
use crate::material_asset::MaterialAsset;
use crate::types::{
    Duplicate, EngineError, Named, ShaderSource, ShaderStage, ShaderTarget, find_named,
    has_named, is_first_named,
};

verus! {

/// Which entry a full cache evicts.
#[derive(Clone, Copy, Debug, PartialEq, Eq, Structural)]
pub enum MaterialAssetCacheEvictionStrategy {
    /// The oldest entry.
    LRU,
    /// The newest entry.
    SizeBased,
    /// The middle entry.
    Random,
}

/// The slot an eviction strategy removes.
pub open spec fn strategy_slot(s: MaterialAssetCacheEvictionStrategy) -> EvictionSlot {
    match s {
        MaterialAssetCacheEvictionStrategy::LRU => EvictionSlot::First,
        MaterialAssetCacheEvictionStrategy::SizeBased => EvictionSlot::Last,
        MaterialAssetCacheEvictionStrategy::Random => EvictionSlot::Middle,
    }
}

impl MaterialAssetCacheEvictionStrategy {
    /// The slot this strategy removes.
    pub fn slot(self) -> (r: EvictionSlot)
        ensures
            r == strategy_slot(self),
    {
        match self {
            MaterialAssetCacheEvictionStrategy::LRU => EvictionSlot::First,
            MaterialAssetCacheEvictionStrategy::SizeBased => EvictionSlot::Last,
            MaterialAssetCacheEvictionStrategy::Random => EvictionSlot::Middle,
        }
    }
}

/// The size limit every cache starts with.
pub const DEFAULT_CACHE_LIMIT: usize = 100;

/// Insert each of `xs` in order into a bounded cache holding `s`.
pub open spec fn insert_all<T>(s: Seq<T>, limit: nat, slot: EvictionSlot, xs: Seq<T>) -> Seq<T>
    decreases xs.len(),
{
    if xs.len() == 0 {
        s
    } else {
        insert_bounded(insert_all(s, limit, slot, xs.drop_last()), limit, slot, xs.last())
    }
}

/// How many entries inserting every element of `xs`, in order, into the
/// bounded cache `s` evicts: one per insertion into a full cache.
pub open spec fn evictions_all<T>(s: Seq<T>, limit: nat, slot: EvictionSlot, xs: Seq<T>) -> nat
    decreases xs.len(),
{
    if xs.len() == 0 {
        0
    } else {
        evictions_all(s, limit, slot, xs.drop_last())
            + if insert_all(s, limit, slot, xs.drop_last()).len() >= limit { 1nat } else { 0nat }
    }
}

/// Inserting the entries `xs` one by one into an empty cache with a
/// positive limit keeps `min(|xs|, limit)` of them and evicts one entry per
/// insertion into the full cache: `|xs| - limit` when more than `limit`
/// are inserted, none otherwise.
pub proof fn lemma_insert_run_from_empty<T>(limit: nat, slot: EvictionSlot, xs: Seq<T>)
    requires
        limit > 0,
    ensures
        insert_all(Seq::<T>::empty(), limit, slot, xs).len() == if xs.len() <= limit { xs.len() } else { limit },
        evictions_all(Seq::<T>::empty(), limit, slot, xs) == if xs.len() <= limit { 0 } else { (xs.len() - limit) as nat },
    decreases xs.len(),
{
    if xs.len() > 0 {
        lemma_insert_run_from_empty(limit, slot, xs.drop_last());
        crate::eviction::lemma_insert_bounded_len(
            insert_all(Seq::<T>::empty(), limit, slot, xs.drop_last()), limit, slot, xs.last());
    }
}

/// `a + b`, saturating at `usize::MAX`.
pub open spec fn saturating_sum(a: usize, b: nat) -> usize {
    if a + b > usize::MAX { usize::MAX } else { (a + b) as usize }
}

/// Insert every element of `xs`, in order, into the bounded cache `v`.
pub fn push_all_bounded<T>(v: &mut Vec<T>, limit: usize, slot: EvictionSlot, xs: Vec<T>)
    requires
        old(v).len() > 0 || limit > 0 || xs.len() == 0,
    ensures
        final(v)@ == insert_all(old(v)@, limit as nat, slot, xs@),
{
    let ghost all = xs@;
    let ghost start = v@;
    let total = xs.len();
    let mut rest = xs;
    let mut k: usize = 0;
    while rest.len() > 0
        invariant
            rest@ == all.skip(k as int),
            k <= all.len(),
            all.len() == total,
            v@ == insert_all(start, limit as nat, slot, all.take(k as int)),
            v.len() > 0 || limit > 0 || rest.len() == 0,
        decreases rest.len(),
    {
        let x = rest.remove(0);
        assert(all.take(k as int + 1).drop_last() == all.take(k as int));
        assert(all.take(k as int + 1).last() == all[k as int]);
        push_bounded(v, limit, slot, x);
        assert(all.skip(k as int + 1) == all.skip(k as int).drop_first());
        k = k + 1;
    }
    assert(all.take(k as int) == all);
}

// ── Compilation records ──────────────────────────────────────────────────────

/// A shader compilation of a material asset: the asset's name, the target it
/// is compiled for, its entry point, stage and source.
#[derive(Clone, Debug)]
pub struct CompiledShaderArtifact {
    pub name: String,
    pub target: ShaderTarget,
    pub entry_point: String,
    pub stage: ShaderStage,
    pub source: ShaderSource,
}

impl Named for CompiledShaderArtifact {
    open spec fn name_view(&self) -> Seq<char> {
        self.name@
    }

    fn name_string(&self) -> (r: &String) {
        &self.name
    }
}

impl Duplicate for CompiledShaderArtifact {
    fn duplicate(&self) -> (r: CompiledShaderArtifact)
        ensures
            r == *self,
    {
        CompiledShaderArtifact {
            name: self.name.clone(),
            target: self.target,
            entry_point: self.entry_point.clone(),
            stage: self.stage,
            source: self.source.duplicate(),
        }
    }
}

/// The compilation record of an asset.
pub open spec fn artifact_of(a: MaterialAsset) -> CompiledShaderArtifact {
    CompiledShaderArtifact {
        name: a.name,
        target: a.shader_target,
        entry_point: a.shader_entry_point,
        stage: a.shader_stage,
        source: a.shader_source,
    }
}

impl CompiledShaderArtifact {
    /// The compilation record of `asset`.
    pub fn of_asset(asset: &MaterialAsset) -> (r: CompiledShaderArtifact)
        ensures
            r == artifact_of(*asset),
    {
        CompiledShaderArtifact {
            name: asset.name.clone(),
            target: asset.shader_target,
            entry_point: asset.shader_entry_point.clone(),
            stage: asset.shader_stage,
            source: asset.shader_source.duplicate(),
        }
    }
}

/// Copy a compilation outcome.
pub fn duplicate_compilation(c: &Result<CompiledShaderArtifact, EngineError>) -> (r: Result<CompiledShaderArtifact, EngineError>)
    ensures
        r == *c,
{
    match c {
        Ok(a) => Ok(a.duplicate()),
        Err(e) => Err(e.duplicate()),
    }
}

impl Duplicate for EngineError {
    fn duplicate(&self) -> (r: EngineError)
        ensures
            r == *self,
    {
        match self {
            EngineError::Unsupported(m) => EngineError::Unsupported(m.clone()),
            EngineError::InvalidInput(m) => EngineError::InvalidInput(m.clone()),
            EngineError::Unknown(m) => EngineError::Unknown(m.clone()),
        }
    }
}

/// Outcome of validating an asset's shader.
#[derive(Debug)]
pub struct MaterialShaderValidationResult {
    pub is_valid: bool,
    pub compilation_result: Result<CompiledShaderArtifact, EngineError>,
    pub shader_source: ShaderSource,
    pub shader_entry_point: String,
    pub shader_stage: ShaderStage,
    pub shader_target: ShaderTarget,
}

impl Duplicate for MaterialShaderValidationResult {
    fn duplicate(&self) -> (r: MaterialShaderValidationResult)
        ensures
            r == *self,
    {
        MaterialShaderValidationResult {
            is_valid: self.is_valid,
            compilation_result: duplicate_compilation(&self.compilation_result),
            shader_source: self.shader_source.duplicate(),
            shader_entry_point: self.shader_entry_point.clone(),
            shader_stage: self.shader_stage,
            shader_target: self.shader_target,
        }
    }
}

/// A shader validation result not performed yet: invalid, with an
/// `Unsupported` outcome, empty inline source, entry point `main`, fragment
/// stage, SPIR-V.
pub open spec fn fresh_shader_validation(r: MaterialShaderValidationResult) -> bool {
    &&& !r.is_valid
    &&& r.compilation_result matches Err(EngineError::Unsupported(m)) && m@ == "shader validation not performed"@
    &&& r.shader_source matches ShaderSource::Inline(s) && s@ == Seq::<char>::empty()
    &&& r.shader_entry_point@ == "main"@
    &&& r.shader_stage == ShaderStage::Fragment
    &&& r.shader_target == ShaderTarget::Spirv
}

/// An empty cache of 100 entries, evicted oldest first, with no lookups
/// counted.
pub open spec fn fresh_cache_counters(size_limit: usize, strategy: MaterialAssetCacheEvictionStrategy, hits: usize, misses: usize) -> bool {
    &&& size_limit == DEFAULT_CACHE_LIMIT
    &&& strategy == MaterialAssetCacheEvictionStrategy::LRU
    &&& hits == 0
    &&& misses == 0
}

/// A new, empty shader compilation cache.
pub open spec fn fresh_compilation_cache(c: MaterialShaderCompilationCache) -> bool {
    &&& c.cached_compilations@.len() == 0
    &&& fresh_cache_counters(c.size_limit, c.eviction_strategy, c.hit_count, c.miss_count)
}

/// A new, empty shader validation cache.
pub open spec fn fresh_validation_cache(c: MaterialShaderValidationCache) -> bool {
    &&& c.cached_validations@.len() == 0
    &&& fresh_cache_counters(c.size_limit, c.eviction_strategy, c.hit_count, c.miss_count)
}

/// A new, empty cross-language cache.
pub open spec fn fresh_cross_language_cache(c: MaterialCrossLanguageCache) -> bool {
    &&& c.cached_compilations@.len() == 0
    &&& fresh_cache_counters(c.size_limit, c.eviction_strategy, c.hit_count, c.miss_count)
}

impl MaterialShaderValidationResult {
    /// A result for a shader not validated yet: invalid, with an
    /// `Unsupported` outcome, empty inline source, entry point `main`,
    /// fragment stage, SPIR-V.
    pub fn new() -> (r: MaterialShaderValidationResult)
        ensures
            !r.is_valid,
            r.compilation_result matches Err(EngineError::Unsupported(m)) && m@ == "shader validation not performed"@,
            r.shader_source matches ShaderSource::Inline(s) && s@ == Seq::<char>::empty(),
            r.shader_entry_point@ == "main"@,
            r.shader_stage == ShaderStage::Fragment,
            r.shader_target == ShaderTarget::Spirv,
    {
        MaterialShaderValidationResult {
            is_valid: false,
            compilation_result: Err(EngineError::Unsupported(String::from_str("shader validation not performed"))),
            shader_source: ShaderSource::Inline(String::new()),
            shader_entry_point: String::from_str("main"),
            shader_stage: ShaderStage::Fragment,
            shader_target: ShaderTarget::Spirv,
        }
    }

    /// Whether the shader compiled.
    pub fn is_valid(&self) -> (r: bool)
        ensures
            r == self.is_valid,
    {
        self.is_valid
    }

    /// The compilation outcome.
    pub fn compilation_result(&self) -> (r: &Result<CompiledShaderArtifact, EngineError>)
        ensures
            *r == self.compilation_result,
    {
        &self.compilation_result
    }

    /// The validated shader source.
    pub fn shader_source(&self) -> (r: &ShaderSource)
        ensures
            *r == self.shader_source,
    {
        &self.shader_source
    }

    /// The validated entry point.
    pub fn shader_entry_point(&self) -> (r: &str)
        ensures
            r@ == self.shader_entry_point@,
    {
        self.shader_entry_point.as_str()
    }

    /// The validated stage.
    pub fn shader_stage(&self) -> (r: ShaderStage)
        ensures
            r == self.shader_stage,
    {
        self.shader_stage
    }

    /// The validated target.
    pub fn shader_target(&self) -> (r: ShaderTarget)
        ensures
            r == self.shader_target,
    {
        self.shader_target
    }
}

// ── Asset cache ──────────────────────────────────────────────────────────────

/// A bounded cache of material assets.
#[derive(Clone, Debug)]
pub struct MaterialAssetCache {
    pub cached_assets: Vec<MaterialAsset>,
    pub size_limit: usize,
    pub eviction_strategy: MaterialAssetCacheEvictionStrategy,
    pub hit_count: usize,
    pub miss_count: usize,
    /// How many assets were evicted, saturating at `usize::MAX`.
    pub evictions: usize,
}

impl MaterialAssetCache {
    /// An empty cache of up to 100 assets, evicting the oldest first.
    pub fn new() -> (r: MaterialAssetCache)
        ensures
            r.cached_assets@.len() == 0,
            r.size_limit == DEFAULT_CACHE_LIMIT,
            r.eviction_strategy == MaterialAssetCacheEvictionStrategy::LRU,
            r.hit_count == 0,
            r.miss_count == 0,
            r.evictions == 0,
    {
        MaterialAssetCache {
            cached_assets: Vec::new(),
            size_limit: DEFAULT_CACHE_LIMIT,
            eviction_strategy: MaterialAssetCacheEvictionStrategy::LRU,
            hit_count: 0,
            miss_count: 0,
            evictions: 0,
        }
    }

    /// Cache `asset`, evicting one entry first when the cache is full; an
    /// eviction is counted.
    pub fn cache(&mut self, asset: MaterialAsset)
        requires
            old(self).cached_assets@.len() > 0 || old(self).size_limit > 0,
        ensures
            final(self).cached_assets@ == insert_bounded(old(self).cached_assets@,
                old(self).size_limit as nat, strategy_slot(old(self).eviction_strategy), asset),
            final(self).evictions == saturating_sum(old(self).evictions,
                if old(self).cached_assets@.len() >= old(self).size_limit { 1nat } else { 0nat }),
            final(self).size_limit == old(self).size_limit,
            final(self).eviction_strategy == old(self).eviction_strategy,
            final(self).hit_count == old(self).hit_count,
            final(self).miss_count == old(self).miss_count,
    {
        let slot = self.eviction_strategy.slot();
        let evicting = self.cached_assets.len() >= self.size_limit;
        push_bounded(&mut self.cached_assets, self.size_limit, slot, asset);
        if evicting {
            self.evictions = self.evictions.saturating_add(1);
        }
    }

    /// Cache each of `assets` in order, counting the evictions.
    pub fn cache_many(&mut self, assets: Vec<MaterialAsset>)
        requires
            old(self).cached_assets@.len() > 0 || old(self).size_limit > 0 || assets@.len() == 0,
        ensures
            final(self).cached_assets@ == insert_all(old(self).cached_assets@,
                old(self).size_limit as nat, strategy_slot(old(self).eviction_strategy), assets@),
            final(self).evictions == saturating_sum(old(self).evictions, evictions_all(old(self).cached_assets@,
                old(self).size_limit as nat, strategy_slot(old(self).eviction_strategy), assets@)),
            final(self).size_limit == old(self).size_limit,
            final(self).eviction_strategy == old(self).eviction_strategy,
            final(self).hit_count == old(self).hit_count,
            final(self).miss_count == old(self).miss_count,
    {
        let ghost all = assets@;
        let ghost start = self.cached_assets@;
        let ghost lim = self.size_limit as nat;
        let ghost sl = strategy_slot(self.eviction_strategy);
        let total = assets.len();
        let mut rest = assets;
        let mut k: usize = 0;
        while rest.len() > 0
            invariant
                rest@ == all.skip(k as int),
                k <= all.len(),
                all.len() == total,
                self.size_limit as nat == lim,
                strategy_slot(self.eviction_strategy) == sl,
                self.size_limit == old(self).size_limit,
                self.eviction_strategy == old(self).eviction_strategy,
                self.hit_count == old(self).hit_count,
                self.miss_count == old(self).miss_count,
                start == old(self).cached_assets@,
                self.cached_assets@ == insert_all(start, lim, sl, all.take(k as int)),
                self.evictions == saturating_sum(old(self).evictions, evictions_all(start, lim, sl, all.take(k as int))),
                self.cached_assets@.len() > 0 || self.size_limit > 0 || rest@.len() == 0,
            decreases rest.len(),
        {
            let x = rest.remove(0);
            assert(all.take(k as int + 1).drop_last() == all.take(k as int));
            assert(all.take(k as int + 1).last() == all[k as int]);
            self.cache(x);
            assert(all.skip(k as int + 1) == all.skip(k as int).drop_first());
            k = k + 1;
        }
        assert(all.take(k as int) == all);
    }

    /// The first cached asset named `name`.
    pub fn get(&self, name: &str) -> (r: Option<&MaterialAsset>)
        ensures
            match r {
                Some(x) => exists|i: int| is_first_named(self.cached_assets@, name@, i) && *x == self.cached_assets@[i],
                None => !has_named(self.cached_assets@, name@),
            },
    {
        find_named(&self.cached_assets, name)
    }

    /// Evict one asset as the eviction strategy says.
    pub fn evict(&mut self)
        requires
            old(self).cached_assets@.len() > 0,
        ensures
            final(self).cached_assets@ == old(self).cached_assets@.remove(
                crate::eviction::slot_index(strategy_slot(old(self).eviction_strategy), old(self).cached_assets@.len())),
            final(self).evictions == saturating_sum(old(self).evictions, 1),
            final(self).size_limit == old(self).size_limit,
            final(self).eviction_strategy == old(self).eviction_strategy,
            final(self).hit_count == old(self).hit_count,
            final(self).miss_count == old(self).miss_count,
    {
        let slot = self.eviction_strategy.slot();
        evict_slot(&mut self.cached_assets, slot);
        self.evictions = self.evictions.saturating_add(1);
    }

    /// The cached assets.
    pub fn cached_assets(&self) -> (r: &[MaterialAsset])
        ensures
            r@ == self.cached_assets@,
    {
        self.cached_assets.as_slice()
    }

    /// The size limit.
    pub fn size_limit(&self) -> (r: usize)
        ensures
            r == self.size_limit,
    {
        self.size_limit
    }

    /// The eviction strategy.
    pub fn eviction_strategy(&self) -> (r: MaterialAssetCacheEvictionStrategy)
        ensures
            r == self.eviction_strategy,
    {
        self.eviction_strategy
    }

    /// The hit count.
    pub fn hit_count(&self) -> (r: usize)
        ensures
            r == self.hit_count,
    {
        self.hit_count
    }

    /// The miss count.
    pub fn miss_count(&self) -> (r: usize)
        ensures
            r == self.miss_count,
    {
        self.miss_count
    }

    /// Number of cached assets.
    pub fn cached_count(&self) -> (r: usize)
        ensures
            r == self.cached_assets@.len(),
    {
        self.cached_assets.len()
    }

    /// Number of assets evicted so far (saturating at `usize::MAX`).
    pub fn eviction_count(&self) -> (r: usize)
        ensures
            r == self.evictions,
    {
        self.evictions
    }

    /// Caching the assets `assets` one by one in a fresh cache (no assets,
    /// no evictions, a positive limit) keeps `min(|assets|, size_limit)` of
    /// them and counts one eviction per insertion into the full cache: the
    /// eviction count becomes `|assets| - size_limit` when more than the
    /// limit were cached, and stays 0 otherwise.
    pub proof fn lemma_cache_run_from_empty(self, assets: Seq<MaterialAsset>)
        requires
            self.cached_assets@.len() == 0,
            self.evictions == 0,
            self.size_limit > 0,
            assets.len() <= usize::MAX,
        ensures
            insert_all(self.cached_assets@, self.size_limit as nat, strategy_slot(self.eviction_strategy), assets).len()
                == if assets.len() <= self.size_limit { assets.len() } else { self.size_limit as nat },
            saturating_sum(self.evictions, evictions_all(self.cached_assets@, self.size_limit as nat,
                strategy_slot(self.eviction_strategy), assets))
                == if assets.len() <= self.size_limit { 0 } else { (assets.len() - self.size_limit) as nat },
    {
        assert(self.cached_assets@ =~= Seq::<MaterialAsset>::empty());
        lemma_insert_run_from_empty(self.size_limit as nat, strategy_slot(self.eviction_strategy), assets);
    }}

// ── Compilation and validation caches ───────────────────────────────────────

/// A bounded cache of shader compilations.
#[derive(Clone, Debug)]
pub struct MaterialShaderCompilationCache {
    pub cached_compilations: Vec<CompiledShaderArtifact>,
    pub size_limit: usize,
    pub eviction_strategy: MaterialAssetCacheEvictionStrategy,
    pub hit_count: usize,
    pub miss_count: usize,
}

impl MaterialShaderCompilationCache {
    /// An empty cache of up to 100 compilations, evicting the oldest first.
    pub fn new() -> (r: MaterialShaderCompilationCache)
        ensures
            r.cached_compilations@.len() == 0,
            r.size_limit == DEFAULT_CACHE_LIMIT,
            r.eviction_strategy == MaterialAssetCacheEvictionStrategy::LRU,
            r.hit_count == 0,
            r.miss_count == 0,
    {
        MaterialShaderCompilationCache {
            cached_compilations: Vec::new(),
            size_limit: DEFAULT_CACHE_LIMIT,
            eviction_strategy: MaterialAssetCacheEvictionStrategy::LRU,
            hit_count: 0,
            miss_count: 0,
        }
    }

    /// Cache the compilation record of `asset`, evicting one entry first when full.
    pub fn cache(&mut self, asset: &MaterialAsset)
        requires
            old(self).cached_compilations@.len() > 0 || old(self).size_limit > 0,
        ensures
            final(self).cached_compilations@ == insert_bounded(old(self).cached_compilations@,
                old(self).size_limit as nat, strategy_slot(old(self).eviction_strategy), artifact_of(*asset)),
            final(self).size_limit == old(self).size_limit,
            final(self).eviction_strategy == old(self).eviction_strategy,
            final(self).hit_count == old(self).hit_count,
            final(self).miss_count == old(self).miss_count,
    {
        let slot = self.eviction_strategy.slot();
        push_bounded(&mut self.cached_compilations, self.size_limit, slot, CompiledShaderArtifact::of_asset(asset));
    }

    /// Cache the compilation records of each of `assets`, in order.
    pub fn cache_many(&mut self, assets: &Vec<MaterialAsset>)
        requires
            old(self).cached_compilations@.len() > 0 || old(self).size_limit > 0 || assets@.len() == 0,
        ensures
            final(self).cached_compilations@ == insert_all(old(self).cached_compilations@,
                old(self).size_limit as nat, strategy_slot(old(self).eviction_strategy),
                assets@.map_values(|a: MaterialAsset| artifact_of(a))),
            final(self).size_limit == old(self).size_limit,
            final(self).eviction_strategy == old(self).eviction_strategy,
            final(self).hit_count == old(self).hit_count,
            final(self).miss_count == old(self).miss_count,
    {
        let records = artifacts_of(assets);
        let slot = self.eviction_strategy.slot();
        push_all_bounded(&mut self.cached_compilations, self.size_limit, slot, records);
    }

    /// The first cached compilation of the asset named `name`.
    pub fn get(&self, name: &str) -> (r: Option<&CompiledShaderArtifact>)
        ensures
            match r {
                Some(x) => exists|i: int| is_first_named(self.cached_compilations@, name@, i) && *x == self.cached_compilations@[i],
                None => !has_named(self.cached_compilations@, name@),
            },
    {
        find_named(&self.cached_compilations, name)
    }

    /// Evict one compilation as the eviction strategy says.
    pub fn evict(&mut self)
        requires
            old(self).cached_compilations@.len() > 0,
        ensures
            final(self).cached_compilations@ == old(self).cached_compilations@.remove(
                crate::eviction::slot_index(strategy_slot(old(self).eviction_strategy), old(self).cached_compilations@.len())),
            final(self).size_limit == old(self).size_limit,
            final(self).eviction_strategy == old(self).eviction_strategy,
            final(self).hit_count == old(self).hit_count,
            final(self).miss_count == old(self).miss_count,
    {
        let slot = self.eviction_strategy.slot();
        evict_slot(&mut self.cached_compilations, slot);
    }

    /// The cached compilations.
    pub fn cached_compilations(&self) -> (r: &[CompiledShaderArtifact])
        ensures
            r@ == self.cached_compilations@,
    {
        self.cached_compilations.as_slice()
    }

    /// The size limit.
    pub fn size_limit(&self) -> (r: usize)
        ensures
            r == self.size_limit,
    {
        self.size_limit
    }

    /// The eviction strategy.
    pub fn eviction_strategy(&self) -> (r: MaterialAssetCacheEvictionStrategy)
        ensures
            r == self.eviction_strategy,
    {
        self.eviction_strategy
    }

    /// The hit count.
    pub fn hit_count(&self) -> (r: usize)
        ensures
            r == self.hit_count,
    {
        self.hit_count
    }

    /// The miss count.
    pub fn miss_count(&self) -> (r: usize)
        ensures
            r == self.miss_count,
    {
        self.miss_count
    }

    /// Number of cached compilations.
    pub fn cached_count(&self) -> (r: usize)
        ensures
            r == self.cached_compilations@.len(),
    {
        self.cached_compilations.len()
    }

    /// Number of cached compilations.
    pub fn size(&self) -> (r: usize)
        ensures
            r == self.cached_compilations@.len(),
    {
        self.cached_compilations.len()
    }
}

/// The compilation records of a list of assets.
pub fn artifacts_of(assets: &Vec<MaterialAsset>) -> (r: Vec<CompiledShaderArtifact>)
    ensures
        r@ == assets@.map_values(|a: MaterialAsset| artifact_of(a)),
{
    let mut out: Vec<CompiledShaderArtifact> = Vec::new();
    let mut i: usize = 0;
    while i < assets.len()
        invariant
            i <= assets.len(),
            out@ == assets@.take(i as int).map_values(|a: MaterialAsset| artifact_of(a)),
        decreases assets.len() - i,
    {
        out.push(CompiledShaderArtifact::of_asset(&assets[i]));
        assert(assets@.take(i as int + 1) == assets@.take(i as int).push(assets@[i as int]));
        assert(out@ =~= assets@.take(i as int + 1).map_values(|a: MaterialAsset| artifact_of(a)));
        i = i + 1;
    }
    assert(assets@.take(assets.len() as int) == assets@);
    out
}

/// Whether `s[i]` is the first valid result in `s`.
pub open spec fn is_first_valid(s: Seq<MaterialShaderValidationResult>, i: int) -> bool {
    &&& 0 <= i < s.len()
    &&& s[i].is_valid
    &&& forall|j: int| 0 <= j < i ==> !(#[trigger] s[j]).is_valid
}

/// A bounded cache of shader validations.
#[derive(Debug)]
pub struct MaterialShaderValidationCache {
    pub cached_validations: Vec<MaterialShaderValidationResult>,
    pub size_limit: usize,
    pub eviction_strategy: MaterialAssetCacheEvictionStrategy,
    pub hit_count: usize,
    pub miss_count: usize,
}

impl MaterialShaderValidationCache {
    /// An empty cache of up to 100 validations, evicting the oldest first.
    pub fn new() -> (r: MaterialShaderValidationCache)
        ensures
            r.cached_validations@.len() == 0,
            r.size_limit == DEFAULT_CACHE_LIMIT,
            r.eviction_strategy == MaterialAssetCacheEvictionStrategy::LRU,
            r.hit_count == 0,
            r.miss_count == 0,
    {
        MaterialShaderValidationCache {
            cached_validations: Vec::new(),
            size_limit: DEFAULT_CACHE_LIMIT,
            eviction_strategy: MaterialAssetCacheEvictionStrategy::LRU,
            hit_count: 0,
            miss_count: 0,
        }
    }

    /// Cache a shader validation, evicting one entry first when full.
    pub fn cache(&mut self, validation: MaterialShaderValidationResult)
        requires
            old(self).cached_validations@.len() > 0 || old(self).size_limit > 0,
        ensures
            final(self).cached_validations@ == insert_bounded(old(self).cached_validations@,
                old(self).size_limit as nat, strategy_slot(old(self).eviction_strategy), validation),
            final(self).size_limit == old(self).size_limit,
            final(self).eviction_strategy == old(self).eviction_strategy,
            final(self).hit_count == old(self).hit_count,
            final(self).miss_count == old(self).miss_count,
    {
        let slot = self.eviction_strategy.slot();
        push_bounded(&mut self.cached_validations, self.size_limit, slot, validation);
    }

    /// Cache each of `validations` in order.
    pub fn cache_many(&mut self, validations: Vec<MaterialShaderValidationResult>)
        requires
            old(self).cached_validations@.len() > 0 || old(self).size_limit > 0 || validations@.len() == 0,
        ensures
            final(self).cached_validations@ == insert_all(old(self).cached_validations@,
                old(self).size_limit as nat, strategy_slot(old(self).eviction_strategy), validations@),
            final(self).size_limit == old(self).size_limit,
            final(self).eviction_strategy == old(self).eviction_strategy,
            final(self).hit_count == old(self).hit_count,
            final(self).miss_count == old(self).miss_count,
    {
        let slot = self.eviction_strategy.slot();
        push_all_bounded(&mut self.cached_validations, self.size_limit, slot, validations);
    }

    /// The first cached validation that passed.
    pub fn get(&self) -> (r: Option<&MaterialShaderValidationResult>)
        ensures
            match r {
                Some(x) => exists|i: int| is_first_valid(self.cached_validations@, i) && *x == self.cached_validations@[i],
                None => forall|i: int| 0 <= i < self.cached_validations@.len() ==> !(#[trigger] self.cached_validations@[i]).is_valid,
            },
    {
        let mut i: usize = 0;
        while i < self.cached_validations.len()
            invariant
                i <= self.cached_validations.len(),
                forall|j: int| 0 <= j < i ==> !(#[trigger] self.cached_validations@[j]).is_valid,
            decreases self.cached_validations.len() - i,
        {
            if self.cached_validations[i].is_valid {
                assert(is_first_valid(self.cached_validations@, i as int));
                return Some(&self.cached_validations[i]);
            }
            i = i + 1;
        }
        None
    }

    /// Evict one validation as the eviction strategy says.
    pub fn evict(&mut self)
        requires
            old(self).cached_validations@.len() > 0,
        ensures
            final(self).cached_validations@ == old(self).cached_validations@.remove(
                crate::eviction::slot_index(strategy_slot(old(self).eviction_strategy), old(self).cached_validations@.len())),
            final(self).size_limit == old(self).size_limit,
            final(self).eviction_strategy == old(self).eviction_strategy,
            final(self).hit_count == old(self).hit_count,
            final(self).miss_count == old(self).miss_count,
    {
        let slot = self.eviction_strategy.slot();
        evict_slot(&mut self.cached_validations, slot);
    }

    /// The cached validations.
    pub fn cached_validations(&self) -> (r: &[MaterialShaderValidationResult])
        ensures
            r@ == self.cached_validations@,
    {
        self.cached_validations.as_slice()
    }

    /// The size limit.
    pub fn size_limit(&self) -> (r: usize)
        ensures
            r == self.size_limit,
    {
        self.size_limit
    }

    /// The eviction strategy.
    pub fn eviction_strategy(&self) -> (r: MaterialAssetCacheEvictionStrategy)
        ensures
            r == self.eviction_strategy,
    {
        self.eviction_strategy
    }

    /// The hit count.
    pub fn hit_count(&self) -> (r: usize)
        ensures
            r == self.hit_count,
    {
        self.hit_count
    }

    /// The miss count.
    pub fn miss_count(&self) -> (r: usize)
        ensures
            r == self.miss_count,
    {
        self.miss_count
    }

    /// Number of cached validations.
    pub fn cached_count(&self) -> (r: usize)
        ensures
            r == self.cached_validations@.len(),
    {
        self.cached_validations.len()
    }

    /// Number of cached validations.
    pub fn size(&self) -> (r: usize)
        ensures
            r == self.cached_validations@.len(),
    {
        self.cached_validations.len()
    }
}

/// A bounded cache of cross-language compilations.
#[derive(Clone, Debug)]
pub struct MaterialCrossLanguageCache {
    pub cached_compilations: Vec<CompiledShaderArtifact>,
    pub size_limit: usize,
    pub eviction_strategy: MaterialAssetCacheEvictionStrategy,
    pub hit_count: usize,
    pub miss_count: usize,
}

impl MaterialCrossLanguageCache {
    /// An empty cache of up to 100 compilations, evicting the oldest first.
    pub fn new() -> (r: MaterialCrossLanguageCache)
        ensures
            r.cached_compilations@.len() == 0,
            r.size_limit == DEFAULT_CACHE_LIMIT,
            r.eviction_strategy == MaterialAssetCacheEvictionStrategy::LRU,
            r.hit_count == 0,
            r.miss_count == 0,
    {
        MaterialCrossLanguageCache {
            cached_compilations: Vec::new(),
            size_limit: DEFAULT_CACHE_LIMIT,
            eviction_strategy: MaterialAssetCacheEvictionStrategy::LRU,
            hit_count: 0,
            miss_count: 0,
        }
    }

    /// Cache the compilation record of `asset`, evicting one entry first when full.
    pub fn cache(&mut self, asset: &MaterialAsset)
        requires
            old(self).cached_compilations@.len() > 0 || old(self).size_limit > 0,
        ensures
            final(self).cached_compilations@ == insert_bounded(old(self).cached_compilations@,
                old(self).size_limit as nat, strategy_slot(old(self).eviction_strategy), artifact_of(*asset)),
            final(self).size_limit == old(self).size_limit,
            final(self).eviction_strategy == old(self).eviction_strategy,
            final(self).hit_count == old(self).hit_count,
            final(self).miss_count == old(self).miss_count,
    {
        let slot = self.eviction_strategy.slot();
        push_bounded(&mut self.cached_compilations, self.size_limit, slot, CompiledShaderArtifact::of_asset(asset));
    }

    /// Cache the compilation records of each of `assets`, in order.
    pub fn cache_many(&mut self, assets: &Vec<MaterialAsset>)
        requires
            old(self).cached_compilations@.len() > 0 || old(self).size_limit > 0 || assets@.len() == 0,
        ensures
            final(self).cached_compilations@ == insert_all(old(self).cached_compilations@,
                old(self).size_limit as nat, strategy_slot(old(self).eviction_strategy),
                assets@.map_values(|a: MaterialAsset| artifact_of(a))),
            final(self).size_limit == old(self).size_limit,
            final(self).eviction_strategy == old(self).eviction_strategy,
            final(self).hit_count == old(self).hit_count,
            final(self).miss_count == old(self).miss_count,
    {
        let records = artifacts_of(assets);
        let slot = self.eviction_strategy.slot();
        push_all_bounded(&mut self.cached_compilations, self.size_limit, slot, records);
    }

    /// The first cached compilation of the asset named `name`.
    pub fn get(&self, name: &str) -> (r: Option<&CompiledShaderArtifact>)
        ensures
            match r {
                Some(x) => exists|i: int| is_first_named(self.cached_compilations@, name@, i) && *x == self.cached_compilations@[i],
                None => !has_named(self.cached_compilations@, name@),
            },
    {
        find_named(&self.cached_compilations, name)
    }

    /// Evict one compilation as the eviction strategy says.
    pub fn evict(&mut self)
        requires
            old(self).cached_compilations@.len() > 0,
        ensures
            final(self).cached_compilations@ == old(self).cached_compilations@.remove(
                crate::eviction::slot_index(strategy_slot(old(self).eviction_strategy), old(self).cached_compilations@.len())),
            final(self).size_limit == old(self).size_limit,
            final(self).eviction_strategy == old(self).eviction_strategy,
            final(self).hit_count == old(self).hit_count,
            final(self).miss_count == old(self).miss_count,
    {
        let slot = self.eviction_strategy.slot();
        evict_slot(&mut self.cached_compilations, slot);
    }

    /// The cached compilations.
    pub fn cached_compilations(&self) -> (r: &[CompiledShaderArtifact])
        ensures
            r@ == self.cached_compilations@,
    {
        self.cached_compilations.as_slice()
    }

    /// The size limit.
    pub fn size_limit(&self) -> (r: usize)
        ensures
            r == self.size_limit,
    {
        self.size_limit
    }

    /// The eviction strategy.
    pub fn eviction_strategy(&self) -> (r: MaterialAssetCacheEvictionStrategy)
        ensures
            r == self.eviction_strategy,
    {
        self.eviction_strategy
    }

    /// The hit count.
    pub fn hit_count(&self) -> (r: usize)
        ensures
            r == self.hit_count,
    {
        self.hit_count
    }

    /// The miss count.
    pub fn miss_count(&self) -> (r: usize)
        ensures
            r == self.miss_count,
    {
        self.miss_count
    }

    /// Number of cached compilations.
    pub fn cached_count(&self) -> (r: usize)
        ensures
            r == self.cached_compilations@.len(),
    {
        self.cached_compilations.len()
    }

    /// Number of cached compilations.
    pub fn size(&self) -> (r: usize)
        ensures
            r == self.cached_compilations@.len(),
    {
        self.cached_compilations.len()
    }
}

} // verus!
