//! Material-graph assets and the pipeline that loads, validates and caches
//! them; preview output, GPU captures and the graph-level strategy enums.
use vstd::prelude::*;

use crate::eviction::{EvictionSlot, evict_slot, insert_bounded, push_bounded, slot_index};
use crate::types::{Format, ShaderStage, ShaderTarget};

verus! {

// ── Assets ───────────────────────────────────────────────────────────────────

/// The language or payload a material-graph asset holds.
#[derive(Clone, Copy, Debug, PartialEq, Eq, Structural)]
pub enum MaterialGraphAssetFormat {
    Slang,
    HLSL,
    GLSL,
    MSL,
    Spirv,
    Dxil,
    ParameterData,
    TextureData,
}

/// The compile target of each format: DXIL for HLSL and DXIL, MSL for MSL,
/// SPIR-V for everything else.
pub open spec fn graph_format_target(f: MaterialGraphAssetFormat) -> ShaderTarget {
    match f {
        MaterialGraphAssetFormat::HLSL | MaterialGraphAssetFormat::Dxil => ShaderTarget::Dxil,
        MaterialGraphAssetFormat::MSL => ShaderTarget::Msl,
        _ => ShaderTarget::Spirv,
    }
}

impl Default for MaterialGraphAssetFormat {
    fn default() -> (r: MaterialGraphAssetFormat)
        ensures
            r == MaterialGraphAssetFormat::Slang,
    {
        MaterialGraphAssetFormat::Slang
    }
}

impl MaterialGraphAssetFormat {
    /// The compile target of this format.
    pub fn shader_target(self) -> (r: ShaderTarget)
        ensures
            r == graph_format_target(self),
    {
        match self {
            MaterialGraphAssetFormat::HLSL | MaterialGraphAssetFormat::Dxil => ShaderTarget::Dxil,
            MaterialGraphAssetFormat::MSL => ShaderTarget::Msl,
            _ => ShaderTarget::Spirv,
        }
    }

    /// Every format is compiled as a fragment shader.
    pub fn shader_stage(self) -> (r: ShaderStage)
        ensures
            r == ShaderStage::Fragment,
    {
        ShaderStage::Fragment
    }
}

/// Version, author, date, license and description of a graph asset.
#[derive(Clone, Debug)]
pub struct MaterialGraphAssetMetadata {
    pub version: u32,
    pub author: String,
    pub date: String,
    pub license: String,
    pub description: String,
}

impl Default for MaterialGraphAssetMetadata {
    fn default() -> (r: MaterialGraphAssetMetadata)
        ensures
            r.version == 0,
            r.author@.len() == 0,
            r.date@.len() == 0,
            r.license@.len() == 0,
            r.description@.len() == 0,
    {
        MaterialGraphAssetMetadata {
            version: 0,
            author: String::new(),
            date: String::new(),
            license: String::new(),
            description: String::new(),
        }
    }
}

impl MaterialGraphAssetMetadata {
    /// A field-by-field copy.
    pub fn duplicate(&self) -> (r: MaterialGraphAssetMetadata)
        ensures
            r == *self,
    {
        MaterialGraphAssetMetadata {
            version: self.version,
            author: self.author.clone(),
            date: self.date.clone(),
            license: self.license.clone(),
            description: self.description.clone(),
        }
    }

    /// The version.
    pub fn version(&self) -> (r: u32)
        ensures
            r == self.version,
    {
        self.version
    }

    /// The author.
    pub fn author(&self) -> (r: &str)
        ensures
            r@ == self.author@,
    {
        self.author.as_str()
    }

    /// The date.
    pub fn date(&self) -> (r: &str)
        ensures
            r@ == self.date@,
    {
        self.date.as_str()
    }

    /// The license.
    pub fn license(&self) -> (r: &str)
        ensures
            r@ == self.license@,
    {
        self.license.as_str()
    }

    /// The description.
    pub fn description(&self) -> (r: &str)
        ensures
            r@ == self.description@,
    {
        self.description.as_str()
    }
}

/// A material-graph asset: its name, path, format, payload and metadata.
#[derive(Clone, Debug)]
pub struct MaterialGraphAsset {
    pub name: String,
    pub path: String,
    pub format: MaterialGraphAssetFormat,
    pub data: Vec<u8>,
    pub metadata: MaterialGraphAssetMetadata,
}

/// A graph asset as plain values.
pub struct MaterialGraphAssetView {
    pub name: Seq<char>,
    pub path: Seq<char>,
    pub format: MaterialGraphAssetFormat,
    pub data: Seq<u8>,
    pub metadata: MaterialGraphAssetMetadata,
}

impl View for MaterialGraphAsset {
    type V = MaterialGraphAssetView;

    open spec fn view(&self) -> MaterialGraphAssetView {
        MaterialGraphAssetView {
            name: self.name@,
            path: self.path@,
            format: self.format,
            data: self.data@,
            metadata: self.metadata,
        }
    }
}

/// `after` is `before` with one more asset, equal in value to `asset`, at
/// its end.
pub open spec fn graph_appended(before: Seq<MaterialGraphAsset>, after: Seq<MaterialGraphAsset>, asset: MaterialGraphAsset) -> bool {
    &&& after.len() == before.len() + 1
    &&& after.drop_last() == before
    &&& after.last()@ == asset@
}

/// `after` is the bounded cache `before` after inserting an asset equal in
/// value to `asset`.
pub open spec fn graph_cached(before: Seq<MaterialGraphAsset>, after: Seq<MaterialGraphAsset>, limit: nat, slot: EvictionSlot, asset: MaterialGraphAsset) -> bool {
    exists|x: MaterialGraphAsset| x@ == asset@ && after == insert_bounded(before, limit, slot, x)
}

impl MaterialGraphAsset {
    /// An asset named `name` at `path`: Slang format, no data, default
    /// metadata.
    pub fn new(name: &str, path: &str) -> (r: MaterialGraphAsset)
        ensures
            r.name@ == name@,
            r.path@ == path@,
            r.format == MaterialGraphAssetFormat::Slang,
            r.data@.len() == 0,
            r.metadata.version == 0,
            r.metadata.author@.len() == 0,
            r.metadata.date@.len() == 0,
            r.metadata.license@.len() == 0,
            r.metadata.description@.len() == 0,
    {
        MaterialGraphAsset {
            name: name.to_string(),
            path: path.to_string(),
            format: MaterialGraphAssetFormat::Slang,
            data: Vec::new(),
            metadata: MaterialGraphAssetMetadata::default(),
        }
    }

    /// A copy equal in value.
    pub fn duplicate(&self) -> (r: MaterialGraphAsset)
        ensures
            r@ == self@,
    {
        let mut data: Vec<u8> = Vec::new();
        let mut i: usize = 0;
        while i < self.data.len()
            invariant
                i <= self.data@.len(),
                data@ == self.data@.take(i as int),
            decreases self.data@.len() - i,
        {
            data.push(self.data[i]);
            assert(self.data@.take(i as int + 1) == self.data@.take(i as int).push(self.data@[i as int]));
            i = i + 1;
        }
        assert(self.data@.take(i as int) == self.data@);
        MaterialGraphAsset {
            name: self.name.clone(),
            path: self.path.clone(),
            format: self.format,
            data,
            metadata: self.metadata.duplicate(),
        }
    }

    /// The name.
    pub fn name(&self) -> (r: &str)
        ensures
            r@ == self.name@,
    {
        self.name.as_str()
    }

    /// The path.
    pub fn path(&self) -> (r: &str)
        ensures
            r@ == self.path@,
    {
        self.path.as_str()
    }

    /// The format.
    pub fn format(&self) -> (r: MaterialGraphAssetFormat)
        ensures
            r == self.format,
    {
        self.format
    }

    /// The payload.
    pub fn data(&self) -> (r: &[u8])
        ensures
            r@ == self.data@,
    {
        self.data.as_slice()
    }

    /// The metadata.
    pub fn metadata(&self) -> (r: &MaterialGraphAssetMetadata)
        ensures
            *r == self.metadata,
    {
        &self.metadata
    }
}

// ── Loader, validator, cache ─────────────────────────────────────────────────

/// Where a graph loader is in its work.
#[derive(Clone, Copy, Debug, PartialEq, Eq, Structural)]
pub enum MaterialGraphAssetLoaderState {
    Idle,
    Loading,
    Loaded,
    Error,
}

impl Default for MaterialGraphAssetLoaderState {
    fn default() -> (r: MaterialGraphAssetLoaderState)
        ensures
            r == MaterialGraphAssetLoaderState::Idle,
    {
        MaterialGraphAssetLoaderState::Idle
    }
}

/// Records the graph assets it has loaded.
#[derive(Clone, Debug)]
pub struct MaterialGraphAssetLoader {
    pub loaded_assets: Vec<MaterialGraphAsset>,
    pub loader_state: MaterialGraphAssetLoaderState,
}

impl Default for MaterialGraphAssetLoader {
    fn default() -> (r: MaterialGraphAssetLoader)
        ensures
            r.loaded_assets@.len() == 0,
            r.loader_state == MaterialGraphAssetLoaderState::Idle,
    {
        MaterialGraphAssetLoader::new()
    }
}

impl MaterialGraphAssetLoader {
    /// An idle loader with nothing loaded.
    pub fn new() -> (r: MaterialGraphAssetLoader)
        ensures
            r.loaded_assets@.len() == 0,
            r.loader_state == MaterialGraphAssetLoaderState::Idle,
    {
        MaterialGraphAssetLoader { loaded_assets: Vec::new(), loader_state: MaterialGraphAssetLoaderState::Idle }
    }

    /// Load `asset`: it is appended to the loaded assets.
    pub fn load(&mut self, asset: MaterialGraphAsset)
        ensures
            final(self).loaded_assets@ == old(self).loaded_assets@.push(asset),
            final(self).loader_state == old(self).loader_state,
    {
        self.loaded_assets.push(asset);
    }

    /// The loaded assets.
    pub fn loaded_assets(&self) -> (r: &[MaterialGraphAsset])
        ensures
            r@ == self.loaded_assets@,
    {
        self.loaded_assets.as_slice()
    }

    /// The loader state.
    pub fn loader_state(&self) -> (r: MaterialGraphAssetLoaderState)
        ensures
            r == self.loader_state,
    {
        self.loader_state
    }
}

/// Where a graph validator is in its work.
#[derive(Clone, Copy, Debug, PartialEq, Eq, Structural)]
pub enum MaterialGraphAssetValidatorState {
    Idle,
    Validating,
    Validated,
    Error,
}

impl Default for MaterialGraphAssetValidatorState {
    fn default() -> (r: MaterialGraphAssetValidatorState)
        ensures
            r == MaterialGraphAssetValidatorState::Idle,
    {
        MaterialGraphAssetValidatorState::Idle
    }
}

/// Records the graph assets it has validated.
#[derive(Clone, Debug)]
pub struct MaterialGraphAssetValidator {
    pub validated_assets: Vec<MaterialGraphAsset>,
    pub validator_state: MaterialGraphAssetValidatorState,
}

impl Default for MaterialGraphAssetValidator {
    fn default() -> (r: MaterialGraphAssetValidator)
        ensures
            r.validated_assets@.len() == 0,
            r.validator_state == MaterialGraphAssetValidatorState::Idle,
    {
        MaterialGraphAssetValidator::new()
    }
}

impl MaterialGraphAssetValidator {
    /// An idle validator with nothing validated.
    pub fn new() -> (r: MaterialGraphAssetValidator)
        ensures
            r.validated_assets@.len() == 0,
            r.validator_state == MaterialGraphAssetValidatorState::Idle,
    {
        MaterialGraphAssetValidator { validated_assets: Vec::new(), validator_state: MaterialGraphAssetValidatorState::Idle }
    }

    /// Validate `asset`: every graph asset passes and is appended to the
    /// validated assets.
    pub fn validate(&mut self, asset: MaterialGraphAsset)
        ensures
            final(self).validated_assets@ == old(self).validated_assets@.push(asset),
            final(self).validator_state == old(self).validator_state,
    {
        self.validated_assets.push(asset);
    }

    /// The validated assets.
    pub fn validated_assets(&self) -> (r: &[MaterialGraphAsset])
        ensures
            r@ == self.validated_assets@,
    {
        self.validated_assets.as_slice()
    }

    /// The validator state.
    pub fn validator_state(&self) -> (r: MaterialGraphAssetValidatorState)
        ensures
            r == self.validator_state,
    {
        self.validator_state
    }
}

/// Which graph asset a full graph-asset cache evicts.
#[derive(Clone, Copy, Debug, PartialEq, Eq, Structural)]
pub enum MaterialGraphAssetCacheEvictionStrategy {
    /// The oldest asset.
    LRU,
    /// The newest asset.
    SizeBased,
    /// The middle asset.
    Random,
}

/// The slot each graph-asset strategy removes.
pub open spec fn graph_asset_slot(s: MaterialGraphAssetCacheEvictionStrategy) -> EvictionSlot {
    match s {
        MaterialGraphAssetCacheEvictionStrategy::LRU => EvictionSlot::First,
        MaterialGraphAssetCacheEvictionStrategy::SizeBased => EvictionSlot::Last,
        MaterialGraphAssetCacheEvictionStrategy::Random => EvictionSlot::Middle,
    }
}

impl Default for MaterialGraphAssetCacheEvictionStrategy {
    fn default() -> (r: MaterialGraphAssetCacheEvictionStrategy)
        ensures
            r == MaterialGraphAssetCacheEvictionStrategy::LRU,
    {
        MaterialGraphAssetCacheEvictionStrategy::LRU
    }
}

impl MaterialGraphAssetCacheEvictionStrategy {
    /// The slot this strategy removes.
    pub fn slot(self) -> (r: EvictionSlot)
        ensures
            r == graph_asset_slot(self),
    {
        match self {
            MaterialGraphAssetCacheEvictionStrategy::LRU => EvictionSlot::First,
            MaterialGraphAssetCacheEvictionStrategy::SizeBased => EvictionSlot::Last,
            MaterialGraphAssetCacheEvictionStrategy::Random => EvictionSlot::Middle,
        }
    }
}

/// A bounded cache of graph assets.
#[derive(Clone, Debug)]
pub struct MaterialGraphAssetCache {
    pub cached_assets: Vec<MaterialGraphAsset>,
    pub size_limit: usize,
    pub eviction_strategy: MaterialGraphAssetCacheEvictionStrategy,
}

impl Default for MaterialGraphAssetCache {
    fn default() -> (r: MaterialGraphAssetCache)
        ensures
            r.cached_assets@.len() == 0,
            r.size_limit == 100,
            r.eviction_strategy == MaterialGraphAssetCacheEvictionStrategy::LRU,
    {
        MaterialGraphAssetCache::new()
    }
}

impl MaterialGraphAssetCache {
    /// An empty cache of up to 100 assets, evicting the oldest first.
    pub fn new() -> (r: MaterialGraphAssetCache)
        ensures
            r.cached_assets@.len() == 0,
            r.size_limit == 100,
            r.eviction_strategy == MaterialGraphAssetCacheEvictionStrategy::LRU,
    {
        MaterialGraphAssetCache {
            cached_assets: Vec::new(),
            size_limit: 100,
            eviction_strategy: MaterialGraphAssetCacheEvictionStrategy::LRU,
        }
    }

    /// Cache `asset`, evicting one asset first when the cache is full. An
    /// empty cache with a zero limit has nothing to evict and is left out.
    pub fn cache(&mut self, asset: MaterialGraphAsset)
        requires
            old(self).cached_assets@.len() > 0 || old(self).size_limit > 0,
        ensures
            final(self).cached_assets@ == insert_bounded(old(self).cached_assets@,
                old(self).size_limit as nat, graph_asset_slot(old(self).eviction_strategy), asset),
            final(self).size_limit == old(self).size_limit,
            final(self).eviction_strategy == old(self).eviction_strategy,
    {
        let slot = self.eviction_strategy.slot();
        push_bounded(&mut self.cached_assets, self.size_limit, slot, asset);
    }

    /// Evict one asset as the eviction strategy says.
    pub fn evict(&mut self)
        requires
            old(self).cached_assets@.len() > 0,
        ensures
            final(self).cached_assets@ == old(self).cached_assets@.remove(
                slot_index(graph_asset_slot(old(self).eviction_strategy), old(self).cached_assets@.len())),
            final(self).size_limit == old(self).size_limit,
            final(self).eviction_strategy == old(self).eviction_strategy,
    {
        let slot = self.eviction_strategy.slot();
        evict_slot(&mut self.cached_assets, slot);
    }

    /// The cached assets.
    pub fn cached_assets(&self) -> (r: &[MaterialGraphAsset])
        ensures
            r@ == self.cached_assets@,
    {
        self.cached_assets.as_slice()
    }

    /// The size limit.
    pub fn size_limit(&self) -> (r: usize)
        ensures
            r == self.size_limit,
    {
        self.size_limit
    }

    /// The eviction strategy.
    pub fn eviction_strategy(&self) -> (r: MaterialGraphAssetCacheEvictionStrategy)
        ensures
            r == self.eviction_strategy,
    {
        self.eviction_strategy
    }
}

// ── Pipeline ─────────────────────────────────────────────────────────────────

/// Where a graph asset pipeline is in its work.
#[derive(Clone, Copy, Debug, PartialEq, Eq, Structural)]
pub enum MaterialGraphAssetPipelineState {
    Idle,
    Loading,
    Validating,
    Caching,
    Complete,
    Error,
}

impl Default for MaterialGraphAssetPipelineState {
    fn default() -> (r: MaterialGraphAssetPipelineState)
        ensures
            r == MaterialGraphAssetPipelineState::Idle,
    {
        MaterialGraphAssetPipelineState::Idle
    }
}

/// Loads, validates and caches material-graph assets.
#[derive(Clone, Debug)]
pub struct MaterialGraphAssetPipeline {
    pub assets: Vec<MaterialGraphAsset>,
    pub asset_loader: MaterialGraphAssetLoader,
    pub asset_validator: MaterialGraphAssetValidator,
    pub asset_cache: MaterialGraphAssetCache,
    pub pipeline_state: MaterialGraphAssetPipelineState,
}

impl Default for MaterialGraphAssetPipeline {
    fn default() -> (r: MaterialGraphAssetPipeline)
        ensures
            r.assets@.len() == 0,
            r.asset_loader.loaded_assets@.len() == 0,
            r.asset_validator.validated_assets@.len() == 0,
            r.asset_cache.cached_assets@.len() == 0,
            r.asset_cache.size_limit == 100,
            r.pipeline_state == MaterialGraphAssetPipelineState::Idle,
    {
        MaterialGraphAssetPipeline::new()
    }
}

impl MaterialGraphAssetPipeline {
    /// An idle pipeline with nothing loaded and a fresh loader, validator
    /// and cache of 100 assets.
    pub fn new() -> (r: MaterialGraphAssetPipeline)
        ensures
            r.assets@.len() == 0,
            r.asset_loader.loaded_assets@.len() == 0,
            r.asset_loader.loader_state == MaterialGraphAssetLoaderState::Idle,
            r.asset_validator.validated_assets@.len() == 0,
            r.asset_validator.validator_state == MaterialGraphAssetValidatorState::Idle,
            r.asset_cache.cached_assets@.len() == 0,
            r.asset_cache.size_limit == 100,
            r.asset_cache.eviction_strategy == MaterialGraphAssetCacheEvictionStrategy::LRU,
            r.pipeline_state == MaterialGraphAssetPipelineState::Idle,
    {
        MaterialGraphAssetPipeline {
            assets: Vec::new(),
            asset_loader: MaterialGraphAssetLoader::new(),
            asset_validator: MaterialGraphAssetValidator::new(),
            asset_cache: MaterialGraphAssetCache::new(),
            pipeline_state: MaterialGraphAssetPipelineState::Idle,
        }
    }

    /// Load `asset`: the loader and the validator each record a copy and the
    /// cache caches one (evicting first when full). The pipeline's own asset
    /// list and state are left as they were.
    pub fn load(&mut self, asset: MaterialGraphAsset)
        requires
            old(self).asset_cache.cached_assets@.len() > 0 || old(self).asset_cache.size_limit > 0,
        ensures
            graph_appended(old(self).asset_loader.loaded_assets@, final(self).asset_loader.loaded_assets@, asset),
            graph_appended(old(self).asset_validator.validated_assets@, final(self).asset_validator.validated_assets@, asset),
            graph_cached(old(self).asset_cache.cached_assets@, final(self).asset_cache.cached_assets@,
                old(self).asset_cache.size_limit as nat, graph_asset_slot(old(self).asset_cache.eviction_strategy), asset),
            final(self).asset_cache.size_limit == old(self).asset_cache.size_limit,
            final(self).asset_cache.eviction_strategy == old(self).asset_cache.eviction_strategy,
            final(self).asset_loader.loader_state == old(self).asset_loader.loader_state,
            final(self).asset_validator.validator_state == old(self).asset_validator.validator_state,
            final(self).assets@ == old(self).assets@,
            final(self).pipeline_state == old(self).pipeline_state,
    {
        let ghost l0 = self.asset_loader.loaded_assets@;
        self.asset_loader.load(asset.duplicate());
        assert(self.asset_loader.loaded_assets@.drop_last() == l0);
        let ghost v0 = self.asset_validator.validated_assets@;
        self.asset_validator.validate(asset.duplicate());
        assert(self.asset_validator.validated_assets@.drop_last() == v0);
        let c = asset.duplicate();
        self.asset_cache.cache(c);
    }

    /// The pipeline's assets.
    pub fn assets(&self) -> (r: &[MaterialGraphAsset])
        ensures
            r@ == self.assets@,
    {
        self.assets.as_slice()
    }

    /// The loader.
    pub fn asset_loader(&self) -> (r: &MaterialGraphAssetLoader)
        ensures
            *r == self.asset_loader,
    {
        &self.asset_loader
    }

    /// The validator.
    pub fn asset_validator(&self) -> (r: &MaterialGraphAssetValidator)
        ensures
            *r == self.asset_validator,
    {
        &self.asset_validator
    }

    /// The cache.
    pub fn asset_cache(&self) -> (r: &MaterialGraphAssetCache)
        ensures
            *r == self.asset_cache,
    {
        &self.asset_cache
    }

    /// The pipeline state.
    pub fn pipeline_state(&self) -> (r: &MaterialGraphAssetPipelineState)
        ensures
            *r == self.pipeline_state,
    {
        &self.pipeline_state
    }
}

/// After a load, the loader's newest asset, the validator's newest asset
/// and, whatever the eviction strategy, the cache's newest asset are all
/// equal in value to the loaded one.
pub proof fn lemma_graph_load_newest(
    l0: Seq<MaterialGraphAsset>,
    l1: Seq<MaterialGraphAsset>,
    c0: Seq<MaterialGraphAsset>,
    c1: Seq<MaterialGraphAsset>,
    limit: nat,
    slot: EvictionSlot,
    asset: MaterialGraphAsset,
)
    requires
        graph_appended(l0, l1, asset),
        graph_cached(c0, c1, limit, slot, asset),
        c0.len() > 0 || limit > 0,
    ensures
        l1.last()@ == asset@,
        c1.len() > 0,
        c1.last()@ == asset@,
{
}

// ── Preview output ───────────────────────────────────────────────────────────

/// Where a preview renderer is in its work.
#[derive(Clone, Copy, Debug, PartialEq, Eq, Structural)]
pub enum MaterialGraphPreviewRendererState {
    Idle,
    Rendering,
    Rendered,
    Error,
}

impl Default for MaterialGraphPreviewRendererState {
    fn default() -> (r: MaterialGraphPreviewRendererState)
        ensures
            r == MaterialGraphPreviewRendererState::Idle,
    {
        MaterialGraphPreviewRendererState::Idle
    }
}

/// The pixels of a rendered preview.
#[derive(Clone, Debug)]
pub struct MaterialGraphPreviewOutput {
    pub pixels: Vec<u8>,
    pub size: [u32; 2],
    pub format: Format,
}

impl Default for MaterialGraphPreviewOutput {
    fn default() -> (r: MaterialGraphPreviewOutput)
        ensures
            r.pixels@.len() == 0,
            r.size@ == seq![256u32, 256u32],
            r.format == Format::Rgba8Unorm,
    {
        MaterialGraphPreviewOutput::new()
    }
}

impl MaterialGraphPreviewOutput {
    /// An empty 256 by 256 `Rgba8Unorm` preview.
    pub fn new() -> (r: MaterialGraphPreviewOutput)
        ensures
            r.pixels@.len() == 0,
            r.size@ == seq![256u32, 256u32],
            r.format == Format::Rgba8Unorm,
    {
        MaterialGraphPreviewOutput { pixels: Vec::new(), size: [256, 256], format: Format::Rgba8Unorm }
    }

    /// The pixels.
    pub fn pixels(&self) -> (r: &[u8])
        ensures
            r@ == self.pixels@,
    {
        self.pixels.as_slice()
    }

    /// The width and height.
    pub fn size(&self) -> (r: &[u32; 2])
        ensures
            r@ == self.size@,
    {
        &self.size
    }

    /// The pixel format.
    pub fn format(&self) -> (r: Format)
        ensures
            r == self.format,
    {
        self.format
    }
}

/// Keeps the previews it has rendered.
#[derive(Clone, Debug)]
pub struct MaterialGraphPreviewRenderer {
    pub rendered_previews: Vec<MaterialGraphPreviewOutput>,
    pub renderer_state: MaterialGraphPreviewRendererState,
}

impl Default for MaterialGraphPreviewRenderer {
    fn default() -> (r: MaterialGraphPreviewRenderer)
        ensures
            r.rendered_previews@.len() == 0,
            r.renderer_state == MaterialGraphPreviewRendererState::Idle,
    {
        MaterialGraphPreviewRenderer::new()
    }
}

impl MaterialGraphPreviewRenderer {
    /// An idle renderer with nothing rendered.
    pub fn new() -> (r: MaterialGraphPreviewRenderer)
        ensures
            r.rendered_previews@.len() == 0,
            r.renderer_state == MaterialGraphPreviewRendererState::Idle,
    {
        MaterialGraphPreviewRenderer { rendered_previews: Vec::new(), renderer_state: MaterialGraphPreviewRendererState::Idle }
    }

    /// The rendered previews.
    pub fn rendered_previews(&self) -> (r: &[MaterialGraphPreviewOutput])
        ensures
            r@ == self.rendered_previews@,
    {
        self.rendered_previews.as_slice()
    }

    /// The renderer state.
    pub fn renderer_state(&self) -> (r: MaterialGraphPreviewRendererState)
        ensures
            r == self.renderer_state,
    {
        self.renderer_state
    }
}

// ── GPU capture ──────────────────────────────────────────────────────────────

/// The frame-capture tool a capture is taken with.
#[derive(Clone, Copy, Debug, PartialEq, Eq, Structural)]
pub enum GpuCaptureTool {
    RenderDoc,
}

/// Where a GPU capture is.
#[derive(Clone, Copy, Debug, PartialEq, Eq, Structural)]
pub enum MaterialGraphGpuCaptureState {
    Idle,
    Capturing,
    Captured,
    Error,
}

impl Default for MaterialGraphGpuCaptureState {
    fn default() -> (r: MaterialGraphGpuCaptureState)
        ensures
            r == MaterialGraphGpuCaptureState::Idle,
    {
        MaterialGraphGpuCaptureState::Idle
    }
}

/// A labelled GPU capture of a material graph.
#[derive(Clone, Debug)]
pub struct MaterialGraphGpuCapture {
    pub tool: GpuCaptureTool,
    pub label: String,
    pub capture_state: MaterialGraphGpuCaptureState,
}

impl MaterialGraphGpuCapture {
    /// An idle capture with `tool` and `label`.
    pub fn new(tool: GpuCaptureTool, label: &str) -> (r: MaterialGraphGpuCapture)
        ensures
            r.tool == tool,
            r.label@ == label@,
            r.capture_state == MaterialGraphGpuCaptureState::Idle,
    {
        MaterialGraphGpuCapture { tool, label: label.to_string(), capture_state: MaterialGraphGpuCaptureState::Idle }
    }

    /// Start capturing.
    pub fn begin(&mut self)
        ensures
            final(self).capture_state == MaterialGraphGpuCaptureState::Capturing,
            final(self).tool == old(self).tool,
            final(self).label == old(self).label,
    {
        self.capture_state = MaterialGraphGpuCaptureState::Capturing;
    }

    /// Stop capturing: the capture is idle again.
    pub fn end(&mut self)
        ensures
            final(self).capture_state == MaterialGraphGpuCaptureState::Idle,
            final(self).tool == old(self).tool,
            final(self).label == old(self).label,
    {
        self.capture_state = MaterialGraphGpuCaptureState::Idle;
    }

    /// The tool.
    pub fn tool(&self) -> (r: GpuCaptureTool)
        ensures
            r == self.tool,
    {
        self.tool
    }

    /// The label.
    pub fn label(&self) -> (r: &str)
        ensures
            r@ == self.label@,
    {
        self.label.as_str()
    }

    /// The capture state.
    pub fn capture_state(&self) -> (r: MaterialGraphGpuCaptureState)
        ensures
            r == self.capture_state,
    {
        self.capture_state
    }
}

// ── Graph-level strategies ───────────────────────────────────────────────────

/// Which material graph a full graph cache evicts.
#[derive(Clone, Copy, Debug, PartialEq, Eq, Structural)]
pub enum MaterialGraphCacheEvictionStrategy {
    LRU,
    SizeBased,
    Random,
}

/// The description of each graph-cache strategy.
pub open spec fn graph_cache_formula(s: MaterialGraphCacheEvictionStrategy) -> Seq<char> {
    match s {
        MaterialGraphCacheEvictionStrategy::LRU => "evict least recently used"@,
        MaterialGraphCacheEvictionStrategy::SizeBased => "evict largest material graph"@,
        MaterialGraphCacheEvictionStrategy::Random => "evict random material graph"@,
    }
}

impl Default for MaterialGraphCacheEvictionStrategy {
    fn default() -> (r: MaterialGraphCacheEvictionStrategy)
        ensures
            r == MaterialGraphCacheEvictionStrategy::LRU,
    {
        MaterialGraphCacheEvictionStrategy::LRU
    }
}

impl MaterialGraphCacheEvictionStrategy {
    /// The description of this strategy.
    pub fn formula(self) -> (r: &'static str)
        ensures
            r@ == graph_cache_formula(self),
    {
        match self {
            MaterialGraphCacheEvictionStrategy::LRU => "evict least recently used",
            MaterialGraphCacheEvictionStrategy::SizeBased => "evict largest material graph",
            MaterialGraphCacheEvictionStrategy::Random => "evict random material graph",
        }
    }
}

/// The format a material graph is saved in.
#[derive(Clone, Copy, Debug, PartialEq, Eq, Structural)]
pub enum MaterialGraphSerializationFormat {
    JSON,
    Binary,
    XML,
    YAML,
}

impl Default for MaterialGraphSerializationFormat {
    fn default() -> (r: MaterialGraphSerializationFormat)
        ensures
            r == MaterialGraphSerializationFormat::JSON,
    {
        MaterialGraphSerializationFormat::JSON
    }
}

/// How a material graph's shaders are optimized.
#[derive(Clone, Copy, Debug, PartialEq, Eq, Structural)]
pub enum MaterialGraphShaderOptimizationStrategy {
    /// No optimization.
    Disabled,
    Compilation,
    Runtime,
    Pipeline,
}

impl Default for MaterialGraphShaderOptimizationStrategy {
    fn default() -> (r: MaterialGraphShaderOptimizationStrategy)
        ensures
            r == MaterialGraphShaderOptimizationStrategy::Disabled,
    {
        MaterialGraphShaderOptimizationStrategy::Disabled
    }
}

} // verus!
