//! Shader programs: their names, the entry points a Slang source is loaded
//! with, and what a fullscreen or compute program is built from and
//! recompiled from on a hot reload.
use vstd::prelude::*;

use crate::types::{
    EngineError, Format, ShaderDesc, ShaderSource, ShaderStage, StageMask, STAGE_COMPUTE_BITS, STAGE_FRAGMENT_BITS,
    STAGE_MESH_BITS, STAGE_RAY_TRACING_BITS, STAGE_TASK_BITS, STAGE_VERTEX_BITS,
};

verus! {

/// An opaque shader program name for diagnostics and hot-reload tracking.
#[derive(Clone, Debug)]
pub struct ShaderName(pub String);

impl ShaderName {
    /// The name `name`.
    pub fn new(name: &str) -> (r: ShaderName)
        ensures
            r.0@ == name@,
    {
        ShaderName(name.to_string())
    }

    /// The name as text.
    pub fn as_str(&self) -> (r: &str)
        ensures
            r@ == self.0@,
    {
        self.0.as_str()
    }
}

/// The entry points a Slang source is loaded with.
#[derive(Clone, Debug)]
pub enum SlangEntryPoints {
    Graphics { vertex: String, fragment: String },
    Fragment { fragment: String },
    Compute { compute: String },
}

impl SlangEntryPoints {
    /// A vertex and a fragment entry point.
    pub fn graphics(vertex: &str, fragment: &str) -> (r: SlangEntryPoints)
        ensures
            r matches SlangEntryPoints::Graphics { vertex: v, fragment: f } && v@ == vertex@ && f@ == fragment@,
    {
        SlangEntryPoints::Graphics { vertex: vertex.to_string(), fragment: fragment.to_string() }
    }

    /// A fragment entry point alone.
    pub fn fragment(fragment: &str) -> (r: SlangEntryPoints)
        ensures
            r matches SlangEntryPoints::Fragment { fragment: f } && f@ == fragment@,
    {
        SlangEntryPoints::Fragment { fragment: fragment.to_string() }
    }

    /// A compute entry point.
    pub fn compute(compute: &str) -> (r: SlangEntryPoints)
        ensures
            r matches SlangEntryPoints::Compute { compute: c } && c@ == compute@,
    {
        SlangEntryPoints::Compute { compute: compute.to_string() }
    }
}

/// What a shader program is built from: its fragment (or compute) shader and
/// an optional custom vertex shader.
#[derive(Clone, Debug)]
pub struct ShaderProgramDesc {
    pub fragment: ShaderDesc,
    pub vertex: Option<ShaderDesc>,
}

/// The stage bits of a shader stage: one bit per stage kind, the
/// ray-tracing bit for every ray-tracing stage.
pub open spec fn stage_bits(s: ShaderStage) -> u32 {
    match s {
        ShaderStage::Vertex => STAGE_VERTEX_BITS,
        ShaderStage::Fragment => STAGE_FRAGMENT_BITS,
        ShaderStage::Compute => STAGE_COMPUTE_BITS,
        ShaderStage::Mesh => STAGE_MESH_BITS,
        ShaderStage::Task => STAGE_TASK_BITS,
        ShaderStage::RayGeneration | ShaderStage::Miss | ShaderStage::ClosestHit => STAGE_RAY_TRACING_BITS,
    }
}

/// A fullscreen or compute shader program: the shaders it is built from,
/// the stage its main shader runs in, the file it was loaded from, and the
/// pipeline variants compiled so far, keyed by colour format and sample
/// count.
#[derive(Clone, Debug)]
pub struct ShaderProgram {
    pub fragment: ShaderDesc,
    pub vertex: ShaderDesc,
    pub stage: ShaderStage,
    pub source_path: Option<String>,
    pub pipeline_keys: Vec<(Format, u8)>,
}

/// The key of the pipeline variant for a colour format and sample count:
/// the sample count is at least one.
pub open spec fn pipeline_key_spec(format: Format, samples: u8) -> (Format, u8) {
    (format, if samples < 1 { 1u8 } else { samples })
}

/// The key of the pipeline variant for `format` and `samples`.
pub fn pipeline_key(format: Format, samples: u8) -> (r: (Format, u8))
    ensures
        r == pipeline_key_spec(format, samples),
{
    (format, if samples < 1 { 1u8 } else { samples })
}

/// An inline shader with entry point `main`.
fn inline_main(source: &str, stage: ShaderStage) -> (r: ShaderDesc)
    ensures
        r.source matches ShaderSource::Inline(s) && s@ == source@,
        r.entry_point@ == "main"@,
        r.stage == stage,
{
    ShaderDesc { source: ShaderSource::Inline(source.to_string()), entry_point: String::from_str("main"), stage }
}

/// The built-in fullscreen-triangle vertex shader a program uses when it
/// is given none: the file `shaders/fullscreen_vertex.slang` of the engine,
/// entry point `main`.
pub open spec fn is_fullscreen_vertex(d: ShaderDesc) -> bool {
    &&& d.source matches ShaderSource::File(p) && p@ == "shaders/fullscreen_vertex.slang"@
    &&& d.entry_point@ == "main"@
    &&& d.stage == ShaderStage::Vertex
}

/// The built-in fullscreen-triangle vertex shader.
pub fn fullscreen_vertex_desc() -> (r: ShaderDesc)
    ensures
        is_fullscreen_vertex(r),
{
    ShaderDesc {
        source: ShaderSource::File(String::from_str("shaders/fullscreen_vertex.slang")),
        entry_point: String::from_str("main"),
        stage: ShaderStage::Vertex,
    }
}

impl ShaderProgram {
    /// The program built from `desc`: its vertex shader is the one given or
    /// else the built-in fullscreen one, its stage is the fragment
    /// shader's, and it was not loaded from a file.
    pub fn new(desc: ShaderProgramDesc) -> (r: ShaderProgram)
        ensures
            r.fragment == desc.fragment,
            match desc.vertex {
                Some(v) => r.vertex == v,
                None => is_fullscreen_vertex(r.vertex),
            },
            r.stage == desc.fragment.stage,
            r.source_path is None,
            r.pipeline_keys@.len() == 0,
    {
        let stage = desc.fragment.stage;
        let vertex = match desc.vertex {
            Some(v) => v,
            None => fullscreen_vertex_desc(),
        };
        ShaderProgram { fragment: desc.fragment, vertex, stage, source_path: None, pipeline_keys: Vec::new() }
    }

    /// A fragment program from inline Slang source, entry point `main`, with
    /// the built-in fullscreen vertex shader.
    pub fn from_inline_fragment(source: &str) -> (r: ShaderProgram)
        ensures
            r.fragment.source matches ShaderSource::Inline(s) && s@ == source@,
            r.fragment.entry_point@ == "main"@,
            r.fragment.stage == ShaderStage::Fragment,
            is_fullscreen_vertex(r.vertex),
            r.stage == ShaderStage::Fragment,
            r.source_path is None,
    {
        ShaderProgram::new(ShaderProgramDesc { fragment: inline_main(source, ShaderStage::Fragment), vertex: None })
    }

    /// A compute program from inline Slang source, entry point `main`.
    pub fn from_inline_compute(source: &str) -> (r: ShaderProgram)
        ensures
            r.fragment.source matches ShaderSource::Inline(s) && s@ == source@,
            r.fragment.entry_point@ == "main"@,
            r.fragment.stage == ShaderStage::Compute,
            is_fullscreen_vertex(r.vertex),
            r.stage == ShaderStage::Compute,
            r.source_path is None,
    {
        ShaderProgram::new(ShaderProgramDesc { fragment: inline_main(source, ShaderStage::Compute), vertex: None })
    }

    /// The file the program was loaded from, if any.
    pub fn source_path(&self) -> (r: Option<&str>)
        ensures
            match self.source_path {
                Some(p) => r matches Some(q) && q@ == p@,
                None => r is None,
            },
    {
        match &self.source_path {
            Some(p) => Some(p.as_str()),
            None => None,
        }
    }

    /// What a hot reload recompiles: the source file with entry point
    /// `main` in the program's stage, or nothing for a program that was not
    /// loaded from a file.
    pub fn reload(&self) -> (r: Option<ShaderDesc>)
        ensures
            match self.source_path {
                Some(p) => r matches Some(d) && d.source == ShaderSource::File(p)
                    && d.entry_point@ == "main"@ && d.stage == self.stage,
                None => r is None,
            },
    {
        match &self.source_path {
            Some(p) => Some(ShaderDesc {
                source: ShaderSource::File(p.clone()),
                entry_point: String::from_str("main"),
                stage: self.stage,
            }),
            None => None,
        }
    }

    /// Finish a hot reload with what compiling (and reflecting) the
    /// [`ShaderProgram::reload`] description gave. Without a source file
    /// nothing is recompiled: `Ok(false)`, the program unchanged. A failed
    /// compile returns its error and keeps the previous program. A success
    /// installs the new shader and drops every cached pipeline variant,
    /// keeping the stage, the vertex shader and the source file: `Ok(true)`.
    pub fn finish_reload(&mut self, compiled: Result<ShaderDesc, EngineError>) -> (r: Result<bool, EngineError>)
        ensures
            old(self).source_path is None ==> r == Ok::<bool, EngineError>(false) && *final(self) == *old(self),
            old(self).source_path is Some ==> match compiled {
                Err(e) => r == Err::<bool, EngineError>(e) && *final(self) == *old(self),
                Ok(d) => r == Ok::<bool, EngineError>(true)
                    && final(self).fragment == d
                    && final(self).pipeline_keys@.len() == 0
                    && final(self).vertex == old(self).vertex
                    && final(self).stage == old(self).stage
                    && final(self).source_path == old(self).source_path,
            },
    {
        if self.source_path.is_none() {
            return Ok(false);
        }
        match compiled {
            Err(e) => Err(e),
            Ok(d) => {
                self.fragment = d;
                self.pipeline_keys = Vec::new();
                Ok(true)
            },
        }
    }

    /// Whether the pipeline variant for `format` and `samples` is cached.
    pub fn has_pipeline(&self, format: Format, samples: u8) -> (r: bool)
        ensures
            r == self.pipeline_keys@.contains(pipeline_key_spec(format, samples)),
    {
        let key = pipeline_key(format, samples);
        let mut i: usize = 0;
        while i < self.pipeline_keys.len()
            invariant
                i <= self.pipeline_keys@.len(),
                key == pipeline_key_spec(format, samples),
                forall|j: int| 0 <= j < i ==> #[trigger] self.pipeline_keys@[j] != key,
            decreases self.pipeline_keys@.len() - i,
        {
            let k = self.pipeline_keys[i];
            if k.0 == key.0 && k.1 == key.1 {
                assert(self.pipeline_keys@[i as int] == key);
                return true;
            }
            i = i + 1;
        }
        false
    }

    /// Whether the pipeline variant for `format` and `samples` must be
    /// compiled before use: it is not cached.
    pub fn request_pipeline(&self, format: Format, samples: u8) -> (r: bool)
        ensures
            r == !self.pipeline_keys@.contains(pipeline_key_spec(format, samples)),
    {
        !self.has_pipeline(format, samples)
    }

    /// Record the outcome of compiling the pipeline variant for `format`
    /// and `samples`: a success caches the variant (a cached one is kept
    /// once), a failure returns its error and caches nothing. The shaders,
    /// stage and source file are kept.
    pub fn finish_pipeline(&mut self, format: Format, samples: u8, compiled: Result<(), EngineError>) -> (r: Result<(), EngineError>)
        ensures
            r == compiled,
            final(self).pipeline_keys@ == if compiled is Ok && !old(self).pipeline_keys@.contains(pipeline_key_spec(format, samples)) {
                old(self).pipeline_keys@.push(pipeline_key_spec(format, samples))
            } else {
                old(self).pipeline_keys@
            },
            final(self).fragment == old(self).fragment,
            final(self).vertex == old(self).vertex,
            final(self).stage == old(self).stage,
            final(self).source_path == old(self).source_path,
    {
        match compiled {
            Ok(u) => {
                if !self.has_pipeline(format, samples) {
                    self.pipeline_keys.push(pipeline_key(format, samples));
                }
                Ok(u)
            },
            Err(e) => Err(e),
        }
    }

    /// The stage the program's main shader runs in.
    pub fn stage(&self) -> (r: ShaderStage)
        ensures
            r == self.stage,
    {
        self.stage
    }

    /// The stage mask of the program's stage.
    pub fn stage_mask(&self) -> (r: StageMask)
        ensures
            r.bits == stage_bits(self.stage),
    {
        match self.stage {
            ShaderStage::Vertex => StageMask::vertex(),
            ShaderStage::Fragment => StageMask::fragment(),
            ShaderStage::Compute => StageMask::compute(),
            ShaderStage::Mesh => StageMask::mesh(),
            ShaderStage::Task => StageMask::task(),
            ShaderStage::RayGeneration | ShaderStage::Miss | ShaderStage::ClosestHit => StageMask::ray_tracing(),
        }
    }
}

} // verus!
