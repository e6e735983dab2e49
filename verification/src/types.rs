//! Plain value types shared by the material, shader and render-target models:
//! shader stages and targets, texture formats, HDR and tone-mapping modes,
//! stage masks, update rates, sampler presets and fixed-function state.
use vstd::prelude::*;

verus! {

/// Pipeline stage that a shader runs in.
#[derive(Clone, Copy, Debug, PartialEq, Eq, Structural)]
pub enum ShaderStage {
    Vertex,
    Fragment,
    Compute,
    Mesh,
    Task,
    RayGeneration,
    Miss,
    ClosestHit,
}

/// Intermediate representation a shader is compiled to.
#[derive(Clone, Copy, Debug, PartialEq, Eq, Structural)]
pub enum ShaderTarget {
    Spirv,
    Dxil,
    Msl,
}

/// Vertex layout family of a mesh program.
#[derive(Clone, Copy, Debug, PartialEq, Eq, Structural)]
pub enum MeshVertexKind {
    V2d,
    V3d,
}

/// Texel format of an image or render target.
#[derive(Clone, Copy, Debug, PartialEq, Eq, Structural)]
pub enum Format {
    Rgba8Unorm,
    Bgra8Unorm,
    Rgba8Srgb,
    Bgra8Srgb,
    Rgba16Float,
    Rgba32Float,
    Depth32Float,
    Depth24Stencil8,
}

/// Whether a format stores high-dynamic-range (floating point colour) values.
pub open spec fn format_is_hdr(f: Format) -> bool {
    f == Format::Rgba16Float || f == Format::Rgba32Float
}

impl Format {
    /// The default render format.
    pub fn default_format() -> (r: Format)
        ensures
            r == Format::Rgba8Unorm,
    {
        Format::Rgba8Unorm
    }

    /// True for floating-point colour formats.
    pub fn is_hdr(self) -> (r: bool)
        ensures
            r == format_is_hdr(self),
    {
        match self {
            Format::Rgba16Float | Format::Rgba32Float => true,
            _ => false,
        }
    }
}

/// Output colour space of the presentation path.
#[derive(Clone, Copy, Debug, PartialEq, Eq, Structural)]
pub enum HdrMode {
    Sdr,
    ScRgb,
    Hdr10,
}

/// Whether an output mode is high dynamic range.
pub open spec fn hdr_mode_is_hdr(m: HdrMode) -> bool {
    m != HdrMode::Sdr
}

/// The render format an output mode renders into.
pub open spec fn hdr_mode_render_format(m: HdrMode) -> Format {
    if m == HdrMode::Sdr {
        Format::Rgba8Unorm
    } else {
        Format::Rgba16Float
    }
}

impl HdrMode {
    /// The default output mode (standard dynamic range).
    pub fn default_mode() -> (r: HdrMode)
        ensures
            r == HdrMode::Sdr,
    {
        HdrMode::Sdr
    }

    /// True for every mode other than `Sdr`.
    pub fn is_hdr(self) -> (r: bool)
        ensures
            r == hdr_mode_is_hdr(self),
    {
        match self {
            HdrMode::Sdr => false,
            _ => true,
        }
    }

    /// `Rgba8Unorm` for SDR output, `Rgba16Float` otherwise.
    pub fn render_format(self) -> (r: Format)
        ensures
            r == hdr_mode_render_format(self),
    {
        match self {
            HdrMode::Sdr => Format::Rgba8Unorm,
            _ => Format::Rgba16Float,
        }
    }
}

/// Tone-mapping operator applied before presentation.
#[derive(Clone, Copy, Debug, PartialEq, Eq, Structural)]
pub enum ToneMappingOp {
    Aces,
    Reinhard,
    Linear,
}

/// A tone-mapping operator is an HDR one when it passes linear values through.
pub open spec fn tone_mapping_is_hdr(op: ToneMappingOp) -> bool {
    op == ToneMappingOp::Linear
}

impl ToneMappingOp {
    /// The default operator (ACES).
    pub fn default_op() -> (r: ToneMappingOp)
        ensures
            r == ToneMappingOp::Aces,
    {
        ToneMappingOp::Aces
    }

    /// True for the pass-through (`Linear`) operator.
    pub fn is_hdr(self) -> (r: bool)
        ensures
            r == tone_mapping_is_hdr(self),
    {
        match self {
            ToneMappingOp::Linear => true,
            _ => false,
        }
    }
}

/// Bit value of the vertex stage in a [`StageMask`].
pub const STAGE_VERTEX_BITS: u32 = 1;
/// Bit value of the fragment stage in a [`StageMask`].
pub const STAGE_FRAGMENT_BITS: u32 = 2;
/// Bit value of the compute stage in a [`StageMask`].
pub const STAGE_COMPUTE_BITS: u32 = 4;
/// Bit value of the mesh stage in a [`StageMask`].
pub const STAGE_MESH_BITS: u32 = 8;
/// Bit value of the task stage in a [`StageMask`].
pub const STAGE_TASK_BITS: u32 = 16;
/// Bit value of the ray-tracing stages in a [`StageMask`].
pub const STAGE_RAY_TRACING_BITS: u32 = 32;
/// Bit value of every stage in a [`StageMask`].
pub const STAGE_ALL_BITS: u32 = 63;

/// A set of shader stages, one bit per stage.
#[derive(Clone, Copy, Debug, PartialEq, Eq, Structural)]
pub struct StageMask {
    pub bits: u32,
}

impl StageMask {
    /// The empty mask.
    pub fn empty() -> (r: StageMask)
        ensures
            r.bits == 0,
    {
        StageMask { bits: 0 }
    }

    /// The vertex stage alone.
    pub fn vertex() -> (r: StageMask)
        ensures
            r.bits == STAGE_VERTEX_BITS,
    {
        StageMask { bits: STAGE_VERTEX_BITS }
    }

    /// The fragment stage alone.
    pub fn fragment() -> (r: StageMask)
        ensures
            r.bits == STAGE_FRAGMENT_BITS,
    {
        StageMask { bits: STAGE_FRAGMENT_BITS }
    }

    /// The compute stage alone.
    pub fn compute() -> (r: StageMask)
        ensures
            r.bits == STAGE_COMPUTE_BITS,
    {
        StageMask { bits: STAGE_COMPUTE_BITS }
    }

    /// The mesh stage alone.
    pub fn mesh() -> (r: StageMask)
        ensures
            r.bits == STAGE_MESH_BITS,
    {
        StageMask { bits: STAGE_MESH_BITS }
    }

    /// The task stage alone.
    pub fn task() -> (r: StageMask)
        ensures
            r.bits == STAGE_TASK_BITS,
    {
        StageMask { bits: STAGE_TASK_BITS }
    }

    /// The ray-tracing stages.
    pub fn ray_tracing() -> (r: StageMask)
        ensures
            r.bits == STAGE_RAY_TRACING_BITS,
    {
        StageMask { bits: STAGE_RAY_TRACING_BITS }
    }

    /// Every stage.
    pub fn all() -> (r: StageMask)
        ensures
            r.bits == STAGE_ALL_BITS,
    {
        StageMask { bits: STAGE_ALL_BITS }
    }

    /// The union of two masks.
    pub fn union(self, other: StageMask) -> (r: StageMask)
        ensures
            r.bits == self.bits | other.bits,
    {
        StageMask { bits: self.bits | other.bits }
    }

    /// Whether every stage of `other` is in `self`.
    pub fn contains(self, other: StageMask) -> (r: bool)
        ensures
            r == (self.bits & other.bits == other.bits),
    {
        self.bits & other.bits == other.bits
    }
}

/// How often a binding's contents change.
#[derive(Clone, Copy, Debug, PartialEq, Eq, Structural)]
pub enum UpdateRate {
    Frame,
    Pass,
    Material,
    Draw,
    All,
}

/// Named sampler configurations.
#[derive(Clone, Copy, Debug, PartialEq, Eq, Structural)]
pub enum SamplerPreset {
    Linear,
    Nearest,
    Trilinear,
    PixelArt,
}

/// Which triangle faces are culled.
#[derive(Clone, Copy, Debug, PartialEq, Eq, Structural)]
pub enum CullMode {
    Disabled,
    Front,
    Back,
}

/// Winding order of front-facing triangles.
#[derive(Clone, Copy, Debug, PartialEq, Eq, Structural)]
pub enum FrontFace {
    CounterClockwise,
    Clockwise,
}

/// Depth comparison function.
#[derive(Clone, Copy, Debug, PartialEq, Eq, Structural)]
pub enum CompareOp {
    Never,
    Less,
    Equal,
    LessEqual,
    Greater,
    NotEqual,
    GreaterEqual,
    Always,
}

/// Primitive assembly mode.
#[derive(Clone, Copy, Debug, PartialEq, Eq, Structural)]
pub enum PrimitiveTopology {
    TriangleList,
    TriangleStrip,
    LineList,
    LineStrip,
    PointList,
}

/// Polygon fill mode.
#[derive(Clone, Copy, Debug, PartialEq, Eq, Structural)]
pub enum PolygonMode {
    Fill,
    Line,
    Point,
}

/// Rasterizer configuration.
#[derive(Clone, Copy, Debug, PartialEq, Eq, Structural)]
pub struct RasterState {
    pub polygon_mode: PolygonMode,
    pub depth_clamp: bool,
    pub rasterizer_discard: bool,
    pub cull_mode: CullMode,
    pub front_face: FrontFace,
}

impl RasterState {
    /// Filled polygons, back faces culled, counter-clockwise front faces.
    pub fn default_state() -> (r: RasterState)
        ensures
            r == (RasterState {
                polygon_mode: PolygonMode::Fill,
                depth_clamp: false,
                rasterizer_discard: false,
                cull_mode: CullMode::Back,
                front_face: FrontFace::CounterClockwise,
            }),
    {
        RasterState {
            polygon_mode: PolygonMode::Fill,
            depth_clamp: false,
            rasterizer_discard: false,
            cull_mode: CullMode::Back,
            front_face: FrontFace::CounterClockwise,
        }
    }
}

/// Where shader source comes from.
#[derive(Clone, Debug)]
pub enum ShaderSource {
    /// Source text held in memory.
    Inline(String),
    /// A path to a source file.
    File(String),
}

impl ShaderSource {
    /// The file path of a file-backed source.
    pub fn file_path(&self) -> (r: Option<String>)
        ensures
            match self {
                ShaderSource::File(p) => r == Some(*p),
                _ => r is None,
            },
    {
        match self {
            ShaderSource::File(p) => Some(p.clone()),
            _ => None,
        }
    }
}

impl Duplicate for ShaderSource {
    fn duplicate(&self) -> (r: ShaderSource)
        ensures
            r == *self,
    {
        match self {
            ShaderSource::Inline(s) => ShaderSource::Inline(s.clone()),
            ShaderSource::File(s) => ShaderSource::File(s.clone()),
        }
    }
}

/// Values that can be copied field by field, the copy equal to the value copied.
pub trait Duplicate: Sized {
    fn duplicate(&self) -> (r: Self)
        ensures
            r == *self;
}

/// Copy every element of a vector.
pub fn duplicate_vec<T: Duplicate>(v: &Vec<T>) -> (r: Vec<T>)
    ensures
        r@ == v@,
{
    let mut out: Vec<T> = Vec::new();
    let mut i: usize = 0;
    while i < v.len()
        invariant
            i <= v.len(),
            out@ == v@.take(i as int),
        decreases v.len() - i,
    {
        out.push(v[i].duplicate());
        assert(v@.take(i as int + 1) == v@.take(i as int).push(v@[i as int]));
        i = i + 1;
    }
    assert(v@.take(v.len() as int) == v@);
    out
}

/// Copy an optional value.
pub fn duplicate_option<T: Duplicate>(v: &Option<T>) -> (r: Option<T>)
    ensures
        r == *v,
{
    match v {
        Some(x) => Some(x.duplicate()),
        None => None,
    }
}

impl Duplicate for String {
    fn duplicate(&self) -> (r: String)
        ensures
            r == *self,
    {
        self.clone()
    }
}

/// A shader to compile: its source, entry point and stage.
#[derive(Clone, Debug)]
pub struct ShaderDesc {
    pub source: ShaderSource,
    pub entry_point: String,
    pub stage: ShaderStage,
}

impl Duplicate for ShaderDesc {
    fn duplicate(&self) -> (r: ShaderDesc)
        ensures
            r == *self,
    {
        ShaderDesc { source: self.source.duplicate(), entry_point: self.entry_point.clone(), stage: self.stage }
    }
}

} // verus!

verus! {

/// Errors reported by the material and shader model.
#[derive(Clone, Debug)]
pub enum EngineError {
    /// The operation is not available (yet).
    Unsupported(String),
    /// An argument was rejected.
    InvalidInput(String),
    /// Any other failure, with its message.
    Unknown(String),
}

/// The message an error carries.
pub open spec fn error_message(e: EngineError) -> Seq<char> {
    match e {
        EngineError::Unsupported(m) => m@,
        EngineError::InvalidInput(m) => m@,
        EngineError::Unknown(m) => m@,
    }
}

impl EngineError {
    /// The message this error carries.
    pub fn message(&self) -> (r: &str)
        ensures
            r@ == error_message(*self),
    {
        match self {
            EngineError::Unsupported(m) => m.as_str(),
            EngineError::InvalidInput(m) => m.as_str(),
            EngineError::Unknown(m) => m.as_str(),
        }
    }
}

/// Values that carry a name they can be looked up by.
pub trait Named {
    spec fn name_view(&self) -> Seq<char>;

    fn name_string(&self) -> (r: &String)
        ensures
            r@ == self.name_view();
}

/// Whether `s[i]` is the first element of `s` named `name`.
pub open spec fn is_first_named<T: Named>(s: Seq<T>, name: Seq<char>, i: int) -> bool {
    &&& 0 <= i < s.len()
    &&& s[i].name_view() == name
    &&& forall|j: int| 0 <= j < i ==> #[trigger] s[j].name_view() != name
}

/// Whether some element of `s` is named `name`.
pub open spec fn has_named<T: Named>(s: Seq<T>, name: Seq<char>) -> bool {
    exists|i: int| 0 <= i < s.len() && #[trigger] s[i].name_view() == name
}

/// The position of the first element of `v` named `name`, if any.
pub fn position_named<T: Named>(v: &Vec<T>, name: &str) -> (r: Option<usize>)
    ensures
        match r {
            Some(i) => is_first_named(v@, name@, i as int),
            None => !has_named(v@, name@),
        },
{
    let wanted = name.to_owned();
    let mut i: usize = 0;
    while i < v.len()
        invariant
            i <= v.len(),
            wanted@ == name@,
            forall|j: int| 0 <= j < i ==> #[trigger] v@[j].name_view() != name@,
        decreases v.len() - i,
    {
        if *v[i].name_string() == wanted {
            return Some(i);
        }
        i = i + 1;
    }
    None
}

/// The first element of `v` named `name`, if any.
pub fn find_named<'a, T: Named>(v: &'a Vec<T>, name: &str) -> (r: Option<&'a T>)
    ensures
        match r {
            Some(x) => exists|i: int| is_first_named(v@, name@, i) && *x == v@[i],
            None => !has_named(v@, name@),
        },
{
    match position_named(v, name) {
        Some(i) => Some(&v[i]),
        None => None,
    }
}

} // verus!

verus! {

/// The text `{:?}` prints for a string: the string in double quotes with
/// quotes, backslashes and non-printable characters escaped.
pub uninterp spec fn debug_str(s: Seq<char>) -> Seq<char>;

/// `format!("{:?}", s)`: the `Debug` rendering of a string slice, as std's
/// `impl Debug for str` produces it. The contract names the result
/// ([`debug_str`]); it claims only that the result depends on `s` alone.
#[verifier::external_body]
pub(crate) fn debug_quote(s: &str) -> (r: String)
    ensures
        r@ == debug_str(s@),
{
    format!("{:?}", s)
}

} // verus!
