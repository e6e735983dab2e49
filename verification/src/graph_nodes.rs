//! Material-graph nodes: a material together with the parts of it a node
//! draws with, one node type per rendering mode.
use vstd::prelude::*;

use crate::binding::RaytracedStageRegistration;
use crate::caps::{FormatCapabilities, PathTracedBounceConfig};
use crate::material::RenderState;
use crate::material_asset::Material;
use crate::types::duplicate_vec;

verus! {

// ── Nodes ────────────────────────────────────────────────────────────────────

/// The parts of a material that every graph node keeps beside it: its name,
/// render state, format capabilities, ray-traced stages and bounce settings.
pub open spec fn node_parts_of(
    m: Material,
    name: Seq<char>,
    render_state: RenderState,
    format_capabilities: FormatCapabilities,
    raytraced_stages: Seq<RaytracedStageRegistration>,
    path_traced_bounces: PathTracedBounceConfig,
) -> bool {
    &&& name == m.name@
    &&& render_state == m.render_state
    &&& format_capabilities == m.format_capabilities
    &&& raytraced_stages == m.raytraced_stages@
    &&& path_traced_bounces == m.path_traced_bounces
}

/// Copy the parts of `m` a node keeps.
fn node_parts(m: &Material) -> (r: (String, RenderState, FormatCapabilities, Vec<RaytracedStageRegistration>, PathTracedBounceConfig))
    ensures
        node_parts_of(*m, r.0@, r.1, r.2, r.3@, r.4),
{
    (m.name.clone(), m.render_state, m.format_capabilities, duplicate_vec(&m.raytraced_stages), m.path_traced_bounces)
}

/// A graph node drawing a material in whatever mode the graph runs.
#[derive(Clone, Debug)]
pub struct MaterialNode {
    pub material: Material,
    pub name: String,
    pub render_state: RenderState,
    pub format_capabilities: FormatCapabilities,
    pub raytraced_stages: Vec<RaytracedStageRegistration>,
    pub path_traced_bounces: PathTracedBounceConfig,
}

impl MaterialNode {
    /// The node for `material`.
    pub fn new(material: Material) -> (r: MaterialNode)
        ensures
            r.material == material,
            node_parts_of(material, r.name@, r.render_state, r.format_capabilities, r.raytraced_stages@, r.path_traced_bounces),
    {
        let (name, render_state, format_capabilities, raytraced_stages, path_traced_bounces) = node_parts(&material);
        MaterialNode { material, name, render_state, format_capabilities, raytraced_stages, path_traced_bounces }
    }

    /// The material.
    pub fn material(&self) -> (r: &Material)
        ensures
            *r == self.material,
    {
        &self.material
    }

    /// The node's name.
    pub fn name(&self) -> (r: &str)
        ensures
            r@ == self.name@,
    {
        self.name.as_str()
    }

    /// The render state.
    pub fn render_state(&self) -> (r: &RenderState)
        ensures
            *r == self.render_state,
    {
        &self.render_state
    }

    /// The format capabilities.
    pub fn format_capabilities(&self) -> (r: &FormatCapabilities)
        ensures
            *r == self.format_capabilities,
    {
        &self.format_capabilities
    }

    /// The ray-traced stages.
    pub fn raytraced_stages(&self) -> (r: &[RaytracedStageRegistration])
        ensures
            r@ == self.raytraced_stages@,
    {
        self.raytraced_stages.as_slice()
    }

    /// The bounce settings.
    pub fn path_traced_bounces(&self) -> (r: &PathTracedBounceConfig)
        ensures
            *r == self.path_traced_bounces,
    {
        &self.path_traced_bounces
    }
}

/// A graph node drawing a material through the raster pipeline.
#[derive(Clone, Debug)]
pub struct RasterizedNode {
    pub material: Material,
    pub name: String,
    pub render_state: RenderState,
    pub format_capabilities: FormatCapabilities,
    pub raytraced_stages: Vec<RaytracedStageRegistration>,
    pub path_traced_bounces: PathTracedBounceConfig,
}

impl RasterizedNode {
    /// The node for `material`.
    pub fn new(material: Material) -> (r: RasterizedNode)
        ensures
            r.material == material,
            node_parts_of(material, r.name@, r.render_state, r.format_capabilities, r.raytraced_stages@, r.path_traced_bounces),
    {
        let (name, render_state, format_capabilities, raytraced_stages, path_traced_bounces) = node_parts(&material);
        RasterizedNode { material, name, render_state, format_capabilities, raytraced_stages, path_traced_bounces }
    }

    /// The material.
    pub fn material(&self) -> (r: &Material)
        ensures
            *r == self.material,
    {
        &self.material
    }

    /// The node's name.
    pub fn name(&self) -> (r: &str)
        ensures
            r@ == self.name@,
    {
        self.name.as_str()
    }

    /// The render state.
    pub fn render_state(&self) -> (r: &RenderState)
        ensures
            *r == self.render_state,
    {
        &self.render_state
    }

    /// The format capabilities.
    pub fn format_capabilities(&self) -> (r: &FormatCapabilities)
        ensures
            *r == self.format_capabilities,
    {
        &self.format_capabilities
    }

    /// The ray-traced stages.
    pub fn raytraced_stages(&self) -> (r: &[RaytracedStageRegistration])
        ensures
            r@ == self.raytraced_stages@,
    {
        self.raytraced_stages.as_slice()
    }

    /// The bounce settings.
    pub fn path_traced_bounces(&self) -> (r: &PathTracedBounceConfig)
        ensures
            *r == self.path_traced_bounces,
    {
        &self.path_traced_bounces
    }
}

/// A graph node drawing a material with raster and ray-traced passes.
#[derive(Clone, Debug)]
pub struct HybridNode {
    pub material: Material,
    pub name: String,
    pub render_state: RenderState,
    pub format_capabilities: FormatCapabilities,
    pub raytraced_stages: Vec<RaytracedStageRegistration>,
    pub path_traced_bounces: PathTracedBounceConfig,
}

impl HybridNode {
    /// The node for `material`.
    pub fn new(material: Material) -> (r: HybridNode)
        ensures
            r.material == material,
            node_parts_of(material, r.name@, r.render_state, r.format_capabilities, r.raytraced_stages@, r.path_traced_bounces),
    {
        let (name, render_state, format_capabilities, raytraced_stages, path_traced_bounces) = node_parts(&material);
        HybridNode { material, name, render_state, format_capabilities, raytraced_stages, path_traced_bounces }
    }

    /// The material.
    pub fn material(&self) -> (r: &Material)
        ensures
            *r == self.material,
    {
        &self.material
    }

    /// The node's name.
    pub fn name(&self) -> (r: &str)
        ensures
            r@ == self.name@,
    {
        self.name.as_str()
    }

    /// The render state.
    pub fn render_state(&self) -> (r: &RenderState)
        ensures
            *r == self.render_state,
    {
        &self.render_state
    }

    /// The format capabilities.
    pub fn format_capabilities(&self) -> (r: &FormatCapabilities)
        ensures
            *r == self.format_capabilities,
    {
        &self.format_capabilities
    }

    /// The ray-traced stages.
    pub fn raytraced_stages(&self) -> (r: &[RaytracedStageRegistration])
        ensures
            r@ == self.raytraced_stages@,
    {
        self.raytraced_stages.as_slice()
    }

    /// The bounce settings.
    pub fn path_traced_bounces(&self) -> (r: &PathTracedBounceConfig)
        ensures
            *r == self.path_traced_bounces,
    {
        &self.path_traced_bounces
    }
}

/// A graph node drawing a material through the ray-tracing pipeline.
#[derive(Clone, Debug)]
pub struct RaytracedNode {
    pub material: Material,
    pub name: String,
    pub render_state: RenderState,
    pub format_capabilities: FormatCapabilities,
    pub raytraced_stages: Vec<RaytracedStageRegistration>,
    pub path_traced_bounces: PathTracedBounceConfig,
}

impl RaytracedNode {
    /// The node for `material`.
    pub fn new(material: Material) -> (r: RaytracedNode)
        ensures
            r.material == material,
            node_parts_of(material, r.name@, r.render_state, r.format_capabilities, r.raytraced_stages@, r.path_traced_bounces),
    {
        let (name, render_state, format_capabilities, raytraced_stages, path_traced_bounces) = node_parts(&material);
        RaytracedNode { material, name, render_state, format_capabilities, raytraced_stages, path_traced_bounces }
    }

    /// The material.
    pub fn material(&self) -> (r: &Material)
        ensures
            *r == self.material,
    {
        &self.material
    }

    /// The node's name.
    pub fn name(&self) -> (r: &str)
        ensures
            r@ == self.name@,
    {
        self.name.as_str()
    }

    /// The render state.
    pub fn render_state(&self) -> (r: &RenderState)
        ensures
            *r == self.render_state,
    {
        &self.render_state
    }

    /// The format capabilities.
    pub fn format_capabilities(&self) -> (r: &FormatCapabilities)
        ensures
            *r == self.format_capabilities,
    {
        &self.format_capabilities
    }

    /// The ray-traced stages.
    pub fn raytraced_stages(&self) -> (r: &[RaytracedStageRegistration])
        ensures
            r@ == self.raytraced_stages@,
    {
        self.raytraced_stages.as_slice()
    }

    /// The bounce settings.
    pub fn path_traced_bounces(&self) -> (r: &PathTracedBounceConfig)
        ensures
            *r == self.path_traced_bounces,
    {
        &self.path_traced_bounces
    }
}

/// A graph node drawing a material with the path tracer.
#[derive(Clone, Debug)]
pub struct PathTracedNode {
    pub material: Material,
    pub name: String,
    pub render_state: RenderState,
    pub format_capabilities: FormatCapabilities,
    pub raytraced_stages: Vec<RaytracedStageRegistration>,
    pub path_traced_bounces: PathTracedBounceConfig,
}

impl PathTracedNode {
    /// The node for `material`.
    pub fn new(material: Material) -> (r: PathTracedNode)
        ensures
            r.material == material,
            node_parts_of(material, r.name@, r.render_state, r.format_capabilities, r.raytraced_stages@, r.path_traced_bounces),
    {
        let (name, render_state, format_capabilities, raytraced_stages, path_traced_bounces) = node_parts(&material);
        PathTracedNode { material, name, render_state, format_capabilities, raytraced_stages, path_traced_bounces }
    }

    /// The material.
    pub fn material(&self) -> (r: &Material)
        ensures
            *r == self.material,
    {
        &self.material
    }

    /// The node's name.
    pub fn name(&self) -> (r: &str)
        ensures
            r@ == self.name@,
    {
        self.name.as_str()
    }

    /// The render state.
    pub fn render_state(&self) -> (r: &RenderState)
        ensures
            *r == self.render_state,
    {
        &self.render_state
    }

    /// The format capabilities.
    pub fn format_capabilities(&self) -> (r: &FormatCapabilities)
        ensures
            *r == self.format_capabilities,
    {
        &self.format_capabilities
    }

    /// The ray-traced stages.
    pub fn raytraced_stages(&self) -> (r: &[RaytracedStageRegistration])
        ensures
            r@ == self.raytraced_stages@,
    {
        self.raytraced_stages.as_slice()
    }

    /// The bounce settings.
    pub fn path_traced_bounces(&self) -> (r: &PathTracedBounceConfig)
        ensures
            *r == self.path_traced_bounces,
    {
        &self.path_traced_bounces
    }
}

} // verus!
