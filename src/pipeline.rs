use vstd::prelude::*;
use crate::vertex::{Vertex, VertexLayout, VERTEX_STRIDE, StepMode, vertex_attributes_spec};

verus! {

/// What the build target can run.
#[derive(Clone, Copy, Debug, PartialEq, Eq, Structural)]
pub enum TargetCapabilities {
    /// A native target, with the platform's primary graphics API.
    Native,
    /// A browser target, restricted to a WebGL2-class API.
    Web,
}

/// The set of GPU backends that the instance enumerates.
#[derive(Clone, Copy, Debug, PartialEq, Eq, Structural)]
pub enum BackendSet {
    /// Vulkan, Metal, DX12 or WebGPU: the platform's primary API.
    Primary,
    /// OpenGL / WebGL only.
    Gl,
}

/// The device limits to request.
#[derive(Clone, Copy, Debug, PartialEq, Eq, Structural)]
pub enum LimitsChoice {
    /// The default limits, which most native GPUs meet.
    Default,
    /// The limits that a WebGL2 context guarantees.
    DownlevelWebgl2,
}

/// Which backends to enumerate and which limits to ask the device for.
#[derive(Clone, Copy, Debug, PartialEq, Eq, Structural)]
pub struct BackendChoice {
    pub backends: BackendSet,
    pub limits: LimitsChoice,
}

/// Picks the backends and the device limits for a target: the primary API with
/// default limits on a native target, GL with WebGL2 limits in a browser.
pub fn select_backend(target: TargetCapabilities) -> (r: BackendChoice)
    ensures
        target == TargetCapabilities::Native ==> r == (BackendChoice {
            backends: BackendSet::Primary,
            limits: LimitsChoice::Default,
        }),
        target == TargetCapabilities::Web ==> r == (BackendChoice {
            backends: BackendSet::Gl,
            limits: LimitsChoice::DownlevelWebgl2,
        }),
{
    match target {
        TargetCapabilities::Native => BackendChoice {
            backends: BackendSet::Primary,
            limits: LimitsChoice::Default,
        },
        TargetCapabilities::Web => BackendChoice {
            backends: BackendSet::Gl,
            limits: LimitsChoice::DownlevelWebgl2,
        },
    }
}

/// Index of the surface format to use among those that the adapter offers,
/// given whether each one is sRGB-encoded; `None` when it offers none.
pub fn select_format(srgb: &Vec<bool>) -> (r: Option<usize>)
    ensures
        r.is_none() <==> srgb@.len() == 0,
        r.is_some() ==> r.unwrap() < srgb@.len(),
        r.is_some() && (exists|i: int| 0 <= i < srgb@.len() && srgb@[i]) ==> srgb@[r.unwrap() as int]
            && forall|j: int| 0 <= j < r.unwrap() ==> !srgb@[j],
        r.is_some() && !(exists|i: int| 0 <= i < srgb@.len() && srgb@[i]) ==> r.unwrap() == 0,
{
    let mut i: usize = 0;
    while i < srgb.len()
        invariant
            i <= srgb@.len(),
            forall|j: int| 0 <= j < i ==> !srgb@[j],
        decreases srgb@.len() - i,
    {
        if srgb[i] {
            return Some(i);
        }
        i = i + 1;
    }
    if srgb.len() == 0 {
        None
    } else {
        Some(0)
    }
}

/// How primitives are assembled from vertices.
#[derive(Clone, Copy, Debug, PartialEq, Eq, Structural)]
pub enum Topology {
    /// Every three vertices form one triangle.
    TriangleList,
}

/// Winding order of a front-facing triangle.
#[derive(Clone, Copy, Debug, PartialEq, Eq, Structural)]
pub enum FrontFace {
    Ccw,
}

/// Faces that are not rasterized.
#[derive(Clone, Copy, Debug, PartialEq, Eq, Structural)]
pub enum CullMode {
    Back,
}

/// How triangles are filled.
#[derive(Clone, Copy, Debug, PartialEq, Eq, Structural)]
pub enum PolygonMode {
    Fill,
}

/// How the fragment color is combined with the target.
#[derive(Clone, Copy, Debug, PartialEq, Eq, Structural)]
pub enum Blend {
    /// The fragment's color and alpha replace the target's.
    Replace,
}


/// Everything that the render pipeline is built from, besides the shader text.
#[derive(Debug)]
pub struct PipelineDesc {
    /// Entry point of the vertex stage in the shader program.
    pub vertex_entry: String,
    /// Entry point of the fragment stage in the shader program.
    pub fragment_entry: String,
    pub vertex_buffers: Vec<VertexLayout>,
    /// Index of the color target's format among the adapter's surface formats.
    pub target_format: usize,
    pub blend: Blend,
    pub write_all_channels: bool,
    pub topology: Topology,
    pub front_face: FrontFace,
    pub cull_mode: Option<CullMode>,
    pub polygon_mode: PolygonMode,
    pub unclipped_depth: bool,
    pub conservative: bool,
    pub depth_stencil: bool,
    pub sample_count: u32,
    pub sample_mask: u64,
    pub alpha_to_coverage: bool,
}

/// The fixed-function state of the pipeline: triangle list, counter-clockwise
/// front faces, back faces culled, filled, no depth or stencil test, one
/// sample with every sample bit set, replace blending on all channels.
pub open spec fn fixed_state_spec(p: PipelineDesc) -> bool {
    &&& p.topology == Topology::TriangleList
    &&& p.front_face == FrontFace::Ccw
    &&& p.cull_mode == Some(CullMode::Back)
    &&& p.polygon_mode == PolygonMode::Fill
    &&& !p.unclipped_depth
    &&& !p.conservative
    &&& !p.depth_stencil
    &&& p.sample_count == 1
    &&& p.sample_mask == u64::MAX
    &&& !p.alpha_to_coverage
    &&& p.blend == Blend::Replace
    &&& p.write_all_channels
}

/// The description of the one render pipeline, with its color target in the
/// surface format at index `target_format`.
pub fn render_pipeline(target_format: usize) -> (r: PipelineDesc)
    ensures
        r.vertex_entry@ == "vs_main"@,
        r.fragment_entry@ == "fs_main"@,
        r.vertex_buffers@.len() == 1,
        r.vertex_buffers@[0].array_stride == VERTEX_STRIDE,
        r.vertex_buffers@[0].step_mode == StepMode::Vertex,
        r.vertex_buffers@[0].attributes@ == vertex_attributes_spec(),
        r.target_format == target_format,
        fixed_state_spec(r),
{
    let layout = Vertex::desc();
    let mut vertex_buffers: Vec<VertexLayout> = Vec::new();
    vertex_buffers.push(layout);
    PipelineDesc {
        vertex_entry: String::from_str("vs_main"),
        fragment_entry: String::from_str("fs_main"),
        vertex_buffers,
        target_format,
        blend: Blend::Replace,
        write_all_channels: true,
        topology: Topology::TriangleList,
        front_face: FrontFace::Ccw,
        cull_mode: Some(CullMode::Back),
        polygon_mode: PolygonMode::Fill,
        unclipped_depth: false,
        conservative: false,
        depth_stencil: false,
        sample_count: 1,
        sample_mask: u64::MAX,
        alpha_to_coverage: false,
    }
}

} // verus!
