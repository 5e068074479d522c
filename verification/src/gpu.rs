//! Plain descriptions of GPU state: identifiers of resources that live on
//! the device, and the descriptors from which pipelines, layouts and bind
//! groups are made.

use vstd::prelude::*;
use crate::key::PrimitiveTopology;

verus! {

/// Stable handle of the shader that holds the view bind group declarations.
pub const MESH2D_VIEW_BIND_GROUP_HANDLE: u64 = 6901431444735842434;

/// Stable handle of the shader that declares the per-object uniform.
pub const MESH2D_STRUCT_HANDLE: u64 = 8994673400261890424;

/// Stable handle of the shader with the vertex and fragment entry points.
pub const MESH2D_SHADER_HANDLE: u64 = 2971387252468633715;

/// Every colour channel is written.
pub const COLOR_WRITES_ALL: u32 = 0xF;

/// Visibility of a binding in the vertex stage.
pub const SHADER_STAGE_VERTEX: u32 = 1;

/// Visibility of a binding in the fragment stage.
pub const SHADER_STAGE_FRAGMENT: u32 = 2;

#[derive(Clone, Copy, Debug, PartialEq, Eq, Hash, Structural)]
pub struct BufferId(pub u64);

#[derive(Clone, Copy, Debug, PartialEq, Eq, Hash, Structural)]
pub struct TextureId(pub u64);

#[derive(Clone, Copy, Debug, PartialEq, Eq, Hash, Structural)]
pub struct TextureViewId(pub u64);

#[derive(Clone, Copy, Debug, PartialEq, Eq, Hash, Structural)]
pub struct SamplerId(pub u64);

#[derive(Clone, Copy, Debug, PartialEq, Eq, Hash, Structural)]
pub struct BindGroupLayoutId(pub u64);

#[derive(Clone, Copy, Debug, PartialEq, Eq, Hash, Structural)]
pub struct BindGroupId(pub u64);

#[derive(Clone, Copy, Debug, PartialEq, Eq, Hash, Structural)]
pub enum VertexFormat {
    Float32x2,
    Float32x3,
    Float32x4,
}

impl VertexFormat {
    /// Bytes that one attribute of this format takes in a vertex.
    pub open spec fn size_spec(self) -> u64 {
        match self {
            VertexFormat::Float32x2 => 8,
            VertexFormat::Float32x3 => 12,
            VertexFormat::Float32x4 => 16,
        }
    }

    #[verifier::when_used_as_spec(size_spec)]
    pub fn size(self) -> (r: u64)
        ensures
            r == self.size_spec(),
    {
        match self {
            VertexFormat::Float32x2 => 8,
            VertexFormat::Float32x3 => 12,
            VertexFormat::Float32x4 => 16,
        }
    }
}

#[derive(Clone, Copy, Debug, PartialEq, Eq, Hash, Structural)]
pub enum VertexStepMode {
    Vertex,
    Instance,
}

/// One input of the vertex shader: where it lies in the vertex and which
/// shader location reads it.
#[derive(Clone, Copy, Debug, PartialEq, Eq, Hash, Structural)]
pub struct VertexAttribute {
    pub format: VertexFormat,
    pub offset: u64,
    pub shader_location: u32,
}

#[derive(Clone, Debug, PartialEq, Eq)]
pub struct VertexBufferLayout {
    pub array_stride: u64,
    pub step_mode: VertexStepMode,
    pub attributes: Vec<VertexAttribute>,
}

#[derive(Clone, Debug, PartialEq, Eq)]
pub struct VertexState {
    pub shader: u64,
    pub entry_point: &'static str,
    pub shader_defs: Vec<&'static str>,
    pub buffers: Vec<VertexBufferLayout>,
}

#[derive(Clone, Copy, Debug, PartialEq, Eq, Hash, Structural)]
pub enum TextureFormat {
    Rgba8UnormSrgb,
    Bgra8UnormSrgb,
}

#[derive(Clone, Copy, Debug, PartialEq, Eq, Hash, Structural)]
pub enum TextureDimension {
    D1,
    D2,
    D3,
}

#[derive(Clone, Copy, Debug, PartialEq, Eq, Hash, Structural)]
pub enum BlendState {
    Replace,
    AlphaBlending,
    PremultipliedAlphaBlending,
}

#[derive(Clone, Copy, Debug, PartialEq, Eq, Hash, Structural)]
pub struct ColorTargetState {
    pub format: TextureFormat,
    pub blend: Option<BlendState>,
    pub write_mask: u32,
}

#[derive(Clone, Debug, PartialEq, Eq)]
pub struct FragmentState {
    pub shader: u64,
    pub shader_defs: Vec<&'static str>,
    pub entry_point: &'static str,
    pub targets: Vec<ColorTargetState>,
}

#[derive(Clone, Copy, Debug, PartialEq, Eq, Hash, Structural)]
pub enum FrontFace {
    Ccw,
    Cw,
}

#[derive(Clone, Copy, Debug, PartialEq, Eq, Hash, Structural)]
pub enum Face {
    Front,
    Back,
}

#[derive(Clone, Copy, Debug, PartialEq, Eq, Hash, Structural)]
pub enum PolygonMode {
    Fill,
    Line,
    Point,
}

#[derive(Clone, Copy, Debug, PartialEq, Eq, Hash, Structural)]
pub enum IndexFormat {
    Uint16,
    Uint32,
}

#[derive(Clone, Copy, Debug, PartialEq, Eq, Hash, Structural)]
pub struct PrimitiveState {
    pub topology: PrimitiveTopology,
    pub strip_index_format: Option<IndexFormat>,
    pub front_face: FrontFace,
    pub cull_mode: Option<Face>,
    pub unclipped_depth: bool,
    pub polygon_mode: PolygonMode,
    pub conservative: bool,
}

#[derive(Clone, Copy, Debug, PartialEq, Eq, Hash, Structural)]
pub struct DepthStencilState {
    pub format: TextureFormat,
    pub depth_write_enabled: bool,
}

#[derive(Clone, Copy, Debug, PartialEq, Eq, Hash, Structural)]
pub struct MultisampleState {
    pub count: u32,
    pub mask: u64,
    pub alpha_to_coverage_enabled: bool,
}

/// Everything the device needs to compile one pipeline variant.
#[derive(Clone, Debug, PartialEq, Eq)]
pub struct RenderPipelineDescriptor {
    pub label: Option<&'static str>,
    pub layout: Option<Vec<BindGroupLayoutId>>,
    pub vertex: VertexState,
    pub primitive: PrimitiveState,
    pub depth_stencil: Option<DepthStencilState>,
    pub multisample: MultisampleState,
    pub fragment: Option<FragmentState>,
}

/// A region of a buffer as a bind group sees it.
#[derive(Clone, Copy, Debug, PartialEq, Eq, Hash, Structural)]
pub struct BufferBinding {
    pub buffer: BufferId,
    pub offset: u64,
    pub size: Option<u64>,
}

/// One slot of a bind group layout: a uniform buffer.
#[derive(Clone, Copy, Debug, PartialEq, Eq, Hash, Structural)]
pub struct BindGroupLayoutEntry {
    pub binding: u32,
    pub visibility: u32,
    pub has_dynamic_offset: bool,
    pub min_binding_size: Option<u64>,
}

#[derive(Clone, Debug, PartialEq, Eq)]
pub struct BindGroupLayoutDescriptor {
    pub label: Option<&'static str>,
    pub entries: Vec<BindGroupLayoutEntry>,
}

#[derive(Clone, Copy, Debug, PartialEq, Eq, Hash, Structural)]
pub struct BindGroupEntry {
    pub binding: u32,
    pub resource: BufferBinding,
}

#[derive(Clone, Debug, PartialEq, Eq)]
pub struct BindGroupDescriptor {
    pub label: Option<&'static str>,
    pub layout: BindGroupLayoutId,
    pub entries: Vec<BindGroupEntry>,
}

/// A texture on the device with the view and the sampler that read it.
#[derive(Clone, Copy, Debug, PartialEq, Eq, Hash, Structural)]
pub struct GpuImage {
    pub texture: TextureId,
    pub texture_view: TextureViewId,
    pub sampler: SamplerId,
    pub width: u32,
    pub height: u32,
}

} // verus!
