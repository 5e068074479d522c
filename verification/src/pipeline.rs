//! The mesh pipeline: the layouts and the fallback texture it is made with,
//! and the pipeline variant that each key selects.

use vstd::prelude::*;
use bevy_render::texture::{BevyDefault, TextureFormatPixelInfo};
use crate::assets::{HandleId, RenderAssets};
use crate::gpu::{
    BindGroupLayoutDescriptor, BindGroupLayoutEntry, BindGroupLayoutId, BlendState,
    ColorTargetState, Face, FragmentState, FrontFace, GpuImage, MultisampleState, PolygonMode,
    PrimitiveState, RenderPipelineDescriptor, SamplerId, TextureDimension, TextureFormat,
    TextureId, TextureViewId, VertexAttribute, VertexBufferLayout, VertexFormat, VertexState,
    VertexStepMode, COLOR_WRITES_ALL, MESH2D_SHADER_HANDLE, SHADER_STAGE_FRAGMENT,
    SHADER_STAGE_VERTEX,
};
use crate::key::Mesh2dPipelineKey;
use crate::uniform::MESH2D_UNIFORM_STD140_SIZE;

verus! {

/// State shared by every 2D mesh pipeline variant.
#[derive(Clone, Copy, Debug, PartialEq, Eq, Structural)]
pub struct Mesh2dPipeline {
    pub view_layout: BindGroupLayoutId,
    pub mesh_layout: BindGroupLayoutId,
    /// White texture that stands in for an optional texture that is absent.
    pub dummy_white_gpu_image: GpuImage,
}

/// Bytes between two vertices in the vertex buffer.
pub open spec fn vertex_array_stride(tangents: bool) -> u64 {
    if tangents {
        48
    } else {
        32
    }
}

/// The vertex inputs in shader order: position, normal, uv and, with
/// tangents, tangent. The buffer itself stores them by name, so the offsets
/// do not ascend.
pub open spec fn vertex_attributes(tangents: bool) -> Seq<VertexAttribute> {
    if tangents {
        seq![
            VertexAttribute { format: VertexFormat::Float32x3, offset: 12, shader_location: 0 },
            VertexAttribute { format: VertexFormat::Float32x3, offset: 0, shader_location: 1 },
            VertexAttribute { format: VertexFormat::Float32x2, offset: 40, shader_location: 2 },
            VertexAttribute { format: VertexFormat::Float32x4, offset: 24, shader_location: 3 },
        ]
    } else {
        seq![
            VertexAttribute { format: VertexFormat::Float32x3, offset: 12, shader_location: 0 },
            VertexAttribute { format: VertexFormat::Float32x3, offset: 0, shader_location: 1 },
            VertexAttribute { format: VertexFormat::Float32x2, offset: 24, shader_location: 2 },
        ]
    }
}

/// The shader definitions of a variant, in order: the tangents definition
/// where the key asks for tangents, then the definition that switches array
/// textures off where the target is WebGL.
pub open spec fn expected_shader_defs(tangents: bool, webgl: bool) -> Seq<Seq<char>> {
    (if tangents {
        seq!["VERTEX_TANGENTS"@]
    } else {
        Seq::<Seq<char>>::empty()
    }) + (if webgl {
        seq!["NO_ARRAY_TEXTURES_SUPPORT"@]
    } else {
        Seq::<Seq<char>>::empty()
    })
}

/// Whether `defs` are exactly the expected shader definitions.
pub open spec fn shader_defs_match(defs: Seq<&'static str>, tangents: bool, webgl: bool) -> bool {
    &&& defs.len() == expected_shader_defs(tangents, webgl).len()
    &&& forall|i: int|
        0 <= i < defs.len() ==> (#[trigger] defs[i])@ == expected_shader_defs(tangents, webgl)[i]
}

/// Whether `desc` is the pipeline variant that `key` selects from
/// `pipeline`, drawn into a target of `format`, for WebGL or not. Every
/// field is fixed.
pub open spec fn is_specialized(
    desc: RenderPipelineDescriptor,
    pipeline: Mesh2dPipeline,
    key: Mesh2dPipelineKey,
    format: TextureFormat,
    webgl: bool,
) -> bool {
    &&& desc.label matches Some(label) && label@ == "transparent_mesh2d_pipeline"@
    &&& desc.layout matches Some(layout) && layout@ == seq![
        pipeline.view_layout,
        pipeline.mesh_layout,
    ]
    &&& desc.vertex.shader == MESH2D_SHADER_HANDLE
    &&& desc.vertex.entry_point@ == "vertex"@
    &&& shader_defs_match(desc.vertex.shader_defs@, key.tangents(), webgl)
    &&& desc.vertex.buffers@.len() == 1
    &&& desc.vertex.buffers@[0].array_stride == vertex_array_stride(key.tangents())
    &&& desc.vertex.buffers@[0].step_mode == VertexStepMode::Vertex
    &&& desc.vertex.buffers@[0].attributes@ == vertex_attributes(key.tangents())
    &&& desc.fragment matches Some(fragment) && {
        &&& fragment.shader == MESH2D_SHADER_HANDLE
        &&& fragment.entry_point@ == "fragment"@
        &&& shader_defs_match(fragment.shader_defs@, key.tangents(), webgl)
        &&& fragment.targets@ == seq![
            ColorTargetState {
                format,
                blend: Some(BlendState::AlphaBlending),
                write_mask: COLOR_WRITES_ALL,
            },
        ]
    }
    &&& desc.primitive == PrimitiveState {
        topology: key.topology(),
        strip_index_format: None,
        front_face: FrontFace::Ccw,
        cull_mode: Some(Face::Back),
        unclipped_depth: false,
        polygon_mode: PolygonMode::Fill,
        conservative: false,
    }
    &&& desc.depth_stencil.is_none()
    &&& desc.multisample == MultisampleState {
        count: key.samples() as u32,
        mask: u64::MAX,
        alpha_to_coverage_enabled: false,
    }
}

impl Mesh2dPipeline {
    /// The pipeline variant for `key`, drawn into a target of `format`.
    /// `webgl` says whether the target is WebGL, which has no array
    /// textures.
    pub fn specialize_for_target(
        &self,
        key: Mesh2dPipelineKey,
        format: TextureFormat,
        webgl: bool,
    ) -> (desc: RenderPipelineDescriptor)
        ensures
            is_specialized(desc, *self, key, format, webgl),
    {
        let tangents = key.contains(Mesh2dPipelineKey::vertex_tangents());
        let vertex_array_stride: u64;
        let vertex_attributes: Vec<VertexAttribute>;
        if tangents {
            vertex_array_stride = 48;
            vertex_attributes =
            vec![
                // Position is not first in the buffer: attributes are stored by name.
                VertexAttribute { format: VertexFormat::Float32x3, offset: 12, shader_location: 0 },
                // Normal
                VertexAttribute { format: VertexFormat::Float32x3, offset: 0, shader_location: 1 },
                // Uv comes after the tangent in the buffer.
                VertexAttribute { format: VertexFormat::Float32x2, offset: 40, shader_location: 2 },
                // Tangent
                VertexAttribute { format: VertexFormat::Float32x4, offset: 24, shader_location: 3 },
            ];
        } else {
            vertex_array_stride = 32;
            vertex_attributes =
            vec![
                // Position is not first in the buffer: attributes are stored by name.
                VertexAttribute { format: VertexFormat::Float32x3, offset: 12, shader_location: 0 },
                // Normal
                VertexAttribute { format: VertexFormat::Float32x3, offset: 0, shader_location: 1 },
                // Uv
                VertexAttribute { format: VertexFormat::Float32x2, offset: 24, shader_location: 2 },
            ];
        }
        assert(vertex_attributes@ =~= self::vertex_attributes(tangents));
        let mut vertex_defs: Vec<&'static str> = Vec::new();
        let mut fragment_defs: Vec<&'static str> = Vec::new();
        if tangents {
            vertex_defs.push("VERTEX_TANGENTS");
            fragment_defs.push("VERTEX_TANGENTS");
        }
        if webgl {
            vertex_defs.push("NO_ARRAY_TEXTURES_SUPPORT");
            fragment_defs.push("NO_ARRAY_TEXTURES_SUPPORT");
        }
        let buffers =
            vec![
            VertexBufferLayout {
                array_stride: vertex_array_stride,
                step_mode: VertexStepMode::Vertex,
                attributes: vertex_attributes,
            },
        ];
        let targets =
            vec![
            ColorTargetState {
                format,
                blend: Some(BlendState::AlphaBlending),
                write_mask: COLOR_WRITES_ALL,
            },
        ];
        let layout = vec![self.view_layout, self.mesh_layout];
        assert(layout@ =~= seq![self.view_layout, self.mesh_layout]);
        assert(targets@ =~= seq![
            ColorTargetState {
                format,
                blend: Some(BlendState::AlphaBlending),
                write_mask: COLOR_WRITES_ALL,
            },
        ]);
        RenderPipelineDescriptor {
            vertex: VertexState {
                shader: MESH2D_SHADER_HANDLE,
                entry_point: "vertex",
                shader_defs: vertex_defs,
                buffers,
            },
            fragment: Some(
                FragmentState {
                    shader: MESH2D_SHADER_HANDLE,
                    shader_defs: fragment_defs,
                    entry_point: "fragment",
                    targets,
                },
            ),
            layout: Some(layout),
            primitive: PrimitiveState {
                front_face: FrontFace::Ccw,
                cull_mode: Some(Face::Back),
                unclipped_depth: false,
                polygon_mode: PolygonMode::Fill,
                conservative: false,
                topology: key.primitive_topology(),
                strip_index_format: None,
            },
            depth_stencil: None,
            multisample: MultisampleState {
                count: key.msaa_samples(),
                mask: u64::MAX,
                alpha_to_coverage_enabled: false,
            },
            label: Some("transparent_mesh2d_pipeline"),
        }
    }
}

/// The format of the first colour target of a pipeline variant.
pub open spec fn target_format(desc: RenderPipelineDescriptor) -> TextureFormat {
    desc.fragment.unwrap().targets@[0].format
}

/// The format that render targets have on this machine.
///
/// Calls `BevyDefault::bevy_default` of `bevy_render` for its texture
/// format. Which of the two formats comes back depends on the target the
/// program was built for, so nothing is claimed of the result.
#[verifier::external_body]
fn default_target_format() -> (format: TextureFormat) {
    match bevy_render::render_resource::TextureFormat::bevy_default() {
        bevy_render::render_resource::TextureFormat::Rgba8UnormSrgb => TextureFormat::Rgba8UnormSrgb,
        _ => TextureFormat::Bgra8UnormSrgb,
    }
}

/// Bytes of one pixel of `format`.
///
/// Calls `TextureFormatPixelInfo::pixel_size` of `bevy_render`, which
/// multiplies the bytes of a component by the number of components: one
/// byte and four components for both formats.
#[verifier::external_body]
fn pixel_size(format: TextureFormat) -> (size: usize)
    ensures
        size == 4,
{
    match format {
        TextureFormat::Rgba8UnormSrgb => bevy_render::render_resource::TextureFormat::Rgba8UnormSrgb.pixel_size(),
        TextureFormat::Bgra8UnormSrgb => bevy_render::render_resource::TextureFormat::Bgra8UnormSrgb.pixel_size(),
    }
}

/// `len` bytes in which `pixel` is repeated as often as it fits whole; the
/// bytes after the last whole repetition are zero.
pub open spec fn filled(pixel: Seq<u8>, len: int) -> Seq<u8> {
    Seq::new(
        len as nat,
        |i: int|
            if i < (len / (pixel.len() as int)) * pixel.len() {
                pixel[i % (pixel.len() as int)]
            } else {
                0u8
            },
    )
}

/// Whether an image of `width` by `height` pixels can be filled with
/// `pixel`: the pixel data is not empty, is made of whole four-byte pixels
/// and is no longer than the image; the number of pixels fits 32 bits and
/// the number of bytes fits the address space.
pub open spec fn can_fill(width: u32, height: u32, pixel: Seq<u8>) -> bool {
    &&& pixel.len() > 0
    &&& pixel.len() % 4 == 0
    &&& width * height <= u32::MAX
    &&& width * height * 4 <= usize::MAX
    &&& pixel.len() <= width * height * 4
}

/// The bytes of a two-dimensional image of `width` by `height` pixels in
/// which `pixel` is repeated.
///
/// Calls `Image::new_fill` of `bevy_render` with one layer and hands back
/// the image's data. That function sizes the data to four bytes for each
/// pixel, zero-filled, and then copies `pixel` over every complete chunk of
/// `pixel.len()` bytes; bytes after the last complete chunk stay zero. It
/// asserts that `pixel` holds whole pixels and fits the data, it cannot
/// chunk by zero, and it multiplies width by height in 32 bits, so those
/// inputs are left out.
#[verifier::external_body]
fn image_fill(width: u32, height: u32, pixel: &Vec<u8>, format: TextureFormat) -> (data: Vec<u8>)
    requires
        can_fill(width, height, pixel@),
    ensures
        data@ == filled(pixel@, width * height * 4),
{
    let format = match format {
        TextureFormat::Rgba8UnormSrgb => bevy_render::render_resource::TextureFormat::Rgba8UnormSrgb,
        TextureFormat::Bgra8UnormSrgb => bevy_render::render_resource::TextureFormat::Bgra8UnormSrgb,
    };
    let size = bevy_render::render_resource::Extent3d { width, height, depth_or_array_layers: 1 };
    let dimension = bevy_render::render_resource::TextureDimension::D2;
    bevy_render::texture::Image::new_fill(size, dimension, pixel, format).data
}

/// Pixel data with the shape and format a texture is created from.
#[derive(Clone, Debug, PartialEq, Eq)]
pub struct Image {
    pub data: Vec<u8>,
    pub width: u32,
    pub height: u32,
    pub depth_or_array_layers: u32,
    pub dimension: TextureDimension,
    pub format: TextureFormat,
}

impl Image {
    /// A two-dimensional image of one layer in which `pixel` is repeated,
    /// or nothing where the image cannot be filled with it.
    pub fn new_fill(width: u32, height: u32, pixel: &Vec<u8>, format: TextureFormat) -> (r:
        Option<Image>)
        ensures
            !can_fill(width, height, pixel@) ==> r.is_none(),
            can_fill(width, height, pixel@) ==> r.is_some() && r.unwrap().data@ == filled(
                pixel@,
                width * height * 4,
            ) && r.unwrap().width == width && r.unwrap().height == height
                && r.unwrap().depth_or_array_layers == 1 && r.unwrap().dimension
                == TextureDimension::D2 && r.unwrap().format == format,
    {
        assert(width * height <= 0xFFFF_FFFF * 0xFFFF_FFFF) by (nonlinear_arith)
            requires
                0 <= width <= 0xFFFF_FFFF,
                0 <= height <= 0xFFFF_FFFF,
        ;
        let pixels: u64 = (width as u64) * (height as u64);
        if pixel.len() == 0 || pixel.len() % 4 != 0 || pixels > 0xFFFF_FFFF {
            return None;
        }
        let bytes: u64 = pixels * 4;
        if bytes > usize::MAX as u64 || pixel.len() as u64 > bytes {
            return None;
        }
        let data = image_fill(width, height, pixel, format);
        Some(
            Image {
                data,
                width,
                height,
                depth_or_array_layers: 1,
                dimension: TextureDimension::D2,
                format,
            },
        )
    }
}

/// How the rows of an image lie in the bytes that are uploaded.
#[derive(Clone, Copy, Debug, PartialEq, Eq, Structural)]
pub struct ImageDataLayout {
    pub offset: u64,
    pub bytes_per_row: Option<u32>,
    pub rows_per_image: Option<u32>,
}

/// Everything the device has to create before a [`Mesh2dPipeline`] exists.
#[derive(Clone, Debug, PartialEq, Eq)]
pub struct Mesh2dPipelineResources {
    pub view_layout: BindGroupLayoutDescriptor,
    pub mesh_layout: BindGroupLayoutDescriptor,
    pub dummy_white_image: Image,
    pub dummy_white_layout: ImageDataLayout,
}

/// A layout with one slot: a uniform buffer at binding 0, seen by the
/// vertex and fragment stages, bound with a dynamic offset, at least
/// `min_size` bytes where that is not zero.
pub open spec fn is_uniform_layout(
    desc: BindGroupLayoutDescriptor,
    label: Seq<char>,
    min_size: u64,
) -> bool {
    &&& desc.label matches Some(l) && l@ == label
    &&& desc.entries@ == seq![
        BindGroupLayoutEntry {
            binding: 0,
            visibility: 3,
            has_dynamic_offset: true,
            min_binding_size: if min_size == 0 {
                None
            } else {
                Some(min_size)
            },
        },
    ]
}

/// The fallback image: one opaque white pixel.
pub open spec fn is_dummy_white_image(image: Image) -> bool {
    &&& image.data@ == seq![255u8, 255u8, 255u8, 255u8]
    &&& image.width == 1
    &&& image.height == 1
    &&& image.depth_or_array_layers == 1
    &&& image.dimension == TextureDimension::D2
}

/// What the pipeline is made from, for a view uniform of
/// `view_uniform_size` bytes. The mesh layout asks for the size of the mesh
/// uniform as a structure in the uniform layout, 144 bytes.
pub open spec fn is_pipeline_resources(r: Mesh2dPipelineResources, view_uniform_size: u64) -> bool {
    &&& is_uniform_layout(r.view_layout, "mesh2d_view_layout"@, view_uniform_size)
    &&& is_uniform_layout(r.mesh_layout, "mesh2d_layout"@, 144)
    &&& is_dummy_white_image(r.dummy_white_image)
    &&& r.dummy_white_layout == ImageDataLayout {
        offset: 0,
        bytes_per_row: Some(4u32),
        rows_per_image: None,
    }
}

fn uniform_layout(label: &'static str, min_size: u64) -> (desc: BindGroupLayoutDescriptor)
    ensures
        is_uniform_layout(desc, label@, min_size),
{
    assert(SHADER_STAGE_VERTEX | SHADER_STAGE_FRAGMENT == 3) by (bit_vector);
    let entries =
        vec![
        BindGroupLayoutEntry {
            binding: 0,
            visibility: SHADER_STAGE_VERTEX | SHADER_STAGE_FRAGMENT,
            has_dynamic_offset: true,
            min_binding_size: if min_size == 0 {
                None
            } else {
                Some(min_size)
            },
        },
    ];
    assert(entries@ =~= seq![
        BindGroupLayoutEntry {
            binding: 0,
            visibility: 3,
            has_dynamic_offset: true,
            min_binding_size: if min_size == 0 {
                None
            } else {
                Some(min_size)
            },
        },
    ]);
    BindGroupLayoutDescriptor { entries, label: Some(label) }
}

impl Mesh2dPipeline {
    /// The pipeline variant for `key` on a target that is not WebGL, drawn
    /// into a target of the format that is the default on this machine.
    pub fn specialize(&self, key: Mesh2dPipelineKey) -> (desc: RenderPipelineDescriptor)
        ensures
            is_specialized(desc, *self, key, target_format(desc), false),
    {
        let format = default_target_format();
        self.specialize_for_target(key, format, false)
    }

    /// The fallback image of `format`: one pixel with every channel at its
    /// highest value.
    pub fn dummy_white_image(format: TextureFormat) -> (image: Image)
        ensures
            is_dummy_white_image(image),
            image.format == format,
    {
        let pixel: Vec<u8> = vec![255u8, 255u8, 255u8, 255u8];
        let data = image_fill(1, 1, &pixel, format);
        assert(data@ =~= seq![255u8, 255u8, 255u8, 255u8]);
        Image {
            data,
            width: 1,
            height: 1,
            depth_or_array_layers: 1,
            dimension: TextureDimension::D2,
            format,
        }
    }

    /// Describes what the device has to create at startup: the two bind
    /// group layouts, and the fallback image with the layout of its upload.
    /// `view_uniform_size` is the size of the view uniform in bytes.
    pub fn resources(view_uniform_size: u64) -> (r: Mesh2dPipelineResources)
        ensures
            is_pipeline_resources(r, view_uniform_size),
    {
        let view_layout = uniform_layout("mesh2d_view_layout", view_uniform_size);
        let mesh_layout = uniform_layout("mesh2d_layout", MESH2D_UNIFORM_STD140_SIZE as u64);
        // A 1x1x1 texture with all channels set, used in place of optional textures.
        let format = default_target_format();
        let image = Self::dummy_white_image(format);
        let format_size: usize = pixel_size(image.format);
        let bytes_per_row: u32 = image.width * (format_size as u32);
        Mesh2dPipelineResources {
            view_layout,
            mesh_layout,
            dummy_white_image: image,
            dummy_white_layout: ImageDataLayout {
                offset: 0,
                bytes_per_row: Some(bytes_per_row),
                rows_per_image: None,
            },
        }
    }

    /// The pipeline state, once the device has created what
    /// [`Mesh2dPipeline::resources`] describes.
    pub fn from_world(
        resources: &Mesh2dPipelineResources,
        view_layout: BindGroupLayoutId,
        mesh_layout: BindGroupLayoutId,
        texture: TextureId,
        texture_view: TextureViewId,
        sampler: SamplerId,
    ) -> (r: Mesh2dPipeline)
        ensures
            r == (Mesh2dPipeline {
                view_layout,
                mesh_layout,
                dummy_white_gpu_image: GpuImage {
                    texture,
                    texture_view,
                    sampler,
                    width: resources.dummy_white_image.width,
                    height: resources.dummy_white_image.height,
                },
            }),
    {
        let dummy_white_gpu_image = GpuImage {
            texture,
            texture_view,
            sampler,
            width: resources.dummy_white_image.width,
            height: resources.dummy_white_image.height,
        };
        Mesh2dPipeline { view_layout, mesh_layout, dummy_white_gpu_image }
    }

    /// The texture view and sampler to bind for an optional texture: the
    /// fallback pair where there is no handle, the texture's own pair where
    /// the handle resolves, and nothing where it does not resolve yet.
    pub fn get_image_texture(
        &self,
        gpu_images: &RenderAssets<GpuImage>,
        handle_option: &Option<HandleId>,
    ) -> (r: Option<(TextureViewId, SamplerId)>)
        ensures
            handle_option.is_none() ==> r == Some(
                (self.dummy_white_gpu_image.texture_view, self.dummy_white_gpu_image.sampler),
            ),
            handle_option.is_some() && gpu_images@.contains_key(handle_option.unwrap()) ==> r
                == Some(
                (
                    gpu_images@[handle_option.unwrap()].texture_view,
                    gpu_images@[handle_option.unwrap()].sampler,
                ),
            ),
            handle_option.is_some() && !gpu_images@.contains_key(handle_option.unwrap())
                ==> r.is_none(),
    {
        if let Some(handle) = handle_option {
            match gpu_images.get(*handle) {
                Some(gpu_image) => Some((gpu_image.texture_view, gpu_image.sampler)),
                None => None,
            }
        } else {
            Some((self.dummy_white_gpu_image.texture_view, self.dummy_white_gpu_image.sampler))
        }
    }
}

/// No two vertex inputs overlap, each lies within the stride, and the
/// shader locations count up from zero in the order of the inputs.
pub proof fn lemma_vertex_layout_packed(tangents: bool)
    ensures
        forall|i: int|
            0 <= i < vertex_attributes(tangents).len() ==> {
                let a = #[trigger] vertex_attributes(tangents)[i];
                a.offset + a.format.size_spec() <= vertex_array_stride(tangents)
                    && a.shader_location == i
            },
        forall|i: int, j: int|
            0 <= i < j < vertex_attributes(tangents).len() ==> {
                let a = #[trigger] vertex_attributes(tangents)[i];
                let b = #[trigger] vertex_attributes(tangents)[j];
                a.offset + a.format.size_spec() <= b.offset || b.offset + b.format.size_spec()
                    <= a.offset
            },
{
}

} // verus!
