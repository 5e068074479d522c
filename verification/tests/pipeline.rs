use mesh2d::assets::{HandleId, RenderAssets};
use mesh2d::gpu::{
    BindGroupLayoutEntry, BindGroupLayoutId, BlendState, ColorTargetState, Face, FrontFace,
    GpuImage, IndexFormat, MultisampleState, PolygonMode, PrimitiveState, SamplerId,
    TextureDimension, TextureFormat, TextureId, TextureViewId, VertexAttribute, VertexFormat,
    VertexStepMode, COLOR_WRITES_ALL, MESH2D_SHADER_HANDLE,
};
use mesh2d::key::{Mesh2dPipelineKey, PrimitiveTopology};
use mesh2d::pipeline::{Image, ImageDataLayout, Mesh2dPipeline};
use mesh2d::uniform::{
    MESH2D_UNIFORM_SIZE, MESH2D_UNIFORM_STD140_SIZE, UNIFORM_STRUCT_ALIGNMENT,
};

fn pipeline() -> Mesh2dPipeline {
    Mesh2dPipeline {
        view_layout: BindGroupLayoutId(10),
        mesh_layout: BindGroupLayoutId(11),
        dummy_white_gpu_image: GpuImage {
            texture: TextureId(1),
            texture_view: TextureViewId(2),
            sampler: SamplerId(3),
            width: 1,
            height: 1,
        },
    }
}

#[test]
fn specialize_without_tangents_has_three_attributes() {
    let key = Mesh2dPipelineKey::encode(false, 4, 3).unwrap();
    let desc = pipeline().specialize_for_target(key, TextureFormat::Bgra8UnormSrgb, false);
    assert_eq!(desc.vertex.buffers.len(), 1);
    let buffer = &desc.vertex.buffers[0];
    assert_eq!(buffer.array_stride, 32);
    assert_eq!(buffer.step_mode, VertexStepMode::Vertex);
    assert_eq!(
        buffer.attributes,
        vec![
            VertexAttribute { format: VertexFormat::Float32x3, offset: 12, shader_location: 0 },
            VertexAttribute { format: VertexFormat::Float32x3, offset: 0, shader_location: 1 },
            VertexAttribute { format: VertexFormat::Float32x2, offset: 24, shader_location: 2 },
        ]
    );
    assert!(desc.vertex.shader_defs.is_empty());
    assert!(desc.fragment.as_ref().unwrap().shader_defs.is_empty());
}

#[test]
fn specialize_with_tangents_has_four_attributes() {
    let key = Mesh2dPipelineKey::encode(true, 1, 3).unwrap();
    let desc = pipeline().specialize_for_target(key, TextureFormat::Bgra8UnormSrgb, false);
    let buffer = &desc.vertex.buffers[0];
    assert_eq!(buffer.array_stride, 48);
    assert_eq!(
        buffer.attributes,
        vec![
            VertexAttribute { format: VertexFormat::Float32x3, offset: 12, shader_location: 0 },
            VertexAttribute { format: VertexFormat::Float32x3, offset: 0, shader_location: 1 },
            VertexAttribute { format: VertexFormat::Float32x2, offset: 40, shader_location: 2 },
            VertexAttribute { format: VertexFormat::Float32x4, offset: 24, shader_location: 3 },
        ]
    );
    assert_eq!(desc.vertex.shader_defs, vec!["VERTEX_TANGENTS"]);
    assert_eq!(desc.fragment.as_ref().unwrap().shader_defs, vec!["VERTEX_TANGENTS"]);
}

#[test]
fn specialize_fixes_every_state() {
    let key = Mesh2dPipelineKey::encode(false, 8, 4).unwrap();
    let desc = pipeline().specialize_for_target(key, TextureFormat::Rgba8UnormSrgb, false);
    assert_eq!(desc.label, Some("transparent_mesh2d_pipeline"));
    assert_eq!(desc.layout, Some(vec![BindGroupLayoutId(10), BindGroupLayoutId(11)]));
    assert_eq!(desc.vertex.shader, MESH2D_SHADER_HANDLE);
    assert_eq!(desc.vertex.shader, 2971387252468633715);
    assert_eq!(desc.vertex.entry_point, "vertex");
    let fragment = desc.fragment.as_ref().unwrap();
    assert_eq!(fragment.shader, MESH2D_SHADER_HANDLE);
    assert_eq!(fragment.entry_point, "fragment");
    assert_eq!(
        fragment.targets,
        vec![ColorTargetState {
            format: TextureFormat::Rgba8UnormSrgb,
            blend: Some(BlendState::AlphaBlending),
            write_mask: COLOR_WRITES_ALL,
        }]
    );
    assert_eq!(
        desc.primitive,
        PrimitiveState {
            topology: PrimitiveTopology::TriangleStrip,
            strip_index_format: None::<IndexFormat>,
            front_face: FrontFace::Ccw,
            cull_mode: Some(Face::Back),
            unclipped_depth: false,
            polygon_mode: PolygonMode::Fill,
            conservative: false,
        }
    );
    assert_eq!(desc.depth_stencil, None);
    assert_eq!(
        desc.multisample,
        MultisampleState { count: 8, mask: u64::MAX, alpha_to_coverage_enabled: false }
    );
}

#[test]
fn specialize_follows_key_over_all_fields() {
    let topologies = [
        PrimitiveTopology::PointList,
        PrimitiveTopology::LineList,
        PrimitiveTopology::LineStrip,
        PrimitiveTopology::TriangleList,
        PrimitiveTopology::TriangleStrip,
    ];
    for samples in [1u32, 2, 4, 64] {
        for (ordinal, topology) in topologies.iter().enumerate() {
            let key = Mesh2dPipelineKey::encode(false, samples, ordinal as u32).unwrap();
            let desc = pipeline().specialize(key);
            assert_eq!(desc.multisample.count, samples);
            assert_eq!(desc.primitive.topology, *topology);
        }
    }
}

#[test]
fn specialize_uses_one_of_the_two_target_formats() {
    let desc = pipeline().specialize(Mesh2dPipelineKey::empty());
    let format = desc.fragment.as_ref().unwrap().targets[0].format;
    assert!(format == TextureFormat::Rgba8UnormSrgb || format == TextureFormat::Bgra8UnormSrgb);
    assert_eq!(desc, pipeline().specialize_for_target(Mesh2dPipelineKey::empty(), format, false));
}

#[test]
fn vertex_attributes_do_not_overlap_and_fit_the_stride() {
    for tangents in [false, true] {
        let key = Mesh2dPipelineKey::encode(tangents, 1, 3).unwrap();
        let desc = pipeline().specialize_for_target(key, TextureFormat::Bgra8UnormSrgb, false);
        let buffer = &desc.vertex.buffers[0];
        let mut covered = vec![false; buffer.array_stride as usize];
        for (location, attribute) in buffer.attributes.iter().enumerate() {
            assert_eq!(attribute.shader_location as usize, location);
            for byte in attribute.offset..attribute.offset + attribute.format.size() {
                assert!(!covered[byte as usize]);
                covered[byte as usize] = true;
            }
        }
        assert!(covered.iter().all(|c| *c));
    }
}

#[test]
fn resources_describe_layouts_and_dummy_image() {
    let resources = Mesh2dPipeline::resources(208);
    assert_eq!(resources.view_layout.label, Some("mesh2d_view_layout"));
    assert_eq!(
        resources.view_layout.entries,
        vec![BindGroupLayoutEntry {
            binding: 0,
            visibility: 3,
            has_dynamic_offset: true,
            min_binding_size: Some(208),
        }]
    );
    assert_eq!(resources.mesh_layout.label, Some("mesh2d_layout"));
    assert_eq!(
        resources.mesh_layout.entries,
        vec![BindGroupLayoutEntry {
            binding: 0,
            visibility: 3,
            has_dynamic_offset: true,
            min_binding_size: Some(144),
        }]
    );
    assert_eq!(MESH2D_UNIFORM_STD140_SIZE, 144);
    assert_eq!(MESH2D_UNIFORM_STD140_SIZE % UNIFORM_STRUCT_ALIGNMENT, 0);
    assert!(MESH2D_UNIFORM_STD140_SIZE - MESH2D_UNIFORM_SIZE < UNIFORM_STRUCT_ALIGNMENT);
    let image = &resources.dummy_white_image;
    assert_eq!(image.data, vec![255u8, 255, 255, 255]);
    assert_eq!((image.width, image.height, image.depth_or_array_layers), (1, 1, 1));
    assert_eq!(image.dimension, TextureDimension::D2);
    assert_eq!(
        resources.dummy_white_layout,
        ImageDataLayout { offset: 0, bytes_per_row: Some(4), rows_per_image: None }
    );
}

#[test]
fn resources_with_empty_view_uniform_have_no_minimum_size() {
    let resources = Mesh2dPipeline::resources(0);
    assert_eq!(resources.view_layout.entries[0].min_binding_size, None);
}

#[test]
fn from_world_takes_size_from_the_dummy_image() {
    let resources = Mesh2dPipeline::resources(208);
    let pipeline = Mesh2dPipeline::from_world(
        &resources,
        BindGroupLayoutId(7),
        BindGroupLayoutId(8),
        TextureId(20),
        TextureViewId(21),
        SamplerId(22),
    );
    assert_eq!(
        pipeline,
        Mesh2dPipeline {
            view_layout: BindGroupLayoutId(7),
            mesh_layout: BindGroupLayoutId(8),
            dummy_white_gpu_image: GpuImage {
                texture: TextureId(20),
                texture_view: TextureViewId(21),
                sampler: SamplerId(22),
                width: 1,
                height: 1,
            },
        }
    );
}

#[test]
fn new_fill_repeats_the_pixel() {
    let image = Image::new_fill(2, 2, &vec![1, 2, 3, 4], TextureFormat::Rgba8UnormSrgb).unwrap();
    assert_eq!(image.data, vec![1, 2, 3, 4, 1, 2, 3, 4, 1, 2, 3, 4, 1, 2, 3, 4]);
    assert_eq!((image.width, image.height, image.depth_or_array_layers), (2, 2, 1));
    assert_eq!(image.format, TextureFormat::Rgba8UnormSrgb);
}

#[test]
fn new_fill_leaves_an_incomplete_tail_zero() {
    let pixel = vec![9, 8, 7, 6, 5, 4, 3, 2];
    let image = Image::new_fill(3, 1, &pixel, TextureFormat::Bgra8UnormSrgb).unwrap();
    assert_eq!(image.data, vec![9, 8, 7, 6, 5, 4, 3, 2, 0, 0, 0, 0]);
}

#[test]
fn new_fill_refuses_what_cannot_be_filled() {
    let format = TextureFormat::Rgba8UnormSrgb;
    assert_eq!(Image::new_fill(1, 1, &vec![], format), None);
    assert_eq!(Image::new_fill(1, 1, &vec![255, 255, 255], format), None);
    assert_eq!(Image::new_fill(1, 1, &vec![255; 8], format), None);
    assert_eq!(Image::new_fill(0, 5, &vec![255; 4], format), None);
    assert_eq!(Image::new_fill(0x10000, 0x10000, &vec![255; 4], format), None);
    assert_eq!(Image::new_fill(u32::MAX, u32::MAX, &vec![255; 4], format), None);
}

#[test]
fn missing_texture_resolves_to_the_dummy_pair() {
    let images: RenderAssets<GpuImage> = RenderAssets::new();
    assert_eq!(
        pipeline().get_image_texture(&images, &None),
        Some((TextureViewId(2), SamplerId(3)))
    );
}

#[test]
fn unresolved_texture_is_not_ready() {
    let mut images: RenderAssets<GpuImage> = RenderAssets::new();
    let present = HandleId::Id { type_uuid: 1, id: 1 };
    let absent = HandleId::Id { type_uuid: 1, id: 2 };
    images.insert(
        present,
        GpuImage {
            texture: TextureId(30),
            texture_view: TextureViewId(31),
            sampler: SamplerId(32),
            width: 4,
            height: 4,
        },
    );
    assert_eq!(pipeline().get_image_texture(&images, &Some(absent)), None);
    assert_eq!(
        pipeline().get_image_texture(&images, &Some(present)),
        Some((TextureViewId(31), SamplerId(32)))
    );
}

#[test]
fn webgl_target_switches_array_textures_off() {
    let plain = Mesh2dPipelineKey::encode(false, 4, 3).unwrap();
    let desc = pipeline().specialize_for_target(plain, TextureFormat::Rgba8UnormSrgb, true);
    assert_eq!(desc.vertex.shader_defs, vec!["NO_ARRAY_TEXTURES_SUPPORT"]);
    assert_eq!(
        desc.fragment.as_ref().unwrap().shader_defs,
        vec!["NO_ARRAY_TEXTURES_SUPPORT"]
    );
    let tangents = Mesh2dPipelineKey::encode(true, 4, 3).unwrap();
    let desc = pipeline().specialize_for_target(tangents, TextureFormat::Rgba8UnormSrgb, true);
    assert_eq!(desc.vertex.shader_defs, vec!["VERTEX_TANGENTS", "NO_ARRAY_TEXTURES_SUPPORT"]);
    assert_eq!(
        desc.fragment.as_ref().unwrap().shader_defs,
        vec!["VERTEX_TANGENTS", "NO_ARRAY_TEXTURES_SUPPORT"]
    );
    assert!(pipeline().specialize(tangents).vertex.shader_defs == vec!["VERTEX_TANGENTS"]);
}
