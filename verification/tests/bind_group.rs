use mesh2d::bind_group::{
    queue_mesh2d_bind_group, queue_mesh2d_view_bind_groups, BindGroupAllocator,
};
use mesh2d::extract::Entity;
use mesh2d::gpu::{
    BindGroupEntry, BindGroupId, BindGroupLayoutId, BufferBinding, BufferId, GpuImage, SamplerId,
    TextureId, TextureViewId,
};
use mesh2d::pipeline::Mesh2dPipeline;
use mesh2d::uniform::{ComponentUniforms, Mat4, Mesh2dUniform};

fn render_pipeline() -> Mesh2dPipeline {
    Mesh2dPipeline {
        view_layout: BindGroupLayoutId(10),
        mesh_layout: BindGroupLayoutId(11),
        dummy_white_gpu_image: GpuImage {
            texture: TextureId(1),
            texture_view: TextureViewId(2),
            sampler: SamplerId(3),
            width: 1,
            height: 1,
        },
    }
}

fn some_uniform() -> Mesh2dUniform {
    Mesh2dUniform {
        transform: Mat4 { cols: [1; 16] },
        inverse_transpose_model: Mat4 { cols: [2; 16] },
        flags: 0,
    }
}

#[test]
fn no_records_no_mesh_bind_group() {
    let mut device = BindGroupAllocator::new();
    let mut uniforms = ComponentUniforms::new();
    uniforms.write_buffer();
    assert_eq!(queue_mesh2d_bind_group(&mut device, &render_pipeline(), &uniforms), None);
    let next = queue_mesh2d_view_bind_groups(
        &mut device,
        &render_pipeline(),
        Some(BufferBinding { buffer: BufferId(1), offset: 0, size: Some(256) }),
        &vec![Entity { id: 0, generation: 0 }],
    );
    assert_eq!(next[0].1.value.id, BindGroupId(0));
}

#[test]
fn mesh_bind_group_binds_whole_buffer_at_slot_zero() {
    let mut device = BindGroupAllocator::new();
    let mut uniforms = ComponentUniforms::new();
    uniforms.push(some_uniform());
    uniforms.write_buffer();
    uniforms.set_buffer(BufferId(77));
    let group = queue_mesh2d_bind_group(&mut device, &render_pipeline(), &uniforms).unwrap();
    assert_eq!(group.value.id, BindGroupId(0));
    assert_eq!(group.value.descriptor.label, Some("mesh2d_bind_group"));
    assert_eq!(group.value.descriptor.layout, BindGroupLayoutId(11));
    assert_eq!(
        group.value.descriptor.entries,
        vec![BindGroupEntry {
            binding: 0,
            resource: BufferBinding { buffer: BufferId(77), offset: 0, size: Some(256) },
        }]
    );
}

#[test]
fn one_view_bind_group_for_each_view() {
    let mut device = BindGroupAllocator::new();
    let binding = BufferBinding { buffer: BufferId(5), offset: 0, size: Some(512) };
    let views = vec![Entity { id: 3, generation: 1 }, Entity { id: 9, generation: 0 }];
    let groups =
        queue_mesh2d_view_bind_groups(&mut device, &render_pipeline(), Some(binding), &views);
    assert_eq!(groups.len(), 2);
    for (i, (entity, group)) in groups.iter().enumerate() {
        assert_eq!(*entity, views[i]);
        assert_eq!(group.value.id, BindGroupId(i as u64));
        assert_eq!(group.value.descriptor.label, Some("mesh2d_view_bind_group"));
        assert_eq!(group.value.descriptor.layout, BindGroupLayoutId(10));
        assert_eq!(
            group.value.descriptor.entries,
            vec![BindGroupEntry { binding: 0, resource: binding }]
        );
    }
}

#[test]
fn no_view_uniforms_no_view_bind_groups() {
    let mut device = BindGroupAllocator::new();
    let views = vec![Entity { id: 3, generation: 1 }];
    assert!(queue_mesh2d_view_bind_groups(&mut device, &render_pipeline(), None, &views)
        .is_empty());
    assert!(device.has_room(usize::MAX));
}

#[test]
fn rebuilding_the_view_bind_group_gives_a_new_instance() {
    let mut device = BindGroupAllocator::new();
    let views = vec![Entity { id: 1, generation: 0 }];
    let first = queue_mesh2d_view_bind_groups(
        &mut device,
        &render_pipeline(),
        Some(BufferBinding { buffer: BufferId(5), offset: 0, size: Some(256) }),
        &views,
    );
    let second = queue_mesh2d_view_bind_groups(
        &mut device,
        &render_pipeline(),
        Some(BufferBinding { buffer: BufferId(6), offset: 0, size: Some(256) }),
        &views,
    );
    assert_ne!(first[0].1.value.id, second[0].1.value.id);
    assert_ne!(first[0].1, second[0].1);
    assert!(second.iter().all(|(_, g)| g.value.id != first[0].1.value.id));
    assert_eq!(second[0].1.value.descriptor.entries[0].resource.buffer, BufferId(6));
}

#[test]
fn rebuilding_with_the_same_buffer_still_gives_a_new_instance() {
    let mut device = BindGroupAllocator::new();
    let views = vec![Entity { id: 1, generation: 0 }];
    let binding = Some(BufferBinding { buffer: BufferId(5), offset: 0, size: Some(256) });
    let first = queue_mesh2d_view_bind_groups(&mut device, &render_pipeline(), binding, &views);
    let second = queue_mesh2d_view_bind_groups(&mut device, &render_pipeline(), binding, &views);
    assert_eq!(first[0].1.value.descriptor, second[0].1.value.descriptor);
    assert_ne!(first[0].1.value.id, second[0].1.value.id);
}
