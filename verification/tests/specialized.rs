use mesh2d::gpu::{BindGroupLayoutId, GpuImage, SamplerId, TextureId, TextureViewId};
use mesh2d::key::Mesh2dPipelineKey;
use mesh2d::pipeline::Mesh2dPipeline;
use mesh2d::specialized::{CachedPipelineId, SpecializationFailed, SpecializedPipelines};

fn mesh_pipeline() -> Mesh2dPipeline {
    Mesh2dPipeline {
        view_layout: BindGroupLayoutId(10),
        mesh_layout: BindGroupLayoutId(11),
        dummy_white_gpu_image: GpuImage {
            texture: TextureId(1),
            texture_view: TextureViewId(2),
            sampler: SamplerId(3),
            width: 1,
            height: 1,
        },
    }
}

#[test]
fn same_key_twice_gives_the_same_pipeline_and_builds_once() {
    let pipeline = mesh_pipeline();
    let mut cache = SpecializedPipelines::new();
    let key = Mesh2dPipelineKey::encode(true, 4, 3).unwrap();
    let first = cache.specialize(&pipeline, key).unwrap();
    assert_eq!(cache.len(), 1);
    let second =
        cache.specialize(&pipeline, Mesh2dPipelineKey::encode(true, 4, 3).unwrap()).unwrap();
    assert_eq!(first, second);
    assert_eq!(cache.len(), 1);
    assert!(std::ptr::eq(cache.get(first), cache.get(second)));
}

#[test]
fn distinct_keys_get_consecutive_identifiers() {
    let pipeline = mesh_pipeline();
    let mut cache = SpecializedPipelines::new();
    let a = Mesh2dPipelineKey::encode(false, 1, 3).unwrap();
    let b = Mesh2dPipelineKey::encode(false, 4, 3).unwrap();
    let c = Mesh2dPipelineKey::encode(true, 4, 3).unwrap();
    assert_eq!(cache.specialize(&pipeline, a), Ok(CachedPipelineId(0)));
    assert_eq!(cache.specialize(&pipeline, b), Ok(CachedPipelineId(1)));
    assert_eq!(cache.specialize(&pipeline, a), Ok(CachedPipelineId(0)));
    assert_eq!(cache.specialize(&pipeline, c), Ok(CachedPipelineId(2)));
    assert_eq!(cache.specialize(&pipeline, b), Ok(CachedPipelineId(1)));
    assert_eq!(cache.len(), 3);
    assert_eq!(cache.get(CachedPipelineId(1)).multisample.count, 4);
    assert_eq!(cache.get(CachedPipelineId(2)).vertex.buffers[0].array_stride, 48);
    assert_eq!(cache.get(CachedPipelineId(0)).vertex.buffers[0].array_stride, 32);
}

#[test]
fn cached_variant_is_the_specialized_one() {
    let pipeline = mesh_pipeline();
    let mut cache = SpecializedPipelines::new();
    let key = Mesh2dPipelineKey::encode(true, 2, 1).unwrap();
    let id = cache.specialize(&pipeline, key).unwrap();
    assert_eq!(*cache.get(id), pipeline.specialize(key));
}

#[test]
fn lookup_finds_only_built_keys() {
    let pipeline = mesh_pipeline();
    let mut cache = SpecializedPipelines::new();
    let key = Mesh2dPipelineKey::encode(false, 2, 0).unwrap();
    assert_eq!(cache.lookup(key), None);
    let id = cache.specialize(&pipeline, key).unwrap();
    assert_eq!(cache.lookup(key), Some(id));
    assert_eq!(cache.lookup(Mesh2dPipelineKey::empty()), None);
}

#[test]
fn refused_variant_fails_for_its_key_only_and_for_good() {
    let pipeline = mesh_pipeline();
    let mut cache = SpecializedPipelines::new();
    let refused = Mesh2dPipelineKey::encode(false, 64, 3).unwrap();
    let fine = Mesh2dPipelineKey::encode(false, 4, 3).unwrap();
    let refused_id = cache.specialize(&pipeline, refused).unwrap();
    let fine_id = cache.specialize(&pipeline, fine).unwrap();
    assert!(!cache.has_failed(refused_id));
    cache.report_failure(refused_id);
    assert!(cache.has_failed(refused_id));
    assert!(!cache.has_failed(fine_id));
    let failure = Err(SpecializationFailed { id: refused_id });
    assert_eq!(cache.specialize(&pipeline, refused), failure);
    assert_eq!(cache.specialize(&pipeline, refused), failure);
    assert_eq!(cache.specialize(&pipeline, fine), Ok(fine_id));
    assert_eq!(cache.len(), 2);
    assert_eq!(cache.lookup(refused), Some(refused_id));
}
