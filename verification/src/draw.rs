//! The draw command sequence: for each item, bind the view group, bind the
//! mesh group at the item's offset, then draw the item's mesh.

use vstd::prelude::*;
use crate::assets::{GpuBufferInfo, GpuMesh, Mesh2dHandle, RenderAssets, HandleId};
use crate::bind_group::{Mesh2dBindGroup, Mesh2dViewBindGroup};
use crate::extract::{Entity, ExtractedMesh2d};
use crate::gpu::{BindGroupId, BufferId, IndexFormat};
use crate::key::Mesh2dPipelineKey;
use crate::uniform::{ComponentUniforms, Mesh2dUniform, MAX_RECORDS};

verus! {

/// Bind group slot of the view group.
pub const VIEW_BIND_GROUP_INDEX: usize = 0;

/// Bind group slot of the mesh group; the slot between belongs to the
/// material.
pub const MESH_BIND_GROUP_INDEX: usize = 2;

/// Whether a command did its work for an item.
#[derive(Clone, Copy, Debug, PartialEq, Eq, Hash, Structural)]
pub enum RenderCommandResult {
    Success,
    Failure,
}

/// One command to record into a render pass.
#[derive(Clone, Copy, Debug, PartialEq, Eq, Hash, Structural)]
pub enum RenderCommand {
    SetBindGroup { index: usize, bind_group: BindGroupId, dynamic_offset: u32 },
    SetVertexBuffer { slot: u32, buffer: BufferId },
    SetIndexBuffer { buffer: BufferId, offset: u64, index_format: IndexFormat },
    DrawIndexed {
        first_index: u32,
        end_index: u32,
        base_vertex: i32,
        first_instance: u32,
        end_instance: u32,
    },
    Draw { first_vertex: u32, end_vertex: u32, first_instance: u32, end_instance: u32 },
}

/// Where the view uniform of a view lies in the view uniform buffer.
#[derive(Clone, Copy, Debug, PartialEq, Eq, Hash, Structural)]
pub struct ViewUniformOffset {
    pub offset: u32,
}

/// Where the uniform record of an item lies in the mesh uniform buffer.
#[derive(Clone, Copy, Debug, PartialEq, Eq, Hash, Structural)]
pub struct DynamicUniformIndex {
    pub index: u32,
}

/// What the draw sequence needs of one object.
#[derive(Clone, Copy, Debug, PartialEq, Eq, Structural)]
pub struct DrawItem {
    pub entity: Entity,
    pub uniform_index: DynamicUniformIndex,
    pub mesh: Mesh2dHandle,
    pub key: Mesh2dPipelineKey,
}

/// Binds the view group at slot `I`.
pub struct SetMesh2dViewBindGroup<const I: usize>;

/// Binds the mesh group at slot `I`.
pub struct SetMesh2dBindGroup<const I: usize>;

/// Draws the mesh of an item.
pub struct DrawMesh2d;

/// The commands that draw an uploaded mesh once: an indexed mesh binds its
/// index buffer and draws all its indices from base vertex 0; a mesh
/// without indices draws all its vertices. One instance either way.
pub open spec fn mesh_commands(gpu_mesh: GpuMesh) -> Seq<RenderCommand> {
    match gpu_mesh.buffer_info {
        GpuBufferInfo::Indexed { buffer, count, index_format } => seq![
            RenderCommand::SetVertexBuffer { slot: 0, buffer: gpu_mesh.vertex_buffer },
            RenderCommand::SetIndexBuffer { buffer, offset: 0, index_format },
            RenderCommand::DrawIndexed {
                first_index: 0,
                end_index: count,
                base_vertex: 0,
                first_instance: 0,
                end_instance: 1,
            },
        ],
        GpuBufferInfo::NonIndexed { vertex_count } => seq![
            RenderCommand::SetVertexBuffer { slot: 0, buffer: gpu_mesh.vertex_buffer },
            RenderCommand::Draw {
                first_vertex: 0,
                end_vertex: vertex_count,
                first_instance: 0,
                end_instance: 1,
            },
        ],
    }
}

/// The commands of the draw step for a mesh handle: those of the mesh it
/// resolves to, or none where it does not resolve.
pub open spec fn draw_commands(meshes: Map<HandleId, GpuMesh>, mesh: HandleId) -> Seq<
    RenderCommand,
> {
    if meshes.contains_key(mesh) {
        mesh_commands(meshes[mesh])
    } else {
        Seq::empty()
    }
}

/// The outcome of the draw step for a mesh handle.
pub open spec fn draw_result(meshes: Map<HandleId, GpuMesh>, mesh: HandleId) -> RenderCommandResult {
    if meshes.contains_key(mesh) {
        RenderCommandResult::Success
    } else {
        RenderCommandResult::Failure
    }
}

/// The commands of one item, in order: view group, mesh group at the item's
/// offset, draw.
pub open spec fn item_commands(
    view_group: BindGroupId,
    view_offset: u32,
    mesh_group: BindGroupId,
    item: DrawItem,
    meshes: Map<HandleId, GpuMesh>,
) -> Seq<RenderCommand> {
    seq![
        RenderCommand::SetBindGroup {
            index: 0,
            bind_group: view_group,
            dynamic_offset: view_offset,
        },
        RenderCommand::SetBindGroup {
            index: 2,
            bind_group: mesh_group,
            dynamic_offset: item.uniform_index.index,
        },
    ] + draw_commands(meshes, item.mesh.id)
}

/// The commands of the first `n` items, item after item.
pub open spec fn sequence_commands(
    view_group: BindGroupId,
    view_offset: u32,
    mesh_group: BindGroupId,
    items: Seq<DrawItem>,
    meshes: Map<HandleId, GpuMesh>,
    n: nat,
) -> Seq<RenderCommand>
    decreases n,
{
    if n == 0 {
        Seq::empty()
    } else {
        sequence_commands(view_group, view_offset, mesh_group, items, meshes, (n - 1) as nat)
            + item_commands(view_group, view_offset, mesh_group, items[n - 1], meshes)
    }
}

impl<const I: usize> SetMesh2dViewBindGroup<I> {
    /// Records the binding of the view's group at the view's offset.
    pub fn render(
        view_uniform: &ViewUniformOffset,
        mesh2d_view_bind_group: &Mesh2dViewBindGroup,
        pass: &mut Vec<RenderCommand>,
    ) -> (r: RenderCommandResult)
        ensures
            r == RenderCommandResult::Success,
            final(pass)@ == old(pass)@.push(
                RenderCommand::SetBindGroup {
                    index: I,
                    bind_group: mesh2d_view_bind_group.value.id,
                    dynamic_offset: view_uniform.offset,
                },
            ),
    {
        pass.push(
            RenderCommand::SetBindGroup {
                index: I,
                bind_group: mesh2d_view_bind_group.value.id,
                dynamic_offset: view_uniform.offset,
            },
        );
        RenderCommandResult::Success
    }
}

impl<const I: usize> SetMesh2dBindGroup<I> {
    /// Records the binding of the mesh group at the item's offset.
    pub fn render(
        mesh2d_bind_group: &Mesh2dBindGroup,
        mesh2d_index: &DynamicUniformIndex,
        pass: &mut Vec<RenderCommand>,
    ) -> (r: RenderCommandResult)
        ensures
            r == RenderCommandResult::Success,
            final(pass)@ == old(pass)@.push(
                RenderCommand::SetBindGroup {
                    index: I,
                    bind_group: mesh2d_bind_group.value.id,
                    dynamic_offset: mesh2d_index.index,
                },
            ),
    {
        pass.push(
            RenderCommand::SetBindGroup {
                index: I,
                bind_group: mesh2d_bind_group.value.id,
                dynamic_offset: mesh2d_index.index,
            },
        );
        RenderCommandResult::Success
    }
}

impl DrawMesh2d {
    /// Records the draw of the mesh that `mesh_handle` resolves to. Where
    /// it does not resolve, nothing is recorded and the command fails.
    pub fn render(
        meshes: &RenderAssets<GpuMesh>,
        mesh_handle: &Mesh2dHandle,
        pass: &mut Vec<RenderCommand>,
    ) -> (r: RenderCommandResult)
        ensures
            r == draw_result(meshes@, mesh_handle.id),
            final(pass)@ == old(pass)@ + draw_commands(meshes@, mesh_handle.id),
    {
        if let Some(gpu_mesh) = meshes.get(mesh_handle.id) {
            pass.push(RenderCommand::SetVertexBuffer { slot: 0, buffer: gpu_mesh.vertex_buffer });
            match gpu_mesh.buffer_info {
                GpuBufferInfo::Indexed { buffer, index_format, count } => {
                    pass.push(RenderCommand::SetIndexBuffer { buffer, offset: 0, index_format });
                    pass.push(
                        RenderCommand::DrawIndexed {
                            first_index: 0,
                            end_index: count,
                            base_vertex: 0,
                            first_instance: 0,
                            end_instance: 1,
                        },
                    );
                },
                GpuBufferInfo::NonIndexed { vertex_count } => {
                    pass.push(
                        RenderCommand::Draw {
                            first_vertex: 0,
                            end_vertex: vertex_count,
                            first_instance: 0,
                            end_instance: 1,
                        },
                    );
                },
            }
            assert(pass@ =~= old(pass)@ + draw_commands(meshes@, mesh_handle.id));
            RenderCommandResult::Success
        } else {
            assert(pass@ =~= old(pass)@ + draw_commands(meshes@, mesh_handle.id));
            RenderCommandResult::Failure
        }
    }
}

/// Runs the three commands of one item in order and stops at the first
/// that fails.
pub fn draw_mesh2d(
    view_uniform: &ViewUniformOffset,
    mesh2d_view_bind_group: &Mesh2dViewBindGroup,
    mesh2d_bind_group: &Mesh2dBindGroup,
    item: &DrawItem,
    meshes: &RenderAssets<GpuMesh>,
    pass: &mut Vec<RenderCommand>,
) -> (r: RenderCommandResult)
    ensures
        r == draw_result(meshes@, item.mesh.id),
        final(pass)@ == old(pass)@ + item_commands(
            mesh2d_view_bind_group.value.id,
            view_uniform.offset,
            mesh2d_bind_group.value.id,
            *item,
            meshes@,
        ),
{
    if let RenderCommandResult::Failure = SetMesh2dViewBindGroup::<
        VIEW_BIND_GROUP_INDEX,
    >::render(view_uniform, mesh2d_view_bind_group, pass) {
        return RenderCommandResult::Failure;
    }
    if let RenderCommandResult::Failure = SetMesh2dBindGroup::<MESH_BIND_GROUP_INDEX>::render(
        mesh2d_bind_group,
        &item.uniform_index,
        pass,
    ) {
        return RenderCommandResult::Failure;
    }
    let r = DrawMesh2d::render(meshes, &item.mesh, pass);
    assert(pass@ =~= old(pass)@ + item_commands(
        mesh2d_view_bind_group.value.id,
        view_uniform.offset,
        mesh2d_bind_group.value.id,
        *item,
        meshes@,
    ));
    r
}

/// Records the commands of every item, in order, and gives the outcome of
/// each. An item whose mesh does not resolve fails alone: the items after
/// it are drawn all the same.
pub fn draw_items(
    view_uniform: &ViewUniformOffset,
    mesh2d_view_bind_group: &Mesh2dViewBindGroup,
    mesh2d_bind_group: &Mesh2dBindGroup,
    items: &Vec<DrawItem>,
    meshes: &RenderAssets<GpuMesh>,
    pass: &mut Vec<RenderCommand>,
) -> (results: Vec<RenderCommandResult>)
    ensures
        results@.len() == items@.len(),
        forall|i: int|
            0 <= i < items@.len() ==> #[trigger] results@[i] == draw_result(
                meshes@,
                items@[i].mesh.id,
            ),
        final(pass)@ == old(pass)@ + sequence_commands(
            mesh2d_view_bind_group.value.id,
            view_uniform.offset,
            mesh2d_bind_group.value.id,
            items@,
            meshes@,
            items@.len(),
        ),
{
    let mut results: Vec<RenderCommandResult> = Vec::new();
    let mut i: usize = 0;
    assert(pass@ =~= old(pass)@ + sequence_commands(
        mesh2d_view_bind_group.value.id,
        view_uniform.offset,
        mesh2d_bind_group.value.id,
        items@,
        meshes@,
        0,
    ));
    while i < items.len()
        invariant
            i <= items@.len(),
            results@.len() == i,
            forall|j: int|
                0 <= j < i ==> #[trigger] results@[j] == draw_result(meshes@, items@[j].mesh.id),
            pass@ == old(pass)@ + sequence_commands(
                mesh2d_view_bind_group.value.id,
                view_uniform.offset,
                mesh2d_bind_group.value.id,
                items@,
                meshes@,
                i as nat,
            ),
        decreases items@.len() - i,
    {
        let result = draw_mesh2d(
            view_uniform,
            mesh2d_view_bind_group,
            mesh2d_bind_group,
            &items[i],
            meshes,
            pass,
        );
        results.push(result);
        assert(pass@ =~= old(pass)@ + sequence_commands(
            mesh2d_view_bind_group.value.id,
            view_uniform.offset,
            mesh2d_bind_group.value.id,
            items@,
            meshes@,
            (i + 1) as nat,
        ));
        i += 1;
    }
    results
}

/// The uniform that the aggregator holds for an extracted record.
pub open spec fn uniforms_of(extracted: Seq<ExtractedMesh2d>) -> Seq<Mesh2dUniform> {
    extracted.map_values(|record: ExtractedMesh2d| record.uniform)
}

/// Hands the uniforms of the extracted records to the aggregator, in
/// order, and gives the draw item of each record: its entity, the offset
/// the aggregator assigned, its mesh, and `key`.
pub fn prepare_draw_items(
    extracted: &Vec<ExtractedMesh2d>,
    uniforms: &mut ComponentUniforms,
    key: Mesh2dPipelineKey,
) -> (items: Vec<DrawItem>)
    requires
        old(uniforms).wf(),
        extracted@.len() <= MAX_RECORDS,
    ensures
        final(uniforms).wf(),
        final(uniforms).records() == uniforms_of(extracted@),
        final(uniforms).reserved() == old(uniforms).reserved(),
        final(uniforms).buffer() == old(uniforms).buffer(),
        items@.len() == extracted@.len(),
        forall|i: int|
            0 <= i < items@.len() ==> #[trigger] items@[i] == (DrawItem {
                entity: extracted@[i].entity,
                uniform_index: DynamicUniformIndex { index: (256 * i) as u32 },
                mesh: extracted@[i].mesh,
                key,
            }),
{
    uniforms.clear();
    let mut items: Vec<DrawItem> = Vec::new();
    let mut i: usize = 0;
    assert(uniforms.records() =~= uniforms_of(extracted@.take(0)));
    while i < extracted.len()
        invariant
            i <= extracted@.len(),
            extracted@.len() <= MAX_RECORDS,
            uniforms.wf(),
            uniforms.records() == uniforms_of(extracted@.take(i as int)),
            uniforms.reserved() == old(uniforms).reserved(),
            uniforms.buffer() == old(uniforms).buffer(),
            items@.len() == i,
            forall|j: int|
                0 <= j < i ==> #[trigger] items@[j] == (DrawItem {
                    entity: extracted@[j].entity,
                    uniform_index: DynamicUniformIndex { index: (256 * j) as u32 },
                    mesh: extracted@[j].mesh,
                    key,
                }),
        decreases extracted@.len() - i,
    {
        let record = &extracted[i];
        let index = uniforms.push(record.uniform);
        items.push(
            DrawItem {
                entity: record.entity,
                uniform_index: DynamicUniformIndex { index },
                mesh: record.mesh,
                key,
            },
        );
        assert(uniforms.records() =~= uniforms_of(extracted@.take(i + 1)));
        i += 1;
    }
    assert(extracted@.take(i as int) =~= extracted@);
    items
}

} // verus!
