//! Bind groups: each frame builds one group for the mesh uniforms and one
//! for each view, and never reuses a group of an earlier frame.

use vstd::prelude::*;
use crate::extract::Entity;
use crate::gpu::{
    BindGroupDescriptor, BindGroupEntry, BindGroupId, BindGroupLayoutId, BufferBinding,
};
use crate::pipeline::Mesh2dPipeline;
use crate::uniform::ComponentUniforms;

verus! {

/// A buffer region bound to the slots of a layout. A group is built once
/// and not changed afterwards.
#[derive(Clone, Debug, PartialEq, Eq)]
pub struct BindGroup {
    pub id: BindGroupId,
    pub descriptor: BindGroupDescriptor,
}

/// The bind group of the mesh uniforms for one frame.
#[derive(Clone, Debug, PartialEq, Eq)]
pub struct Mesh2dBindGroup {
    pub value: BindGroup,
}

/// The bind group of one view for one frame.
#[derive(Clone, Debug, PartialEq, Eq)]
pub struct Mesh2dViewBindGroup {
    pub value: BindGroup,
}

/// Hands out the identities of bind groups, each one once.
pub struct BindGroupAllocator {
    next: u64,
}

/// Whether `group` has identity `id` and binds `resource`, with a dynamic
/// offset, to binding 0 of `layout`.
pub open spec fn is_uniform_bind_group(
    group: BindGroup,
    id: int,
    label: Seq<char>,
    layout: BindGroupLayoutId,
    resource: BufferBinding,
) -> bool {
    &&& group.id.0 == id
    &&& group.descriptor.label matches Some(l) && l@ == label
    &&& group.descriptor.layout == layout
    &&& group.descriptor.entries@ == seq![BindGroupEntry { binding: 0, resource }]
}

impl BindGroupAllocator {
    /// How many identities have been handed out; every identity handed out
    /// so far is below this number.
    pub closed spec fn issued(&self) -> nat {
        self.next as nat
    }

    /// How many identities are left.
    pub open spec fn remaining(&self) -> int {
        u64::MAX - self.issued()
    }

    pub fn new() -> (r: BindGroupAllocator)
        ensures
            r.issued() == 0,
    {
        BindGroupAllocator { next: 0 }
    }

    /// Whether `count` more identities can be handed out.
    pub fn has_room(&self, count: usize) -> (r: bool)
        ensures
            r == (count <= self.remaining()),
    {
        count as u64 <= u64::MAX - self.next
    }

    /// Builds a group with a fresh identity that binds `resource` to
    /// binding 0 of `layout`.
    pub fn create_bind_group(
        &mut self,
        label: &'static str,
        layout: BindGroupLayoutId,
        resource: BufferBinding,
    ) -> (group: BindGroup)
        requires
            old(self).remaining() >= 1,
        ensures
            final(self).issued() == old(self).issued() + 1,
            is_uniform_bind_group(group, old(self).issued() as int, label@, layout, resource),
    {
        let id = BindGroupId(self.next);
        self.next = self.next + 1;
        let entries = vec![BindGroupEntry { binding: 0, resource }];
        assert(entries@ =~= seq![BindGroupEntry { binding: 0, resource }]);
        BindGroup { id, descriptor: BindGroupDescriptor { entries, label: Some(label), layout } }
    }
}

/// Builds the mesh bind group for the frame: the whole uniform buffer at
/// binding 0 of the mesh layout. A frame whose uniforms have no binding
/// gets no group, and no identity is used.
pub fn queue_mesh2d_bind_group(
    device: &mut BindGroupAllocator,
    mesh2d_pipeline: &Mesh2dPipeline,
    mesh2d_uniforms: &ComponentUniforms,
) -> (r: Option<Mesh2dBindGroup>)
    requires
        mesh2d_uniforms.records().len() > 0 && mesh2d_uniforms.buffer().is_some() ==> old(
            device,
        ).remaining() >= 1,
    ensures
        mesh2d_uniforms.records().len() == 0 || mesh2d_uniforms.buffer().is_none() ==> r.is_none()
            && final(device).issued() == old(device).issued(),
        mesh2d_uniforms.records().len() > 0 && mesh2d_uniforms.buffer().is_some() ==> r.is_some()
            && final(device).issued() == old(device).issued() + 1 && is_uniform_bind_group(
            r.unwrap().value,
            old(device).issued() as int,
            "mesh2d_bind_group"@,
            mesh2d_pipeline.mesh_layout,
            BufferBinding {
                buffer: mesh2d_uniforms.buffer().unwrap(),
                offset: 0,
                size: Some(256u64),
            },
        ),
{
    if let Some(binding) = mesh2d_uniforms.binding() {
        Some(
            Mesh2dBindGroup {
                value: device.create_bind_group(
                    "mesh2d_bind_group",
                    mesh2d_pipeline.mesh_layout,
                    binding,
                ),
            },
        )
    } else {
        None
    }
}

/// Builds one view bind group for each view, in the order of `views`: the
/// view uniform buffer at binding 0 of the view layout. Every group has an
/// identity that no earlier group has. Without view uniforms nothing is
/// built.
pub fn queue_mesh2d_view_bind_groups(
    device: &mut BindGroupAllocator,
    mesh2d_pipeline: &Mesh2dPipeline,
    view_uniforms: Option<BufferBinding>,
    views: &Vec<Entity>,
) -> (r: Vec<(Entity, Mesh2dViewBindGroup)>)
    requires
        view_uniforms.is_some() ==> old(device).remaining() >= views@.len(),
    ensures
        view_uniforms.is_none() ==> r@.len() == 0 && final(device).issued() == old(
            device,
        ).issued(),
        view_uniforms.is_some() ==> r@.len() == views@.len() && final(device).issued() == old(
            device,
        ).issued() + views@.len(),
        forall|i: int|
            0 <= i < r@.len() ==> (#[trigger] r@[i]).0 == views@[i] && is_uniform_bind_group(
                r@[i].1.value,
                old(device).issued() + i,
                "mesh2d_view_bind_group"@,
                mesh2d_pipeline.view_layout,
                view_uniforms.unwrap(),
            ),
{
    let mut groups: Vec<(Entity, Mesh2dViewBindGroup)> = Vec::new();
    if let Some(view_binding) = view_uniforms {
        let mut i: usize = 0;
        while i < views.len()
            invariant
                i <= views@.len(),
                view_uniforms == Some(view_binding),
                old(device).remaining() >= views@.len(),
                device.issued() == old(device).issued() + i,
                groups@.len() == i,
                forall|j: int|
                    0 <= j < i ==> (#[trigger] groups@[j]).0 == views@[j]
                        && is_uniform_bind_group(
                        groups@[j].1.value,
                        old(device).issued() + j,
                        "mesh2d_view_bind_group"@,
                        mesh2d_pipeline.view_layout,
                        view_binding,
                    ),
            decreases views@.len() - i,
        {
            let entity = views[i];
            let view_bind_group = device.create_bind_group(
                "mesh2d_view_bind_group",
                mesh2d_pipeline.view_layout,
                view_binding,
            );
            groups.push((entity, Mesh2dViewBindGroup { value: view_bind_group }));
            i += 1;
        }
    }
    groups
}

/// Groups built by two calls never share an identity: the second call
/// starts where the first stopped, so a group of the earlier frame is none
/// of the groups of the later one.
pub proof fn lemma_rebuilt_groups_are_distinct(
    earlier: BindGroup,
    later: BindGroup,
    first_issued: nat,
    first_count: nat,
    second_issued: nat,
    i: int,
    j: int,
)
    requires
        0 <= i < first_count,
        0 <= j,
        first_issued + first_count <= second_issued,
        earlier.id.0 == first_issued + i,
        later.id.0 == second_issued + j,
    ensures
        earlier.id != later.id,
        earlier != later,
{
}

} // verus!
