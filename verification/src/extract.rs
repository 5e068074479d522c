//! Extraction: once per frame, the visible mesh entities of the simulation
//! become the records that the render stages consume.

use vstd::prelude::*;
use crate::assets::Mesh2dHandle;
use crate::uniform::{Mat4, Mesh2dUniform, MESH_FLAGS_NONE};

verus! {

/// Identity of an entity.
#[derive(Clone, Copy, Debug, PartialEq, Eq, Hash, Structural)]
pub struct Entity {
    pub id: u32,
    pub generation: u32,
}

/// What the simulation holds for one mesh entity: whether it is visible,
/// its world matrix with the inverse of that matrix, and its mesh.
#[derive(Clone, Copy, Debug, PartialEq, Eq)]
pub struct MeshEntity {
    pub entity: Entity,
    pub visible: bool,
    pub transform: Mat4,
    pub inverse_transform: Mat4,
    pub mesh: Mesh2dHandle,
}

/// What the render stages hold for one visible mesh entity.
#[derive(Clone, Copy, Debug, PartialEq, Eq)]
pub struct ExtractedMesh2d {
    pub entity: Entity,
    pub mesh: Mesh2dHandle,
    pub uniform: Mesh2dUniform,
}

/// The record of a visible entity: a weak handle to its mesh, its world
/// matrix, the transpose of the inverse, and no flags.
pub open spec fn extracted_record(source: MeshEntity) -> ExtractedMesh2d {
    ExtractedMesh2d {
        entity: source.entity,
        mesh: source.mesh.clone_weak_spec(),
        uniform: Mesh2dUniform {
            flags: 0,
            transform: source.transform,
            inverse_transpose_model: source.inverse_transform.transpose_spec(),
        },
    }
}

/// The records of the visible entities among the first `n`, in their order.
pub open spec fn extracted(query: Seq<MeshEntity>, n: nat) -> Seq<ExtractedMesh2d>
    decreases n,
{
    if n == 0 {
        Seq::empty()
    } else if query[n - 1].visible {
        extracted(query, (n - 1) as nat).push(extracted_record(query[n - 1]))
    } else {
        extracted(query, (n - 1) as nat)
    }
}

/// The render records for this frame: one for each visible entity, in the
/// order of `query`. Nothing of an earlier frame enters; `previous_len` only
/// sizes the batch and is set to the size of this one.
pub fn extract_mesh2d(previous_len: &mut usize, query: &Vec<MeshEntity>) -> (values: Vec<
    ExtractedMesh2d,
>)
    ensures
        values@ == extracted(query@, query@.len()),
        *final(previous_len) == values@.len(),
{
    let hint: usize = if *previous_len <= query.len() {
        *previous_len
    } else {
        query.len()
    };
    let mut values: Vec<ExtractedMesh2d> = Vec::with_capacity(hint);
    let mut i: usize = 0;
    while i < query.len()
        invariant
            i <= query@.len(),
            values@ == extracted(query@, i as nat),
        decreases query@.len() - i,
    {
        let source = &query[i];
        i += 1;
        if !source.visible {
            continue;
        }
        let transform = source.transform;
        values.push(
            ExtractedMesh2d {
                entity: source.entity,
                mesh: source.mesh.clone_weak(),
                uniform: Mesh2dUniform {
                    flags: MESH_FLAGS_NONE,
                    transform,
                    inverse_transpose_model: source.inverse_transform.transpose(),
                },
            },
        );
    }
    *previous_len = values.len();
    values
}

/// A record is extracted exactly when it is the record of a visible entity:
/// an entity that is not visible contributes nothing, and every visible one
/// contributes its record.
pub proof fn lemma_extracted_members(query: Seq<MeshEntity>, n: nat)
    requires
        n <= query.len(),
    ensures
        extracted(query, n).len() <= n,
        forall|i: int|
            0 <= i < extracted(query, n).len() ==> exists|j: int|
                0 <= j < n && query[j].visible && #[trigger] extracted(query, n)[i]
                    == extracted_record(query[j]),
        forall|j: int|
            0 <= j < n && query[j].visible ==> extracted(query, n).contains(
                #[trigger] extracted_record(query[j]),
            ),
    decreases n,
{
    if n > 0 {
        let m = (n - 1) as nat;
        lemma_extracted_members(query, m);
        let prev = extracted(query, m);
        let all = extracted(query, n);
        if query[n - 1].visible {
            assert forall|i: int| 0 <= i < all.len() implies exists|j: int|
                0 <= j < n && query[j].visible && #[trigger] all[i] == extracted_record(
                    query[j],
                ) by {
                if i < prev.len() {
                    assert(all[i] == prev[i]);
                    let j = choose|j: int|
                        0 <= j < m && query[j].visible && prev[i] == extracted_record(query[j]);
                    assert(0 <= j < n && query[j].visible && all[i] == extracted_record(
                        query[j],
                    ));
                } else {
                    assert(all[i] == extracted_record(query[n - 1]));
                }
            }
            assert forall|j: int| 0 <= j < n && query[j].visible implies all.contains(
                #[trigger] extracted_record(query[j]),
            ) by {
                if j < m {
                    let i = choose|i: int|
                        0 <= i < prev.len() && prev[i] == extracted_record(query[j]);
                    assert(all[i] == extracted_record(query[j]));
                } else {
                    assert(all[all.len() - 1] == extracted_record(query[j]));
                }
            }
        }
    }
}

/// Where no two entities of the query share an identity, an entity that is
/// not visible has no record in the output.
pub proof fn lemma_invisible_absent(query: Seq<MeshEntity>, hidden: int)
    requires
        0 <= hidden < query.len(),
        !query[hidden].visible,
        forall|a: int, b: int|
            0 <= a < b < query.len() ==> query[a].entity != query[b].entity,
    ensures
        forall|i: int|
            0 <= i < extracted(query, query.len()).len() ==> (#[trigger] extracted(
                query,
                query.len(),
            )[i]).entity != query[hidden].entity,
{
    lemma_extracted_members(query, query.len());
    let out = extracted(query, query.len());
    assert forall|i: int| 0 <= i < out.len() implies (#[trigger] out[i]).entity
        != query[hidden].entity by {
        let j = choose|j: int|
            0 <= j < query.len() && query[j].visible && out[i] == extracted_record(query[j]);
        assert(j != hidden);
        if j < hidden {
            assert(query[j].entity != query[hidden].entity);
        } else {
            assert(query[hidden].entity != query[j].entity);
        }
    }
}

} // verus!
