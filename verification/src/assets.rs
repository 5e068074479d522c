//! Handles to assets that live in a registry outside this library, and the
//! registry of what has been uploaded to the GPU.

use vstd::prelude::*;
use crate::gpu::{BufferId, IndexFormat};

verus! {

/// Identity of an asset: either a type and a number, or the hashes of the
/// path and label it was loaded from.
#[derive(Clone, Copy, Debug, PartialEq, Eq, Hash, Structural)]
pub enum HandleId {
    Id { type_uuid: u128, id: u64 },
    AssetPathId { source_path_id: u64, label_id: u64 },
}

/// A reference to mesh geometry. A weak handle only looks the mesh up; it
/// does not keep the mesh alive.
#[derive(Clone, Copy, Debug, PartialEq, Eq, Hash, Structural)]
pub struct Mesh2dHandle {
    pub id: HandleId,
    pub strong: bool,
}

impl Mesh2dHandle {
    /// A handle that does not keep the mesh alive.
    pub fn weak(id: HandleId) -> (r: Mesh2dHandle)
        ensures
            r == (Mesh2dHandle { id, strong: false }),
    {
        Mesh2dHandle { id, strong: false }
    }

    /// A handle that keeps the mesh alive.
    pub fn strong(id: HandleId) -> (r: Mesh2dHandle)
        ensures
            r == (Mesh2dHandle { id, strong: true }),
    {
        Mesh2dHandle { id, strong: true }
    }

    /// A weak handle to the same mesh.
    pub open spec fn clone_weak_spec(&self) -> Mesh2dHandle {
        Mesh2dHandle { id: self.id, strong: false }
    }

    #[verifier::when_used_as_spec(clone_weak_spec)]
    pub fn clone_weak(&self) -> (r: Mesh2dHandle)
        ensures
            r == self.clone_weak_spec(),
    {
        Mesh2dHandle { id: self.id, strong: false }
    }
}

/// How the vertices of an uploaded mesh are drawn.
#[derive(Clone, Copy, Debug, PartialEq, Eq, Hash, Structural)]
pub enum GpuBufferInfo {
    Indexed { buffer: BufferId, count: u32, index_format: IndexFormat },
    NonIndexed { vertex_count: u32 },
}

/// A mesh that has been uploaded to the GPU.
#[derive(Clone, Copy, Debug, PartialEq, Eq, Hash, Structural)]
pub struct GpuMesh {
    pub vertex_buffer: BufferId,
    pub buffer_info: GpuBufferInfo,
}

/// The asset that `id` resolves to among `entries`; a later entry replaces
/// an earlier one with the same id.
pub open spec fn resolve<A>(entries: Seq<(HandleId, A)>, id: HandleId, n: nat) -> Option<A>
    decreases n,
{
    if n == 0 {
        None
    } else if entries[n - 1].0 == id {
        Some(entries[n - 1].1)
    } else {
        resolve(entries, id, (n - 1) as nat)
    }
}

/// The uploaded assets that handles resolve to.
pub struct RenderAssets<A> {
    entries: Vec<(HandleId, A)>,
}

impl<A> View for RenderAssets<A> {
    type V = Map<HandleId, A>;

    closed spec fn view(&self) -> Map<HandleId, A> {
        Map::new(
            |id: HandleId| resolve(self.entries@, id, self.entries@.len()).is_some(),
            |id: HandleId| resolve(self.entries@, id, self.entries@.len()).unwrap(),
        )
    }
}

impl<A> RenderAssets<A> {
    /// A registry in which no handle resolves.
    pub fn new() -> (r: RenderAssets<A>)
        ensures
            r@ == Map::<HandleId, A>::empty(),
    {
        let r = RenderAssets { entries: Vec::new() };
        assert(r@ =~= Map::<HandleId, A>::empty());
        r
    }

    /// Makes `id` resolve to `asset` from now on.
    pub fn insert(&mut self, id: HandleId, asset: A)
        ensures
            final(self)@ == old(self)@.insert(id, asset),
    {
        self.entries.push((id, asset));
        proof {
            let before = old(self).entries@;
            let after = self.entries@;
            assert(after.len() == before.len() + 1);
            assert forall|k: HandleId|
                resolve(after, k, after.len()) == (if k == id {
                    Some(asset)
                } else {
                    resolve(before, k, before.len())
                }) by {
                if k != id {
                    lemma_resolve_prefix(before, after, k, before.len());
                }
            }
            assert(self@ =~= old(self)@.insert(id, asset));
        }
    }

    /// The asset that `id` resolves to, if it has been uploaded.
    pub fn get(&self, id: HandleId) -> (r: Option<&A>)
        ensures
            self@.contains_key(id) ==> r == Some(&self@[id]),
            !self@.contains_key(id) ==> r.is_none(),
    {
        let mut i: usize = self.entries.len();
        while i > 0
            invariant
                i <= self.entries@.len(),
                resolve(self.entries@, id, self.entries@.len()) == resolve(
                    self.entries@,
                    id,
                    i as nat,
                ),
            decreases i,
        {
            i -= 1;
            if self.entries[i].0 == id {
                return Some(&self.entries[i].1);
            }
        }
        None
    }
}

proof fn lemma_resolve_prefix<A>(a: Seq<(HandleId, A)>, b: Seq<(HandleId, A)>, id: HandleId, n: nat)
    requires
        n <= a.len(),
        n <= b.len(),
        forall|i: int| 0 <= i < n ==> a[i] == b[i],
    ensures
        resolve(a, id, n) == resolve(b, id, n),
    decreases n,
{
    if n > 0 {
        lemma_resolve_prefix(a, b, id, (n - 1) as nat);
    }
}

} // verus!
