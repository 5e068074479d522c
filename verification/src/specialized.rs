//! The cache of pipeline variants: each key is specialized once and keeps
//! the identifier it was given for as long as the cache lives.

use vstd::prelude::*;
use std::collections::HashMap;
use crate::gpu::RenderPipelineDescriptor;
use crate::key::Mesh2dPipelineKey;
use crate::pipeline::{is_specialized, target_format, Mesh2dPipeline};

verus! {

broadcast use vstd::std_specs::hash::group_hash_axioms;

/// Identifier of a cached pipeline variant: its place in the order in which
/// the variants were built.
#[derive(Clone, Copy, Debug, PartialEq, Eq, Hash, Structural)]
pub struct CachedPipelineId(pub usize);

/// The cache after `key` is asked for, and the identifier that `key` gets:
/// a key that was built before keeps its place and nothing is built; a new
/// key is built and takes the next place.
pub open spec fn after_request(built: Seq<u32>, key: u32) -> (Seq<u32>, int) {
    if built.contains(key) {
        (built, built.index_of(key))
    } else {
        (built.push(key), built.len() as int)
    }
}

/// The variant with this identifier was refused by the device.
#[derive(Clone, Copy, Debug, PartialEq, Eq, Structural)]
pub struct SpecializationFailed {
    pub id: CachedPipelineId,
}

/// Pipeline variants by key. Nothing is ever evicted.
pub struct SpecializedPipelines {
    cache: HashMap<u32, usize>,
    keys: Vec<u32>,
    descriptors: Vec<RenderPipelineDescriptor>,
    failed: Vec<bool>,
}

impl SpecializedPipelines {
    /// The key words in the order in which their variants were built.
    pub closed spec fn built(&self) -> Seq<u32> {
        self.keys@
    }

    /// The variants in the order in which they were built.
    pub closed spec fn variants(&self) -> Seq<RenderPipelineDescriptor> {
        self.descriptors@
    }

    /// For each variant, whether the device has refused it.
    pub closed spec fn failures(&self) -> Seq<bool> {
        self.failed@
    }

    /// Each built key has one variant and one place, and the lookup table
    /// agrees with the build order.
    pub closed spec fn wf(&self) -> bool {
        &&& self.keys@.len() == self.descriptors@.len()
        &&& self.keys@.len() == self.failed@.len()
        &&& forall|i: int|
            0 <= i < self.keys@.len() ==> self.cache@.contains_key(#[trigger] self.keys@[i])
                && self.cache@[self.keys@[i]] == i
        &&& forall|k: u32| #[trigger]
            self.cache@.contains_key(k) ==> self.cache@[k] < self.keys@.len()
                && self.keys@[self.cache@[k] as int] == k
    }

    /// An empty cache.
    pub fn new() -> (r: SpecializedPipelines)
        ensures
            r.wf(),
            r.built() == Seq::<u32>::empty(),
            r.variants() == Seq::<RenderPipelineDescriptor>::empty(),
            r.failures() == Seq::<bool>::empty(),
    {
        SpecializedPipelines {
            cache: HashMap::new(),
            keys: Vec::new(),
            descriptors: Vec::new(),
            failed: Vec::new(),
        }
    }

    /// How many variants have been built.
    pub fn len(&self) -> (r: usize)
        requires
            self.wf(),
        ensures
            r == self.built().len(),
            r == self.variants().len(),
            r == self.failures().len(),
    {
        self.descriptors.len()
    }

    /// The identifier of the variant for `key`, if it has been built.
    pub fn lookup(&self, key: Mesh2dPipelineKey) -> (r: Option<CachedPipelineId>)
        requires
            self.wf(),
        ensures
            self.built().contains(key@) ==> r == Some(
                CachedPipelineId(self.built().index_of(key@) as usize),
            ) && self.built().index_of(key@) < self.built().len() && self.built()[self.built().index_of(
                key@,
            )] == key@,
            !self.built().contains(key@) ==> r.is_none(),
    {
        let bits: u32 = key.bits();
        proof {
            lemma_wf_no_duplicates(*self);
        }
        match self.cache.get(&bits) {
            Some(found) => {
                let id: usize = *found;
                proof {
                    assert(self.keys@[id as int] == bits);
                    self.keys@.index_of_first_ensures(bits);
                    let first = self.keys@.index_of(bits);
                    assert(self.keys@[first] == bits);
                }
                Some(CachedPipelineId(id))
            },
            None => {
                assert(!self.keys@.contains(bits)) by {
                    if self.keys@.contains(bits) {
                        let i = choose|i: int| 0 <= i < self.keys@.len() && self.keys@[i] == bits;
                        assert(self.cache@.contains_key(self.keys@[i]));
                    }
                }
                None
            },
        }
    }

    /// The identifier of the variant for `key`, building the variant from
    /// `pipeline` first if the key has not been seen. A key whose variant
    /// the device has refused gets the failure instead, every time it is
    /// asked for.
    pub fn specialize(&mut self, pipeline: &Mesh2dPipeline, key: Mesh2dPipelineKey) -> (r: Result<
        CachedPipelineId,
        SpecializationFailed,
    >)
        requires
            old(self).wf(),
        ensures
            final(self).wf(),
            final(self).built() == after_request(old(self).built(), key@).0,
            final(self).built()[after_request(old(self).built(), key@).1] == key@,
            r == (if final(self).failures()[after_request(old(self).built(), key@).1] {
                Err::<CachedPipelineId, SpecializationFailed>(
                    SpecializationFailed {
                        id: CachedPipelineId(after_request(old(self).built(), key@).1 as usize),
                    },
                )
            } else {
                Ok::<CachedPipelineId, SpecializationFailed>(
                    CachedPipelineId(after_request(old(self).built(), key@).1 as usize),
                )
            }),
            old(self).built().contains(key@) ==> final(self).variants() == old(self).variants()
                && final(self).failures() == old(self).failures(),
            !old(self).built().contains(key@) ==> final(self).variants().len() == old(
                self,
            ).variants().len() + 1 && final(self).variants().drop_last() == old(self).variants()
                && final(self).failures() == old(self).failures().push(false) && is_specialized(
                final(self).variants().last(),
                *pipeline,
                key,
                target_format(final(self).variants().last()),
                false,
            ),
    {
        if let Some(id) = self.lookup(key) {
            return if self.failed[id.0] {
                Err(SpecializationFailed { id })
            } else {
                Ok(id)
            };
        }
        let bits: u32 = key.bits();
        let id: usize = self.descriptors.len();
        let descriptor = pipeline.specialize(key);
        self.descriptors.push(descriptor);
        self.keys.push(bits);
        self.failed.push(false);
        self.cache.insert(bits, id);
        proof {
            assert(self.descriptors@.drop_last() =~= old(self).descriptors@);
            assert forall|i: int| 0 <= i < self.keys@.len() implies self.cache@.contains_key(
                #[trigger] self.keys@[i],
            ) && self.cache@[self.keys@[i]] == i by {
                if i < old(self).keys@.len() {
                    assert(self.keys@[i] == old(self).keys@[i]);
                    assert(old(self).keys@.contains(old(self).keys@[i]));
                }
            }
            assert forall|k: u32| #[trigger] self.cache@.contains_key(k) implies self.cache@[k]
                < self.keys@.len() && self.keys@[self.cache@[k] as int] == k by {
                if k != bits {
                    assert(old(self).cache@.contains_key(k));
                }
            }
        }
        Ok(CachedPipelineId(id))
    }

    /// Records that the device refused the variant `id`. The refusal is
    /// final: nothing clears it.
    pub fn report_failure(&mut self, id: CachedPipelineId)
        requires
            old(self).wf(),
            id.0 < old(self).variants().len(),
        ensures
            final(self).wf(),
            final(self).built() == old(self).built(),
            final(self).variants() == old(self).variants(),
            final(self).failures() == old(self).failures().update(id.0 as int, true),
    {
        self.failed.set(id.0, true);
    }

    /// Whether the device has refused the variant `id`.
    pub fn has_failed(&self, id: CachedPipelineId) -> (r: bool)
        requires
            self.wf(),
            id.0 < self.variants().len(),
        ensures
            r == self.failures()[id.0 as int],
    {
        self.failed[id.0]
    }

    /// The variant with the given identifier.
    pub fn get(&self, id: CachedPipelineId) -> (r: &RenderPipelineDescriptor)
        requires
            self.wf(),
            id.0 < self.variants().len(),
        ensures
            *r == self.variants()[id.0 as int],
    {
        &self.descriptors[id.0]
    }
}

proof fn lemma_wf_no_duplicates(cache: SpecializedPipelines)
    requires
        cache.wf(),
    ensures
        cache.keys@.no_duplicates(),
{
    assert forall|i: int, j: int|
        0 <= i < cache.keys@.len() && 0 <= j < cache.keys@.len() && i != j implies cache.keys@[i]
        != cache.keys@[j] by {
        assert(cache.cache@[cache.keys@[i]] == i);
        assert(cache.cache@[cache.keys@[j]] == j);
    }
}

/// A well-formed cache holds no key twice: as many variants were built as
/// there are distinct keys.
pub proof fn lemma_built_once(cache: SpecializedPipelines)
    requires
        cache.wf(),
    ensures
        cache.built().no_duplicates(),
        cache.variants().len() == cache.built().len(),
{
    lemma_wf_no_duplicates(cache);
}

/// Asking for the same key twice gives the same identifier, and the second
/// request builds nothing: the cache after it is the cache before it. A
/// request never removes or moves a key, and it builds at most one variant.
pub proof fn lemma_request_twice(built: Seq<u32>, key: u32)
    requires
        built.no_duplicates(),
    ensures
        after_request(after_request(built, key).0, key) == after_request(built, key),
        after_request(built, key).0.no_duplicates(),
        after_request(built, key).0.len() <= built.len() + 1,
        forall|i: int| 0 <= i < built.len() ==> after_request(built, key).0[i] == built[i],
        after_request(built, key).0[after_request(built, key).1] == key,
{
    let (next, id) = after_request(built, key);
    if built.contains(key) {
        built.index_of_first_ensures(key);
    } else {
        assert(next[built.len() as int] == key);
        assert(next.contains(key));
        next.index_of_first_ensures(key);
        let first = next.index_of(key);
        if first < built.len() {
            assert(built[first] == key);
            assert(built.contains(key));
        }
        assert forall|i: int, j: int|
            0 <= i < next.len() && 0 <= j < next.len() && i != j implies next[i] != next[j] by {
            if i < built.len() && j < built.len() {
            } else if i < built.len() {
                assert(built.contains(built[i]));
            } else {
                assert(built.contains(built[j]));
            }
        }
    }
}

} // verus!
