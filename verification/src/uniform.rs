//! Per-object uniform data: the record kept for each mesh, its byte layout,
//! and the aggregator that packs one frame's records into one buffer with a
//! dynamic offset for each.

use vstd::prelude::*;
use crate::gpu::{BufferBinding, BufferId};

verus! {

/// No per-object flag is set.
pub const MESH_FLAGS_NONE: u32 = 0;

/// Marks a record whose flags were never written.
pub const MESH_FLAGS_UNINITIALIZED: u32 = 0xFFFF;

/// Data bytes of one record: two matrices and the flags.
pub const MESH2D_UNIFORM_SIZE: usize = 132;

/// Alignment of a structure in the uniform layout.
pub const UNIFORM_STRUCT_ALIGNMENT: usize = 16;

/// Size of one record as a structure in the uniform layout: the data bytes
/// padded after the last field to the alignment of the structure. A shader
/// declares the record with this size, so a binding must offer as much.
pub const MESH2D_UNIFORM_STD140_SIZE: usize = 144;

/// Alignment that the device asks of a dynamic offset.
pub const DYNAMIC_UNIFORM_ALIGNMENT: usize = 256;

/// Distance between two records in the aggregated buffer: the record size
/// rounded up to the alignment of dynamic offsets.
pub const MESH2D_UNIFORM_ITEM_SIZE: usize = 256;

/// A 4x4 matrix in column-major order. Each entry is the bit pattern of a
/// single-precision number; the library moves the entries and never
/// interprets them.
#[derive(Clone, Copy, Debug, PartialEq, Eq)]
pub struct Mat4 {
    pub cols: [u32; 16],
}

impl Mat4 {
    /// The entries of the transposed matrix: entry `i` of the result is the
    /// entry of `self` with row and column exchanged.
    pub open spec fn transposed(self) -> Seq<u32> {
        Seq::new(16, |i: int| self.cols@[(i % 4) * 4 + i / 4])
    }

    /// The transposed matrix as a value.
    pub open spec fn transpose_spec(&self) -> Mat4 {
        let c = self.cols;
        Mat4 {
            cols: [
                c[0], c[4], c[8], c[12],
                c[1], c[5], c[9], c[13],
                c[2], c[6], c[10], c[14],
                c[3], c[7], c[11], c[15],
            ],
        }
    }

    /// The matrix with rows and columns exchanged.
    #[verifier::when_used_as_spec(transpose_spec)]
    pub fn transpose(&self) -> (r: Mat4)
        ensures
            r == self.transpose_spec(),
            r.cols@ == self.transposed(),
    {
        let c = &self.cols;
        let t: [u32; 16] = [
            c[0], c[4], c[8], c[12],
            c[1], c[5], c[9], c[13],
            c[2], c[6], c[10], c[14],
            c[3], c[7], c[11], c[15],
        ];
        assert(t@ =~= self.transposed());
        assert(t@ =~= self.transpose_spec().cols@);
        Mat4 { cols: t }
    }
}

/// Transposing twice gives the entries of the matrix back.
pub proof fn lemma_transpose_involution(m: Mat4)
    ensures
        m.transpose_spec().cols@ == m.transposed(),
        m.transpose_spec().transpose_spec().cols@ == m.cols@,
{
    assert(m.transpose_spec().cols@ =~= m.transposed());
    assert(m.transpose_spec().transpose_spec().cols@ =~= m.cols@);
}

/// What the GPU reads for one mesh.
#[derive(Clone, Copy, Debug, PartialEq, Eq)]
pub struct Mesh2dUniform {
    pub transform: Mat4,
    pub inverse_transpose_model: Mat4,
    pub flags: u32,
}

/// The four bytes of a word, lowest first.
pub open spec fn word_bytes(w: u32) -> Seq<u8> {
    seq![
        (w & 0xFF) as u8,
        ((w >> 8) & 0xFF) as u8,
        ((w >> 16) & 0xFF) as u8,
        ((w >> 24) & 0xFF) as u8,
    ]
}

/// The bytes of the first `n` words of `words`, each lowest byte first.
pub open spec fn words_bytes(words: Seq<u32>, n: nat) -> Seq<u8>
    decreases n,
{
    if n == 0 {
        Seq::empty()
    } else {
        words_bytes(words, (n - 1) as nat) + word_bytes(words[n - 1])
    }
}

/// The 132 bytes of a record: the transform, the inverse transpose, the
/// flags.
pub open spec fn uniform_bytes(u: Mesh2dUniform) -> Seq<u8> {
    words_bytes(u.transform.cols@, 16) + words_bytes(u.inverse_transpose_model.cols@, 16)
        + word_bytes(u.flags)
}

/// `len` zero bytes.
pub open spec fn zeros(len: nat) -> Seq<u8> {
    Seq::new(len, |i: int| 0u8)
}

/// The buffer contents for the first `n` records: each record's bytes
/// followed by zeros up to the item size.
pub open spec fn aggregated_bytes(records: Seq<Mesh2dUniform>, n: nat) -> Seq<u8>
    decreases n,
{
    if n == 0 {
        Seq::empty()
    } else {
        aggregated_bytes(records, (n - 1) as nat) + uniform_bytes(records[n - 1]) + zeros(124)
    }
}

/// `size` rounded up to the next multiple of `alignment`.
pub open spec fn aligned_size(size: int, alignment: int) -> int {
    ((size + alignment - 1) / alignment) * alignment
}

/// The structure size is the data size rounded up to the structure
/// alignment, and the distance between records is the structure size
/// rounded up to the alignment of dynamic offsets.
pub proof fn lemma_record_sizes()
    ensures
        MESH2D_UNIFORM_SIZE == 2 * 64 + 4,
        MESH2D_UNIFORM_STD140_SIZE == aligned_size(
            MESH2D_UNIFORM_SIZE as int,
            UNIFORM_STRUCT_ALIGNMENT as int,
        ),
        MESH2D_UNIFORM_ITEM_SIZE == aligned_size(
            MESH2D_UNIFORM_STD140_SIZE as int,
            DYNAMIC_UNIFORM_ALIGNMENT as int,
        ),
        MESH2D_UNIFORM_SIZE <= MESH2D_UNIFORM_STD140_SIZE <= MESH2D_UNIFORM_ITEM_SIZE,
{
}

/// The length of the bytes of `n` words.
pub proof fn lemma_words_bytes_len(words: Seq<u32>, n: nat)
    ensures
        words_bytes(words, n).len() == 4 * n,
    decreases n,
{
    if n > 0 {
        lemma_words_bytes_len(words, (n - 1) as nat);
    }
}

/// The length of the buffer contents for `n` records, and where each record
/// lies in them: record `i` starts at `256 * i`.
pub proof fn lemma_aggregated_layout(records: Seq<Mesh2dUniform>, n: nat)
    requires
        n <= records.len(),
    ensures
        aggregated_bytes(records, n).len() == 256 * n,
        forall|i: int|
            0 <= i < n ==> #[trigger] aggregated_bytes(records, n).subrange(
                256 * i,
                256 * i + 132,
            ) == uniform_bytes(records[i]),
        forall|i: int|
            0 <= i < n ==> #[trigger] aggregated_bytes(records, n).subrange(
                256 * i + 132,
                256 * i + 256,
            ) == zeros(124),
    decreases n,
{
    if n > 0 {
        let m = (n - 1) as nat;
        lemma_aggregated_layout(records, m);
        let prev = aggregated_bytes(records, m);
        let last = records[n - 1];
        lemma_words_bytes_len(last.transform.cols@, 16);
        lemma_words_bytes_len(last.inverse_transpose_model.cols@, 16);
        let all = aggregated_bytes(records, n);
        assert(uniform_bytes(last).len() == 132);
        assert forall|i: int| 0 <= i < n implies #[trigger] all.subrange(256 * i, 256 * i + 132)
            == uniform_bytes(records[i]) by {
            if i < m {
                assert(all.subrange(256 * i, 256 * i + 132) =~= prev.subrange(
                    256 * i,
                    256 * i + 132,
                ));
            } else {
                assert(all.subrange(256 * i, 256 * i + 132) =~= uniform_bytes(last));
            }
        }
        assert forall|i: int| 0 <= i < n implies #[trigger] all.subrange(
            256 * i + 132,
            256 * i + 256,
        ) == zeros(124) by {
            if i < m {
                assert(all.subrange(256 * i + 132, 256 * i + 256) =~= prev.subrange(
                    256 * i + 132,
                    256 * i + 256,
                ));
            } else {
                assert(all.subrange(256 * i + 132, 256 * i + 256) =~= zeros(124));
            }
        }
    }
}

fn push_word(out: &mut Vec<u8>, w: u32)
    ensures
        final(out)@ == old(out)@ + word_bytes(w),
{
    assert((w & 0xFF) < 256 && ((w >> 8) & 0xFF) < 256 && ((w >> 16) & 0xFF) < 256 && ((w >> 24)
        & 0xFF) < 256) by (bit_vector);
    out.push((w & 0xFF) as u8);
    out.push(((w >> 8) & 0xFF) as u8);
    out.push(((w >> 16) & 0xFF) as u8);
    out.push(((w >> 24) & 0xFF) as u8);
    assert(out@ =~= old(out)@ + word_bytes(w));
}

fn push_matrix(out: &mut Vec<u8>, m: &Mat4)
    ensures
        final(out)@ == old(out)@ + words_bytes(m.cols@, 16),
{
    let mut i: usize = 0;
    assert(out@ =~= old(out)@ + words_bytes(m.cols@, 0));
    while i < 16
        invariant
            i <= 16,
            out@ == old(out)@ + words_bytes(m.cols@, i as nat),
        decreases 16 - i,
    {
        push_word(out, m.cols[i]);
        assert(out@ =~= old(out)@ + words_bytes(m.cols@, (i + 1) as nat));
        i += 1;
    }
}

impl Mesh2dUniform {
    /// Appends the 132 bytes of the record to `out`.
    pub fn write_bytes(&self, out: &mut Vec<u8>)
        ensures
            final(out)@ == old(out)@ + uniform_bytes(*self),
            uniform_bytes(*self).len() == 132,
    {
        push_matrix(out, &self.transform);
        push_matrix(out, &self.inverse_transpose_model);
        push_word(out, self.flags);
        proof {
            lemma_words_bytes_len(self.transform.cols@, 16);
            lemma_words_bytes_len(self.inverse_transpose_model.cols@, 16);
            assert(out@ =~= old(out)@ + uniform_bytes(*self));
        }
    }
}

/// Most records that one frame can hold: the offset of each must fit in 32
/// bits.
pub const MAX_RECORDS: usize = 0x100_0000;

/// What the device has to do with one frame's uniform bytes.
#[derive(Clone, Debug, PartialEq, Eq)]
pub enum BufferWrite {
    /// The frame is empty: nothing is created and nothing is written.
    Nothing,
    /// The bytes fit the buffer that is already bound.
    Write { data: Vec<u8> },
    /// A buffer of `size` bytes must be created first.
    Recreate { size: u64, data: Vec<u8> },
}

/// The per-object uniform records of one frame and the buffer they go to.
pub struct ComponentUniforms {
    values: Vec<Mesh2dUniform>,
    uniform_buffer: Option<BufferId>,
    capacity: usize,
}

fn push_zeros(out: &mut Vec<u8>, n: usize)
    ensures
        final(out)@ == old(out)@ + zeros(n as nat),
{
    let mut i: usize = 0;
    assert(out@ =~= old(out)@ + zeros(0));
    while i < n
        invariant
            i <= n,
            out@ == old(out)@ + zeros(i as nat),
        decreases n - i,
    {
        out.push(0u8);
        assert(out@ =~= old(out)@ + zeros((i + 1) as nat));
        i += 1;
    }
}

impl ComponentUniforms {
    /// Neither the records nor the reserved capacity exceed what 32-bit
    /// offsets can address.
    pub closed spec fn wf(&self) -> bool {
        self.values@.len() <= MAX_RECORDS && self.capacity <= MAX_RECORDS
    }

    /// The records pushed since the last clear, in push order.
    pub closed spec fn records(&self) -> Seq<Mesh2dUniform> {
        self.values@
    }

    /// How many records the current buffer was sized for.
    pub closed spec fn reserved(&self) -> nat {
        self.capacity as nat
    }

    /// The buffer that holds the records, once the device has made it.
    pub closed spec fn buffer(&self) -> Option<BufferId> {
        self.uniform_buffer
    }

    /// The dynamic offset of the record at `index`.
    pub open spec fn offset_of(index: int) -> int {
        256 * index
    }

    pub fn new() -> (r: ComponentUniforms)
        ensures
            r.wf(),
            r.records() == Seq::<Mesh2dUniform>::empty(),
            r.reserved() == 0,
            r.buffer().is_none(),
    {
        ComponentUniforms { values: Vec::new(), uniform_buffer: None, capacity: 0 }
    }

    pub fn len(&self) -> (r: usize)
        ensures
            r == self.records().len(),
    {
        self.values.len()
    }

    pub fn is_empty(&self) -> (r: bool)
        ensures
            r == (self.records().len() == 0),
    {
        self.values.len() == 0
    }

    pub fn capacity(&self) -> (r: usize)
        ensures
            r == self.reserved(),
    {
        self.capacity
    }

    /// Whether no further record can be pushed this frame.
    pub fn is_full(&self) -> (r: bool)
        ensures
            r == (self.records().len() >= MAX_RECORDS),
    {
        self.values.len() >= MAX_RECORDS
    }

    /// Adds a record and gives the dynamic offset at which the GPU finds it.
    /// The offset depends only on how many records came before.
    pub fn push(&mut self, value: Mesh2dUniform) -> (offset: u32)
        requires
            old(self).wf(),
            old(self).records().len() < MAX_RECORDS,
        ensures
            final(self).wf(),
            final(self).records() == old(self).records().push(value),
            offset == Self::offset_of(old(self).records().len() as int),
            final(self).reserved() == old(self).reserved(),
            final(self).buffer() == old(self).buffer(),
    {
        let index: usize = self.values.len();
        self.values.push(value);
        (index * MESH2D_UNIFORM_ITEM_SIZE) as u32
    }

    /// Forgets the records of the last frame. The buffer stays.
    pub fn clear(&mut self)
        requires
            old(self).wf(),
        ensures
            final(self).wf(),
            final(self).records() == Seq::<Mesh2dUniform>::empty(),
            final(self).reserved() == old(self).reserved(),
            final(self).buffer() == old(self).buffer(),
    {
        self.values.clear();
    }

    /// Replaces the records with those of a new frame, in order, and gives
    /// the dynamic offset of each.
    pub fn prepare(&mut self, components: &Vec<Mesh2dUniform>) -> (offsets: Vec<u32>)
        requires
            old(self).wf(),
            components@.len() <= MAX_RECORDS,
        ensures
            final(self).wf(),
            final(self).records() == components@,
            offsets@.len() == components@.len(),
            forall|i: int|
                0 <= i < offsets@.len() ==> #[trigger] offsets@[i] == Self::offset_of(i),
            final(self).reserved() == old(self).reserved(),
            final(self).buffer() == old(self).buffer(),
    {
        self.clear();
        let mut offsets: Vec<u32> = Vec::new();
        let mut i: usize = 0;
        while i < components.len()
            invariant
                i <= components@.len(),
                components@.len() <= MAX_RECORDS,
                self.wf(),
                self.records() == components@.take(i as int),
                offsets@.len() == i,
                forall|j: int| 0 <= j < i ==> #[trigger] offsets@[j] == Self::offset_of(j),
                self.reserved() == old(self).reserved(),
                self.buffer() == old(self).buffer(),
            decreases components@.len() - i,
        {
            let offset = self.push(components[i]);
            offsets.push(offset);
            assert(components@.take(i as int).push(components@[i as int]) =~= components@.take(
                i + 1,
            ));
            i += 1;
        }
        assert(components@.take(i as int) =~= components@);
        offsets
    }

    /// Makes room for `capacity` records. Growing discards the buffer, so
    /// the result tells whether a new one has to be created; the records and
    /// their offsets are untouched either way.
    pub fn reserve(&mut self, capacity: usize) -> (grew: bool)
        requires
            old(self).wf(),
            capacity <= MAX_RECORDS,
        ensures
            final(self).wf(),
            grew == (capacity > old(self).reserved()),
            final(self).records() == old(self).records(),
            grew ==> final(self).reserved() == capacity && final(self).buffer().is_none(),
            !grew ==> final(self).reserved() == old(self).reserved() && final(self).buffer()
                == old(self).buffer(),
    {
        if capacity > self.capacity {
            self.capacity = capacity;
            self.uniform_buffer = None;
            true
        } else {
            false
        }
    }

    /// Records the buffer that the device created after a growth.
    pub fn set_buffer(&mut self, buffer: BufferId)
        requires
            old(self).wf(),
        ensures
            final(self).wf(),
            final(self).buffer() == Some(buffer),
            final(self).records() == old(self).records(),
            final(self).reserved() == old(self).reserved(),
    {
        self.uniform_buffer = Some(buffer);
    }

    /// The bytes of all records as the GPU reads them.
    pub fn bytes(&self) -> (data: Vec<u8>)
        ensures
            data@ == aggregated_bytes(self.records(), self.records().len()),
            data@.len() == 256 * self.records().len(),
    {
        let mut data: Vec<u8> = Vec::new();
        let mut i: usize = 0;
        while i < self.values.len()
            invariant
                i <= self.values@.len(),
                data@ == aggregated_bytes(self.values@, i as nat),
            decreases self.values@.len() - i,
        {
            self.values[i].write_bytes(&mut data);
            push_zeros(&mut data, MESH2D_UNIFORM_ITEM_SIZE - MESH2D_UNIFORM_SIZE);
            i += 1;
        }
        proof {
            lemma_aggregated_layout(self.values@, self.values@.len());
        }
        data
    }

    /// Sizes the buffer for the frame and gives the bytes to upload. An
    /// empty frame asks for nothing.
    pub fn write_buffer(&mut self) -> (r: BufferWrite)
        requires
            old(self).wf(),
        ensures
            final(self).wf(),
            final(self).records() == old(self).records(),
            old(self).records().len() == 0 ==> r == BufferWrite::Nothing && final(self).reserved()
                == old(self).reserved() && final(self).buffer() == old(self).buffer(),
            old(self).records().len() > 0 ==> final(self).reserved() == (if old(
                self,
            ).records().len() > old(self).reserved() {
                old(self).records().len()
            } else {
                old(self).reserved()
            }),
            old(self).records().len() > 0 && (old(self).buffer().is_none() || old(
                self,
            ).records().len() > old(self).reserved()) ==> final(self).buffer().is_none() && (r
                matches BufferWrite::Recreate { size, data } && size == 256 * final(self).reserved()
                && data@ == aggregated_bytes(old(self).records(), old(self).records().len())),
            old(self).records().len() > 0 && old(self).buffer().is_some() && old(
                self,
            ).records().len() <= old(self).reserved() ==> final(self).buffer() == old(
                self,
            ).buffer() && (r matches BufferWrite::Write { data } && data@ == aggregated_bytes(
                old(self).records(),
                old(self).records().len(),
            )),
    {
        if self.values.len() == 0 {
            return BufferWrite::Nothing;
        }
        let needed: usize = self.len();
        let _ = self.reserve(needed);
        let data = self.bytes();
        if self.uniform_buffer.is_none() {
            let size: u64 = (self.capacity as u64) * 256;
            BufferWrite::Recreate { size, data }
        } else {
            BufferWrite::Write { data }
        }
    }

    /// The binding of the whole buffer for the mesh bind group. A frame
    /// without records, or without a buffer, has none.
    pub fn binding(&self) -> (r: Option<BufferBinding>)
        ensures
            r == (if self.records().len() > 0 && self.buffer().is_some() {
                Some(
                    BufferBinding {
                        buffer: self.buffer().unwrap(),
                        offset: 0,
                        size: Some(256u64),
                    },
                )
            } else {
                None
            }),
    {
        if self.values.len() == 0 {
            return None;
        }
        match self.uniform_buffer {
            Some(buffer) => Some(
                BufferBinding { buffer, offset: 0, size: Some(MESH2D_UNIFORM_ITEM_SIZE as u64) },
            ),
            None => None,
        }
    }
}

} // verus!
