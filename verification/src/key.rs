//! The packed pipeline key: one 32-bit word with three disjoint regions.
//!
//! Bit 0 is the vertex-tangents flag, bits 23..=25 hold the ordinal of the
//! primitive topology and bits 26..=31 hold the multisample count minus one.

use vstd::prelude::*;

verus! {

/// Mask of the multisample field, before it is shifted into place.
pub const MSAA_MASK_BITS: u32 = 0b111111;

/// Position of the lowest bit of the multisample field.
pub const MSAA_SHIFT_BITS: u32 = 26;

/// Mask of the topology field, before it is shifted into place.
pub const PRIMITIVE_TOPOLOGY_MASK_BITS: u32 = 0b111;

/// Position of the lowest bit of the topology field.
pub const PRIMITIVE_TOPOLOGY_SHIFT_BITS: u32 = 23;

/// Bit of the vertex-tangents flag.
pub const VERTEX_TANGENTS_BITS: u32 = 1;

/// The bits of the multisample field in place.
pub const MSAA_RESERVED_BITS: u32 = 0xFC00_0000;

/// The bits of the topology field in place.
pub const PRIMITIVE_TOPOLOGY_RESERVED_BITS: u32 = 0x0380_0000;

/// Every bit that a key may carry: the flag and the two fields.
pub const ALL_BITS: u32 = 0xFF80_0001;

/// How the vertices of a mesh are assembled into primitives.
#[derive(Clone, Copy, Debug, PartialEq, Eq, Hash, Structural)]
pub enum PrimitiveTopology {
    PointList,
    LineList,
    LineStrip,
    TriangleList,
    TriangleStrip,
}

/// Why a key could not be built.
#[derive(Clone, Copy, Debug, PartialEq, Eq, Structural)]
pub enum InvalidPipelineKey {
    /// The sample count is not in `1..=64`.
    SampleCount(u32),
    /// The topology ordinal names none of the five topologies.
    Topology(u32),
}

/// The topology that an ordinal names; an ordinal that names none falls back
/// to the triangle list.
pub open spec fn topology_of(ordinal: u32) -> PrimitiveTopology {
    if ordinal == 0 {
        PrimitiveTopology::PointList
    } else if ordinal == 1 {
        PrimitiveTopology::LineList
    } else if ordinal == 2 {
        PrimitiveTopology::LineStrip
    } else if ordinal == 4 {
        PrimitiveTopology::TriangleStrip
    } else {
        PrimitiveTopology::TriangleList
    }
}

/// The multisample field of a key word: the sample count minus one.
pub open spec fn msaa_field(bits: u32) -> u32 {
    (bits >> 26) & 0x3F
}

/// The topology field of a key word: an ordinal in `0..8`.
pub open spec fn topology_field(bits: u32) -> u32 {
    (bits >> 23) & 0x7
}

/// Whether the vertex-tangents flag is set in a key word.
pub open spec fn tangents_flag(bits: u32) -> bool {
    bits & 1 == 1
}

/// Whether a word carries no bit outside the three regions.
pub open spec fn known_bits(bits: u32) -> bool {
    bits & !0xFF80_0001u32 == 0
}

/// The word with the flag bit, the multisample field and the topology field
/// each in its region.
pub open spec fn pack(flag: u32, msaa: u32, topology: u32) -> u32 {
    flag | (msaa << 26) | (topology << 23)
}

/// The key word for a flag, a sample count in `1..=64` and a topology.
pub open spec fn encode_bits(tangents: bool, samples: u32, topology: PrimitiveTopology) -> u32 {
    pack(if tangents { 1u32 } else { 0u32 }, (samples - 1) as u32, topology.ordinal_spec())
}

impl PrimitiveTopology {
    /// The ordinal stored in a key for this topology.
    pub open spec fn ordinal_spec(self) -> u32 {
        match self {
            PrimitiveTopology::PointList => 0,
            PrimitiveTopology::LineList => 1,
            PrimitiveTopology::LineStrip => 2,
            PrimitiveTopology::TriangleList => 3,
            PrimitiveTopology::TriangleStrip => 4,
        }
    }

    #[verifier::when_used_as_spec(ordinal_spec)]
    pub fn ordinal(self) -> (r: u32)
        ensures
            r == self.ordinal_spec(),
            r < 5,
            topology_of(r) == self,
    {
        match self {
            PrimitiveTopology::PointList => 0,
            PrimitiveTopology::LineList => 1,
            PrimitiveTopology::LineStrip => 2,
            PrimitiveTopology::TriangleList => 3,
            PrimitiveTopology::TriangleStrip => 4,
        }
    }

    /// The topology with the given ordinal, if there is one.
    pub fn from_ordinal(ordinal: u32) -> (r: Option<PrimitiveTopology>)
        ensures
            ordinal < 5 ==> r == Some(topology_of(ordinal)) && topology_of(ordinal).ordinal_spec()
                == ordinal,
            ordinal >= 5 ==> r.is_none(),
    {
        if ordinal == 0 {
            Some(PrimitiveTopology::PointList)
        } else if ordinal == 1 {
            Some(PrimitiveTopology::LineList)
        } else if ordinal == 2 {
            Some(PrimitiveTopology::LineStrip)
        } else if ordinal == 3 {
            Some(PrimitiveTopology::TriangleList)
        } else if ordinal == 4 {
            Some(PrimitiveTopology::TriangleStrip)
        } else {
            None
        }
    }
}

impl Default for PrimitiveTopology {
    fn default() -> (r: PrimitiveTopology)
        ensures
            r == PrimitiveTopology::TriangleList,
    {
        PrimitiveTopology::TriangleList
    }
}

/// A set of pipeline-affecting options packed into one word.
#[derive(Clone, Copy, Debug, PartialEq, Eq, Hash, Structural)]
pub struct Mesh2dPipelineKey {
    bits: u32,
}

impl View for Mesh2dPipelineKey {
    type V = u32;

    closed spec fn view(&self) -> u32 {
        self.bits
    }
}

proof fn lemma_pack_fields(flag: u32, msaa: u32, topology: u32)
    by (bit_vector)
    requires
        flag <= 1,
        msaa < 64,
        topology < 8,
    ensures
        ((flag | (msaa << 26) | (topology << 23)) >> 26) & 0x3F == msaa,
        ((flag | (msaa << 26) | (topology << 23)) >> 23) & 0x7 == topology,
        (flag | (msaa << 26) | (topology << 23)) & 1 == flag,
        (flag | (msaa << 26) | (topology << 23)) & !0xFF80_0001u32 == 0,
{
}

proof fn lemma_pack_single(msaa: u32, topology: u32)
    by (bit_vector)
    ensures
        0u32 | (msaa << 26) | (0u32 << 23) == msaa << 26,
        0u32 | (0u32 << 26) | (topology << 23) == topology << 23,
        msaa < 64 ==> msaa & 0x3F == msaa,
        topology < 8 ==> topology & 0x7 == topology,
{
}

proof fn lemma_union_fields(a: u32, b: u32)
    by (bit_vector)
    ensures
        ((a | b) >> 26) & 0x3F == ((a >> 26) & 0x3F) | ((b >> 26) & 0x3F),
        ((a | b) >> 23) & 0x7 == ((a >> 23) & 0x7) | ((b >> 23) & 0x7),
        ((a | b) & 1 == 1) <==> (a & 1 == 1 || b & 1 == 1),
        (a & !0xFF80_0001u32 == 0 && b & !0xFF80_0001u32 == 0) ==> (a | b) & !0xFF80_0001u32
            == 0,
{
}

proof fn lemma_field_ranges(bits: u32)
    by (bit_vector)
    ensures
        (bits >> 26) & 0x3F < 64,
        (bits >> 23) & 0x7 < 8,
        bits & 1 <= 1,
{
}

proof fn lemma_fields_determine(a: u32, b: u32)
    by (bit_vector)
    requires
        a & !0xFF80_0001u32 == 0,
        b & !0xFF80_0001u32 == 0,
        (a >> 26) & 0x3F == (b >> 26) & 0x3F,
        (a >> 23) & 0x7 == (b >> 23) & 0x7,
        (a & 1 == 1) == (b & 1 == 1),
    ensures
        a == b,
{
}

impl Mesh2dPipelineKey {
    #[verifier::type_invariant]
    spec fn only_known_bits(self) -> bool {
        known_bits(self.bits)
    }

    /// The multisample count that the key encodes, in `1..=64`.
    pub open spec fn samples(self) -> int {
        msaa_field(self@) + 1
    }

    /// The topology that the key decodes to.
    pub open spec fn topology(self) -> PrimitiveTopology {
        topology_of(topology_field(self@))
    }

    /// Whether the key asks for vertex tangents.
    pub open spec fn tangents(self) -> bool {
        tangents_flag(self@)
    }

    /// The key with no bit set: one sample, point list, no tangents.
    pub fn empty() -> (r: Mesh2dPipelineKey)
        ensures
            r@ == 0,
            r@ == encode_bits(false, 1, PrimitiveTopology::PointList),
    {
        assert(0u32 & !0xFF80_0001u32 == 0) by (bit_vector);
        assert(0u32 | (0u32 << 26) | (0u32 << 23) == 0) by (bit_vector);
        Mesh2dPipelineKey { bits: 0 }
    }

    /// The key that carries only the vertex-tangents flag.
    pub fn vertex_tangents() -> (r: Mesh2dPipelineKey)
        ensures
            r@ == 1,
            r@ == encode_bits(true, 1, PrimitiveTopology::PointList),
    {
        assert(1u32 & !0xFF80_0001u32 == 0) by (bit_vector);
        assert(1u32 | (0u32 << 26) | (0u32 << 23) == 1) by (bit_vector);
        Mesh2dPipelineKey { bits: VERTEX_TANGENTS_BITS }
    }

    /// The raw word of the key.
    pub fn bits(&self) -> (r: u32)
        ensures
            r == self@,
            known_bits(r),
    {
        proof {
            use_type_invariant(self);
        }
        self.bits
    }

    /// The key with the given word, unless the word has a bit outside the
    /// three regions.
    pub fn from_bits(bits: u32) -> (r: Option<Mesh2dPipelineKey>)
        ensures
            known_bits(bits) ==> r.is_some() && r.unwrap()@ == bits,
            !known_bits(bits) ==> r.is_none(),
    {
        if bits & !ALL_BITS == 0 {
            Some(Mesh2dPipelineKey { bits })
        } else {
            None
        }
    }

    /// Whether every bit of `other` is set in `self`.
    pub fn contains(&self, other: Mesh2dPipelineKey) -> (r: bool)
        ensures
            r == (self@ & other@ == other@),
            other@ == 1 ==> r == self.tangents(),
    {
        self.bits & other.bits == other.bits
    }

    /// The key that carries the bits of both keys.
    pub fn union(self, other: Mesh2dPipelineKey) -> (r: Mesh2dPipelineKey)
        ensures
            r@ == self@ | other@,
            msaa_field(r@) == msaa_field(self@) | msaa_field(other@),
            topology_field(r@) == topology_field(self@) | topology_field(other@),
            r.tangents() == (self.tangents() || other.tangents()),
    {
        proof {
            use_type_invariant(self);
            use_type_invariant(other);
            lemma_union_fields(self.bits, other.bits);
        }
        Mesh2dPipelineKey { bits: self.bits | other.bits }
    }

    /// The key that encodes only a multisample count.
    pub fn from_msaa_samples(msaa_samples: u32) -> (r: Mesh2dPipelineKey)
        requires
            1 <= msaa_samples <= 64,
        ensures
            r@ == encode_bits(false, msaa_samples, PrimitiveTopology::PointList),
            r@ == ((msaa_samples - 1) as u32) << 26,
            r.samples() == msaa_samples,
            topology_field(r@) == 0,
            !r.tangents(),
    {
        let field: u32 = msaa_samples - 1;
        proof {
            lemma_pack_fields(0, field, 0);
            lemma_pack_single(field, 0);
        }
        let msaa_bits: u32 = (field & MSAA_MASK_BITS) << MSAA_SHIFT_BITS;
        Mesh2dPipelineKey { bits: msaa_bits }
    }

    /// The multisample count that the key encodes.
    pub fn msaa_samples(&self) -> (r: u32)
        ensures
            r == self.samples(),
            1 <= r <= 64,
    {
        proof {
            lemma_field_ranges(self.bits);
        }
        ((self.bits >> MSAA_SHIFT_BITS) & MSAA_MASK_BITS) + 1
    }

    /// The key that encodes only a primitive topology.
    pub fn from_primitive_topology(primitive_topology: PrimitiveTopology) -> (r: Mesh2dPipelineKey)
        ensures
            r@ == encode_bits(false, 1, primitive_topology),
            r@ == primitive_topology.ordinal_spec() << 23,
            r.topology() == primitive_topology,
            msaa_field(r@) == 0,
            !r.tangents(),
    {
        let ordinal: u32 = primitive_topology.ordinal();
        proof {
            lemma_pack_fields(0, 0, ordinal);
            lemma_pack_single(0, ordinal);
        }
        let primitive_topology_bits: u32 = (ordinal & PRIMITIVE_TOPOLOGY_MASK_BITS)
            << PRIMITIVE_TOPOLOGY_SHIFT_BITS;
        Mesh2dPipelineKey { bits: primitive_topology_bits }
    }

    /// The topology that the key encodes; a field that names no topology
    /// decodes to the triangle list.
    pub fn primitive_topology(&self) -> (r: PrimitiveTopology)
        ensures
            r == self.topology(),
    {
        let primitive_topology_bits: u32 = (self.bits >> PRIMITIVE_TOPOLOGY_SHIFT_BITS)
            & PRIMITIVE_TOPOLOGY_MASK_BITS;
        match PrimitiveTopology::from_ordinal(primitive_topology_bits) {
            Some(topology) => topology,
            None => PrimitiveTopology::default(),
        }
    }

    /// Packs a flag, a sample count and a topology ordinal into a key.
    ///
    /// A sample count outside `1..=64` is refused first, then an ordinal that
    /// names no topology.
    pub fn encode(tangents: bool, sample_count: u32, topology_ordinal: u32) -> (r: Result<
        Mesh2dPipelineKey,
        InvalidPipelineKey,
    >)
        ensures
            !(1 <= sample_count <= 64) ==> r == Err::<Mesh2dPipelineKey, InvalidPipelineKey>(
                InvalidPipelineKey::SampleCount(sample_count),
            ),
            1 <= sample_count <= 64 && topology_ordinal >= 5 ==> r == Err::<
                Mesh2dPipelineKey,
                InvalidPipelineKey,
            >(InvalidPipelineKey::Topology(topology_ordinal)),
            1 <= sample_count <= 64 && topology_ordinal < 5 ==> r.is_ok() && r.unwrap()@
                == encode_bits(tangents, sample_count, topology_of(topology_ordinal)),
    {
        if sample_count < 1 || sample_count > 64 {
            return Err(InvalidPipelineKey::SampleCount(sample_count));
        }
        let topology = match PrimitiveTopology::from_ordinal(topology_ordinal) {
            Some(topology) => topology,
            None => {
                return Err(InvalidPipelineKey::Topology(topology_ordinal));
            },
        };
        let flags = if tangents {
            Mesh2dPipelineKey::vertex_tangents()
        } else {
            Mesh2dPipelineKey::empty()
        };
        let key = flags.union(Mesh2dPipelineKey::from_msaa_samples(sample_count)).union(
            Mesh2dPipelineKey::from_primitive_topology(topology),
        );
        proof {
            let flag: u32 = if tangents { 1 } else { 0 };
            let msaa: u32 = (sample_count - 1) as u32;
            let ordinal: u32 = topology.ordinal_spec();
            assert(flag | (msaa << 26) | (ordinal << 23) == (flag | (msaa << 26)) | (ordinal
                << 23));
        }
        Ok(key)
    }

    /// Unpacks the key into its flag, its sample count and its topology.
    pub fn decode(&self) -> (r: (bool, u32, PrimitiveTopology))
        ensures
            r.0 == self.tangents(),
            r.1 == self.samples(),
            r.2 == self.topology(),
    {
        (
            self.contains(Mesh2dPipelineKey::vertex_tangents()),
            self.msaa_samples(),
            self.primitive_topology(),
        )
    }
}

/// The three regions of a key are disjoint, each field mask shifted into
/// place is its region, and together they are all the bits a key may carry.
pub proof fn lemma_regions_disjoint()
    ensures
        MSAA_MASK_BITS << MSAA_SHIFT_BITS == MSAA_RESERVED_BITS,
        PRIMITIVE_TOPOLOGY_MASK_BITS << PRIMITIVE_TOPOLOGY_SHIFT_BITS
            == PRIMITIVE_TOPOLOGY_RESERVED_BITS,
        VERTEX_TANGENTS_BITS & MSAA_RESERVED_BITS == 0,
        VERTEX_TANGENTS_BITS & PRIMITIVE_TOPOLOGY_RESERVED_BITS == 0,
        MSAA_RESERVED_BITS & PRIMITIVE_TOPOLOGY_RESERVED_BITS == 0,
        VERTEX_TANGENTS_BITS | MSAA_RESERVED_BITS | PRIMITIVE_TOPOLOGY_RESERVED_BITS == ALL_BITS,
{
    assert(0b111111u32 << 26u32 == 0xFC00_0000u32) by (bit_vector);
    assert(0b111u32 << 23u32 == 0x0380_0000u32) by (bit_vector);
    assert(1u32 & 0xFC00_0000u32 == 0) by (bit_vector);
    assert(1u32 & 0x0380_0000u32 == 0) by (bit_vector);
    assert(0xFC00_0000u32 & 0x0380_0000u32 == 0) by (bit_vector);
    assert(1u32 | 0xFC00_0000u32 | 0x0380_0000u32 == 0xFF80_0001u32) by (bit_vector);
}

/// Decoding undoes encoding: for a sample count in `1..=64`, any of the five
/// topologies and either flag value, the three fields read back from the
/// encoded word are the ones that went in, and the word has no stray bit.
pub proof fn lemma_decode_encode(tangents: bool, samples: u32, topology: PrimitiveTopology)
    requires
        1 <= samples <= 64,
    ensures
        tangents_flag(encode_bits(tangents, samples, topology)) == tangents,
        msaa_field(encode_bits(tangents, samples, topology)) + 1 == samples,
        topology_of(topology_field(encode_bits(tangents, samples, topology))) == topology,
        known_bits(encode_bits(tangents, samples, topology)),
{
    let flag: u32 = if tangents { 1 } else { 0 };
    lemma_pack_fields(flag, (samples - 1) as u32, topology.ordinal_spec());
}

/// Encoding undoes decoding on words without stray bits whose topology
/// field names a topology.
pub proof fn lemma_encode_decode(bits: u32)
    requires
        known_bits(bits),
        topology_field(bits) < 5,
    ensures
        encode_bits(
            tangents_flag(bits),
            (msaa_field(bits) + 1) as u32,
            topology_of(topology_field(bits)),
        ) == bits,
{
    let flag: u32 = if tangents_flag(bits) { 1 } else { 0 };
    let msaa = msaa_field(bits);
    let ordinal = topology_field(bits);
    lemma_field_ranges(bits);
    lemma_pack_fields(flag, msaa, ordinal);
    lemma_fields_determine(pack(flag, msaa, ordinal), bits);
}

/// Two keys are equal exactly when their words are equal, and two words
/// without stray bits are equal exactly when their three fields are.
pub proof fn lemma_key_equality(a: Mesh2dPipelineKey, b: Mesh2dPipelineKey)
    ensures
        a == b <==> a@ == b@,
        known_bits(a@) && known_bits(b@) ==> (a == b <==> a.tangents() == b.tangents()
            && msaa_field(a@) == msaa_field(b@) && topology_field(a@) == topology_field(b@)),
{
    if known_bits(a@) && known_bits(b@) && a.tangents() == b.tangents() && msaa_field(a@)
        == msaa_field(b@) && topology_field(a@) == topology_field(b@) {
        lemma_fields_determine(a@, b@);
    }
}

} // verus!
