use mesh2d::key::{
    InvalidPipelineKey, Mesh2dPipelineKey, PrimitiveTopology, ALL_BITS, MSAA_MASK_BITS,
    MSAA_RESERVED_BITS, MSAA_SHIFT_BITS, PRIMITIVE_TOPOLOGY_MASK_BITS,
    PRIMITIVE_TOPOLOGY_RESERVED_BITS, PRIMITIVE_TOPOLOGY_SHIFT_BITS, VERTEX_TANGENTS_BITS,
};

const TOPOLOGIES: [PrimitiveTopology; 5] = [
    PrimitiveTopology::PointList,
    PrimitiveTopology::LineList,
    PrimitiveTopology::LineStrip,
    PrimitiveTopology::TriangleList,
    PrimitiveTopology::TriangleStrip,
];

#[test]
fn msaa_samples_round_trip_over_whole_range() {
    for samples in 1u32..=64 {
        let key = Mesh2dPipelineKey::from_msaa_samples(samples);
        assert_eq!(key.msaa_samples(), samples);
        assert_eq!(key.bits(), (samples - 1) << 26);
    }
}

#[test]
fn msaa_four_samples_has_exact_word() {
    assert_eq!(Mesh2dPipelineKey::from_msaa_samples(4).bits(), 0x0C00_0000);
    assert_eq!(Mesh2dPipelineKey::from_msaa_samples(1).bits(), 0);
    assert_eq!(Mesh2dPipelineKey::from_msaa_samples(64).bits(), 0xFC00_0000);
}

#[test]
fn topology_round_trip_for_all_five() {
    for (ordinal, topology) in TOPOLOGIES.iter().enumerate() {
        let key = Mesh2dPipelineKey::from_primitive_topology(*topology);
        assert_eq!(key.primitive_topology(), *topology);
        assert_eq!(key.bits(), (ordinal as u32) << 23);
        assert_eq!(topology.ordinal(), ordinal as u32);
    }
}

#[test]
fn triangle_list_has_exact_word() {
    let key = Mesh2dPipelineKey::from_primitive_topology(PrimitiveTopology::TriangleList);
    assert_eq!(key.bits(), 0x0180_0000);
}

#[test]
fn unknown_topology_ordinal_decodes_to_triangle_list() {
    for ordinal in 5u32..8 {
        let key = Mesh2dPipelineKey::from_bits(ordinal << 23).unwrap();
        assert_eq!(key.primitive_topology(), PrimitiveTopology::TriangleList);
    }
    assert_eq!(PrimitiveTopology::default(), PrimitiveTopology::TriangleList);
}

#[test]
fn encode_then_decode_is_identity_on_all_legal_inputs() {
    for tangents in [false, true] {
        for samples in 1u32..=64 {
            for (ordinal, topology) in TOPOLOGIES.iter().enumerate() {
                let key = Mesh2dPipelineKey::encode(tangents, samples, ordinal as u32).unwrap();
                assert_eq!(key.decode(), (tangents, samples, *topology));
                let word = (tangents as u32) | ((samples - 1) << 26) | ((ordinal as u32) << 23);
                assert_eq!(key.bits(), word);
            }
        }
    }
}

#[test]
fn encode_refuses_sample_count_out_of_range() {
    assert_eq!(
        Mesh2dPipelineKey::encode(false, 0, 3),
        Err(InvalidPipelineKey::SampleCount(0))
    );
    assert_eq!(
        Mesh2dPipelineKey::encode(true, 65, 3),
        Err(InvalidPipelineKey::SampleCount(65))
    );
    assert_eq!(
        Mesh2dPipelineKey::encode(true, 0, 9),
        Err(InvalidPipelineKey::SampleCount(0))
    );
}

#[test]
fn encode_refuses_unknown_topology_ordinal() {
    assert_eq!(
        Mesh2dPipelineKey::encode(false, 4, 5),
        Err(InvalidPipelineKey::Topology(5))
    );
    assert_eq!(
        Mesh2dPipelineKey::encode(false, 64, u32::MAX),
        Err(InvalidPipelineKey::Topology(u32::MAX))
    );
}

#[test]
fn from_bits_refuses_stray_bits() {
    assert!(Mesh2dPipelineKey::from_bits(2).is_none());
    assert!(Mesh2dPipelineKey::from_bits(0x0040_0000).is_none());
    assert!(Mesh2dPipelineKey::from_bits(0xFF80_0001).is_some());
    assert_eq!(Mesh2dPipelineKey::from_bits(0).unwrap(), Mesh2dPipelineKey::empty());
}

#[test]
fn union_and_contains_follow_the_bits() {
    let tangents = Mesh2dPipelineKey::vertex_tangents();
    let msaa = Mesh2dPipelineKey::from_msaa_samples(8);
    let both = tangents.union(msaa);
    assert_eq!(both.bits(), 1 | (7 << 26));
    assert!(both.contains(tangents));
    assert!(both.contains(msaa));
    assert!(!msaa.contains(tangents));
    assert!(msaa.contains(Mesh2dPipelineKey::empty()));
}

#[test]
fn keys_are_equal_exactly_when_fields_are() {
    let a = Mesh2dPipelineKey::encode(true, 4, 3).unwrap();
    let b = Mesh2dPipelineKey::encode(true, 4, 3).unwrap();
    assert_eq!(a, b);
    assert_ne!(a, Mesh2dPipelineKey::encode(false, 4, 3).unwrap());
    assert_ne!(a, Mesh2dPipelineKey::encode(true, 2, 3).unwrap());
    assert_ne!(a, Mesh2dPipelineKey::encode(true, 4, 4).unwrap());
}

#[test]
fn regions_are_disjoint_and_cover_all_bits() {
    assert_eq!(MSAA_MASK_BITS << MSAA_SHIFT_BITS, MSAA_RESERVED_BITS);
    assert_eq!(
        PRIMITIVE_TOPOLOGY_MASK_BITS << PRIMITIVE_TOPOLOGY_SHIFT_BITS,
        PRIMITIVE_TOPOLOGY_RESERVED_BITS
    );
    assert_eq!(MSAA_RESERVED_BITS & PRIMITIVE_TOPOLOGY_RESERVED_BITS, 0);
    assert_eq!(VERTEX_TANGENTS_BITS & (MSAA_RESERVED_BITS | PRIMITIVE_TOPOLOGY_RESERVED_BITS), 0);
    assert_eq!(
        VERTEX_TANGENTS_BITS | MSAA_RESERVED_BITS | PRIMITIVE_TOPOLOGY_RESERVED_BITS,
        ALL_BITS
    );
}
