use lean_occt::abi::{
    LeanOcctCurveKind, LeanOcctLoopRole, LeanOcctOrientation, LeanOcctResult, LeanOcctShapeKind,
    LeanOcctSurfaceKind,
};
use lean_occt::decode::{
    decode_edge_vertices, decode_indices, decode_loop_roles, decode_orientations, decode_ranges,
    optional_index, range_table_total,
};
use lean_occt::kinds::{reversed_orientation, CurveKind, LoopRole, Orientation, ShapeKind, SurfaceKind};
use lean_occt::topology::{TopologyEdgeVertices, TopologyRange};

#[test]
fn reversing_swaps_forward_and_reversed_only() {
    assert_eq!(reversed_orientation(Orientation::Forward), Orientation::Reversed);
    assert_eq!(reversed_orientation(Orientation::Reversed), Orientation::Forward);
    assert_eq!(reversed_orientation(Orientation::Internal), Orientation::Internal);
    assert_eq!(reversed_orientation(Orientation::External), Orientation::External);
}

#[test]
fn reversing_twice_is_identity() {
    for o in [Orientation::Forward, Orientation::Reversed, Orientation::Internal, Orientation::External] {
        assert_eq!(reversed_orientation(reversed_orientation(o)), o);
    }
}

#[test]
fn interface_codes() {
    assert_eq!(LeanOcctResult::Success.code(), 0);
    assert_eq!(LeanOcctResult::Error.code(), 1);
    assert_eq!(LeanOcctShapeKind::Unknown.code(), 0);
    assert_eq!(LeanOcctShapeKind::Face.code(), 5);
    assert_eq!(LeanOcctShapeKind::Shape.code(), 9);
    assert_eq!(LeanOcctOrientation::External.code(), 3);
    assert_eq!(LeanOcctLoopRole::Inner.code(), 2);
    assert_eq!(LeanOcctCurveKind::BSpline.code(), 7);
    assert_eq!(LeanOcctSurfaceKind::Offset.code(), 10);
    assert_eq!(LeanOcctSurfaceKind::Other.code(), 11);
}

#[test]
fn shape_kind_round_trips_through_interface() {
    let kinds = [
        ShapeKind::Unknown,
        ShapeKind::Compound,
        ShapeKind::CompSolid,
        ShapeKind::Solid,
        ShapeKind::Shell,
        ShapeKind::Face,
        ShapeKind::Wire,
        ShapeKind::Edge,
        ShapeKind::Vertex,
        ShapeKind::Shape,
    ];
    for kind in kinds {
        assert_eq!(ShapeKind::from(kind.to_ffi()), kind);
    }
    assert_eq!(ShapeKind::Edge.to_ffi(), LeanOcctShapeKind::Edge);
}

#[test]
fn curve_and_surface_kinds_from_interface() {
    assert_eq!(CurveKind::from(LeanOcctCurveKind::Circle), CurveKind::Circle);
    assert_eq!(CurveKind::from(LeanOcctCurveKind::Unknown), CurveKind::Unknown);
    assert_eq!(SurfaceKind::from(LeanOcctSurfaceKind::Torus), SurfaceKind::Torus);
    assert_eq!(SurfaceKind::from(LeanOcctSurfaceKind::Extrusion), SurfaceKind::Extrusion);
}

#[test]
fn orientation_and_role_bytes() {
    assert_eq!(Orientation::from_ffi(0), Orientation::Forward);
    assert_eq!(Orientation::from_ffi(1), Orientation::Reversed);
    assert_eq!(Orientation::from_ffi(2), Orientation::Internal);
    assert_eq!(Orientation::from_ffi(3), Orientation::External);
    assert_eq!(Orientation::from_ffi(200), Orientation::Forward);
    assert_eq!(Orientation::from_lean_occt(LeanOcctOrientation::Internal), Orientation::Internal);
    assert_eq!(LoopRole::from_ffi(1), LoopRole::Outer);
    assert_eq!(LoopRole::from_ffi(2), LoopRole::Inner);
    assert_eq!(LoopRole::from_ffi(0), LoopRole::Unknown);
    assert_eq!(LoopRole::from_ffi(9), LoopRole::Unknown);
}

#[test]
fn orientation_code_and_byte_agree() {
    for o in [
        LeanOcctOrientation::Forward,
        LeanOcctOrientation::Reversed,
        LeanOcctOrientation::Internal,
        LeanOcctOrientation::External,
    ] {
        assert_eq!(Orientation::from_ffi(o.code() as u8), Orientation::from_lean_occt(o));
    }
}

#[test]
fn optional_index_reads_missing_vertex() {
    assert_eq!(optional_index(u32::MAX), None);
    assert_eq!(optional_index(0), Some(0));
    assert_eq!(optional_index(41), Some(41));
}

#[test]
fn decode_range_pairs() {
    let ranges = decode_ranges(&[0, 2, 2, 3, 9]);
    assert_eq!(
        ranges,
        vec![TopologyRange { offset: 0, count: 2 }, TopologyRange { offset: 2, count: 3 }]
    );
    assert_eq!(range_table_total(&[0, 2, 2, 3]), 5);
    assert_eq!(range_table_total(&[0, 2, 2, 3, 7]), 5);
    assert_eq!(range_table_total(&[4]), 0);
    assert_eq!(range_table_total(&[]), 0);
}

#[test]
fn decode_index_and_code_arrays() {
    assert_eq!(decode_indices(&[3, 0, 7]), vec![3, 0, 7]);
    assert_eq!(
        decode_orientations(&[1, 0, 3]),
        vec![Orientation::Reversed, Orientation::Forward, Orientation::External]
    );
    assert_eq!(decode_loop_roles(&[1, 2, 0]), vec![LoopRole::Outer, LoopRole::Inner, LoopRole::Unknown]);
}

#[test]
fn decode_edge_vertex_pairs() {
    let edges = decode_edge_vertices(&[0, 1, u32::MAX, 2], 2);
    assert_eq!(
        edges,
        vec![
            TopologyEdgeVertices { start_vertex: Some(0), end_vertex: Some(1) },
            TopologyEdgeVertices { start_vertex: None, end_vertex: Some(2) },
        ]
    );
}

#[test]
fn codes_read_back_as_the_interface_values() {
    assert_eq!(LeanOcctResult::from_code(0), Some(LeanOcctResult::Success));
    assert_eq!(LeanOcctResult::from_code(1), Some(LeanOcctResult::Error));
    assert_eq!(LeanOcctResult::from_code(2), None);
    assert_eq!(LeanOcctShapeKind::from_code(7), Some(LeanOcctShapeKind::Edge));
    assert_eq!(LeanOcctShapeKind::from_code(10), None);
    assert_eq!(LeanOcctOrientation::from_code(3), Some(LeanOcctOrientation::External));
    assert_eq!(LeanOcctOrientation::from_code(4), None);
    assert_eq!(LeanOcctCurveKind::from_code(2), Some(LeanOcctCurveKind::Circle));
    assert_eq!(LeanOcctCurveKind::from_code(10), None);
    assert_eq!(LeanOcctSurfaceKind::from_code(10), Some(LeanOcctSurfaceKind::Offset));
    assert_eq!(LeanOcctSurfaceKind::from_code(12), None);
    for code in 0..12u32 {
        if let Some(kind) = LeanOcctSurfaceKind::from_code(code) {
            assert_eq!(kind.code(), code);
        }
    }
}
