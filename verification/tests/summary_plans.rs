use lean_occt::kinds::ShapeKind;
use lean_occt::summary::{
    exact_primitive_applies, has_closed_volume_topology, linear_length_edges, shape_counts,
    summary_bbox_plan, summary_volume_plan, ShapeCounts, SummaryBboxSource, SummaryVolumeSource,
};
use lean_occt::topology::{TopologyEdgeVertices, TopologyRange, TopologyTables};

use SummaryBboxSource as B;
use SummaryVolumeSource as V;

#[test]
fn plain_shapes_are_boxed_from_their_brep_then_a_mesh() {
    assert_eq!(
        summary_bbox_plan(false, 1, 0),
        vec![B::ExactPrimitive, B::PortedBrep, B::Mesh, B::OcctFallback, B::Zero]
    );
    assert_eq!(
        summary_bbox_plan(false, 0, 0),
        vec![B::ExactPrimitive, B::PortedBrep, B::Mesh, B::OcctFallback, B::Zero]
    );
}

#[test]
fn offset_sheets_are_boxed_from_their_offset_faces() {
    let plan = summary_bbox_plan(true, 0, 0);
    assert_eq!(
        plan,
        vec![
            B::ExactPrimitive,
            B::PortedBrep,
            B::OffsetFaceUnion,
            B::OffsetOcctSubshapeUnion,
            B::OffsetValidatedMesh,
            B::OcctFallback,
            B::Zero,
        ]
    );
    assert!(!plan.contains(&B::Mesh));
}

#[test]
fn offset_solids_are_boxed_from_their_shells() {
    assert_eq!(
        summary_bbox_plan(true, 0, 1),
        vec![
            B::ExactPrimitive,
            B::PortedBrep,
            B::OffsetSolidShellUnion,
            B::OcctFallback,
            B::Mesh,
            B::OcctFallback,
            B::Zero,
        ]
    );
}

#[test]
fn volume_plans() {
    assert_eq!(
        summary_volume_plan(true),
        vec![V::ExactPrimitive, V::FaceContributions, V::WholeShapeMesh, V::OcctFallback, V::Zero]
    );
    assert_eq!(summary_volume_plan(false), vec![V::ExactPrimitive, V::OcctFallback, V::Zero]);
}

#[test]
fn closed_volume_topology() {
    assert!(has_closed_volume_topology(0, &[vec![0]]));
    assert!(has_closed_volume_topology(2, &[vec![0, 1], vec![1, 0]]));
    assert!(!has_closed_volume_topology(2, &[vec![0, 1], vec![1]]));
    assert!(has_closed_volume_topology(1, &[]));
}

#[test]
fn exact_formulas_need_a_single_solid() {
    assert!(exact_primitive_applies(ShapeKind::Solid, 1));
    assert!(!exact_primitive_applies(ShapeKind::Solid, 2));
    assert!(!exact_primitive_applies(ShapeKind::Shell, 1));
}

#[test]
fn linear_length_counts_wire_occurrences() {
    assert_eq!(linear_length_edges(3, &[]), vec![0, 1, 2]);
    assert_eq!(linear_length_edges(3, &[2, 0, 2, 7, 1]), vec![2, 0, 2, 1]);
    assert_eq!(linear_length_edges(0, &[]), Vec::<usize>::new());
}

#[test]
fn shape_counts_take_the_tables_for_faces_down() {
    let edge = TopologyEdgeVertices { start_vertex: Some(0), end_vertex: Some(1) };
    let tables = TopologyTables {
        vertex_count: 2,
        edges: vec![edge, edge, edge],
        edge_faces: vec![],
        edge_face_indices: vec![],
        wires: vec![TopologyRange { offset: 0, count: 3 }],
        wire_edge_indices: vec![],
        wire_edge_orientations: vec![],
        wire_vertices: vec![],
        wire_vertex_indices: vec![],
        faces: vec![TopologyRange { offset: 0, count: 1 }, TopologyRange { offset: 1, count: 0 }],
        face_wire_indices: vec![],
        face_wire_orientations: vec![],
        face_wire_roles: vec![],
    };
    assert_eq!(
        shape_counts(0, 0, 1, 1, &tables),
        ShapeCounts {
            compound_count: 0,
            compsolid_count: 0,
            solid_count: 1,
            shell_count: 1,
            face_count: 2,
            wire_count: 1,
            edge_count: 3,
            vertex_count: 2,
        }
    );
}
