use lean_occt::kinds::{CurveKind, ShapeKind};
use lean_occt::summary::{
    boundary_edge_sampling_plan, check_single_vertex, check_subshape_index, check_subshape_total,
    classify_primary_kind, classify_root_kind, single_edge_vertices, subshape_count_source,
    summary_subshape_count, ShapeCounts, SubshapeCountSource,
};
use lean_occt::topology::{TopologyEdgeVertices, TopologyTables};

fn counts() -> ShapeCounts {
    ShapeCounts {
        compound_count: 0,
        compsolid_count: 0,
        solid_count: 0,
        shell_count: 0,
        face_count: 0,
        wire_count: 0,
        edge_count: 0,
        vertex_count: 0,
    }
}

fn tables(vertex_count: usize, edges: Vec<TopologyEdgeVertices>) -> TopologyTables {
    TopologyTables {
        vertex_count,
        edges,
        edge_faces: vec![],
        edge_face_indices: vec![],
        wires: vec![],
        wire_edge_indices: vec![],
        wire_edge_orientations: vec![],
        wire_vertices: vec![],
        wire_vertex_indices: vec![],
        faces: vec![],
        face_wire_indices: vec![],
        face_wire_orientations: vec![],
        face_wire_roles: vec![],
    }
}

#[test]
fn empty_shape_is_unknown_both_ways() {
    assert_eq!(classify_root_kind(counts()), ShapeKind::Unknown);
    assert_eq!(classify_primary_kind(counts()), ShapeKind::Unknown);
}

#[test]
fn box_is_a_solid() {
    let c = ShapeCounts {
        solid_count: 1,
        shell_count: 1,
        face_count: 6,
        wire_count: 6,
        edge_count: 12,
        vertex_count: 8,
        ..counts()
    };
    assert_eq!(classify_root_kind(c), ShapeKind::Solid);
    assert_eq!(classify_primary_kind(c), ShapeKind::Solid);
}

#[test]
fn compound_of_solids_differs_by_classification() {
    let c = ShapeCounts { compound_count: 1, solid_count: 2, face_count: 12, ..counts() };
    assert_eq!(classify_root_kind(c), ShapeKind::Compound);
    assert_eq!(classify_primary_kind(c), ShapeKind::Solid);
}

#[test]
fn empty_compound_is_a_compound_both_ways() {
    let c = ShapeCounts { compound_count: 1, ..counts() };
    assert_eq!(classify_root_kind(c), ShapeKind::Compound);
    assert_eq!(classify_primary_kind(c), ShapeKind::Compound);
    let c = ShapeCounts { compsolid_count: 1, ..counts() };
    assert_eq!(classify_primary_kind(c), ShapeKind::CompSolid);
}

#[test]
fn single_edge_is_an_edge() {
    let c = ShapeCounts { edge_count: 1, vertex_count: 2, ..counts() };
    assert_eq!(classify_root_kind(c), ShapeKind::Edge);
    let c = ShapeCounts { vertex_count: 1, ..counts() };
    assert_eq!(classify_root_kind(c), ShapeKind::Vertex);
}

#[test]
fn sampling_plans_by_curve_kind() {
    assert_eq!(boundary_edge_sampling_plan(CurveKind::Line), None);
    assert_eq!(boundary_edge_sampling_plan(CurveKind::Ellipse), None);
    assert_eq!(boundary_edge_sampling_plan(CurveKind::Parabola), Some((33, 4)));
    assert_eq!(boundary_edge_sampling_plan(CurveKind::BSpline), Some((65, 4)));
    assert_eq!(boundary_edge_sampling_plan(CurveKind::Unknown), Some((65, 4)));
}

#[test]
fn count_sources_by_kind() {
    assert_eq!(subshape_count_source(ShapeKind::Face), SubshapeCountSource::Topology);
    assert_eq!(subshape_count_source(ShapeKind::Vertex), SubshapeCountSource::Topology);
    assert_eq!(subshape_count_source(ShapeKind::Shell), SubshapeCountSource::Summary);
    assert_eq!(subshape_count_source(ShapeKind::Compound), SubshapeCountSource::Summary);
    assert_eq!(subshape_count_source(ShapeKind::Shape), SubshapeCountSource::Kernel);
    assert_eq!(subshape_count_source(ShapeKind::Unknown), SubshapeCountSource::Kernel);
    let c = ShapeCounts { compsolid_count: 3, shell_count: 4, ..counts() };
    assert_eq!(summary_subshape_count(&c, ShapeKind::CompSolid), 3);
    assert_eq!(summary_subshape_count(&c, ShapeKind::Shell), 4);
}

#[test]
fn subshape_index_and_total_checks() {
    assert!(check_subshape_index(ShapeKind::Face, 5, 6).is_ok());
    assert_eq!(
        check_subshape_index(ShapeKind::Face, 6, 6).unwrap_err().message(),
        "subshape index 6 out of bounds for Face count 6"
    );
    assert!(check_subshape_total(ShapeKind::Edge, 12, 12).is_ok());
    assert_eq!(
        check_subshape_total(ShapeKind::Edge, 12, 11).unwrap_err().message(),
        "expected 12 Edge subshape(s) from topology, found 11 via OCCT"
    );
}

#[test]
fn vertex_and_edge_topology_checks() {
    assert!(check_single_vertex(&tables(1, vec![])).is_ok());
    assert_eq!(
        check_single_vertex(&tables(3, vec![])).unwrap_err().message(),
        "expected exactly one vertex in vertex topology, found 3"
    );
    let edge = TopologyEdgeVertices { start_vertex: Some(1), end_vertex: Some(0) };
    assert_eq!(single_edge_vertices(&tables(2, vec![edge])).unwrap(), (1, 0));
    assert_eq!(
        single_edge_vertices(&tables(2, vec![edge, edge])).unwrap_err().message(),
        "expected exactly one edge in edge topology, found 2"
    );
    let open = TopologyEdgeVertices { start_vertex: Some(0), end_vertex: None };
    assert_eq!(
        single_edge_vertices(&tables(2, vec![open])).unwrap_err().message(),
        "Edge did not contain two endpoint vertices."
    );
    let far = TopologyEdgeVertices { start_vertex: Some(0), end_vertex: Some(5) };
    assert_eq!(
        single_edge_vertices(&tables(2, vec![far])).unwrap_err().message(),
        "Edge did not contain two endpoint vertices."
    );
}
