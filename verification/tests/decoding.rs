use lean_occt::decode::{decode_topology_tables, range_table_total, RawTopology};
use lean_occt::kinds::{LoopRole, Orientation};
use lean_occt::topology::{TopologyEdgeVertices, TopologyRange};

fn range(offset: usize, count: usize) -> TopologyRange {
    TopologyRange { offset, count }
}

/// One triangular face: three vertices, three edges, one wire, one face.
fn triangle_raw() -> RawTopology {
    RawTopology {
        vertex_count: 3,
        edge_count: 3,
        edge_vertex_indices: vec![0, 1, 1, 2, 2, u32::MAX],
        edge_face_ranges: vec![0, 1, 1, 1, 2, 1],
        edge_face_indices: vec![0, 0, 0],
        wire_ranges: vec![0, 3],
        wire_edge_indices: vec![0, 1, 2],
        wire_edge_orientations: vec![0, 1, 0],
        wire_vertex_ranges: vec![0, 4],
        wire_vertex_indices: vec![0, 1, 2, 0],
        face_ranges: vec![0, 1],
        face_wire_indices: vec![0],
        face_wire_orientations: vec![3],
        face_wire_roles: vec![1],
    }
}

#[test]
fn raw_topology_decodes_into_tables() {
    let raw = triangle_raw();
    assert_eq!(range_table_total(&raw.edge_face_ranges), 3);
    assert_eq!(range_table_total(&raw.wire_vertex_ranges), 4);
    let tables = decode_topology_tables(&raw);
    assert_eq!(tables.vertex_count, 3);
    assert_eq!(
        tables.edges,
        vec![
            TopologyEdgeVertices { start_vertex: Some(0), end_vertex: Some(1) },
            TopologyEdgeVertices { start_vertex: Some(1), end_vertex: Some(2) },
            TopologyEdgeVertices { start_vertex: Some(2), end_vertex: None },
        ]
    );
    assert_eq!(tables.edge_faces, vec![range(0, 1), range(1, 1), range(2, 1)]);
    assert_eq!(tables.edge_face_indices, vec![0, 0, 0]);
    assert_eq!(tables.wires, vec![range(0, 3)]);
    assert_eq!(tables.wire_edge_indices, vec![0, 1, 2]);
    assert_eq!(
        tables.wire_edge_orientations,
        vec![Orientation::Forward, Orientation::Reversed, Orientation::Forward]
    );
    assert_eq!(tables.wire_vertices, vec![range(0, 4)]);
    assert_eq!(tables.wire_vertex_indices, vec![0, 1, 2, 0]);
    assert_eq!(tables.faces, vec![range(0, 1)]);
    assert_eq!(tables.face_wire_indices, vec![0]);
    assert_eq!(tables.face_wire_orientations, vec![Orientation::External]);
    assert_eq!(tables.face_wire_roles, vec![LoopRole::Outer]);
}

#[test]
fn empty_raw_topology_decodes_into_empty_tables() {
    let raw = RawTopology {
        vertex_count: 0,
        edge_count: 0,
        edge_vertex_indices: vec![],
        edge_face_ranges: vec![],
        edge_face_indices: vec![],
        wire_ranges: vec![],
        wire_edge_indices: vec![],
        wire_edge_orientations: vec![],
        wire_vertex_ranges: vec![],
        wire_vertex_indices: vec![],
        face_ranges: vec![],
        face_wire_indices: vec![],
        face_wire_orientations: vec![],
        face_wire_roles: vec![],
    };
    assert_eq!(range_table_total(&raw.face_ranges), 0);
    let tables = decode_topology_tables(&raw);
    assert!(tables.edges.is_empty() && tables.wires.is_empty() && tables.faces.is_empty());
}
