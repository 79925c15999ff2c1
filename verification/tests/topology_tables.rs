use lean_occt::brep::{
    adjacent_face_indices, edge_point_vertices, face_adjacent_face_indices, face_loops,
    inner_wire_count, insert_sorted, outer_wire_index, ported_brep_wires, topology_backed_subshape_count,
    topology_edge, BrepFaceLoop, BrepWire,
};
use lean_occt::kinds::{LoopRole, Orientation, ShapeKind};
use lean_occt::topology::{
    build_ported_topology_snapshot, copy_range, extend_copy, flatten_edge_face_lists,
    pack_wire_topology, FaceSnapshotAccumulator,
    PreparedFaceTopology, RootWireTopology, TopologyEdgeVertices, TopologyRange, TopologyTables,
};

fn range(offset: usize, count: usize) -> TopologyRange {
    TopologyRange { offset, count }
}

fn wire(edges: &[usize], vertices: &[usize]) -> RootWireTopology {
    RootWireTopology {
        edge_indices: edges.to_vec(),
        edge_orientations: vec![Orientation::Forward; edges.len()],
        vertex_indices: vertices.to_vec(),
    }
}

fn empty_tables() -> TopologyTables {
    TopologyTables {
        vertex_count: 0,
        edges: Vec::new(),
        edge_faces: Vec::new(),
        edge_face_indices: Vec::new(),
        wires: Vec::new(),
        wire_edge_indices: Vec::new(),
        wire_edge_orientations: Vec::new(),
        wire_vertices: Vec::new(),
        wire_vertex_indices: Vec::new(),
        faces: Vec::new(),
        face_wire_indices: Vec::new(),
        face_wire_orientations: Vec::new(),
        face_wire_roles: Vec::new(),
    }
}

/// Two faces sharing edge 1: face 0 bounded by wire 0 (edges 0, 1, 2), face
/// 1 by wire 1 (edges 1, 3, 4).
fn two_face_tables() -> TopologyTables {
    let root_wires = vec![wire(&[0, 1, 2], &[0, 1, 2, 0]), wire(&[1, 3, 4], &[2, 1, 3, 2])];
    let (wires, wire_edge_indices, wire_edge_orientations, wire_vertices, wire_vertex_indices) =
        pack_wire_topology(&root_wires);
    let (edge_faces, edge_face_indices) =
        flatten_edge_face_lists(vec![vec![0], vec![0, 1], vec![0], vec![1], vec![1]]);
    TopologyTables {
        vertex_count: 4,
        edges: vec![TopologyEdgeVertices { start_vertex: Some(0), end_vertex: Some(1) }; 5],
        edge_faces,
        edge_face_indices,
        wires,
        wire_edge_indices,
        wire_edge_orientations,
        wire_vertices,
        wire_vertex_indices,
        faces: vec![range(0, 1), range(1, 1)],
        face_wire_indices: vec![0, 1],
        face_wire_orientations: vec![Orientation::Forward, Orientation::Reversed],
        face_wire_roles: vec![LoopRole::Outer, LoopRole::Outer],
    }
}

#[test]
fn pack_places_wires_one_after_another() {
    let root_wires = vec![wire(&[4, 5], &[1, 2, 3]), wire(&[], &[]), wire(&[6], &[3, 1])];
    let (wires, edges, orientations, vertex_ranges, vertices) = pack_wire_topology(&root_wires);
    assert_eq!(wires, vec![range(0, 2), range(2, 0), range(2, 1)]);
    assert_eq!(edges, vec![4, 5, 6]);
    assert_eq!(orientations.len(), 3);
    assert_eq!(vertex_ranges, vec![range(0, 3), range(3, 0), range(3, 2)]);
    assert_eq!(vertices, vec![1, 2, 3, 3, 1]);
}

#[test]
fn packed_wires_read_back() {
    let tables = two_face_tables();
    let wires = ported_brep_wires(&tables);
    assert_eq!(wires.len(), 2);
    assert_eq!(wires[1].index, 1);
    assert_eq!(wires[0].edge_indices, vec![0, 1, 2]);
    assert_eq!(wires[1].edge_indices, vec![1, 3, 4]);
    assert_eq!(wires[1].vertex_indices, vec![2, 1, 3, 2]);
}

#[test]
fn flatten_edge_faces() {
    let (ranges, faces) = flatten_edge_face_lists(vec![vec![2, 3], vec![], vec![5]]);
    assert_eq!(ranges, vec![range(0, 2), range(2, 0), range(2, 1)]);
    assert_eq!(faces, vec![2, 3, 5]);
}

#[test]
fn accumulator_records_faces_and_edges() {
    let mut acc = FaceSnapshotAccumulator::new(3, 2);
    let first = PreparedFaceTopology {
        face_wire_indices: vec![0],
        face_wire_orientations: vec![Orientation::Forward],
        wire_roles: vec![LoopRole::Outer],
        used_edges: vec![0, 2],
    };
    assert_eq!(acc.append_prepared_face_topology(0, first), Some(()));
    let second = PreparedFaceTopology {
        face_wire_indices: vec![1, 2],
        face_wire_orientations: vec![Orientation::Reversed, Orientation::Forward],
        wire_roles: vec![LoopRole::Outer, LoopRole::Inner],
        used_edges: vec![1, 2],
    };
    assert_eq!(acc.append_prepared_face_topology(1, second), Some(()));
    let fields = acc.into_fields();
    assert_eq!(fields.faces, vec![range(0, 1), range(1, 2)]);
    assert_eq!(fields.face_wire_indices, vec![0, 1, 2]);
    assert_eq!(fields.face_wire_roles, vec![LoopRole::Outer, LoopRole::Outer, LoopRole::Inner]);
    assert_eq!(fields.edge_faces, vec![range(0, 1), range(1, 1), range(2, 2)]);
    assert_eq!(fields.edge_face_indices, vec![0, 1, 0, 1]);
}

#[test]
fn accumulator_refuses_unknown_edge_after_recording_known_ones() {
    let mut acc = FaceSnapshotAccumulator::new(2, 1);
    let result =
        acc.append_face_topology_outputs(0, 0, vec![0], vec![Orientation::Forward], vec![1, 5], vec![LoopRole::Outer]);
    assert_eq!(result, None);
    assert_eq!(acc.edge_face_lists, vec![vec![], vec![0]]);
    assert_eq!(acc.faces, vec![range(0, 1)]);
}

#[test]
fn face_loops_read_recorded_loops() {
    let tables = two_face_tables();
    let loops = face_loops(&tables, 1).unwrap();
    assert_eq!(
        loops,
        vec![BrepFaceLoop { wire_index: 1, orientation: Orientation::Reversed, role: LoopRole::Outer }]
    );
}

#[test]
fn face_loops_errors() {
    let mut tables = two_face_tables();
    assert_eq!(
        face_loops(&tables, 2).unwrap_err().message(),
        "topology is missing face range 2"
    );
    tables.faces = vec![range(1, 3)];
    assert_eq!(
        face_loops(&tables, 0).unwrap_err().message(),
        "topology is missing face-wire index 2"
    );
    tables.face_wire_indices = vec![0, 1, 2, 3];
    assert_eq!(
        face_loops(&tables, 0).unwrap_err().message(),
        "topology is missing face-wire orientation 2"
    );
    tables.face_wire_orientations = vec![Orientation::Forward; 4];
    assert_eq!(
        face_loops(&tables, 0).unwrap_err().message(),
        "topology is missing face-wire role 2"
    );
    tables.face_wire_roles = vec![LoopRole::Inner; 4];
    assert_eq!(face_loops(&tables, 0).unwrap().len(), 3);
}

#[test]
fn empty_face_range_reads_no_loops() {
    let mut tables = empty_tables();
    tables.faces = vec![range(10, 0)];
    assert_eq!(face_loops(&tables, 0).unwrap(), vec![]);
}

#[test]
fn edge_face_adjacency() {
    let tables = two_face_tables();
    assert_eq!(adjacent_face_indices(&tables, 1).unwrap(), vec![0, 1]);
    assert_eq!(adjacent_face_indices(&tables, 4).unwrap(), vec![1]);
    assert_eq!(
        adjacent_face_indices(&tables, 5).unwrap_err().message(),
        "topology is missing edge-face range 5"
    );
}

#[test]
fn faces_sharing_an_edge_are_adjacent() {
    let tables = two_face_tables();
    let wires = ported_brep_wires(&tables);
    assert_eq!(face_adjacent_face_indices(&tables, &wires, 0).unwrap(), vec![1]);
    assert_eq!(face_adjacent_face_indices(&tables, &wires, 1).unwrap(), vec![0]);
}

#[test]
fn adjacency_errors() {
    let tables = two_face_tables();
    let wires = ported_brep_wires(&tables);
    assert_eq!(
        face_adjacent_face_indices(&tables, &wires, 3).unwrap_err().message(),
        "topology is missing face range 3"
    );
    assert_eq!(
        face_adjacent_face_indices(&tables, &wires[..1], 1).unwrap_err().message(),
        "topology is missing wire index 1"
    );
    let mut short = wires.clone();
    short[0] = BrepWire {
        index: 0,
        edge_indices: vec![0, 9],
        edge_orientations: vec![Orientation::Forward; 2],
        vertex_indices: vec![],
    };
    assert_eq!(
        face_adjacent_face_indices(&tables, &short, 0).unwrap_err().message(),
        "topology is missing edge-face range 9"
    );
}

#[test]
fn sorted_insertion_keeps_a_set() {
    let mut set = vec![];
    for x in [5, 1, 5, 3, 9, 1] {
        insert_sorted(&mut set, x);
    }
    assert_eq!(set, vec![1, 3, 5, 9]);
}

#[test]
fn topology_counts_by_kind() {
    let tables = two_face_tables();
    assert_eq!(topology_backed_subshape_count(&tables, ShapeKind::Face), Some(2));
    assert_eq!(topology_backed_subshape_count(&tables, ShapeKind::Wire), Some(2));
    assert_eq!(topology_backed_subshape_count(&tables, ShapeKind::Edge), Some(5));
    assert_eq!(topology_backed_subshape_count(&tables, ShapeKind::Vertex), Some(4));
    assert_eq!(topology_backed_subshape_count(&tables, ShapeKind::Solid), None);
    assert_eq!(topology_backed_subshape_count(&tables, ShapeKind::Shape), None);
}

#[test]
fn outer_and_inner_loops() {
    let loops = [
        BrepFaceLoop { wire_index: 4, orientation: Orientation::Forward, role: LoopRole::Inner },
        BrepFaceLoop { wire_index: 7, orientation: Orientation::Forward, role: LoopRole::Outer },
        BrepFaceLoop { wire_index: 8, orientation: Orientation::Forward, role: LoopRole::Inner },
        BrepFaceLoop { wire_index: 9, orientation: Orientation::Forward, role: LoopRole::Outer },
    ];
    assert_eq!(outer_wire_index(&loops), Some(7));
    assert_eq!(inner_wire_count(&loops), 2);
    assert_eq!(outer_wire_index(&loops[..1]), None);
    assert_eq!(inner_wire_count(&[]), 0);
}

#[test]
fn copy_helpers() {
    let v = vec![1, 2, 3, 4];
    assert_eq!(copy_range(&v, range(1, 2)), vec![2, 3]);
    let mut dst = vec![9];
    extend_copy(&mut dst, &[7, 8]);
    assert_eq!(dst, vec![9, 7, 8]);
}

#[test]
fn edges_read_from_the_tables() {
    let mut tables = two_face_tables();
    tables.edges[3] = TopologyEdgeVertices { start_vertex: Some(2), end_vertex: Some(9) };
    tables.edges[4] = TopologyEdgeVertices { start_vertex: None, end_vertex: Some(3) };
    assert_eq!(
        topology_edge(&tables, 0).unwrap(),
        TopologyEdgeVertices { start_vertex: Some(0), end_vertex: Some(1) }
    );
    assert_eq!(topology_edge(&tables, 5).unwrap_err().message(), "topology is missing edge index 5");
    assert_eq!(edge_point_vertices(&tables, 0), (Some(0), Some(1)));
    assert_eq!(edge_point_vertices(&tables, 3), (Some(2), None));
    assert_eq!(edge_point_vertices(&tables, 4), (None, Some(3)));
    assert_eq!(edge_point_vertices(&tables, 7), (None, None));
}

#[test]
fn built_tables_read_back_wires_loops_and_adjacency() {
    // Two triangles sharing edge 1: face 0 on wire 0, face 1 on wire 1.
    let root_wires = vec![wire(&[0, 1, 2], &[0, 1, 2, 0]), wire(&[1, 3, 4], &[2, 1, 3, 2])];
    let mut acc = FaceSnapshotAccumulator::new(5, 2);
    for (face_index, edges) in [vec![0, 1, 2], vec![1, 3, 4]].into_iter().enumerate() {
        let prepared = PreparedFaceTopology {
            face_wire_indices: vec![face_index],
            face_wire_orientations: vec![Orientation::Forward],
            wire_roles: vec![LoopRole::Outer],
            used_edges: edges,
        };
        assert_eq!(acc.append_prepared_face_topology(face_index, prepared), Some(()));
    }
    let edge = TopologyEdgeVertices { start_vertex: Some(0), end_vertex: Some(1) };
    let tables = build_ported_topology_snapshot(
        4,
        vec![edge; 5],
        pack_wire_topology(&root_wires),
        acc.into_fields(),
    );
    let wires = ported_brep_wires(&tables);
    assert_eq!(wires[1].edge_indices, vec![1, 3, 4]);
    assert_eq!(wires[1].vertex_indices, vec![2, 1, 3, 2]);
    assert_eq!(face_loops(&tables, 1).unwrap()[0].wire_index, 1);
    assert_eq!(adjacent_face_indices(&tables, 1).unwrap(), vec![0, 1]);
    assert_eq!(adjacent_face_indices(&tables, 3).unwrap(), vec![1]);
    assert_eq!(face_adjacent_face_indices(&tables, &wires, 0).unwrap(), vec![1]);
    assert_eq!(face_adjacent_face_indices(&tables, &wires, 1).unwrap(), vec![0]);
}
