use lean_occt::error::Error;
use lean_occt::kinds::Orientation;
use lean_occt::topology::{TopologyEdgeVertices, TopologyRange, TopologyTables};
use lean_occt::wire::{root_wire_topology_from_snapshot, WireSnapshotFacts};

fn range(offset: usize, count: usize) -> TopologyRange {
    TopologyRange { offset, count }
}

fn ends(start: usize, end: usize) -> TopologyEdgeVertices {
    TopologyEdgeVertices { start_vertex: Some(start), end_vertex: Some(end) }
}

/// A triangle of root edges 0: 0-1, 1: 1-2, 2: 2-0.
fn triangle() -> Vec<TopologyEdgeVertices> {
    vec![ends(0, 1), ends(1, 2), ends(2, 0)]
}

/// A snapshot with one wire of three edges over three local vertices.
fn single_wire(
    edge_indices: Vec<usize>,
    orientations: Vec<Orientation>,
    vertex_indices: Vec<usize>,
) -> TopologyTables {
    TopologyTables {
        vertex_count: 3,
        edges: vec![],
        edge_faces: vec![],
        edge_face_indices: vec![],
        wires: vec![range(0, 3)],
        wire_edge_indices: edge_indices,
        wire_edge_orientations: orientations,
        wire_vertices: vec![range(0, 4)],
        wire_vertex_indices: vertex_indices,
        faces: vec![],
        face_wire_indices: vec![],
        face_wire_orientations: vec![],
        face_wire_roles: vec![],
    }
}

fn forward3() -> Vec<Orientation> {
    vec![Orientation::Forward; 3]
}

fn all_candidates() -> Vec<Result<Vec<usize>, Error>> {
    vec![Ok(vec![0, 1, 2]), Ok(vec![0, 1, 2]), Ok(vec![0, 1, 2])]
}

fn located_facts(edge_candidates: Vec<Result<Vec<usize>, Error>>) -> WireSnapshotFacts {
    WireSnapshotFacts { vertex_matches: vec![Some(0), Some(1), Some(2)], edge_candidates }
}

#[test]
fn snapshot_wire_matches_by_vertices() {
    let topology = single_wire(vec![0, 1, 2], forward3(), vec![0, 1, 2, 0]);
    let facts = located_facts(all_candidates());
    let wire = root_wire_topology_from_snapshot(&topology, &facts, &triangle())
        .expect("no error")
        .expect("a wire");
    assert_eq!(wire.edge_indices, vec![0, 1, 2]);
    assert_eq!(wire.edge_orientations, forward3());
    assert_eq!(wire.vertex_indices, vec![0, 1, 2, 0]);
}

#[test]
fn snapshot_wire_takes_unknown_ends_from_the_root_edge() {
    // No local vertex is located; each edge has exactly one candidate, and the
    // reversed middle occurrence runs from the root edge's end to its start.
    let topology = single_wire(
        vec![0, 1, 2],
        vec![Orientation::Forward, Orientation::Reversed, Orientation::Forward],
        vec![0, 1, 2, 0],
    );
    let root_edges = vec![ends(0, 1), ends(2, 1), ends(2, 0)];
    let facts = WireSnapshotFacts {
        vertex_matches: vec![None, None, None],
        edge_candidates: vec![Ok(vec![0]), Ok(vec![1]), Ok(vec![2])],
    };
    let wire = root_wire_topology_from_snapshot(&topology, &facts, &root_edges)
        .expect("no error")
        .expect("a wire");
    assert_eq!(wire.edge_indices, vec![0, 1, 2]);
    assert_eq!(wire.vertex_indices, vec![0, 1, 2, 0]);
}

#[test]
fn snapshot_wire_rejects_ambiguous_matches() {
    let topology = single_wire(vec![0, 1, 2], forward3(), vec![0, 1, 2, 0]);
    let facts = WireSnapshotFacts {
        vertex_matches: vec![None, None, None],
        edge_candidates: all_candidates(),
    };
    assert!(matches!(
        root_wire_topology_from_snapshot(&topology, &facts, &triangle()),
        Ok(None)
    ));
}

#[test]
fn snapshot_wire_rejects_a_broken_chain() {
    // The second occurrence starts at vertex 2, where the first did not end.
    let topology = single_wire(vec![0, 1, 2], forward3(), vec![0, 1, 2, 0]);
    let root_edges = vec![ends(0, 1), ends(2, 0), ends(2, 0)];
    let facts = WireSnapshotFacts {
        vertex_matches: vec![None, None, None],
        edge_candidates: vec![Ok(vec![0]), Ok(vec![1]), Ok(vec![2])],
    };
    assert!(matches!(
        root_wire_topology_from_snapshot(&topology, &facts, &root_edges),
        Ok(None)
    ));
}

#[test]
fn snapshot_without_a_single_wire_gives_none() {
    let mut topology = single_wire(vec![0, 1, 2], forward3(), vec![0, 1, 2, 0]);
    topology.wires.push(range(3, 0));
    let facts = located_facts(all_candidates());
    assert!(matches!(
        root_wire_topology_from_snapshot(&topology, &facts, &triangle()),
        Ok(None)
    ));
}

#[test]
fn snapshot_wire_reports_a_missing_edge_occurrence() {
    let topology = single_wire(vec![0, 1], forward3(), vec![0, 1, 2, 0]);
    let facts = located_facts(all_candidates());
    let error = root_wire_topology_from_snapshot(&topology, &facts, &triangle()).unwrap_err();
    assert_eq!(error.message(), "wire topology is missing edge occurrence 2");
}

#[test]
fn snapshot_wire_reports_an_edge_outside_the_map() {
    let topology = single_wire(vec![0, 1, 5], forward3(), vec![0, 1, 2, 0]);
    let facts = located_facts(all_candidates());
    let error = root_wire_topology_from_snapshot(&topology, &facts, &triangle()).unwrap_err();
    assert_eq!(
        error.message(),
        "wire topology referenced local edge index 5 outside the edge map"
    );
}

#[test]
fn snapshot_wire_reports_a_missing_end_vertex() {
    let topology = single_wire(vec![0, 1, 2], forward3(), vec![0, 1, 2]);
    let facts = located_facts(all_candidates());
    let error = root_wire_topology_from_snapshot(&topology, &facts, &triangle()).unwrap_err();
    assert_eq!(error.message(), "wire topology is missing end vertex occurrence 3");
}

#[test]
fn snapshot_wire_passes_on_a_geometry_error() {
    let topology = single_wire(vec![0, 1, 2], forward3(), vec![0, 1, 2, 0]);
    let facts = located_facts(vec![
        Ok(vec![0, 1, 2]),
        Err(Error::from_text("edge geometry failed")),
        Ok(vec![0, 1, 2]),
    ]);
    let error = root_wire_topology_from_snapshot(&topology, &facts, &triangle()).unwrap_err();
    assert_eq!(error.message(), "edge geometry failed");
}
