use lean_occt::brep::BrepWire;
use lean_occt::kinds::Orientation;
use lean_occt::topology::{RootWireTopology, TopologyEdgeVertices};
use lean_occt::wire::{
    match_root_wire_index, matches_edge_vertices, oriented_root_edge_vertices, oriented_wire_edges,
    same_root_wire, sole_match, contains_index, wire_occurrence, WireOccurrence,
};

fn ends(start: Option<usize>, end: Option<usize>) -> TopologyEdgeVertices {
    TopologyEdgeVertices { start_vertex: start, end_vertex: end }
}

fn root_wire(edges: &[usize]) -> RootWireTopology {
    RootWireTopology {
        edge_indices: edges.to_vec(),
        edge_orientations: vec![Orientation::Forward; edges.len()],
        vertex_indices: vec![0; edges.len() + 1],
    }
}

#[test]
fn edge_vertices_match_either_way() {
    assert!(matches_edge_vertices(&ends(Some(1), Some(2)), 1, 2));
    assert!(matches_edge_vertices(&ends(Some(1), Some(2)), 2, 1));
    assert!(!matches_edge_vertices(&ends(Some(1), Some(2)), 1, 3));
    assert!(!matches_edge_vertices(&ends(None, Some(2)), 1, 2));
}

#[test]
fn oriented_edge_vertices() {
    assert_eq!(oriented_root_edge_vertices(&ends(Some(1), Some(2)), Orientation::Forward), Some((1, 2)));
    assert_eq!(oriented_root_edge_vertices(&ends(Some(1), Some(2)), Orientation::Reversed), Some((2, 1)));
    assert_eq!(oriented_root_edge_vertices(&ends(Some(1), Some(2)), Orientation::Internal), Some((1, 2)));
    assert_eq!(oriented_root_edge_vertices(&ends(Some(1), None), Orientation::Forward), None);
}

#[test]
fn reversed_wire_is_walked_back_to_front() {
    let wire = BrepWire {
        index: 0,
        edge_indices: vec![3, 4, 5],
        edge_orientations: vec![Orientation::Forward, Orientation::Reversed, Orientation::Internal],
        vertex_indices: vec![],
    };
    assert_eq!(
        oriented_wire_edges(&wire, Orientation::Forward),
        vec![(3, Orientation::Forward), (4, Orientation::Reversed), (5, Orientation::Internal)]
    );
    assert_eq!(
        oriented_wire_edges(&wire, Orientation::Reversed),
        vec![(5, Orientation::Internal), (4, Orientation::Forward), (3, Orientation::Reversed)]
    );
}

#[test]
fn wire_uses_pair_up_to_shorter_list() {
    let wire = BrepWire {
        index: 0,
        edge_indices: vec![3, 4, 5],
        edge_orientations: vec![Orientation::Reversed],
        vertex_indices: vec![],
    };
    assert_eq!(oriented_wire_edges(&wire, Orientation::Reversed), vec![(3, Orientation::Forward)]);
}

#[test]
fn root_wire_matching_skips_used_wires() {
    let root_wires = vec![root_wire(&[0, 1]), root_wire(&[2, 3]), root_wire(&[0, 1])];
    assert!(same_root_wire(&root_wires[0], &root_wires[2]));
    assert!(!same_root_wire(&root_wires[0], &root_wires[1]));
    assert_eq!(match_root_wire_index(&root_wires, &root_wire(&[0, 1]), &vec![]), Some(0));
    assert_eq!(match_root_wire_index(&root_wires, &root_wire(&[0, 1]), &vec![0]), Some(2));
    assert_eq!(match_root_wire_index(&root_wires, &root_wire(&[0, 1]), &vec![0, 2]), None);
    assert_eq!(match_root_wire_index(&root_wires, &root_wire(&[9]), &vec![]), None);
}

#[test]
fn sorted_set_membership() {
    assert!(contains_index(&vec![1, 4, 8], 4));
    assert!(!contains_index(&vec![1, 4, 8], 5));
    assert!(!contains_index(&vec![], 0));
}

#[test]
fn sole_match_needs_exactly_one() {
    assert_eq!(sole_match(&[false, true, false]), Some(1));
    assert_eq!(sole_match(&[true, false, true]), None);
    assert_eq!(sole_match(&[false, false]), None);
    assert_eq!(sole_match(&[]), None);
}

#[test]
fn wire_occurrence_picks_the_root_edge_joining_its_ends() {
    let root_edges = vec![ends(Some(0), Some(1)), ends(Some(1), Some(2)), ends(Some(2), Some(0))];
    assert_eq!(
        wire_occurrence(1, 2, Orientation::Forward, &vec![0, 1, 2], &root_edges),
        Some(WireOccurrence {
            edge_index: 1,
            orientation: Orientation::Forward,
            start_vertex: 1,
            end_vertex: 2,
        })
    );
    // A reversed use runs from the edge's end to its start.
    assert_eq!(
        wire_occurrence(1, 2, Orientation::Reversed, &vec![1], &root_edges),
        Some(WireOccurrence {
            edge_index: 1,
            orientation: Orientation::Reversed,
            start_vertex: 2,
            end_vertex: 1,
        })
    );
    // No candidate joins the ends, or two do.
    assert_eq!(wire_occurrence(0, 2, Orientation::Forward, &vec![0, 1], &root_edges), None);
    let doubled = vec![ends(Some(0), Some(1)), ends(Some(1), Some(0))];
    assert_eq!(wire_occurrence(0, 1, Orientation::Forward, &vec![0, 1], &doubled), None);
}
