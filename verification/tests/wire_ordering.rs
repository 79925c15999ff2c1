use lean_occt::kinds::Orientation;
use lean_occt::wire::{chain_wire_occurrences, order_wire_occurrences, WireOccurrence};

fn occ(edge_index: usize, start_vertex: usize, end_vertex: usize) -> WireOccurrence {
    WireOccurrence {
        edge_index,
        orientation: Orientation::Forward,
        start_vertex,
        end_vertex,
    }
}

#[test]
fn empty_wire_orders_to_nothing() {
    let (edges, orientations, vertices) = order_wire_occurrences(&[]).unwrap();
    assert!(edges.is_empty());
    assert!(orientations.is_empty());
    assert!(vertices.is_empty());
}

#[test]
fn chained_wire_keeps_its_order() {
    let occurrences = [occ(4, 0, 1), occ(7, 1, 2), occ(2, 2, 0)];
    let (edges, _, vertices) = order_wire_occurrences(&occurrences).unwrap();
    assert_eq!(edges, vec![4, 7, 2]);
    assert_eq!(vertices, vec![0, 1, 2, 0]);
}

#[test]
fn shuffled_open_wire_is_walked_from_its_free_end() {
    // An open path 5 -> 6 -> 7 -> 8 given out of order.
    let occurrences = [occ(11, 7, 8), occ(10, 5, 6), occ(12, 6, 7)];
    let (edges, _, vertices) = order_wire_occurrences(&occurrences).unwrap();
    assert_eq!(edges, vec![10, 12, 11]);
    assert_eq!(vertices, vec![5, 6, 7, 8]);
}

#[test]
fn shuffled_closed_wire_starts_at_first_occurrence() {
    let occurrences = [occ(1, 3, 4), occ(2, 5, 3), occ(3, 4, 5)];
    let (edges, _, vertices) = order_wire_occurrences(&occurrences).unwrap();
    assert_eq!(edges, vec![1, 3, 2]);
    assert_eq!(vertices, vec![3, 4, 5, 3]);
}

#[test]
fn orientations_follow_their_edges() {
    let mut a = occ(1, 2, 3);
    a.orientation = Orientation::Reversed;
    let b = occ(0, 1, 2);
    let (edges, orientations, _) = order_wire_occurrences(&[a, b]).unwrap();
    assert_eq!(edges, vec![0, 1]);
    assert_eq!(orientations, vec![Orientation::Forward, Orientation::Reversed]);
}

#[test]
fn two_open_ends_are_refused() {
    // Two separate paths: 0 -> 1 and 2 -> 3.
    let occurrences = [occ(0, 1, 9), occ(1, 0, 1), occ(2, 2, 3)];
    assert!(order_wire_occurrences(&occurrences).is_none());
}

#[test]
fn branching_wire_is_refused() {
    // Out of order, and the walk starts at vertex 0, which has two ways out.
    let occurrences = [occ(1, 0, 2), occ(0, 1, 0), occ(2, 2, 0), occ(3, 0, 1)];
    assert!(order_wire_occurrences(&occurrences).is_none());
}

#[test]
fn chain_reports_vertices() {
    let occurrences = [occ(0, 0, 1), occ(1, 1, 2)];
    assert_eq!(chain_wire_occurrences(&occurrences, &[0, 1]), Some(vec![0, 1, 2]));
    assert_eq!(chain_wire_occurrences(&occurrences, &[1, 0]), None);
    assert_eq!(chain_wire_occurrences(&occurrences, &[]), None);
    assert_eq!(chain_wire_occurrences(&occurrences, &[0, 5]), None);
}
