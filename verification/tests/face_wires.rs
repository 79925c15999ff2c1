use lean_occt::brep::{BrepFaceLoop, BrepWire};
use lean_occt::face_wires::{classify_wire_roles, face_curve_edges, FaceWireMatcher};
use lean_occt::kinds::{CurveKind, LoopRole, Orientation};
use lean_occt::topology::RootWireTopology;

fn wire(edges: &[usize], vertices: &[usize]) -> RootWireTopology {
    RootWireTopology {
        edge_indices: edges.to_vec(),
        edge_orientations: vec![Orientation::Forward; edges.len()],
        vertex_indices: vertices.to_vec(),
    }
}

#[test]
fn face_wires_match_each_root_wire_once() {
    let outer = wire(&[0, 1, 2], &[0, 1, 2, 0]);
    let hole = wire(&[5, 4, 3], &[3, 4, 5, 3]);
    // Two identical root wires: a face using that wire twice takes both.
    let root_wires = vec![outer.clone(), hole.clone(), hole.clone()];

    let mut matcher = FaceWireMatcher::new();
    assert_eq!(matcher.match_face_wire(&root_wires, &hole), Some(1));
    matcher.record_face_wire(1, &hole, Orientation::Reversed);
    assert_eq!(matcher.match_face_wire(&root_wires, &hole), Some(2));
    matcher.record_face_wire(2, &hole, Orientation::Forward);
    assert_eq!(matcher.match_face_wire(&root_wires, &hole), None);
    assert_eq!(matcher.match_face_wire(&root_wires, &outer), Some(0));
    matcher.record_face_wire(0, &outer, Orientation::Forward);

    let prepared = matcher.finish(vec![LoopRole::Inner, LoopRole::Inner, LoopRole::Outer]);
    assert_eq!(prepared.face_wire_indices, vec![1, 2, 0]);
    assert_eq!(
        prepared.face_wire_orientations,
        vec![Orientation::Reversed, Orientation::Forward, Orientation::Forward]
    );
    assert_eq!(prepared.used_edges, vec![0, 1, 2, 3, 4, 5]);
    assert_eq!(prepared.wire_roles, vec![LoopRole::Inner, LoopRole::Inner, LoopRole::Outer]);
}

#[test]
fn face_wire_without_a_root_wire_is_not_matched() {
    let root_wires = vec![wire(&[0, 1], &[0, 1, 0])];
    let matcher = FaceWireMatcher::new();
    // Same edges, other orientation: not the same wire.
    let reversed = RootWireTopology {
        edge_indices: vec![0, 1],
        edge_orientations: vec![Orientation::Reversed, Orientation::Forward],
        vertex_indices: vec![0, 1, 0],
    };
    assert_eq!(matcher.match_face_wire(&root_wires, &reversed), None);
}

#[test]
fn lone_wire_is_outer() {
    assert_eq!(classify_wire_roles(1, 0, None), Some(vec![LoopRole::Outer]));
}

#[test]
fn largest_wire_is_outer() {
    assert_eq!(
        classify_wire_roles(3, 3, Some(1)),
        Some(vec![LoopRole::Inner, LoopRole::Outer, LoopRole::Inner])
    );
}

#[test]
fn wires_without_a_bounding_area_have_no_roles() {
    assert_eq!(classify_wire_roles(2, 2, None), None);
}

fn brep_wire(index: usize, edges: &[usize]) -> BrepWire {
    BrepWire {
        index,
        edge_indices: edges.to_vec(),
        edge_orientations: vec![Orientation::Forward; edges.len()],
        vertex_indices: vec![0; edges.len() + 1],
    }
}

fn face_loop(wire_index: usize, orientation: Orientation) -> BrepFaceLoop {
    BrepFaceLoop { wire_index, orientation, role: LoopRole::Outer }
}

#[test]
fn curve_edges_take_each_edge_once_in_loop_order() {
    let wires = vec![brep_wire(0, &[0, 1, 2]), brep_wire(1, &[2, 3])];
    let loops = vec![face_loop(0, Orientation::Forward), face_loop(1, Orientation::Reversed)];
    let kinds = [CurveKind::Line, CurveKind::Circle, CurveKind::Line, CurveKind::Line];
    assert_eq!(
        face_curve_edges(&loops, &wires, &kinds, &[true; 4], CurveKind::Line),
        Some(vec![
            (0, Orientation::Forward),
            (2, Orientation::Forward),
            (3, Orientation::Reversed),
        ])
    );
    assert_eq!(
        face_curve_edges(&loops, &wires, &kinds, &[true; 4], CurveKind::Circle),
        Some(vec![(1, Orientation::Forward)])
    );
    // A circle without a ported curve does not matter when lines are sought.
    assert_eq!(
        face_curve_edges(&loops, &wires, &kinds, &[true, false, true, true], CurveKind::Line)
            .map(|uses| uses.len()),
        Some(3)
    );
}

#[test]
fn curve_edges_fail_on_missing_lookups() {
    let wires = vec![brep_wire(0, &[0, 1, 2]), brep_wire(1, &[2, 3])];
    let loops = vec![face_loop(0, Orientation::Forward), face_loop(1, Orientation::Reversed)];
    let kinds = [CurveKind::Line, CurveKind::Circle, CurveKind::Line, CurveKind::Line];
    // A line without a ported curve.
    assert_eq!(
        face_curve_edges(&loops, &wires, &kinds, &[true, true, true, false], CurveKind::Line),
        None
    );
    // No edge of the kind.
    assert_eq!(face_curve_edges(&loops, &wires, &kinds, &[true; 4], CurveKind::Ellipse), None);
    // A loop naming no wire.
    let dangling = vec![face_loop(0, Orientation::Forward), face_loop(5, Orientation::Forward)];
    assert_eq!(face_curve_edges(&dangling, &wires, &kinds, &[true; 4], CurveKind::Line), None);
    // An edge the kinds do not cover.
    assert_eq!(face_curve_edges(&loops, &wires, &kinds[..3], &[true; 3], CurveKind::Line), None);
}
