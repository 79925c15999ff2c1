use lean_occt::document::{
    assembly_input_names, edge_indices_by_curve_kind, face_indices_by_surface_kind,
    first_edge_of_kind, first_face_of_kind, unknown_shape_error, ShapeRegistry,
};
use lean_occt::kinds::{CurveKind, SurfaceKind};

#[test]
fn stored_shapes_are_found_by_name() {
    let mut registry: ShapeRegistry<u32> = ShapeRegistry::new();
    registry.store_shape("base".to_string(), 10);
    registry.store_shape("tool".to_string(), 20);
    assert_eq!(registry.len(), 2);
    assert_eq!(registry.position_of("tool"), Some(1));
    assert!(registry.contains_shape("base"));
    assert!(!registry.contains_shape("missing"));
    assert_eq!(*registry.shape_ref("base").unwrap(), 10);
    assert_eq!(registry.shape_names(), vec!["base".to_string(), "tool".to_string()]);
}

#[test]
fn storing_under_a_taken_name_replaces_in_place() {
    let mut registry: ShapeRegistry<u32> = ShapeRegistry::new();
    registry.store_shape("a".to_string(), 1);
    registry.store_shape("b".to_string(), 2);
    registry.store_shape("a".to_string(), 3);
    assert_eq!(registry.len(), 2);
    assert_eq!(registry.position_of("a"), Some(0));
    assert_eq!(*registry.shape_ref("a").unwrap(), 3);
    assert_eq!(*registry.shape_ref("b").unwrap(), 2);
}

#[test]
fn unknown_names_are_errors() {
    let registry: ShapeRegistry<u32> = ShapeRegistry::new();
    assert_eq!(registry.shape_ref("ghost").unwrap_err().message(), "unknown shape 'ghost'");
    assert_eq!(unknown_shape_error("x").message(), "unknown shape 'x'");
}

#[test]
fn binary_inputs_must_be_distinct_and_known() {
    let mut registry: ShapeRegistry<u32> = ShapeRegistry::new();
    registry.store_shape("lhs".to_string(), 1);
    registry.store_shape("rhs".to_string(), 2);
    let (a, b) = registry.shape_pair("rhs", "lhs").unwrap();
    assert_eq!((*a, *b), (2, 1));
    assert_eq!(registry.shape_pair("nope", "lhs").unwrap_err().message(), "unknown shape 'nope'");
    assert_eq!(registry.shape_pair("lhs", "nope").unwrap_err().message(), "unknown shape 'nope'");
    assert_eq!(
        registry.shape_pair("lhs", "lhs").unwrap_err().message(),
        "binary operation requires distinct shape inputs, got 'lhs' twice"
    );
}

#[test]
fn several_shapes_by_name() {
    let mut registry: ShapeRegistry<u32> = ShapeRegistry::new();
    registry.store_shape("a".to_string(), 1);
    registry.store_shape("b".to_string(), 2);
    let refs = registry.shape_refs(&["b".to_string(), "a".to_string()]).unwrap();
    assert_eq!(refs.iter().map(|s| **s).collect::<Vec<_>>(), vec![2, 1]);
    assert_eq!(
        registry.shape_refs(&["a".to_string(), "c".to_string(), "d".to_string()]).unwrap_err().message(),
        "unknown shape 'c'"
    );
}

#[test]
fn assemblies_need_inputs() {
    assert_eq!(
        assembly_input_names("compound", &[]).unwrap_err().message(),
        "compound operation requires at least one input shape"
    );
    assert_eq!(
        assembly_input_names("compsolid", &["a".to_string(), "b".to_string()]).unwrap(),
        vec!["a".to_string(), "b".to_string()]
    );
}

#[test]
fn indices_by_kind() {
    let edges = [CurveKind::Line, CurveKind::Circle, CurveKind::Line];
    assert_eq!(edge_indices_by_curve_kind(&edges, CurveKind::Line), vec![0, 2]);
    assert_eq!(edge_indices_by_curve_kind(&edges, CurveKind::BSpline), Vec::<usize>::new());
    let faces = [SurfaceKind::Plane, SurfaceKind::Cylinder, SurfaceKind::Plane];
    assert_eq!(face_indices_by_surface_kind(&faces, SurfaceKind::Cylinder), vec![1]);
}

#[test]
fn first_edge_and_face_of_a_kind() {
    let edges = [CurveKind::Circle, CurveKind::Line, CurveKind::Line];
    assert_eq!(first_edge_of_kind("body", &edges, CurveKind::Line).unwrap(), 1);
    assert_eq!(
        first_edge_of_kind("body", &edges, CurveKind::Ellipse).unwrap_err().message(),
        "shape 'body' has no Ellipse edge"
    );
    let faces = [SurfaceKind::Plane, SurfaceKind::Cylinder];
    assert_eq!(first_face_of_kind("body", &faces, SurfaceKind::Cylinder).unwrap(), 1);
    assert_eq!(
        first_face_of_kind("body", &faces, SurfaceKind::BSpline).unwrap_err().message(),
        "shape 'body' has no BSpline face"
    );
}
