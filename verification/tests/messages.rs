use lean_occt::error::{
    decimal_text, mismatched_ported_curve_payload_error, mismatched_ported_offset_basis_curve_payload_error,
    mismatched_ported_offset_basis_payload_error, mismatched_ported_surface_payload_error,
    require_ported_brep_curve, rust_owned_brep_curve_required,
    unsupported_ported_offset_basis_curve_geometry_error,
    unsupported_ported_offset_basis_curve_payload_error, unsupported_ported_surface_payload_error,
    Error,
};
use lean_occt::kinds::{CurveKind, ShapeKind, SurfaceKind};

#[test]
fn decimal_text_of_indices() {
    assert_eq!(decimal_text(0), "0");
    assert_eq!(decimal_text(7), "7");
    assert_eq!(decimal_text(10), "10");
    assert_eq!(decimal_text(4096), "4096");
    assert_eq!(decimal_text(usize::MAX), usize::MAX.to_string());
}

#[test]
fn kind_names_match_debug_text() {
    assert_eq!(ShapeKind::CompSolid.name(), format!("{:?}", ShapeKind::CompSolid));
    assert_eq!(CurveKind::BSpline.name(), format!("{:?}", CurveKind::BSpline));
    assert_eq!(SurfaceKind::Revolution.name(), format!("{:?}", SurfaceKind::Revolution));
}

#[test]
fn error_keeps_its_message() {
    let e = Error::new("boom".to_string());
    assert_eq!(e.message(), "boom");
    assert_eq!(Error::from_text("plain").message(), "plain");
}

#[test]
fn payload_error_messages() {
    assert_eq!(
        mismatched_ported_curve_payload_error(CurveKind::Circle, CurveKind::Line).message(),
        "requested Circle payload for ported Line edge"
    );
    assert_eq!(
        mismatched_ported_surface_payload_error(SurfaceKind::Plane, SurfaceKind::Cone).message(),
        "requested Plane payload for ported Cone face"
    );
    assert_eq!(
        unsupported_ported_surface_payload_error(SurfaceKind::Sphere, SurfaceKind::BSpline).message(),
        "Rust-owned Sphere payload extraction did not cover BSpline face"
    );
    assert_eq!(
        mismatched_ported_offset_basis_payload_error(SurfaceKind::Cylinder, SurfaceKind::Torus).message(),
        "requested Cylinder offset-basis payload for ported Torus offset basis"
    );
    assert_eq!(
        unsupported_ported_offset_basis_curve_geometry_error(SurfaceKind::Plane).message(),
        "requested offset-basis curve geometry for ported Plane offset basis"
    );
    assert_eq!(
        mismatched_ported_offset_basis_curve_payload_error(CurveKind::Ellipse, CurveKind::Line).message(),
        "requested Ellipse offset-basis curve payload for ported Line offset basis curve"
    );
    assert_eq!(
        unsupported_ported_offset_basis_curve_payload_error(CurveKind::Line, SurfaceKind::Cone).message(),
        "requested Line offset-basis curve payload for ported Cone offset basis"
    );
}

#[test]
fn rust_owned_curves_are_required_for_conics_and_lines() {
    assert!(rust_owned_brep_curve_required(CurveKind::Line));
    assert!(rust_owned_brep_curve_required(CurveKind::Circle));
    assert!(rust_owned_brep_curve_required(CurveKind::Ellipse));
    assert!(!rust_owned_brep_curve_required(CurveKind::BSpline));
    assert!(!rust_owned_brep_curve_required(CurveKind::Hyperbola));
}

#[test]
fn missing_rust_owned_curve_is_refused() {
    assert!(require_ported_brep_curve(CurveKind::Line, true).is_ok());
    assert!(require_ported_brep_curve(CurveKind::Bezier, false).is_ok());
    let err = require_ported_brep_curve(CurveKind::Circle, false).unwrap_err();
    assert_eq!(err.message(), "Rust-owned BRep edge materialization did not cover Circle edge");
}
