use lean_occt::kinds::{CurveKind, SurfaceKind};
use lean_occt::ported_kinds::{
    built_surface_payload, check_surface_payload_kind, ported_curve_kind,
    ported_face_surface_descriptor_kind, ported_offset_basis_surface_kind, ported_surface_kind,
    ported_swept_surface_kind, PortedCurveVariant, PortedFaceSurfaceVariant,
    PortedOffsetBasisSurfaceVariant, PortedSurfaceVariant, PortedSweptSurfaceVariant,
};

#[test]
fn ported_variants_name_their_kinds() {
    assert_eq!(ported_curve_kind(PortedCurveVariant::Ellipse), CurveKind::Ellipse);
    assert_eq!(ported_surface_kind(PortedSurfaceVariant::Torus), SurfaceKind::Torus);
    assert_eq!(ported_swept_surface_kind(PortedSweptSurfaceVariant::Extrusion), SurfaceKind::Extrusion);
    assert_eq!(
        ported_offset_basis_surface_kind(PortedOffsetBasisSurfaceVariant::Analytic(
            PortedSurfaceVariant::Cone
        )),
        SurfaceKind::Cone
    );
    assert_eq!(
        ported_face_surface_descriptor_kind(PortedFaceSurfaceVariant::Swept(
            PortedSweptSurfaceVariant::Revolution
        )),
        SurfaceKind::Revolution
    );
    assert_eq!(
        ported_face_surface_descriptor_kind(PortedFaceSurfaceVariant::Offset),
        SurfaceKind::Offset
    );
}

#[test]
fn surface_payload_checks() {
    assert!(check_surface_payload_kind(SurfaceKind::Plane, SurfaceKind::Plane).is_ok());
    assert_eq!(
        check_surface_payload_kind(SurfaceKind::Plane, SurfaceKind::Cylinder).unwrap_err().message(),
        "requested Plane payload for ported Cylinder face"
    );
    assert_eq!(built_surface_payload(SurfaceKind::Cone, SurfaceKind::Cone, Some(7)).unwrap(), 7);
    assert_eq!(
        built_surface_payload::<u8>(SurfaceKind::Cone, SurfaceKind::Cone, None).unwrap_err().message(),
        "Rust-owned Cone payload extraction did not cover Cone face"
    );
}
