//! The kinds of the analytic curves and surfaces that the Rust side
//! evaluates itself, and the checks made when a payload of one kind is asked
//! of a face. A ported curve or surface carries its parameters in floating
//! point; what the kind logic reads of it is only which variant it is, and
//! that is what the variants here hold.
use vstd::prelude::*;

use crate::error::{
    mismatched_ported_surface_payload_error, surface_kind_name,
    unsupported_ported_surface_payload_error, Error,
};
use crate::kinds::{CurveKind, SurfaceKind};

verus! {

/// Which analytic curve a ported curve is.
#[derive(Clone, Copy, Debug, PartialEq, Eq, Structural)]
pub enum PortedCurveVariant {
    Line,
    Circle,
    Ellipse,
}

/// Which analytic surface a ported surface is.
#[derive(Clone, Copy, Debug, PartialEq, Eq, Structural)]
pub enum PortedSurfaceVariant {
    Plane,
    Cylinder,
    Cone,
    Sphere,
    Torus,
}

/// Which swept surface a ported swept surface is.
#[derive(Clone, Copy, Debug, PartialEq, Eq, Structural)]
pub enum PortedSweptSurfaceVariant {
    Revolution,
    Extrusion,
}

/// The basis of a ported offset surface.
#[derive(Clone, Copy, Debug, PartialEq, Eq, Structural)]
pub enum PortedOffsetBasisSurfaceVariant {
    Analytic(PortedSurfaceVariant),
    Swept(PortedSweptSurfaceVariant),
}

/// The surface of a face as the Rust side describes it.
#[derive(Clone, Copy, Debug, PartialEq, Eq, Structural)]
pub enum PortedFaceSurfaceVariant {
    Analytic(PortedSurfaceVariant),
    Swept(PortedSweptSurfaceVariant),
    Offset,
}

pub open spec fn spec_ported_curve_kind(curve: PortedCurveVariant) -> CurveKind {
    match curve {
        PortedCurveVariant::Line => CurveKind::Line,
        PortedCurveVariant::Circle => CurveKind::Circle,
        PortedCurveVariant::Ellipse => CurveKind::Ellipse,
    }
}

pub open spec fn spec_ported_surface_kind(surface: PortedSurfaceVariant) -> SurfaceKind {
    match surface {
        PortedSurfaceVariant::Plane => SurfaceKind::Plane,
        PortedSurfaceVariant::Cylinder => SurfaceKind::Cylinder,
        PortedSurfaceVariant::Cone => SurfaceKind::Cone,
        PortedSurfaceVariant::Sphere => SurfaceKind::Sphere,
        PortedSurfaceVariant::Torus => SurfaceKind::Torus,
    }
}

pub open spec fn spec_ported_swept_surface_kind(surface: PortedSweptSurfaceVariant) -> SurfaceKind {
    match surface {
        PortedSweptSurfaceVariant::Revolution => SurfaceKind::Revolution,
        PortedSweptSurfaceVariant::Extrusion => SurfaceKind::Extrusion,
    }
}

pub open spec fn spec_ported_offset_basis_surface_kind(
    basis: PortedOffsetBasisSurfaceVariant,
) -> SurfaceKind {
    match basis {
        PortedOffsetBasisSurfaceVariant::Analytic(s) => spec_ported_surface_kind(s),
        PortedOffsetBasisSurfaceVariant::Swept(s) => spec_ported_swept_surface_kind(s),
    }
}

pub open spec fn spec_ported_face_surface_descriptor_kind(
    surface: PortedFaceSurfaceVariant,
) -> SurfaceKind {
    match surface {
        PortedFaceSurfaceVariant::Analytic(s) => spec_ported_surface_kind(s),
        PortedFaceSurfaceVariant::Swept(s) => spec_ported_swept_surface_kind(s),
        PortedFaceSurfaceVariant::Offset => SurfaceKind::Offset,
    }
}

pub fn ported_curve_kind(curve: PortedCurveVariant) -> (r: CurveKind)
    ensures
        r == spec_ported_curve_kind(curve),
{
    match curve {
        PortedCurveVariant::Line => CurveKind::Line,
        PortedCurveVariant::Circle => CurveKind::Circle,
        PortedCurveVariant::Ellipse => CurveKind::Ellipse,
    }
}

pub fn ported_surface_kind(surface: PortedSurfaceVariant) -> (r: SurfaceKind)
    ensures
        r == spec_ported_surface_kind(surface),
{
    match surface {
        PortedSurfaceVariant::Plane => SurfaceKind::Plane,
        PortedSurfaceVariant::Cylinder => SurfaceKind::Cylinder,
        PortedSurfaceVariant::Cone => SurfaceKind::Cone,
        PortedSurfaceVariant::Sphere => SurfaceKind::Sphere,
        PortedSurfaceVariant::Torus => SurfaceKind::Torus,
    }
}

pub fn ported_swept_surface_kind(surface: PortedSweptSurfaceVariant) -> (r: SurfaceKind)
    ensures
        r == spec_ported_swept_surface_kind(surface),
{
    match surface {
        PortedSweptSurfaceVariant::Revolution => SurfaceKind::Revolution,
        PortedSweptSurfaceVariant::Extrusion => SurfaceKind::Extrusion,
    }
}

pub fn ported_offset_basis_surface_kind(basis: PortedOffsetBasisSurfaceVariant) -> (r: SurfaceKind)
    ensures
        r == spec_ported_offset_basis_surface_kind(basis),
{
    match basis {
        PortedOffsetBasisSurfaceVariant::Analytic(s) => ported_surface_kind(s),
        PortedOffsetBasisSurfaceVariant::Swept(s) => ported_swept_surface_kind(s),
    }
}

pub fn ported_face_surface_descriptor_kind(surface: PortedFaceSurfaceVariant) -> (r: SurfaceKind)
    ensures
        r == spec_ported_face_surface_descriptor_kind(surface),
{
    match surface {
        PortedFaceSurfaceVariant::Analytic(s) => ported_surface_kind(s),
        PortedFaceSurfaceVariant::Swept(s) => ported_swept_surface_kind(s),
        PortedFaceSurfaceVariant::Offset => SurfaceKind::Offset,
    }
}

/// The Rust side evaluates only analytic kinds: a ported curve is a line,
/// circle or ellipse; the basis of an offset surface is never itself an
/// offset; and no ported surface is of an unknown, free-form or other kind.
pub proof fn lemma_ported_kinds_are_analytic(
    curve: PortedCurveVariant,
    basis: PortedOffsetBasisSurfaceVariant,
    face: PortedFaceSurfaceVariant,
)
    ensures
        spec_ported_curve_kind(curve) == CurveKind::Line || spec_ported_curve_kind(curve)
            == CurveKind::Circle || spec_ported_curve_kind(curve) == CurveKind::Ellipse,
        spec_ported_offset_basis_surface_kind(basis) != SurfaceKind::Offset,
        spec_ported_face_surface_descriptor_kind(face) != SurfaceKind::Unknown,
        spec_ported_face_surface_descriptor_kind(face) != SurfaceKind::Bezier,
        spec_ported_face_surface_descriptor_kind(face) != SurfaceKind::BSpline,
        spec_ported_face_surface_descriptor_kind(face) != SurfaceKind::Other,
{
}

/// Checks that a face whose surface the Rust side does not describe is of
/// the kind whose payload was asked for.
pub fn check_surface_payload_kind(expected: SurfaceKind, actual: SurfaceKind) -> (r: Result<
    (),
    Error,
>)
    ensures
        expected == actual ==> r is Ok,
        expected != actual ==> (r matches Err(e) && e@ == "requested "@ + surface_kind_name(
            expected,
        ) + " payload for ported "@ + surface_kind_name(actual) + " face"@),
{
    if expected == actual {
        Ok(())
    } else {
        Err(mismatched_ported_surface_payload_error(expected, actual))
    }
}

/// The payload built from the face's geometry, or the error for a kind the
/// Rust side could not build it for.
pub fn built_surface_payload<S>(expected: SurfaceKind, actual: SurfaceKind, built: Option<S>) -> (r:
    Result<S, Error>)
    ensures
        built is Some ==> r == Ok::<S, Error>(built->0),
        built is None ==> (r matches Err(e) && e@ == "Rust-owned "@ + surface_kind_name(expected)
            + " payload extraction did not cover "@ + surface_kind_name(actual) + " face"@),
{
    match built {
        Some(s) => Ok(s),
        None => Err(unsupported_ported_surface_payload_error(expected, actual)),
    }
}

/// Each ported variant names the kind of the same name, and different
/// variants name different kinds.
pub proof fn lemma_ported_kinds_name_their_variants(
    a: PortedCurveVariant,
    b: PortedCurveVariant,
    s: PortedSurfaceVariant,
    t: PortedSurfaceVariant,
    u: PortedSweptSurfaceVariant,
    v: PortedSweptSurfaceVariant,
)
    ensures
        spec_ported_curve_kind(PortedCurveVariant::Line) == CurveKind::Line,
        spec_ported_curve_kind(PortedCurveVariant::Circle) == CurveKind::Circle,
        spec_ported_curve_kind(PortedCurveVariant::Ellipse) == CurveKind::Ellipse,
        a != b ==> spec_ported_curve_kind(a) != spec_ported_curve_kind(b),
        spec_ported_surface_kind(PortedSurfaceVariant::Plane) == SurfaceKind::Plane,
        spec_ported_surface_kind(PortedSurfaceVariant::Cylinder) == SurfaceKind::Cylinder,
        spec_ported_surface_kind(PortedSurfaceVariant::Cone) == SurfaceKind::Cone,
        spec_ported_surface_kind(PortedSurfaceVariant::Sphere) == SurfaceKind::Sphere,
        spec_ported_surface_kind(PortedSurfaceVariant::Torus) == SurfaceKind::Torus,
        s != t ==> spec_ported_surface_kind(s) != spec_ported_surface_kind(t),
        spec_ported_swept_surface_kind(PortedSweptSurfaceVariant::Revolution)
            == SurfaceKind::Revolution,
        spec_ported_swept_surface_kind(PortedSweptSurfaceVariant::Extrusion)
            == SurfaceKind::Extrusion,
        u != v ==> spec_ported_swept_surface_kind(u) != spec_ported_swept_surface_kind(v),
        spec_ported_surface_kind(s) != spec_ported_swept_surface_kind(u),
        spec_ported_face_surface_descriptor_kind(PortedFaceSurfaceVariant::Analytic(s))
            == spec_ported_surface_kind(s),
        spec_ported_face_surface_descriptor_kind(PortedFaceSurfaceVariant::Swept(u))
            == spec_ported_swept_surface_kind(u),
        spec_ported_face_surface_descriptor_kind(PortedFaceSurfaceVariant::Offset)
            == SurfaceKind::Offset,
{
}

} // verus!
