//! The kinds of shapes, curves and surfaces, the orientation of a use of a
//! shape, and the role of a face's loop.
use vstd::prelude::*;

verus! {

/// The topological kind of a shape.
#[derive(Clone, Copy, Debug, PartialEq, Eq, Structural, Hash)]
pub enum ShapeKind {
    Unknown,
    Compound,
    CompSolid,
    Solid,
    Shell,
    Face,
    Wire,
    Edge,
    Vertex,
    Shape,
}

/// How a sub-shape is used by the shape that holds it.
#[derive(Clone, Copy, Debug, PartialEq, Eq, Structural, Hash)]
pub enum Orientation {
    Forward,
    Reversed,
    Internal,
    External,
}

/// The role of a wire inside the boundary of a face.
#[derive(Clone, Copy, Debug, PartialEq, Eq, Structural, Hash)]
pub enum LoopRole {
    Unknown,
    Outer,
    Inner,
}

/// The geometric kind of the curve under an edge.
#[derive(Clone, Copy, Debug, PartialEq, Eq, Structural, Hash)]
pub enum CurveKind {
    Unknown,
    Line,
    Circle,
    Ellipse,
    Hyperbola,
    Parabola,
    Bezier,
    BSpline,
    Offset,
    Other,
}

/// The geometric kind of the surface under a face.
#[derive(Clone, Copy, Debug, PartialEq, Eq, Structural, Hash)]
pub enum SurfaceKind {
    Unknown,
    Plane,
    Cylinder,
    Cone,
    Sphere,
    Torus,
    Bezier,
    BSpline,
    Revolution,
    Extrusion,
    Offset,
    Other,
}

/// The orientation that a use takes when the shape that holds it is reversed:
/// `Forward` and `Reversed` swap, `Internal` and `External` stay.
pub open spec fn spec_reversed(orientation: Orientation) -> Orientation {
    match orientation {
        Orientation::Forward => Orientation::Reversed,
        Orientation::Reversed => Orientation::Forward,
        other => other,
    }
}

pub fn reversed_orientation(orientation: Orientation) -> (r: Orientation)
    ensures
        r == spec_reversed(orientation),
{
    match orientation {
        Orientation::Forward => Orientation::Reversed,
        Orientation::Reversed => Orientation::Forward,
        other => other,
    }
}

/// Reversing an orientation twice gives it back.
pub proof fn lemma_reversed_involution(orientation: Orientation)
    ensures
        spec_reversed(spec_reversed(orientation)) == orientation,
{
}

} // verus!
