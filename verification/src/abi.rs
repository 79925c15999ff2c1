//! The enumerations of the kernel's C interface, their numeric codes, and the
//! conversions between them and the library's own kinds.
use vstd::prelude::*;

use crate::kinds::{CurveKind, LoopRole, Orientation, ShapeKind, SurfaceKind};

verus! {

/// Status that every fallible call of the C interface returns.
#[derive(Clone, Copy, Debug, PartialEq, Eq, Structural)]
pub enum LeanOcctResult {
    Success,
    Error,
}

/// Shape kind as the C interface spells it.
#[derive(Clone, Copy, Debug, PartialEq, Eq, Structural)]
pub enum LeanOcctShapeKind {
    Unknown,
    Compound,
    CompSolid,
    Solid,
    Shell,
    Face,
    Wire,
    Edge,
    Vertex,
    Shape,
}

/// Orientation as the C interface spells it.
#[derive(Clone, Copy, Debug, PartialEq, Eq, Structural)]
pub enum LeanOcctOrientation {
    Forward,
    Reversed,
    Internal,
    External,
}

/// Loop role as the C interface spells it.
#[derive(Clone, Copy, Debug, PartialEq, Eq, Structural)]
pub enum LeanOcctLoopRole {
    Unknown,
    Outer,
    Inner,
}

/// Curve kind as the C interface spells it.
#[derive(Clone, Copy, Debug, PartialEq, Eq, Structural)]
pub enum LeanOcctCurveKind {
    Unknown,
    Line,
    Circle,
    Ellipse,
    Hyperbola,
    Parabola,
    Bezier,
    BSpline,
    Offset,
    Other,
}

/// Surface kind as the C interface spells it.
#[derive(Clone, Copy, Debug, PartialEq, Eq, Structural)]
pub enum LeanOcctSurfaceKind {
    Unknown,
    Plane,
    Cylinder,
    Cone,
    Sphere,
    Torus,
    Bezier,
    BSpline,
    Revolution,
    Extrusion,
    Offset,
    Other,
}

// ---------------------------------------------------------------------------
// Numeric codes of the C interface.
// ---------------------------------------------------------------------------

pub open spec fn result_code(r: LeanOcctResult) -> u32 {
    match r {
        LeanOcctResult::Success => 0,
        LeanOcctResult::Error => 1,
    }
}

pub open spec fn shape_kind_code(k: LeanOcctShapeKind) -> u32 {
    match k {
        LeanOcctShapeKind::Unknown => 0,
        LeanOcctShapeKind::Compound => 1,
        LeanOcctShapeKind::CompSolid => 2,
        LeanOcctShapeKind::Solid => 3,
        LeanOcctShapeKind::Shell => 4,
        LeanOcctShapeKind::Face => 5,
        LeanOcctShapeKind::Wire => 6,
        LeanOcctShapeKind::Edge => 7,
        LeanOcctShapeKind::Vertex => 8,
        LeanOcctShapeKind::Shape => 9,
    }
}

pub open spec fn orientation_code(o: LeanOcctOrientation) -> u32 {
    match o {
        LeanOcctOrientation::Forward => 0,
        LeanOcctOrientation::Reversed => 1,
        LeanOcctOrientation::Internal => 2,
        LeanOcctOrientation::External => 3,
    }
}

pub open spec fn loop_role_code(r: LeanOcctLoopRole) -> u32 {
    match r {
        LeanOcctLoopRole::Unknown => 0,
        LeanOcctLoopRole::Outer => 1,
        LeanOcctLoopRole::Inner => 2,
    }
}

pub open spec fn curve_kind_code(k: LeanOcctCurveKind) -> u32 {
    match k {
        LeanOcctCurveKind::Unknown => 0,
        LeanOcctCurveKind::Line => 1,
        LeanOcctCurveKind::Circle => 2,
        LeanOcctCurveKind::Ellipse => 3,
        LeanOcctCurveKind::Hyperbola => 4,
        LeanOcctCurveKind::Parabola => 5,
        LeanOcctCurveKind::Bezier => 6,
        LeanOcctCurveKind::BSpline => 7,
        LeanOcctCurveKind::Offset => 8,
        LeanOcctCurveKind::Other => 9,
    }
}

pub open spec fn surface_kind_code(k: LeanOcctSurfaceKind) -> u32 {
    match k {
        LeanOcctSurfaceKind::Unknown => 0,
        LeanOcctSurfaceKind::Plane => 1,
        LeanOcctSurfaceKind::Cylinder => 2,
        LeanOcctSurfaceKind::Cone => 3,
        LeanOcctSurfaceKind::Sphere => 4,
        LeanOcctSurfaceKind::Torus => 5,
        LeanOcctSurfaceKind::Bezier => 6,
        LeanOcctSurfaceKind::BSpline => 7,
        LeanOcctSurfaceKind::Revolution => 8,
        LeanOcctSurfaceKind::Extrusion => 9,
        LeanOcctSurfaceKind::Offset => 10,
        LeanOcctSurfaceKind::Other => 11,
    }
}

impl LeanOcctResult {
    /// The numeric value that the C interface uses for this status.
    pub fn code(self) -> (c: u32)
        ensures
            c == result_code(self),
    {
        match self {
            LeanOcctResult::Success => 0,
            LeanOcctResult::Error => 1,
        }
    }
}

impl LeanOcctShapeKind {
    /// The numeric value that the C interface uses for this kind.
    pub fn code(self) -> (c: u32)
        ensures
            c == shape_kind_code(self),
    {
        match self {
            LeanOcctShapeKind::Unknown => 0,
            LeanOcctShapeKind::Compound => 1,
            LeanOcctShapeKind::CompSolid => 2,
            LeanOcctShapeKind::Solid => 3,
            LeanOcctShapeKind::Shell => 4,
            LeanOcctShapeKind::Face => 5,
            LeanOcctShapeKind::Wire => 6,
            LeanOcctShapeKind::Edge => 7,
            LeanOcctShapeKind::Vertex => 8,
            LeanOcctShapeKind::Shape => 9,
        }
    }
}

impl LeanOcctOrientation {
    /// The numeric value that the C interface uses for this orientation.
    pub fn code(self) -> (c: u32)
        ensures
            c == orientation_code(self),
    {
        match self {
            LeanOcctOrientation::Forward => 0,
            LeanOcctOrientation::Reversed => 1,
            LeanOcctOrientation::Internal => 2,
            LeanOcctOrientation::External => 3,
        }
    }
}

impl LeanOcctLoopRole {
    /// The numeric value that the C interface uses for this role.
    pub fn code(self) -> (c: u32)
        ensures
            c == loop_role_code(self),
    {
        match self {
            LeanOcctLoopRole::Unknown => 0,
            LeanOcctLoopRole::Outer => 1,
            LeanOcctLoopRole::Inner => 2,
        }
    }
}

impl LeanOcctCurveKind {
    /// The numeric value that the C interface uses for this kind.
    pub fn code(self) -> (c: u32)
        ensures
            c == curve_kind_code(self),
    {
        match self {
            LeanOcctCurveKind::Unknown => 0,
            LeanOcctCurveKind::Line => 1,
            LeanOcctCurveKind::Circle => 2,
            LeanOcctCurveKind::Ellipse => 3,
            LeanOcctCurveKind::Hyperbola => 4,
            LeanOcctCurveKind::Parabola => 5,
            LeanOcctCurveKind::Bezier => 6,
            LeanOcctCurveKind::BSpline => 7,
            LeanOcctCurveKind::Offset => 8,
            LeanOcctCurveKind::Other => 9,
        }
    }
}

impl LeanOcctSurfaceKind {
    /// The numeric value that the C interface uses for this kind.
    pub fn code(self) -> (c: u32)
        ensures
            c == surface_kind_code(self),
    {
        match self {
            LeanOcctSurfaceKind::Unknown => 0,
            LeanOcctSurfaceKind::Plane => 1,
            LeanOcctSurfaceKind::Cylinder => 2,
            LeanOcctSurfaceKind::Cone => 3,
            LeanOcctSurfaceKind::Sphere => 4,
            LeanOcctSurfaceKind::Torus => 5,
            LeanOcctSurfaceKind::Bezier => 6,
            LeanOcctSurfaceKind::BSpline => 7,
            LeanOcctSurfaceKind::Revolution => 8,
            LeanOcctSurfaceKind::Extrusion => 9,
            LeanOcctSurfaceKind::Offset => 10,
            LeanOcctSurfaceKind::Other => 11,
        }
    }
}

// ---------------------------------------------------------------------------
// Conversions between the interface's enumerations and the library's kinds.
// ---------------------------------------------------------------------------

impl LeanOcctResult {
    /// The status that the C interface writes as `c`; none for a value it
    /// never writes.
    pub fn from_code(c: u32) -> (r: Option<LeanOcctResult>)
        ensures
            match r {
                Some(k) => result_code(k) == c,
                None => forall|k: LeanOcctResult| result_code(k) != c,
            },
    {
        match c {
            0 => Some(LeanOcctResult::Success),
            1 => Some(LeanOcctResult::Error),
            _ => None,
        }
    }
}

impl LeanOcctShapeKind {
    /// The kind that the C interface writes as `c`; none for a value it
    /// never writes.
    pub fn from_code(c: u32) -> (r: Option<LeanOcctShapeKind>)
        ensures
            match r {
                Some(k) => shape_kind_code(k) == c,
                None => forall|k: LeanOcctShapeKind| shape_kind_code(k) != c,
            },
    {
        match c {
            0 => Some(LeanOcctShapeKind::Unknown),
            1 => Some(LeanOcctShapeKind::Compound),
            2 => Some(LeanOcctShapeKind::CompSolid),
            3 => Some(LeanOcctShapeKind::Solid),
            4 => Some(LeanOcctShapeKind::Shell),
            5 => Some(LeanOcctShapeKind::Face),
            6 => Some(LeanOcctShapeKind::Wire),
            7 => Some(LeanOcctShapeKind::Edge),
            8 => Some(LeanOcctShapeKind::Vertex),
            9 => Some(LeanOcctShapeKind::Shape),
            _ => None,
        }
    }
}

impl LeanOcctOrientation {
    /// The orientation that the C interface writes as `c`; none for a value it
    /// never writes.
    pub fn from_code(c: u32) -> (r: Option<LeanOcctOrientation>)
        ensures
            match r {
                Some(k) => orientation_code(k) == c,
                None => forall|k: LeanOcctOrientation| orientation_code(k) != c,
            },
    {
        match c {
            0 => Some(LeanOcctOrientation::Forward),
            1 => Some(LeanOcctOrientation::Reversed),
            2 => Some(LeanOcctOrientation::Internal),
            3 => Some(LeanOcctOrientation::External),
            _ => None,
        }
    }
}

impl LeanOcctCurveKind {
    /// The kind that the C interface writes as `c`; none for a value it
    /// never writes.
    pub fn from_code(c: u32) -> (r: Option<LeanOcctCurveKind>)
        ensures
            match r {
                Some(k) => curve_kind_code(k) == c,
                None => forall|k: LeanOcctCurveKind| curve_kind_code(k) != c,
            },
    {
        match c {
            0 => Some(LeanOcctCurveKind::Unknown),
            1 => Some(LeanOcctCurveKind::Line),
            2 => Some(LeanOcctCurveKind::Circle),
            3 => Some(LeanOcctCurveKind::Ellipse),
            4 => Some(LeanOcctCurveKind::Hyperbola),
            5 => Some(LeanOcctCurveKind::Parabola),
            6 => Some(LeanOcctCurveKind::Bezier),
            7 => Some(LeanOcctCurveKind::BSpline),
            8 => Some(LeanOcctCurveKind::Offset),
            9 => Some(LeanOcctCurveKind::Other),
            _ => None,
        }
    }
}

impl LeanOcctSurfaceKind {
    /// The kind that the C interface writes as `c`; none for a value it
    /// never writes.
    pub fn from_code(c: u32) -> (r: Option<LeanOcctSurfaceKind>)
        ensures
            match r {
                Some(k) => surface_kind_code(k) == c,
                None => forall|k: LeanOcctSurfaceKind| surface_kind_code(k) != c,
            },
    {
        match c {
            0 => Some(LeanOcctSurfaceKind::Unknown),
            1 => Some(LeanOcctSurfaceKind::Plane),
            2 => Some(LeanOcctSurfaceKind::Cylinder),
            3 => Some(LeanOcctSurfaceKind::Cone),
            4 => Some(LeanOcctSurfaceKind::Sphere),
            5 => Some(LeanOcctSurfaceKind::Torus),
            6 => Some(LeanOcctSurfaceKind::Bezier),
            7 => Some(LeanOcctSurfaceKind::BSpline),
            8 => Some(LeanOcctSurfaceKind::Revolution),
            9 => Some(LeanOcctSurfaceKind::Extrusion),
            10 => Some(LeanOcctSurfaceKind::Offset),
            11 => Some(LeanOcctSurfaceKind::Other),
            _ => None,
        }
    }
}


/// Each interface shape kind names the library kind of the same name.
pub open spec fn shape_kind_from_abi(k: LeanOcctShapeKind) -> ShapeKind {
    match k {
        LeanOcctShapeKind::Unknown => ShapeKind::Unknown,
        LeanOcctShapeKind::Compound => ShapeKind::Compound,
        LeanOcctShapeKind::CompSolid => ShapeKind::CompSolid,
        LeanOcctShapeKind::Solid => ShapeKind::Solid,
        LeanOcctShapeKind::Shell => ShapeKind::Shell,
        LeanOcctShapeKind::Face => ShapeKind::Face,
        LeanOcctShapeKind::Wire => ShapeKind::Wire,
        LeanOcctShapeKind::Edge => ShapeKind::Edge,
        LeanOcctShapeKind::Vertex => ShapeKind::Vertex,
        LeanOcctShapeKind::Shape => ShapeKind::Shape,
    }
}

/// Each library shape kind names the interface kind of the same name.
pub open spec fn shape_kind_to_abi(k: ShapeKind) -> LeanOcctShapeKind {
    match k {
        ShapeKind::Unknown => LeanOcctShapeKind::Unknown,
        ShapeKind::Compound => LeanOcctShapeKind::Compound,
        ShapeKind::CompSolid => LeanOcctShapeKind::CompSolid,
        ShapeKind::Solid => LeanOcctShapeKind::Solid,
        ShapeKind::Shell => LeanOcctShapeKind::Shell,
        ShapeKind::Face => LeanOcctShapeKind::Face,
        ShapeKind::Wire => LeanOcctShapeKind::Wire,
        ShapeKind::Edge => LeanOcctShapeKind::Edge,
        ShapeKind::Vertex => LeanOcctShapeKind::Vertex,
        ShapeKind::Shape => LeanOcctShapeKind::Shape,
    }
}

pub open spec fn orientation_from_abi(o: LeanOcctOrientation) -> Orientation {
    match o {
        LeanOcctOrientation::Forward => Orientation::Forward,
        LeanOcctOrientation::Reversed => Orientation::Reversed,
        LeanOcctOrientation::Internal => Orientation::Internal,
        LeanOcctOrientation::External => Orientation::External,
    }
}

/// An orientation code read from a topology table: 1, 2 and 3 name
/// `Reversed`, `Internal` and `External`; any other value reads as `Forward`.
pub open spec fn orientation_from_code(value: u8) -> Orientation {
    if value == 1 {
        Orientation::Reversed
    } else if value == 2 {
        Orientation::Internal
    } else if value == 3 {
        Orientation::External
    } else {
        Orientation::Forward
    }
}

/// A loop role code read from a topology table: 1 is `Outer`, 2 is `Inner`,
/// any other value is `Unknown`.
pub open spec fn loop_role_from_code(value: u8) -> LoopRole {
    if value == 1 {
        LoopRole::Outer
    } else if value == 2 {
        LoopRole::Inner
    } else {
        LoopRole::Unknown
    }
}

pub open spec fn curve_kind_from_abi(k: LeanOcctCurveKind) -> CurveKind {
    match k {
        LeanOcctCurveKind::Unknown => CurveKind::Unknown,
        LeanOcctCurveKind::Line => CurveKind::Line,
        LeanOcctCurveKind::Circle => CurveKind::Circle,
        LeanOcctCurveKind::Ellipse => CurveKind::Ellipse,
        LeanOcctCurveKind::Hyperbola => CurveKind::Hyperbola,
        LeanOcctCurveKind::Parabola => CurveKind::Parabola,
        LeanOcctCurveKind::Bezier => CurveKind::Bezier,
        LeanOcctCurveKind::BSpline => CurveKind::BSpline,
        LeanOcctCurveKind::Offset => CurveKind::Offset,
        LeanOcctCurveKind::Other => CurveKind::Other,
    }
}

pub open spec fn surface_kind_from_abi(k: LeanOcctSurfaceKind) -> SurfaceKind {
    match k {
        LeanOcctSurfaceKind::Unknown => SurfaceKind::Unknown,
        LeanOcctSurfaceKind::Plane => SurfaceKind::Plane,
        LeanOcctSurfaceKind::Cylinder => SurfaceKind::Cylinder,
        LeanOcctSurfaceKind::Cone => SurfaceKind::Cone,
        LeanOcctSurfaceKind::Sphere => SurfaceKind::Sphere,
        LeanOcctSurfaceKind::Torus => SurfaceKind::Torus,
        LeanOcctSurfaceKind::Bezier => SurfaceKind::Bezier,
        LeanOcctSurfaceKind::BSpline => SurfaceKind::BSpline,
        LeanOcctSurfaceKind::Revolution => SurfaceKind::Revolution,
        LeanOcctSurfaceKind::Extrusion => SurfaceKind::Extrusion,
        LeanOcctSurfaceKind::Offset => SurfaceKind::Offset,
        LeanOcctSurfaceKind::Other => SurfaceKind::Other,
    }
}

impl From<LeanOcctShapeKind> for ShapeKind {
    fn from(value: LeanOcctShapeKind) -> (r: Self) {
        match value {
            LeanOcctShapeKind::Compound => ShapeKind::Compound,
            LeanOcctShapeKind::CompSolid => ShapeKind::CompSolid,
            LeanOcctShapeKind::Solid => ShapeKind::Solid,
            LeanOcctShapeKind::Shell => ShapeKind::Shell,
            LeanOcctShapeKind::Face => ShapeKind::Face,
            LeanOcctShapeKind::Wire => ShapeKind::Wire,
            LeanOcctShapeKind::Edge => ShapeKind::Edge,
            LeanOcctShapeKind::Vertex => ShapeKind::Vertex,
            LeanOcctShapeKind::Shape => ShapeKind::Shape,
            LeanOcctShapeKind::Unknown => ShapeKind::Unknown,
        }
    }
}

impl vstd::std_specs::convert::FromSpecImpl<LeanOcctShapeKind> for ShapeKind {
    open spec fn obeys_from_spec() -> bool {
        true
    }

    open spec fn from_spec(v: LeanOcctShapeKind) -> ShapeKind {
        shape_kind_from_abi(v)
    }
}

impl From<LeanOcctCurveKind> for CurveKind {
    fn from(value: LeanOcctCurveKind) -> (r: Self) {
        match value {
            LeanOcctCurveKind::Line => CurveKind::Line,
            LeanOcctCurveKind::Circle => CurveKind::Circle,
            LeanOcctCurveKind::Ellipse => CurveKind::Ellipse,
            LeanOcctCurveKind::Hyperbola => CurveKind::Hyperbola,
            LeanOcctCurveKind::Parabola => CurveKind::Parabola,
            LeanOcctCurveKind::Bezier => CurveKind::Bezier,
            LeanOcctCurveKind::BSpline => CurveKind::BSpline,
            LeanOcctCurveKind::Offset => CurveKind::Offset,
            LeanOcctCurveKind::Other => CurveKind::Other,
            LeanOcctCurveKind::Unknown => CurveKind::Unknown,
        }
    }
}

impl vstd::std_specs::convert::FromSpecImpl<LeanOcctCurveKind> for CurveKind {
    open spec fn obeys_from_spec() -> bool {
        true
    }

    open spec fn from_spec(v: LeanOcctCurveKind) -> CurveKind {
        curve_kind_from_abi(v)
    }
}

impl From<LeanOcctSurfaceKind> for SurfaceKind {
    fn from(value: LeanOcctSurfaceKind) -> (r: Self) {
        match value {
            LeanOcctSurfaceKind::Plane => SurfaceKind::Plane,
            LeanOcctSurfaceKind::Cylinder => SurfaceKind::Cylinder,
            LeanOcctSurfaceKind::Cone => SurfaceKind::Cone,
            LeanOcctSurfaceKind::Sphere => SurfaceKind::Sphere,
            LeanOcctSurfaceKind::Torus => SurfaceKind::Torus,
            LeanOcctSurfaceKind::Bezier => SurfaceKind::Bezier,
            LeanOcctSurfaceKind::BSpline => SurfaceKind::BSpline,
            LeanOcctSurfaceKind::Revolution => SurfaceKind::Revolution,
            LeanOcctSurfaceKind::Extrusion => SurfaceKind::Extrusion,
            LeanOcctSurfaceKind::Offset => SurfaceKind::Offset,
            LeanOcctSurfaceKind::Other => SurfaceKind::Other,
            LeanOcctSurfaceKind::Unknown => SurfaceKind::Unknown,
        }
    }
}

impl vstd::std_specs::convert::FromSpecImpl<LeanOcctSurfaceKind> for SurfaceKind {
    open spec fn obeys_from_spec() -> bool {
        true
    }

    open spec fn from_spec(v: LeanOcctSurfaceKind) -> SurfaceKind {
        surface_kind_from_abi(v)
    }
}

impl ShapeKind {
    /// The interface kind that names the same kind of shape.
    pub fn to_ffi(self) -> (r: LeanOcctShapeKind)
        ensures
            r == shape_kind_to_abi(self),
    {
        match self {
            ShapeKind::Unknown => LeanOcctShapeKind::Unknown,
            ShapeKind::Compound => LeanOcctShapeKind::Compound,
            ShapeKind::CompSolid => LeanOcctShapeKind::CompSolid,
            ShapeKind::Solid => LeanOcctShapeKind::Solid,
            ShapeKind::Shell => LeanOcctShapeKind::Shell,
            ShapeKind::Face => LeanOcctShapeKind::Face,
            ShapeKind::Wire => LeanOcctShapeKind::Wire,
            ShapeKind::Edge => LeanOcctShapeKind::Edge,
            ShapeKind::Vertex => LeanOcctShapeKind::Vertex,
            ShapeKind::Shape => LeanOcctShapeKind::Shape,
        }
    }
}

impl Orientation {
    /// The library orientation of the same name as an interface orientation.
    pub fn from_lean_occt(value: LeanOcctOrientation) -> (r: Orientation)
        ensures
            r == orientation_from_abi(value),
    {
        match value {
            LeanOcctOrientation::Reversed => Orientation::Reversed,
            LeanOcctOrientation::Internal => Orientation::Internal,
            LeanOcctOrientation::External => Orientation::External,
            LeanOcctOrientation::Forward => Orientation::Forward,
        }
    }

    /// The orientation that a byte of a topology table stands for.
    pub fn from_ffi(value: u8) -> (r: Orientation)
        ensures
            r == orientation_from_code(value),
    {
        match value {
            1 => Orientation::Reversed,
            2 => Orientation::Internal,
            3 => Orientation::External,
            _ => Orientation::Forward,
        }
    }
}

impl LoopRole {
    /// The loop role that a byte of a topology table stands for.
    pub fn from_ffi(value: u8) -> (r: LoopRole)
        ensures
            r == loop_role_from_code(value),
    {
        match value {
            1 => LoopRole::Outer,
            2 => LoopRole::Inner,
            _ => LoopRole::Unknown,
        }
    }
}

// ---------------------------------------------------------------------------
// Laws of the conversions.
// ---------------------------------------------------------------------------

/// Sending a shape kind to the interface and reading it back gives the same kind.
pub proof fn lemma_shape_kind_round_trip(kind: ShapeKind)
    ensures
        shape_kind_from_abi(shape_kind_to_abi(kind)) == kind,
{
}

/// Reading an interface shape kind and sending it back gives the same kind.
pub proof fn lemma_abi_shape_kind_round_trip(kind: LeanOcctShapeKind)
    ensures
        shape_kind_to_abi(shape_kind_from_abi(kind)) == kind,
{
}

/// The byte code of an interface orientation decodes to the orientation that
/// `from_lean_occt` gives for it, so both ways of reading agree.
pub proof fn lemma_orientation_code_agrees(o: LeanOcctOrientation)
    ensures
        orientation_from_code(orientation_code(o) as u8) == orientation_from_abi(o),
{
}

/// The byte code of an interface loop role decodes to the role of the same name.
pub proof fn lemma_loop_role_code_agrees(r: LeanOcctLoopRole)
    ensures
        loop_role_from_code(loop_role_code(r) as u8) == (match r {
            LeanOcctLoopRole::Unknown => LoopRole::Unknown,
            LeanOcctLoopRole::Outer => LoopRole::Outer,
            LeanOcctLoopRole::Inner => LoopRole::Inner,
        }),
{
}

/// Distinct interface shape kinds have distinct codes.
pub proof fn lemma_shape_kind_codes_distinct(a: LeanOcctShapeKind, b: LeanOcctShapeKind)
    ensures
        shape_kind_code(a) == shape_kind_code(b) ==> a == b,
{
}

/// Distinct interface curve kinds have distinct codes.
pub proof fn lemma_curve_kind_codes_distinct(a: LeanOcctCurveKind, b: LeanOcctCurveKind)
    ensures
        curve_kind_code(a) == curve_kind_code(b) ==> a == b,
{
}

/// Distinct interface surface kinds have distinct codes.
pub proof fn lemma_surface_kind_codes_distinct(a: LeanOcctSurfaceKind, b: LeanOcctSurfaceKind)
    ensures
        surface_kind_code(a) == surface_kind_code(b) ==> a == b,
{
}

} // verus!
