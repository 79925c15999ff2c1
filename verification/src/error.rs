//! The library's error type, the text of its messages, and the decimal
//! rendering of indices inside them.
use vstd::prelude::*;

use crate::kinds::{CurveKind, ShapeKind, SurfaceKind};

verus! {

/// An error of the kernel or of the library, carrying a message.
#[derive(Debug, Clone)]
pub struct Error {
    message: String,
}

impl View for Error {
    type V = Seq<char>;

    /// The error's message.
    closed spec fn view(&self) -> Seq<char> {
        self.message@
    }
}

impl Error {
    /// An error with the given message.
    pub fn new(message: String) -> (r: Error)
        ensures
            r@ == message@,
    {
        Error { message }
    }

    /// An error whose message is the given text.
    pub fn from_text(message: &str) -> (r: Error)
        ensures
            r@ == message@,
    {
        Error { message: String::from_str(message) }
    }

    /// The error's message.
    pub fn message(&self) -> (r: String)
        ensures
            r@ == self@,
    {
        self.message.clone()
    }
}

// ---------------------------------------------------------------------------
// Decimal text of an index.
// ---------------------------------------------------------------------------

/// The character of a decimal digit.
pub open spec fn digit_char(d: nat) -> char {
    if d == 0 {
        '0'
    } else if d == 1 {
        '1'
    } else if d == 2 {
        '2'
    } else if d == 3 {
        '3'
    } else if d == 4 {
        '4'
    } else if d == 5 {
        '5'
    } else if d == 6 {
        '6'
    } else if d == 7 {
        '7'
    } else if d == 8 {
        '8'
    } else {
        '9'
    }
}

/// The decimal text of `n`, without leading zeros.
pub open spec fn decimal(n: nat) -> Seq<char>
    decreases n,
{
    if n < 10 {
        seq![digit_char(n)]
    } else {
        decimal(n / 10).push(digit_char(n % 10))
    }
}

fn digit_text(d: usize) -> (s: &'static str)
    requires
        d < 10,
    ensures
        s@ == seq![digit_char(d as nat)],
{
    if d == 0 {
        proof {
            reveal_strlit("0");
        }
        "0"
    } else if d == 1 {
        proof {
            reveal_strlit("1");
        }
        "1"
    } else if d == 2 {
        proof {
            reveal_strlit("2");
        }
        "2"
    } else if d == 3 {
        proof {
            reveal_strlit("3");
        }
        "3"
    } else if d == 4 {
        proof {
            reveal_strlit("4");
        }
        "4"
    } else if d == 5 {
        proof {
            reveal_strlit("5");
        }
        "5"
    } else if d == 6 {
        proof {
            reveal_strlit("6");
        }
        "6"
    } else if d == 7 {
        proof {
            reveal_strlit("7");
        }
        "7"
    } else if d == 8 {
        proof {
            reveal_strlit("8");
        }
        "8"
    } else {
        proof {
            reveal_strlit("9");
        }
        "9"
    }
}

/// The decimal text of `n`.
pub fn decimal_text(n: usize) -> (s: String)
    ensures
        s@ == decimal(n as nat),
{
    // Digits from the least significant one.
    let mut digits: Vec<usize> = Vec::new();
    let mut m: usize = n;
    let ghost mut suffix: Seq<char> = Seq::empty();
    loop
        invariant_except_break
            decimal(n as nat) == decimal(m as nat) + suffix,
        invariant
            suffix.len() == digits@.len(),
            forall|k: int|
                0 <= k < digits@.len() ==> (#[trigger] digits@[k]) < 10 && suffix[suffix.len() - 1
                    - k] == digit_char(digits@[k] as nat),
        ensures
            decimal(n as nat) == suffix,
        decreases m,
    {
        if m < 10 {
            let ghost old_suffix = suffix;
            digits.push(m);
            proof {
                suffix = seq![digit_char(m as nat)] + suffix;
                assert(decimal(n as nat) == suffix) by {
                    assert(decimal(m as nat) + old_suffix =~= suffix);
                }
                assert forall|k: int| 0 <= k < digits@.len() implies (#[trigger] digits@[k]) < 10
                    && suffix[suffix.len() - 1 - k] == digit_char(digits@[k] as nat) by {
                    if k < digits@.len() - 1 {
                        assert(suffix[suffix.len() - 1 - k] == old_suffix[old_suffix.len() - 1 - k]);
                    }
                }
            }
            break;
        }
        let ghost old_suffix = suffix;
        let d = m % 10;
        digits.push(d);
        proof {
            suffix = seq![digit_char(d as nat)] + suffix;
            assert(decimal(m as nat) == decimal((m / 10) as nat).push(digit_char(d as nat)));
            assert(decimal(m as nat) + old_suffix =~= decimal((m / 10) as nat) + suffix);
            assert forall|k: int| 0 <= k < digits@.len() implies (#[trigger] digits@[k]) < 10
                && suffix[suffix.len() - 1 - k] == digit_char(digits@[k] as nat) by {
                if k < digits@.len() - 1 {
                    assert(suffix[suffix.len() - 1 - k] == old_suffix[old_suffix.len() - 1 - k]);
                }
            }
        }
        m = m / 10;
    }
    // `suffix` is now the whole text; write the digits from the most significant one.
    let mut s = String::new();
    let mut k: usize = digits.len();
    while k > 0
        invariant
            k <= digits@.len(),
            suffix.len() == digits@.len(),
            decimal(n as nat) == suffix,
            forall|j: int|
                0 <= j < digits@.len() ==> (#[trigger] digits@[j]) < 10 && suffix[suffix.len() - 1
                    - j] == digit_char(digits@[j] as nat),
            s@ =~= suffix.take(digits@.len() - k),
        decreases k,
    {
        k -= 1;
        let d = digits[k];
        s.append(digit_text(d));
        assert(suffix.take(digits@.len() - k) =~= suffix.take(digits@.len() - k - 1).push(
            suffix[digits@.len() - 1 - k],
        ));
    }
    assert(suffix.take(digits@.len() as int) =~= suffix);
    s
}

// ---------------------------------------------------------------------------
// Names of kinds, as they appear in messages.
// ---------------------------------------------------------------------------

pub open spec fn shape_kind_name(k: ShapeKind) -> Seq<char> {
    match k {
        ShapeKind::Unknown => "Unknown"@,
        ShapeKind::Compound => "Compound"@,
        ShapeKind::CompSolid => "CompSolid"@,
        ShapeKind::Solid => "Solid"@,
        ShapeKind::Shell => "Shell"@,
        ShapeKind::Face => "Face"@,
        ShapeKind::Wire => "Wire"@,
        ShapeKind::Edge => "Edge"@,
        ShapeKind::Vertex => "Vertex"@,
        ShapeKind::Shape => "Shape"@,
    }
}

pub open spec fn curve_kind_name(k: CurveKind) -> Seq<char> {
    match k {
        CurveKind::Unknown => "Unknown"@,
        CurveKind::Line => "Line"@,
        CurveKind::Circle => "Circle"@,
        CurveKind::Ellipse => "Ellipse"@,
        CurveKind::Hyperbola => "Hyperbola"@,
        CurveKind::Parabola => "Parabola"@,
        CurveKind::Bezier => "Bezier"@,
        CurveKind::BSpline => "BSpline"@,
        CurveKind::Offset => "Offset"@,
        CurveKind::Other => "Other"@,
    }
}

pub open spec fn surface_kind_name(k: SurfaceKind) -> Seq<char> {
    match k {
        SurfaceKind::Unknown => "Unknown"@,
        SurfaceKind::Plane => "Plane"@,
        SurfaceKind::Cylinder => "Cylinder"@,
        SurfaceKind::Cone => "Cone"@,
        SurfaceKind::Sphere => "Sphere"@,
        SurfaceKind::Torus => "Torus"@,
        SurfaceKind::Bezier => "Bezier"@,
        SurfaceKind::BSpline => "BSpline"@,
        SurfaceKind::Revolution => "Revolution"@,
        SurfaceKind::Extrusion => "Extrusion"@,
        SurfaceKind::Offset => "Offset"@,
        SurfaceKind::Other => "Other"@,
    }
}

impl ShapeKind {
    /// The kind's name, as messages print it.
    pub fn name(self) -> (s: &'static str)
        ensures
            s@ == shape_kind_name(self),
    {
        match self {
            ShapeKind::Unknown => "Unknown",
            ShapeKind::Compound => "Compound",
            ShapeKind::CompSolid => "CompSolid",
            ShapeKind::Solid => "Solid",
            ShapeKind::Shell => "Shell",
            ShapeKind::Face => "Face",
            ShapeKind::Wire => "Wire",
            ShapeKind::Edge => "Edge",
            ShapeKind::Vertex => "Vertex",
            ShapeKind::Shape => "Shape",
        }
    }
}

impl CurveKind {
    /// The kind's name, as messages print it.
    pub fn name(self) -> (s: &'static str)
        ensures
            s@ == curve_kind_name(self),
    {
        match self {
            CurveKind::Unknown => "Unknown",
            CurveKind::Line => "Line",
            CurveKind::Circle => "Circle",
            CurveKind::Ellipse => "Ellipse",
            CurveKind::Hyperbola => "Hyperbola",
            CurveKind::Parabola => "Parabola",
            CurveKind::Bezier => "Bezier",
            CurveKind::BSpline => "BSpline",
            CurveKind::Offset => "Offset",
            CurveKind::Other => "Other",
        }
    }
}

impl SurfaceKind {
    /// The kind's name, as messages print it.
    pub fn name(self) -> (s: &'static str)
        ensures
            s@ == surface_kind_name(self),
    {
        match self {
            SurfaceKind::Unknown => "Unknown",
            SurfaceKind::Plane => "Plane",
            SurfaceKind::Cylinder => "Cylinder",
            SurfaceKind::Cone => "Cone",
            SurfaceKind::Sphere => "Sphere",
            SurfaceKind::Torus => "Torus",
            SurfaceKind::Bezier => "Bezier",
            SurfaceKind::BSpline => "BSpline",
            SurfaceKind::Revolution => "Revolution",
            SurfaceKind::Extrusion => "Extrusion",
            SurfaceKind::Offset => "Offset",
            SurfaceKind::Other => "Other",
        }
    }
}

// ---------------------------------------------------------------------------
// Errors about payloads of the Rust-side geometry.
// ---------------------------------------------------------------------------

/// An error whose message is `a`, `b`, `c`, `d` and `e` one after the other.
fn error_of_five(a: &str, b: &str, c: &str, d: &str, e: &str) -> (r: Error)
    ensures
        r@ == a@ + b@ + c@ + d@ + e@,
{
    let mut s = String::from_str(a);
    s.append(b);
    s.append(c);
    s.append(d);
    s.append(e);
    Error::new(s)
}

pub fn mismatched_ported_curve_payload_error(expected: CurveKind, actual: CurveKind) -> (r: Error)
    ensures
        r@ == "requested "@ + curve_kind_name(expected) + " payload for ported "@ + curve_kind_name(
            actual,
        ) + " edge"@,
{
    error_of_five("requested ", expected.name(), " payload for ported ", actual.name(), " edge")
}

pub fn mismatched_ported_surface_payload_error(expected: SurfaceKind, actual: SurfaceKind) -> (r:
    Error)
    ensures
        r@ == "requested "@ + surface_kind_name(expected) + " payload for ported "@
            + surface_kind_name(actual) + " face"@,
{
    error_of_five("requested ", expected.name(), " payload for ported ", actual.name(), " face")
}

pub fn unsupported_ported_surface_payload_error(expected: SurfaceKind, actual: SurfaceKind) -> (r:
    Error)
    ensures
        r@ == "Rust-owned "@ + surface_kind_name(expected) + " payload extraction did not cover "@
            + surface_kind_name(actual) + " face"@,
{
    error_of_five(
        "Rust-owned ",
        expected.name(),
        " payload extraction did not cover ",
        actual.name(),
        " face",
    )
}

pub fn mismatched_ported_offset_basis_payload_error(
    expected: SurfaceKind,
    actual: SurfaceKind,
) -> (r: Error)
    ensures
        r@ == "requested "@ + surface_kind_name(expected) + " offset-basis payload for ported "@
            + surface_kind_name(actual) + " offset basis"@,
{
    error_of_five(
        "requested ",
        expected.name(),
        " offset-basis payload for ported ",
        actual.name(),
        " offset basis",
    )
}

pub fn unsupported_ported_offset_basis_curve_geometry_error(actual: SurfaceKind) -> (r: Error)
    ensures
        r@ == "requested offset-basis curve geometry for ported "@ + surface_kind_name(actual)
            + " offset basis"@,
{
    let mut s = String::from_str("requested offset-basis curve geometry for ported ");
    s.append(actual.name());
    s.append(" offset basis");
    Error::new(s)
}

pub fn mismatched_ported_offset_basis_curve_payload_error(
    expected: CurveKind,
    actual: CurveKind,
) -> (r: Error)
    ensures
        r@ == "requested "@ + curve_kind_name(expected) + " offset-basis curve payload for ported "@
            + curve_kind_name(actual) + " offset basis curve"@,
{
    error_of_five(
        "requested ",
        expected.name(),
        " offset-basis curve payload for ported ",
        actual.name(),
        " offset basis curve",
    )
}

pub fn unsupported_ported_offset_basis_curve_payload_error(
    expected: CurveKind,
    actual: SurfaceKind,
) -> (r: Error)
    ensures
        r@ == "requested "@ + curve_kind_name(expected) + " offset-basis curve payload for ported "@
            + surface_kind_name(actual) + " offset basis"@,
{
    error_of_five(
        "requested ",
        expected.name(),
        " offset-basis curve payload for ported ",
        actual.name(),
        " offset basis",
    )
}

/// Edges on lines, circles and ellipses must get a Rust-side curve when a
/// BRep is materialized.
pub open spec fn spec_rust_owned_curve_required(kind: CurveKind) -> bool {
    kind == CurveKind::Line || kind == CurveKind::Circle || kind == CurveKind::Ellipse
}

pub fn rust_owned_brep_curve_required(kind: CurveKind) -> (r: bool)
    ensures
        r == spec_rust_owned_curve_required(kind),
{
    match kind {
        CurveKind::Line | CurveKind::Circle | CurveKind::Ellipse => true,
        _ => false,
    }
}

/// Refuses an edge whose kind needs a Rust-side curve when none was built.
pub fn require_ported_brep_curve(kind: CurveKind, has_ported_curve: bool) -> (r: Result<(), Error>)
    ensures
        r is Err <==> spec_rust_owned_curve_required(kind) && !has_ported_curve,
        r matches Err(e) ==> e@ == "Rust-owned BRep edge materialization did not cover "@
            + curve_kind_name(kind) + " edge"@,
{
    if rust_owned_brep_curve_required(kind) && !has_ported_curve {
        let mut s = String::from_str("Rust-owned BRep edge materialization did not cover ");
        s.append(kind.name());
        s.append(" edge");
        Err(Error::new(s))
    } else {
        Ok(())
    }
}

} // verus!
