//! Classifying a shape by the counts of its sub-shapes, the checks that the
//! topology-backed queries make, and the order in which the figures of a
//! shape summary are sought.
use vstd::prelude::*;

use crate::brep::{indexed_error, spec_topology_count};
use crate::error::{decimal, decimal_text, shape_kind_name, Error};
use crate::kinds::{CurveKind, ShapeKind};
use crate::topology::{TopologyEdgeVertices, TopologyTables};

verus! {

/// How many sub-shapes of each kind a shape has.
#[derive(Clone, Copy, Debug, PartialEq, Eq, Structural)]
pub struct ShapeCounts {
    pub compound_count: usize,
    pub compsolid_count: usize,
    pub solid_count: usize,
    pub shell_count: usize,
    pub face_count: usize,
    pub wire_count: usize,
    pub edge_count: usize,
    pub vertex_count: usize,
}

/// The kind of a shape's root: the highest level, from compounds down to
/// vertices, at which the shape has sub-shapes; `Unknown` when it has none.
pub open spec fn spec_root_kind(c: ShapeCounts) -> ShapeKind {
    if c.compound_count > 0 {
        ShapeKind::Compound
    } else if c.compsolid_count > 0 {
        ShapeKind::CompSolid
    } else if c.solid_count > 0 {
        ShapeKind::Solid
    } else if c.shell_count > 0 {
        ShapeKind::Shell
    } else if c.face_count > 0 {
        ShapeKind::Face
    } else if c.wire_count > 0 {
        ShapeKind::Wire
    } else if c.edge_count > 0 {
        ShapeKind::Edge
    } else if c.vertex_count > 0 {
        ShapeKind::Vertex
    } else {
        ShapeKind::Unknown
    }
}

/// The kind that best describes what a shape is made of: the highest level
/// from solids down to vertices that it has, and only when it has none of
/// those, comp-solids, then compounds; `Unknown` when it has nothing.
pub open spec fn spec_primary_kind(c: ShapeCounts) -> ShapeKind {
    if c.solid_count > 0 {
        ShapeKind::Solid
    } else if c.shell_count > 0 {
        ShapeKind::Shell
    } else if c.face_count > 0 {
        ShapeKind::Face
    } else if c.wire_count > 0 {
        ShapeKind::Wire
    } else if c.edge_count > 0 {
        ShapeKind::Edge
    } else if c.vertex_count > 0 {
        ShapeKind::Vertex
    } else if c.compsolid_count > 0 {
        ShapeKind::CompSolid
    } else if c.compound_count > 0 {
        ShapeKind::Compound
    } else {
        ShapeKind::Unknown
    }
}

pub fn classify_root_kind(counts: ShapeCounts) -> (r: ShapeKind)
    ensures
        r == spec_root_kind(counts),
{
    if counts.compound_count > 0 {
        ShapeKind::Compound
    } else if counts.compsolid_count > 0 {
        ShapeKind::CompSolid
    } else if counts.solid_count > 0 {
        ShapeKind::Solid
    } else if counts.shell_count > 0 {
        ShapeKind::Shell
    } else if counts.face_count > 0 {
        ShapeKind::Face
    } else if counts.wire_count > 0 {
        ShapeKind::Wire
    } else if counts.edge_count > 0 {
        ShapeKind::Edge
    } else if counts.vertex_count > 0 {
        ShapeKind::Vertex
    } else {
        ShapeKind::Unknown
    }
}

pub fn classify_primary_kind(counts: ShapeCounts) -> (r: ShapeKind)
    ensures
        r == spec_primary_kind(counts),
{
    if counts.solid_count > 0 {
        ShapeKind::Solid
    } else if counts.shell_count > 0 {
        ShapeKind::Shell
    } else if counts.face_count > 0 {
        ShapeKind::Face
    } else if counts.wire_count > 0 {
        ShapeKind::Wire
    } else if counts.edge_count > 0 {
        ShapeKind::Edge
    } else if counts.vertex_count > 0 {
        ShapeKind::Vertex
    } else if counts.compsolid_count > 0 {
        ShapeKind::CompSolid
    } else if counts.compound_count > 0 {
        ShapeKind::Compound
    } else {
        ShapeKind::Unknown
    }
}

/// The shape has no sub-shape of any kind.
pub open spec fn counts_empty(c: ShapeCounts) -> bool {
    c.compound_count == 0 && c.compsolid_count == 0 && c.solid_count == 0 && c.shell_count == 0
        && c.face_count == 0 && c.wire_count == 0 && c.edge_count == 0 && c.vertex_count == 0
}

/// Both classifications say `Unknown` exactly when the shape has no
/// sub-shapes at all, and never otherwise.
pub proof fn lemma_unknown_iff_empty(c: ShapeCounts)
    ensures
        spec_root_kind(c) == ShapeKind::Unknown <==> counts_empty(c),
        spec_primary_kind(c) == ShapeKind::Unknown <==> counts_empty(c),
{
}

/// Neither classification ever says `Shape`, and the root kind is a kind the
/// shape has sub-shapes of.
pub proof fn lemma_root_kind_is_present(c: ShapeCounts)
    ensures
        spec_root_kind(c) != ShapeKind::Shape,
        spec_primary_kind(c) != ShapeKind::Shape,
        spec_root_kind(c) == ShapeKind::Vertex ==> c.vertex_count > 0 && c.edge_count == 0
            && c.wire_count == 0 && c.face_count == 0 && c.shell_count == 0 && c.solid_count == 0
            && c.compsolid_count == 0 && c.compound_count == 0,
        spec_root_kind(c) == ShapeKind::Edge ==> c.edge_count > 0 && c.wire_count == 0
            && c.face_count == 0 && c.shell_count == 0 && c.solid_count == 0 && c.compsolid_count
            == 0 && c.compound_count == 0,
{
}

/// A shape without compounds or comp-solids gets the same kind both ways.
pub proof fn lemma_kinds_agree_without_assemblies(c: ShapeCounts)
    requires
        c.compound_count == 0,
        c.compsolid_count == 0,
    ensures
        spec_root_kind(c) == spec_primary_kind(c),
{
}

// ---------------------------------------------------------------------------
// Sampling plans.
// ---------------------------------------------------------------------------

/// How densely an edge's boundary is sampled for a bounding box: not at all
/// for lines, circles and ellipses (their boxes are exact), 33 samples and 4
/// refinements for conics that are open, 65 and 4 for every other curve.
pub open spec fn spec_sampling_plan(kind: CurveKind) -> Option<(usize, usize)> {
    match kind {
        CurveKind::Line | CurveKind::Circle | CurveKind::Ellipse => None,
        CurveKind::Hyperbola | CurveKind::Parabola => Some((33, 4)),
        _ => Some((65, 4)),
    }
}

pub fn boundary_edge_sampling_plan(kind: CurveKind) -> (r: Option<(usize, usize)>)
    ensures
        r == spec_sampling_plan(kind),
{
    match kind {
        CurveKind::Line | CurveKind::Circle | CurveKind::Ellipse => None,
        CurveKind::Hyperbola | CurveKind::Parabola => Some((33, 4)),
        CurveKind::Bezier | CurveKind::BSpline | CurveKind::Offset | CurveKind::Other
        | CurveKind::Unknown => Some((65, 4)),
    }
}

// ---------------------------------------------------------------------------
// Sub-shape queries backed by the topology tables.
// ---------------------------------------------------------------------------

/// Where the count of sub-shapes of a kind comes from.
#[derive(Clone, Copy, Debug, PartialEq, Eq, Structural)]
pub enum SubshapeCountSource {
    /// The Rust-side topology tables (faces, wires, edges, vertices), with
    /// the kernel as fallback when the tables cannot be built.
    Topology,
    /// The shape summary (compounds, comp-solids, solids, shells).
    Summary,
    /// The kernel directly.
    Kernel,
}

pub open spec fn spec_count_source(kind: ShapeKind) -> SubshapeCountSource {
    match kind {
        ShapeKind::Face | ShapeKind::Wire | ShapeKind::Edge | ShapeKind::Vertex => SubshapeCountSource::Topology,
        ShapeKind::Compound | ShapeKind::CompSolid | ShapeKind::Solid | ShapeKind::Shell => SubshapeCountSource::Summary,
        _ => SubshapeCountSource::Kernel,
    }
}

pub fn subshape_count_source(kind: ShapeKind) -> (r: SubshapeCountSource)
    ensures
        r == spec_count_source(kind),
{
    match kind {
        ShapeKind::Face | ShapeKind::Wire | ShapeKind::Edge | ShapeKind::Vertex => {
            SubshapeCountSource::Topology
        },
        ShapeKind::Compound | ShapeKind::CompSolid | ShapeKind::Solid | ShapeKind::Shell => {
            SubshapeCountSource::Summary
        },
        _ => SubshapeCountSource::Kernel,
    }
}

/// The count of an assembly kind in a shape summary.
pub open spec fn spec_summary_count(counts: ShapeCounts, kind: ShapeKind) -> usize {
    match kind {
        ShapeKind::Compound => counts.compound_count,
        ShapeKind::CompSolid => counts.compsolid_count,
        ShapeKind::Solid => counts.solid_count,
        _ => counts.shell_count,
    }
}

pub fn summary_subshape_count(counts: &ShapeCounts, kind: ShapeKind) -> (r: usize)
    requires
        spec_count_source(kind) == SubshapeCountSource::Summary,
    ensures
        r == spec_summary_count(*counts, kind),
{
    match kind {
        ShapeKind::Compound => counts.compound_count,
        ShapeKind::CompSolid => counts.compsolid_count,
        ShapeKind::Solid => counts.solid_count,
        _ => counts.shell_count,
    }
}

/// The topology-backed kinds are exactly the kinds whose count comes from
/// the tables.
pub proof fn lemma_topology_backed_kinds(t: TopologyTables, kind: ShapeKind)
    ensures
        spec_topology_count(t, kind) is Some <==> spec_count_source(kind)
            == SubshapeCountSource::Topology,
{
}

/// Refuses a sub-shape index at or past the number of sub-shapes of its kind.
pub fn check_subshape_index(kind: ShapeKind, index: usize, count: usize) -> (r: Result<(), Error>)
    ensures
        r is Err <==> index >= count,
        r matches Err(e) ==> e@ == "subshape index "@ + decimal(index as nat)
            + " out of bounds for "@ + shape_kind_name(kind) + " count "@ + decimal(count as nat),
{
    if index >= count {
        let mut s = String::from_str("subshape index ");
        let index_text = decimal_text(index);
        s.append(index_text.as_str());
        s.append(" out of bounds for ");
        s.append(kind.name());
        s.append(" count ");
        let count_text = decimal_text(count);
        s.append(count_text.as_str());
        Err(Error::new(s))
    } else {
        Ok(())
    }
}

/// Refuses a list of sub-shapes whose length is not the count that the
/// topology gives.
pub fn check_subshape_total(kind: ShapeKind, expected: usize, found: usize) -> (r: Result<(), Error>)
    ensures
        r is Err <==> expected != found,
        r matches Err(e) ==> e@ == "expected "@ + decimal(expected as nat) + " "@ + shape_kind_name(
            kind,
        ) + " subshape(s) from topology, found "@ + decimal(found as nat) + " via OCCT"@,
{
    if expected != found {
        let mut s = String::from_str("expected ");
        let expected_text = decimal_text(expected);
        s.append(expected_text.as_str());
        s.append(" ");
        s.append(kind.name());
        s.append(" subshape(s) from topology, found ");
        let found_text = decimal_text(found);
        s.append(found_text.as_str());
        s.append(" via OCCT");
        Err(Error::new(s))
    } else {
        Ok(())
    }
}

/// A shape whose root is a vertex must hold exactly one vertex.
pub fn check_single_vertex(topology: &TopologyTables) -> (r: Result<(), Error>)
    ensures
        r is Err <==> topology.vertex_count != 1,
        r matches Err(e) ==> e@ == "expected exactly one vertex in vertex topology, found "@
            + decimal(topology.vertex_count as nat),
{
    if topology.vertex_count != 1 {
        return Err(
            indexed_error(
                "expected exactly one vertex in vertex topology, found ",
                topology.vertex_count,
            ),
        );
    }
    Ok(())
}

/// The vertex that an optional index names, where it names one.
pub open spec fn names_vertex(t: TopologyTables, v: Option<usize>) -> bool {
    v matches Some(i) && i < t.vertex_count
}

/// The two vertices of the single edge of an edge-rooted shape: the edge
/// must be the only one, and both of its ends must name vertices.
pub fn single_edge_vertices(topology: &TopologyTables) -> (r: Result<(usize, usize), Error>)
    ensures
        topology.edges@.len() != 1 ==> (r matches Err(e) && e@
            == "expected exactly one edge in edge topology, found "@ + decimal(
            topology.edges@.len(),
        )),
        topology.edges@.len() == 1 ==> ({
            let edge = topology.edges@[0];
            if names_vertex(*topology, edge.start_vertex) && names_vertex(*topology, edge.end_vertex) {
                r == Ok::<(usize, usize), Error>((edge.start_vertex->0, edge.end_vertex->0))
            } else {
                r matches Err(e) && e@ == "Edge did not contain two endpoint vertices."@
            }
        }),
{
    if topology.edges.len() != 1 {
        return Err(
            indexed_error("expected exactly one edge in edge topology, found ", topology.edges.len()),
        );
    }
    let edge: TopologyEdgeVertices = topology.edges[0];
    match (edge.start_vertex, edge.end_vertex) {
        (Some(start), Some(end)) => {
            if start < topology.vertex_count && end < topology.vertex_count {
                Ok((start, end))
            } else {
                Err(Error::from_text("Edge did not contain two endpoint vertices."))
            }
        },
        _ => Err(Error::from_text("Edge did not contain two endpoint vertices.")),
    }
}


// ---------------------------------------------------------------------------
// Where the figures of a shape summary came from.
// ---------------------------------------------------------------------------

/// Where the bounding box of one shell of an offset solid came from.
#[derive(Clone, Copy, Debug, PartialEq, Eq, Structural)]
pub enum OffsetShellBboxSource {
    FaceBrep,
    Boundary,
    Mesh,
    Brep,
    OcctFallback,
}

/// Where the bounding box of a single offset face came from.
#[derive(Clone, Copy, Debug, PartialEq, Eq, Structural)]
pub enum OffsetFaceBboxSource {
    ValidatedMesh,
    ValidatedFaceBrep,
    SummaryFaceBrep,
}

/// Where the bounding box of a shape summary came from.
#[derive(Clone, Copy, Debug, PartialEq, Eq, Structural)]
pub enum SummaryBboxSource {
    ExactPrimitive,
    PortedBrep,
    OffsetFaceUnion,
    OffsetOcctSubshapeUnion,
    OffsetValidatedMesh,
    OffsetSolidShellUnion,
    Mesh,
    OcctFallback,
    Zero,
}

/// Where the volume of a shape summary came from.
#[derive(Clone, Copy, Debug, PartialEq, Eq, Structural)]
pub enum SummaryVolumeSource {
    ExactPrimitive,
    FaceContributions,
    WholeShapeMesh,
    OcctFallback,
    Zero,
}

// ---------------------------------------------------------------------------
// The order in which a summary's figures are sought.
// ---------------------------------------------------------------------------

/// A shape with solids or comp-solids encloses volume.
pub open spec fn spec_has_solids(solid_count: usize, compsolid_count: usize) -> bool {
    solid_count > 0 || compsolid_count > 0
}

/// The sources a summary's bounding box is sought from, in order; the first
/// that yields a box wins, and `Zero` always does. A sheet made of offset
/// faces is boxed from its offset faces, never from a whole-shape mesh; a
/// solid with offset faces from its shells, falling back on the kernel.
pub open spec fn spec_bbox_plan(
    contains_offset_faces: bool,
    solid_count: usize,
    compsolid_count: usize,
) -> Seq<SummaryBboxSource> {
    let solid = spec_has_solids(solid_count, compsolid_count);
    let offset_sheet = contains_offset_faces && !solid;
    seq![SummaryBboxSource::ExactPrimitive, SummaryBboxSource::PortedBrep] + (if offset_sheet {
        seq![
            SummaryBboxSource::OffsetFaceUnion,
            SummaryBboxSource::OffsetOcctSubshapeUnion,
            SummaryBboxSource::OffsetValidatedMesh,
        ]
    } else {
        Seq::empty()
    }) + (if contains_offset_faces && solid {
        seq![SummaryBboxSource::OffsetSolidShellUnion, SummaryBboxSource::OcctFallback]
    } else {
        Seq::empty()
    }) + (if offset_sheet {
        Seq::empty()
    } else {
        seq![SummaryBboxSource::Mesh]
    }) + seq![SummaryBboxSource::OcctFallback, SummaryBboxSource::Zero]
}

fn push_all(dst: &mut Vec<SummaryBboxSource>, src: &[SummaryBboxSource])
    ensures
        final(dst)@ == old(dst)@ + src@,
{
    let mut k: usize = 0;
    while k < src.len()
        invariant
            k <= src@.len(),
            dst@ == old(dst)@ + src@.take(k as int),
        decreases src.len() - k,
    {
        dst.push(src[k]);
        k += 1;
        assert(src@.take(k as int) =~= src@.take(k - 1).push(src@[k - 1]));
    }
    assert(src@.take(k as int) =~= src@);
}

/// The sources a summary's bounding box is sought from, as `spec_bbox_plan`
/// states.
pub fn summary_bbox_plan(
    contains_offset_faces: bool,
    solid_count: usize,
    compsolid_count: usize,
) -> (r: Vec<SummaryBboxSource>)
    ensures
        r@ == spec_bbox_plan(contains_offset_faces, solid_count, compsolid_count),
{
    let solid = solid_count > 0 || compsolid_count > 0;
    let offset_sheet = contains_offset_faces && !solid;
    let mut plan: Vec<SummaryBboxSource> = Vec::new();
    push_all(&mut plan, &[SummaryBboxSource::ExactPrimitive, SummaryBboxSource::PortedBrep]);
    let ghost p0 = plan@;
    if offset_sheet {
        push_all(
            &mut plan,
            &[
                SummaryBboxSource::OffsetFaceUnion,
                SummaryBboxSource::OffsetOcctSubshapeUnion,
                SummaryBboxSource::OffsetValidatedMesh,
            ],
        );
    }
    let ghost p1 = plan@;
    if contains_offset_faces && solid {
        push_all(
            &mut plan,
            &[SummaryBboxSource::OffsetSolidShellUnion, SummaryBboxSource::OcctFallback],
        );
    }
    let ghost p2 = plan@;
    if !offset_sheet {
        push_all(&mut plan, &[SummaryBboxSource::Mesh]);
    }
    let ghost p3 = plan@;
    push_all(&mut plan, &[SummaryBboxSource::OcctFallback, SummaryBboxSource::Zero]);
    proof {
        let a = seq![SummaryBboxSource::ExactPrimitive, SummaryBboxSource::PortedBrep];
        let b: Seq<SummaryBboxSource> = if offset_sheet {
            seq![
                SummaryBboxSource::OffsetFaceUnion,
                SummaryBboxSource::OffsetOcctSubshapeUnion,
                SummaryBboxSource::OffsetValidatedMesh,
            ]
        } else {
            Seq::empty()
        };
        let c: Seq<SummaryBboxSource> = if contains_offset_faces && solid {
            seq![SummaryBboxSource::OffsetSolidShellUnion, SummaryBboxSource::OcctFallback]
        } else {
            Seq::empty()
        };
        let d: Seq<SummaryBboxSource> = if offset_sheet {
            Seq::empty()
        } else {
            seq![SummaryBboxSource::Mesh]
        };
        assert(p0 =~= a);
        assert(p1 =~= a + b);
        assert(p2 =~= a + b + c);
        assert(p3 =~= a + b + c + d);
    }
    plan
}

/// A sheet made of offset faces is never boxed from a whole-shape mesh,
/// and every plan ends in the zero box, so a summary always has a box.
pub proof fn lemma_bbox_plan_shape(
    contains_offset_faces: bool,
    solid_count: usize,
    compsolid_count: usize,
)
    ensures
        ({
            let plan = spec_bbox_plan(contains_offset_faces, solid_count, compsolid_count);
            &&& plan.len() > 0
            &&& plan[0] == SummaryBboxSource::ExactPrimitive
            &&& plan.last() == SummaryBboxSource::Zero
            &&& (contains_offset_faces && !spec_has_solids(solid_count, compsolid_count))
                ==> !plan.contains(SummaryBboxSource::Mesh)
            &&& !contains_offset_faces ==> plan == seq![
                SummaryBboxSource::ExactPrimitive,
                SummaryBboxSource::PortedBrep,
                SummaryBboxSource::Mesh,
                SummaryBboxSource::OcctFallback,
                SummaryBboxSource::Zero,
            ]
        }),
{
    let plan = spec_bbox_plan(contains_offset_faces, solid_count, compsolid_count);
    if contains_offset_faces && !spec_has_solids(solid_count, compsolid_count) {
        assert(plan =~= seq![
            SummaryBboxSource::ExactPrimitive,
            SummaryBboxSource::PortedBrep,
            SummaryBboxSource::OffsetFaceUnion,
            SummaryBboxSource::OffsetOcctSubshapeUnion,
            SummaryBboxSource::OffsetValidatedMesh,
            SummaryBboxSource::OcctFallback,
            SummaryBboxSource::Zero,
        ]);
        if plan.contains(SummaryBboxSource::Mesh) {
            let i = choose|i: int| 0 <= i < plan.len() && plan[i] == SummaryBboxSource::Mesh;
            assert(false);
        }
    } else if contains_offset_faces {
        assert(plan =~= seq![
            SummaryBboxSource::ExactPrimitive,
            SummaryBboxSource::PortedBrep,
            SummaryBboxSource::OffsetSolidShellUnion,
            SummaryBboxSource::OcctFallback,
            SummaryBboxSource::Mesh,
            SummaryBboxSource::OcctFallback,
            SummaryBboxSource::Zero,
        ]);
    } else {
        assert(plan =~= seq![
            SummaryBboxSource::ExactPrimitive,
            SummaryBboxSource::PortedBrep,
            SummaryBboxSource::Mesh,
            SummaryBboxSource::OcctFallback,
            SummaryBboxSource::Zero,
        ]);
    }
}

/// The sources a summary's volume is sought from, in order; the first that
/// yields a volume wins, and `Zero` always does. Faces and a whole-shape
/// mesh are consulted only for a closed topology.
pub open spec fn spec_volume_plan(closed_volume_topology: bool) -> Seq<SummaryVolumeSource> {
    if closed_volume_topology {
        seq![
            SummaryVolumeSource::ExactPrimitive,
            SummaryVolumeSource::FaceContributions,
            SummaryVolumeSource::WholeShapeMesh,
            SummaryVolumeSource::OcctFallback,
            SummaryVolumeSource::Zero,
        ]
    } else {
        seq![
            SummaryVolumeSource::ExactPrimitive,
            SummaryVolumeSource::OcctFallback,
            SummaryVolumeSource::Zero,
        ]
    }
}

pub fn summary_volume_plan(closed_volume_topology: bool) -> (r: Vec<SummaryVolumeSource>)
    ensures
        r@ == spec_volume_plan(closed_volume_topology),
{
    let mut plan: Vec<SummaryVolumeSource> = Vec::new();
    plan.push(SummaryVolumeSource::ExactPrimitive);
    if closed_volume_topology {
        plan.push(SummaryVolumeSource::FaceContributions);
        plan.push(SummaryVolumeSource::WholeShapeMesh);
    }
    plan.push(SummaryVolumeSource::OcctFallback);
    plan.push(SummaryVolumeSource::Zero);
    assert(plan@ =~= spec_volume_plan(closed_volume_topology));
    plan
}

/// A topology encloses volume when it has no faces, or when every edge
/// bounds exactly two faces.
pub open spec fn spec_closed_volume_topology(
    face_count: usize,
    edge_adjacent_faces: Seq<Vec<usize>>,
) -> bool {
    face_count == 0 || forall|e: int|
        0 <= e < edge_adjacent_faces.len() ==> (#[trigger] edge_adjacent_faces[e])@.len() == 2
}

pub fn has_closed_volume_topology(face_count: usize, edge_adjacent_faces: &[Vec<usize>]) -> (r:
    bool)
    ensures
        r == spec_closed_volume_topology(face_count, edge_adjacent_faces@),
{
    if face_count == 0 {
        return true;
    }
    let mut e: usize = 0;
    while e < edge_adjacent_faces.len()
        invariant
            face_count != 0,
            e <= edge_adjacent_faces@.len(),
            forall|j: int| 0 <= j < e ==> (#[trigger] edge_adjacent_faces@[j])@.len() == 2,
        decreases edge_adjacent_faces.len() - e,
    {
        if edge_adjacent_faces[e].len() != 2 {
            assert(edge_adjacent_faces@[e as int]@.len() != 2);
            return false;
        }
        e += 1;
    }
    true
}

/// The exact formulas of primitive solids apply only to a shape that is a
/// single solid.
pub fn exact_primitive_applies(primary_kind: ShapeKind, solid_count: usize) -> (r: bool)
    ensures
        r == (primary_kind == ShapeKind::Solid && solid_count == 1),
{
    primary_kind == ShapeKind::Solid && solid_count == 1
}

/// The edges, with repetition, whose lengths make a shape's linear length:
/// each occurrence of an existing edge in a wire where there are wire
/// occurrences, every edge once where there are none.
pub open spec fn spec_linear_length_edges(edge_count: usize, wire_edge_indices: Seq<usize>) -> Seq<
    usize,
> {
    if wire_edge_indices.len() == 0 {
        Seq::new(edge_count as nat, |e: int| e as usize)
    } else {
        wire_edge_indices.filter(|e: usize| e < edge_count)
    }
}

pub fn linear_length_edges(edge_count: usize, wire_edge_indices: &[usize]) -> (r: Vec<usize>)
    ensures
        r@ == spec_linear_length_edges(edge_count, wire_edge_indices@),
{
    let mut out: Vec<usize> = Vec::new();
    if wire_edge_indices.len() == 0 {
        let mut e: usize = 0;
        while e < edge_count
            invariant
                e <= edge_count,
                out@ == Seq::new(e as nat, |j: int| j as usize),
            decreases edge_count - e,
        {
            out.push(e);
            e += 1;
            assert(out@ =~= Seq::new(e as nat, |j: int| j as usize));
        }
        return out;
    }
    let ghost pred = |e: usize| e < edge_count;
    let mut k: usize = 0;
    while k < wire_edge_indices.len()
        invariant
            k <= wire_edge_indices@.len(),
            pred == (|e: usize| e < edge_count),
            out@ == wire_edge_indices@.take(k as int).filter(pred),
        decreases wire_edge_indices.len() - k,
    {
        let e = wire_edge_indices[k];
        proof {
            reveal_with_fuel(Seq::<_>::filter, 1);
            assert(wire_edge_indices@.take(k + 1).drop_last() =~= wire_edge_indices@.take(
                k as int,
            ));
        }
        if e < edge_count {
            out.push(e);
        }
        k += 1;
    }
    assert(wire_edge_indices@.take(k as int) =~= wire_edge_indices@);
    out
}

/// The counts of a shape: its assemblies, solids and shells as the kernel
/// counts them, its faces, wires, edges and vertices as its tables hold them.
pub fn shape_counts(
    compound_count: usize,
    compsolid_count: usize,
    solid_count: usize,
    shell_count: usize,
    topology: &TopologyTables,
) -> (r: ShapeCounts)
    ensures
        r == (ShapeCounts {
            compound_count,
            compsolid_count,
            solid_count,
            shell_count,
            face_count: topology.faces@.len() as usize,
            wire_count: topology.wires@.len() as usize,
            edge_count: topology.edges@.len() as usize,
            vertex_count: topology.vertex_count,
        }),
{
    ShapeCounts {
        compound_count,
        compsolid_count,
        solid_count,
        shell_count,
        face_count: topology.faces.len(),
        wire_count: topology.wires.len(),
        edge_count: topology.edges.len(),
        vertex_count: topology.vertex_count,
    }
}

/// The root kind is the highest level, from compounds down to vertices, at
/// which the shape has sub-shapes: every level above it is absent and that
/// level is present, whatever the counts below it.
pub proof fn lemma_root_kind_is_highest_level(c: ShapeCounts)
    ensures
        c.compound_count > 0 ==> spec_root_kind(c) == ShapeKind::Compound,
        c.compound_count == 0 && c.compsolid_count > 0 ==> spec_root_kind(c) == ShapeKind::CompSolid,
        c.compound_count == 0 && c.compsolid_count == 0 && c.solid_count > 0 ==> spec_root_kind(c)
            == ShapeKind::Solid,
        c.compound_count == 0 && c.compsolid_count == 0 && c.solid_count == 0 && c.shell_count > 0
            ==> spec_root_kind(c) == ShapeKind::Shell,
        c.compound_count == 0 && c.compsolid_count == 0 && c.solid_count == 0 && c.shell_count == 0
            && c.face_count > 0 ==> spec_root_kind(c) == ShapeKind::Face,
        c.compound_count == 0 && c.compsolid_count == 0 && c.solid_count == 0 && c.shell_count == 0
            && c.face_count == 0 && c.wire_count > 0 ==> spec_root_kind(c) == ShapeKind::Wire,
        c.compound_count == 0 && c.compsolid_count == 0 && c.solid_count == 0 && c.shell_count == 0
            && c.face_count == 0 && c.wire_count == 0 && c.edge_count > 0 ==> spec_root_kind(c)
            == ShapeKind::Edge,
        c.compound_count == 0 && c.compsolid_count == 0 && c.solid_count == 0 && c.shell_count == 0
            && c.face_count == 0 && c.wire_count == 0 && c.edge_count == 0 && c.vertex_count > 0
            ==> spec_root_kind(c) == ShapeKind::Vertex,
{
}

/// The primary kind is the highest level from solids down to vertices that
/// the shape has, whatever the counts below it; only a shape with none of
/// those is a comp-solid, and only one with no comp-solid either a compound.
pub proof fn lemma_primary_kind_is_highest_modelled_level(c: ShapeCounts)
    ensures
        c.solid_count > 0 ==> spec_primary_kind(c) == ShapeKind::Solid,
        c.solid_count == 0 && c.shell_count > 0 ==> spec_primary_kind(c) == ShapeKind::Shell,
        c.solid_count == 0 && c.shell_count == 0 && c.face_count > 0 ==> spec_primary_kind(c)
            == ShapeKind::Face,
        c.solid_count == 0 && c.shell_count == 0 && c.face_count == 0 && c.wire_count > 0
            ==> spec_primary_kind(c) == ShapeKind::Wire,
        c.solid_count == 0 && c.shell_count == 0 && c.face_count == 0 && c.wire_count == 0
            && c.edge_count > 0 ==> spec_primary_kind(c) == ShapeKind::Edge,
        c.solid_count == 0 && c.shell_count == 0 && c.face_count == 0 && c.wire_count == 0
            && c.edge_count == 0 && c.vertex_count > 0 ==> spec_primary_kind(c) == ShapeKind::Vertex,
        c.solid_count == 0 && c.shell_count == 0 && c.face_count == 0 && c.wire_count == 0
            && c.edge_count == 0 && c.vertex_count == 0 && c.compsolid_count > 0
            ==> spec_primary_kind(c) == ShapeKind::CompSolid,
        c.solid_count == 0 && c.shell_count == 0 && c.face_count == 0 && c.wire_count == 0
            && c.edge_count == 0 && c.vertex_count == 0 && c.compsolid_count == 0
            && c.compound_count > 0 ==> spec_primary_kind(c) == ShapeKind::Compound,
{
}

/// The count of an assembly kind taken from a shape summary is the
/// summary's count of that same kind.
pub proof fn lemma_summary_count_is_same_kind(c: ShapeCounts)
    ensures
        spec_summary_count(c, ShapeKind::Compound) == c.compound_count,
        spec_summary_count(c, ShapeKind::CompSolid) == c.compsolid_count,
        spec_summary_count(c, ShapeKind::Solid) == c.solid_count,
        spec_summary_count(c, ShapeKind::Shell) == c.shell_count,
{
}

/// The bounding-box plan, case by case: a shape with offset faces and any
/// solid or comp-solid is boxed from its shells first; a sheet of offset
/// faces from its offset faces, never from a mesh; any other shape from its
/// B-rep and then a mesh. The counts matter only through whether either of
/// them is positive.
pub proof fn lemma_bbox_plan_cases(
    contains_offset_faces: bool,
    solid_count: usize,
    compsolid_count: usize,
)
    ensures
        contains_offset_faces && (solid_count > 0 || compsolid_count > 0) ==> spec_bbox_plan(
            contains_offset_faces,
            solid_count,
            compsolid_count,
        ) == seq![
            SummaryBboxSource::ExactPrimitive,
            SummaryBboxSource::PortedBrep,
            SummaryBboxSource::OffsetSolidShellUnion,
            SummaryBboxSource::OcctFallback,
            SummaryBboxSource::Mesh,
            SummaryBboxSource::OcctFallback,
            SummaryBboxSource::Zero,
        ],
        contains_offset_faces && solid_count == 0 && compsolid_count == 0 ==> spec_bbox_plan(
            contains_offset_faces,
            solid_count,
            compsolid_count,
        ) == seq![
            SummaryBboxSource::ExactPrimitive,
            SummaryBboxSource::PortedBrep,
            SummaryBboxSource::OffsetFaceUnion,
            SummaryBboxSource::OffsetOcctSubshapeUnion,
            SummaryBboxSource::OffsetValidatedMesh,
            SummaryBboxSource::OcctFallback,
            SummaryBboxSource::Zero,
        ],
        !contains_offset_faces ==> spec_bbox_plan(contains_offset_faces, solid_count, compsolid_count)
            == seq![
            SummaryBboxSource::ExactPrimitive,
            SummaryBboxSource::PortedBrep,
            SummaryBboxSource::Mesh,
            SummaryBboxSource::OcctFallback,
            SummaryBboxSource::Zero,
        ],
{
    let plan = spec_bbox_plan(contains_offset_faces, solid_count, compsolid_count);
    if contains_offset_faces && (solid_count > 0 || compsolid_count > 0) {
        assert(plan =~= seq![
            SummaryBboxSource::ExactPrimitive,
            SummaryBboxSource::PortedBrep,
            SummaryBboxSource::OffsetSolidShellUnion,
            SummaryBboxSource::OcctFallback,
            SummaryBboxSource::Mesh,
            SummaryBboxSource::OcctFallback,
            SummaryBboxSource::Zero,
        ]);
    } else if contains_offset_faces {
        assert(plan =~= seq![
            SummaryBboxSource::ExactPrimitive,
            SummaryBboxSource::PortedBrep,
            SummaryBboxSource::OffsetFaceUnion,
            SummaryBboxSource::OffsetOcctSubshapeUnion,
            SummaryBboxSource::OffsetValidatedMesh,
            SummaryBboxSource::OcctFallback,
            SummaryBboxSource::Zero,
        ]);
    } else {
        assert(plan =~= seq![
            SummaryBboxSource::ExactPrimitive,
            SummaryBboxSource::PortedBrep,
            SummaryBboxSource::Mesh,
            SummaryBboxSource::OcctFallback,
            SummaryBboxSource::Zero,
        ]);
    }
}

/// Two shapes with the same offset faces and the same answer to whether
/// they have solids or comp-solids get the same bounding-box plan.
pub proof fn lemma_bbox_plan_depends_on_solids_only(
    contains_offset_faces: bool,
    solid_a: usize,
    compsolid_a: usize,
    solid_b: usize,
    compsolid_b: usize,
)
    requires
        (solid_a > 0 || compsolid_a > 0) == (solid_b > 0 || compsolid_b > 0),
    ensures
        spec_bbox_plan(contains_offset_faces, solid_a, compsolid_a) == spec_bbox_plan(
            contains_offset_faces,
            solid_b,
            compsolid_b,
        ),
{
    lemma_bbox_plan_cases(contains_offset_faces, solid_a, compsolid_a);
    lemma_bbox_plan_cases(contains_offset_faces, solid_b, compsolid_b);
}

} // verus!
