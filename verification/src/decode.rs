//! Turning the raw arrays that the kernel's C interface fills into topology
//! tables.
use vstd::prelude::*;

use crate::abi::{loop_role_from_code, orientation_from_code};
use crate::kinds::{LoopRole, Orientation};
use crate::topology::{TopologyEdgeVertices, TopologyRange, TopologyTables};

verus! {

/// A vertex index as the interface writes it: `u32::MAX` means "no vertex".
pub open spec fn spec_optional_index(value: u32) -> Option<usize> {
    if value == u32::MAX {
        None
    } else {
        Some(value as usize)
    }
}

pub fn optional_index(value: u32) -> (r: Option<usize>)
    ensures
        r == spec_optional_index(value),
{
    if value == u32::MAX {
        None
    } else {
        Some(value as usize)
    }
}

/// The ranges that a flat array of (offset, count) pairs encodes; a trailing
/// unpaired entry is ignored.
pub open spec fn spec_decoded_range(raw: Seq<u32>, i: int) -> TopologyRange {
    TopologyRange { offset: raw[2 * i] as usize, count: raw[2 * i + 1] as usize }
}

pub fn decode_ranges(raw: &[u32]) -> (r: Vec<TopologyRange>)
    ensures
        r@.len() == raw@.len() / 2,
        forall|i: int| 0 <= i < r@.len() ==> #[trigger] r@[i] == spec_decoded_range(raw@, i),
{
    let pairs = raw.len() / 2;
    let mut out: Vec<TopologyRange> = Vec::new();
    let mut i: usize = 0;
    while i < pairs
        invariant
            pairs == raw@.len() / 2,
            2 * pairs <= raw.len(),
            i <= pairs,
            out@.len() == i,
            forall|j: int| 0 <= j < i ==> #[trigger] out@[j] == spec_decoded_range(raw@, j),
        decreases pairs - i,
    {
        out.push(TopologyRange { offset: raw[2 * i] as usize, count: raw[2 * i + 1] as usize });
        i += 1;
    }
    out
}

/// How many entries the array that a range table indexes holds: where the
/// last (offset, count) pair ends; 0 without pairs.
pub open spec fn spec_range_table_total(raw: Seq<u32>) -> nat {
    if raw.len() < 2 {
        0
    } else {
        let last = raw.len() / 2 - 1;
        (raw[2 * last] + raw[2 * last + 1]) as nat
    }
}

pub fn range_table_total(raw: &[u32]) -> (r: usize)
    requires
        spec_range_table_total(raw@) <= usize::MAX,
    ensures
        r == spec_range_table_total(raw@),
{
    if raw.len() < 2 {
        return 0;
    }
    let last = raw.len() / 2 - 1;
    raw[2 * last] as usize + raw[2 * last + 1] as usize
}

pub fn decode_indices(raw: &[u32]) -> (r: Vec<usize>)
    ensures
        r@.len() == raw@.len(),
        forall|i: int| 0 <= i < r@.len() ==> #[trigger] r@[i] == raw@[i] as usize,
{
    let mut out: Vec<usize> = Vec::new();
    let mut i: usize = 0;
    while i < raw.len()
        invariant
            i <= raw@.len(),
            out@.len() == i,
            forall|j: int| 0 <= j < i ==> #[trigger] out@[j] == raw@[j] as usize,
        decreases raw.len() - i,
    {
        out.push(raw[i] as usize);
        i += 1;
    }
    out
}

pub fn decode_orientations(raw: &[u8]) -> (r: Vec<Orientation>)
    ensures
        r@.len() == raw@.len(),
        forall|i: int| 0 <= i < r@.len() ==> #[trigger] r@[i] == orientation_from_code(raw@[i]),
{
    let mut out: Vec<Orientation> = Vec::new();
    let mut i: usize = 0;
    while i < raw.len()
        invariant
            i <= raw@.len(),
            out@.len() == i,
            forall|j: int| 0 <= j < i ==> #[trigger] out@[j] == orientation_from_code(raw@[j]),
        decreases raw.len() - i,
    {
        out.push(Orientation::from_ffi(raw[i]));
        i += 1;
    }
    out
}

pub fn decode_loop_roles(raw: &[u8]) -> (r: Vec<LoopRole>)
    ensures
        r@.len() == raw@.len(),
        forall|i: int| 0 <= i < r@.len() ==> #[trigger] r@[i] == loop_role_from_code(raw@[i]),
{
    let mut out: Vec<LoopRole> = Vec::new();
    let mut i: usize = 0;
    while i < raw.len()
        invariant
            i <= raw@.len(),
            out@.len() == i,
            forall|j: int| 0 <= j < i ==> #[trigger] out@[j] == loop_role_from_code(raw@[j]),
        decreases raw.len() - i,
    {
        out.push(LoopRole::from_ffi(raw[i]));
        i += 1;
    }
    out
}

/// The vertices of each of `edge_count` edges, read from (start, end) pairs.
pub fn decode_edge_vertices(raw: &[u32], edge_count: usize) -> (r: Vec<TopologyEdgeVertices>)
    requires
        raw@.len() >= 2 * edge_count,
    ensures
        r@.len() == edge_count,
        forall|i: int|
            0 <= i < edge_count ==> #[trigger] r@[i] == (TopologyEdgeVertices {
                start_vertex: spec_optional_index(raw@[2 * i]),
                end_vertex: spec_optional_index(raw@[2 * i + 1]),
            }),
{
    let mut out: Vec<TopologyEdgeVertices> = Vec::new();
    let mut i: usize = 0;
    while i < edge_count
        invariant
            raw@.len() >= 2 * edge_count,
            2 * edge_count <= raw.len(),
            i <= edge_count,
            out@.len() == i,
            forall|j: int|
                0 <= j < i ==> #[trigger] out@[j] == (TopologyEdgeVertices {
                    start_vertex: spec_optional_index(raw@[2 * j]),
                    end_vertex: spec_optional_index(raw@[2 * j + 1]),
                }),
        decreases edge_count - i,
    {
        out.push(
            TopologyEdgeVertices {
                start_vertex: optional_index(raw[2 * i]),
                end_vertex: optional_index(raw[2 * i + 1]),
            },
        );
        i += 1;
    }
    out
}

/// The index arrays of a topology snapshot as the kernel's C interface hands
/// them over: (offset, count) pairs for each range table, `u32` indices and
/// `u8` codes. The vertex positions and edge lengths are not among them.
pub struct RawTopology {
    pub vertex_count: usize,
    pub edge_count: usize,
    pub edge_vertex_indices: Vec<u32>,
    pub edge_face_ranges: Vec<u32>,
    pub edge_face_indices: Vec<u32>,
    pub wire_ranges: Vec<u32>,
    pub wire_edge_indices: Vec<u32>,
    pub wire_edge_orientations: Vec<u8>,
    pub wire_vertex_ranges: Vec<u32>,
    pub wire_vertex_indices: Vec<u32>,
    pub face_ranges: Vec<u32>,
    pub face_wire_indices: Vec<u32>,
    pub face_wire_orientations: Vec<u8>,
    pub face_wire_roles: Vec<u8>,
}

/// The ranges that a raw range table encodes.
pub open spec fn spec_decoded_ranges(raw: Seq<u32>) -> Seq<TopologyRange> {
    Seq::new(raw.len() / 2, |i: int| spec_decoded_range(raw, i))
}

/// The indices of a raw index array.
pub open spec fn spec_decoded_indices(raw: Seq<u32>) -> Seq<usize> {
    raw.map_values(|v: u32| v as usize)
}

/// The topology tables that the raw arrays encode.
pub fn decode_topology_tables(raw: &RawTopology) -> (r: TopologyTables)
    requires
        raw.edge_vertex_indices@.len() >= 2 * raw.edge_count,
    ensures
        r.vertex_count == raw.vertex_count,
        r.edges@.len() == raw.edge_count,
        forall|i: int|
            0 <= i < raw.edge_count ==> #[trigger] r.edges@[i] == (TopologyEdgeVertices {
                start_vertex: spec_optional_index(raw.edge_vertex_indices@[2 * i]),
                end_vertex: spec_optional_index(raw.edge_vertex_indices@[2 * i + 1]),
            }),
        r.edge_faces@ == spec_decoded_ranges(raw.edge_face_ranges@),
        r.edge_face_indices@ == spec_decoded_indices(raw.edge_face_indices@),
        r.wires@ == spec_decoded_ranges(raw.wire_ranges@),
        r.wire_edge_indices@ == spec_decoded_indices(raw.wire_edge_indices@),
        r.wire_edge_orientations@ == raw.wire_edge_orientations@.map_values(
            |c: u8| orientation_from_code(c),
        ),
        r.wire_vertices@ == spec_decoded_ranges(raw.wire_vertex_ranges@),
        r.wire_vertex_indices@ == spec_decoded_indices(raw.wire_vertex_indices@),
        r.faces@ == spec_decoded_ranges(raw.face_ranges@),
        r.face_wire_indices@ == spec_decoded_indices(raw.face_wire_indices@),
        r.face_wire_orientations@ == raw.face_wire_orientations@.map_values(
            |c: u8| orientation_from_code(c),
        ),
        r.face_wire_roles@ == raw.face_wire_roles@.map_values(|c: u8| loop_role_from_code(c)),
{
    let r = TopologyTables {
        vertex_count: raw.vertex_count,
        edges: decode_edge_vertices(raw.edge_vertex_indices.as_slice(), raw.edge_count),
        edge_faces: decode_ranges(raw.edge_face_ranges.as_slice()),
        edge_face_indices: decode_indices(raw.edge_face_indices.as_slice()),
        wires: decode_ranges(raw.wire_ranges.as_slice()),
        wire_edge_indices: decode_indices(raw.wire_edge_indices.as_slice()),
        wire_edge_orientations: decode_orientations(raw.wire_edge_orientations.as_slice()),
        wire_vertices: decode_ranges(raw.wire_vertex_ranges.as_slice()),
        wire_vertex_indices: decode_indices(raw.wire_vertex_indices.as_slice()),
        faces: decode_ranges(raw.face_ranges.as_slice()),
        face_wire_indices: decode_indices(raw.face_wire_indices.as_slice()),
        face_wire_orientations: decode_orientations(raw.face_wire_orientations.as_slice()),
        face_wire_roles: decode_loop_roles(raw.face_wire_roles.as_slice()),
    };
    assert(r.edge_faces@ =~= spec_decoded_ranges(raw.edge_face_ranges@));
    assert(r.edge_face_indices@ =~= spec_decoded_indices(raw.edge_face_indices@));
    assert(r.wires@ =~= spec_decoded_ranges(raw.wire_ranges@));
    assert(r.wire_edge_indices@ =~= spec_decoded_indices(raw.wire_edge_indices@));
    assert(r.wire_edge_orientations@ =~= raw.wire_edge_orientations@.map_values(
        |c: u8| orientation_from_code(c),
    ));
    assert(r.wire_vertices@ =~= spec_decoded_ranges(raw.wire_vertex_ranges@));
    assert(r.wire_vertex_indices@ =~= spec_decoded_indices(raw.wire_vertex_indices@));
    assert(r.faces@ =~= spec_decoded_ranges(raw.face_ranges@));
    assert(r.face_wire_indices@ =~= spec_decoded_indices(raw.face_wire_indices@));
    assert(r.face_wire_orientations@ =~= raw.face_wire_orientations@.map_values(
        |c: u8| orientation_from_code(c),
    ));
    assert(r.face_wire_roles@ =~= raw.face_wire_roles@.map_values(|c: u8| loop_role_from_code(c)));
    r
}

} // verus!
