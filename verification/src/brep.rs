//! The wires and face loops of a BRep, read out of a snapshot's tables.
use vstd::prelude::*;

use crate::error::{decimal, decimal_text, Error};
use crate::kinds::{LoopRole, Orientation, ShapeKind};
use crate::topology::{
    copy_range, flatten, is_packing_of, lemma_flatten_slot, lemma_recorded_edge_faces,
    packed_range, range_slice, recorded_edge_faces,
    range_within, strictly_increasing, wire_edge_lists, wire_orientation_lists,
    wire_vertex_lists, PackedWires, RootWireTopology, TopologyEdgeVertices, TopologyRange,
    TopologyTables,
};

verus! {

/// A wire of a BRep: its position, edges, their orientations, and the
/// vertices it passes through.
#[derive(Clone, Debug)]
pub struct BrepWire {
    pub index: usize,
    pub edge_indices: Vec<usize>,
    pub edge_orientations: Vec<Orientation>,
    pub vertex_indices: Vec<usize>,
}

/// One boundary loop of a face: the wire, how the face uses it, and its role.
#[derive(Clone, Copy, Debug, PartialEq, Eq, Structural)]
pub struct BrepFaceLoop {
    pub wire_index: usize,
    pub orientation: Orientation,
    pub role: LoopRole,
}

/// An error whose message is `prefix` followed by the decimal text of `index`.
pub fn indexed_error(prefix: &str, index: usize) -> (r: Error)
    ensures
        r@ == prefix@ + decimal(index as nat),
{
    let mut s = String::from_str(prefix);
    let digits = decimal_text(index);
    s.append(digits.as_str());
    Error::new(s)
}

// ---------------------------------------------------------------------------
// Wires.
// ---------------------------------------------------------------------------

/// Every wire's edge range lies in the edge and orientation arrays, and its
/// vertex range in the vertex array.
pub open spec fn wire_tables_in_bounds(t: TopologyTables) -> bool {
    &&& t.wire_vertices@.len() >= t.wires@.len()
    &&& forall|i: int|
        0 <= i < t.wires@.len() ==> range_within(#[trigger] t.wires@[i], t.wire_edge_indices@.len())
            && range_within(t.wires@[i], t.wire_edge_orientations@.len())
    &&& forall|i: int|
        0 <= i < t.wires@.len() ==> range_within(
            #[trigger] t.wire_vertices@[i],
            t.wire_vertex_indices@.len(),
        )
}

/// Wire `i` as the tables hold it.
pub open spec fn table_wire(t: TopologyTables, i: int) -> (Seq<usize>, Seq<Orientation>, Seq<usize>) {
    (
        range_slice(t.wire_edge_indices@, t.wires@[i]),
        range_slice(t.wire_edge_orientations@, t.wires@[i]),
        range_slice(t.wire_vertex_indices@, t.wire_vertices@[i]),
    )
}

/// Reads every wire out of the tables, in order.
pub fn ported_brep_wires(topology: &TopologyTables) -> (r: Vec<BrepWire>)
    requires
        wire_tables_in_bounds(*topology),
    ensures
        r@.len() == topology.wires@.len(),
        forall|i: int|
            0 <= i < r@.len() ==> (#[trigger] r@[i]).index == i && (
            r@[i].edge_indices@,
            r@[i].edge_orientations@,
            r@[i].vertex_indices@,
            ) == table_wire(*topology, i),
{
    let mut out: Vec<BrepWire> = Vec::new();
    let mut i: usize = 0;
    while i < topology.wires.len()
        invariant
            wire_tables_in_bounds(*topology),
            i <= topology.wires@.len(),
            out@.len() == i,
            forall|j: int|
                0 <= j < i ==> (#[trigger] out@[j]).index == j && (
                out@[j].edge_indices@,
                out@[j].edge_orientations@,
                out@[j].vertex_indices@,
                ) == table_wire(*topology, j),
        decreases topology.wires.len() - i,
    {
        let range = topology.wires[i];
        let vertex_range = topology.wire_vertices[i];
        let edge_indices = copy_range(&topology.wire_edge_indices, range);
        let edge_orientations = copy_range(&topology.wire_edge_orientations, range);
        let vertex_indices = copy_range(&topology.wire_vertex_indices, vertex_range);
        out.push(BrepWire { index: i, edge_indices, edge_orientations, vertex_indices });
        i += 1;
    }
    out
}

/// The wire tables of `t` are the packing of `ws`.
pub open spec fn tables_pack(t: TopologyTables, ws: Seq<RootWireTopology>) -> bool {
    is_packing_of(
        PackedWires {
            wires: t.wires,
            wire_edge_indices: t.wire_edge_indices,
            wire_edge_orientations: t.wire_edge_orientations,
            wire_vertices: t.wire_vertices,
            wire_vertex_indices: t.wire_vertex_indices,
        },
        ws,
    )
}

/// Packing wires and reading them back gives the same wires: where a
/// snapshot's wire tables are the packing of `ws` (as `pack_wire_topology`
/// makes them) and each wire has as many orientations as edges, the tables
/// are in bounds and wire `i` reads back as `ws[i]`.
pub proof fn lemma_packed_wires_read_back(t: TopologyTables, ws: Seq<RootWireTopology>)
    requires
        tables_pack(t, ws),
        forall|i: int|
            0 <= i < ws.len() ==> (#[trigger] ws[i]).edge_orientations@.len()
                == ws[i].edge_indices@.len(),
        forall|i: int|
            0 <= i < ws.len() ==> (#[trigger] ws[i]).edge_indices@.len() <= usize::MAX
                && ws[i].vertex_indices@.len() <= usize::MAX,
        flatten(wire_edge_lists(ws)).len() <= usize::MAX,
        flatten(wire_vertex_lists(ws)).len() <= usize::MAX,
    ensures
        wire_tables_in_bounds(t),
        forall|i: int|
            0 <= i < ws.len() ==> #[trigger] table_wire(t, i) == (
                ws[i].edge_indices@,
                ws[i].edge_orientations@,
                ws[i].vertex_indices@,
            ),
{
    let el = wire_edge_lists(ws);
    let ol = wire_orientation_lists(ws);
    let vl = wire_vertex_lists(ws);
    assert forall|i: int| 0 <= i < ws.len() implies {
        &&& range_within(#[trigger] t.wires@[i], t.wire_edge_indices@.len())
        &&& range_within(t.wires@[i], t.wire_edge_orientations@.len())
        &&& range_within(t.wire_vertices@[i], t.wire_vertex_indices@.len())
        &&& table_wire(t, i) == (ws[i].edge_indices@, ws[i].edge_orientations@, ws[i].vertex_indices@)
    } by {
        lemma_flatten_slot(el, i);
        lemma_flatten_slot(ol, i);
        lemma_flatten_slot(vl, i);
        assert(el[i] == ws[i].edge_indices@);
        assert(ol[i] == ws[i].edge_orientations@);
        assert(vl[i] == ws[i].vertex_indices@);
        lemma_flatten_offsets_agree(el, ol, i);
        assert(t.wires@[i] == packed_range(el, i));
        assert(t.wire_vertices@[i] == packed_range(vl, i));
    }
    assert forall|i: int| 0 <= i < t.wires@.len() implies range_within(
        #[trigger] t.wire_vertices@[i],
        t.wire_vertex_indices@.len(),
    ) by {
        assert(range_within(t.wires@[i], t.wire_edge_indices@.len()));
    }
}

/// Two families of lists with the same lengths list by list pack to the same
/// offsets.
pub proof fn lemma_flatten_offsets_agree<A, B>(a: Seq<Seq<A>>, b: Seq<Seq<B>>, i: int)
    requires
        a.len() == b.len(),
        0 <= i <= a.len(),
        forall|j: int| 0 <= j < a.len() ==> (#[trigger] a[j]).len() == b[j].len(),
    ensures
        flatten(a.take(i)).len() == flatten(b.take(i)).len(),
    decreases i,
{
    if i > 0 {
        lemma_flatten_offsets_agree(a, b, i - 1);
        assert(a.take(i).drop_last() =~= a.take(i - 1));
        assert(b.take(i).drop_last() =~= b.take(i - 1));
    }
}


// ---------------------------------------------------------------------------
// Face loops.
// ---------------------------------------------------------------------------

/// The loop recorded at position `o` of the face-wire arrays.
pub open spec fn loop_at(t: TopologyTables, o: int) -> BrepFaceLoop {
    BrepFaceLoop {
        wire_index: t.face_wire_indices@[o],
        orientation: t.face_wire_orientations@[o],
        role: t.face_wire_roles@[o],
    }
}

pub open spec fn min_nat(a: nat, b: nat) -> nat {
    if a <= b {
        a
    } else {
        b
    }
}

/// How many positions all three face-wire arrays have.
pub open spec fn loop_entries(t: TopologyTables) -> nat {
    min_nat(
        min_nat(t.face_wire_indices@.len(), t.face_wire_orientations@.len()),
        t.face_wire_roles@.len(),
    )
}

/// The loops of face `f`, or the message of the first lookup that fails: the
/// face's range, then, position by position, its wire, orientation and role.
pub open spec fn spec_face_loops(t: TopologyTables, f: usize) -> Result<Seq<BrepFaceLoop>, Seq<char>> {
    if f >= t.faces@.len() {
        Err("topology is missing face range "@ + decimal(f as nat))
    } else {
        let r = t.faces@[f as int];
        let m = loop_entries(t);
        if r.count == 0 || r.offset + r.count <= m {
            Ok(Seq::new(r.count as nat, |k: int| loop_at(t, r.offset + k)))
        } else {
            let o: nat = if r.offset >= m {
                r.offset as nat
            } else {
                m
            };
            if o >= t.face_wire_indices@.len() {
                Err("topology is missing face-wire index "@ + decimal(o))
            } else if o >= t.face_wire_orientations@.len() {
                Err("topology is missing face-wire orientation "@ + decimal(o))
            } else {
                Err("topology is missing face-wire role "@ + decimal(o))
            }
        }
    }
}

/// Reads the loops of face `face_index` out of the tables.
pub fn face_loops(topology: &TopologyTables, face_index: usize) -> (r: Result<
    Vec<BrepFaceLoop>,
    Error,
>)
    requires
        face_index < topology.faces@.len() ==> topology.faces@[face_index as int].offset
            + topology.faces@[face_index as int].count <= usize::MAX,
    ensures
        match r {
            Ok(loops) => spec_face_loops(*topology, face_index) == Ok::<
                Seq<BrepFaceLoop>,
                Seq<char>,
            >(loops@),
            Err(e) => spec_face_loops(*topology, face_index) == Err::<Seq<BrepFaceLoop>, Seq<char>>(
                e@,
            ),
        },
{
    if face_index >= topology.faces.len() {
        return Err(indexed_error("topology is missing face range ", face_index));
    }
    let range = topology.faces[face_index];
    let ghost m = loop_entries(*topology);
    let mut loops: Vec<BrepFaceLoop> = Vec::new();
    let mut offset = range.offset;
    let end = range.offset + range.count;
    while offset < end
        invariant
            range == topology.faces@[face_index as int],
            face_index < topology.faces@.len(),
            m == loop_entries(*topology),
            end == range.offset + range.count,
            range.offset <= offset <= end,
            offset > range.offset ==> offset <= m,
            loops@ =~= Seq::new(
                (offset - range.offset) as nat,
                |k: int| loop_at(*topology, range.offset + k),
            ),
        decreases end - offset,
    {
        if offset >= topology.face_wire_indices.len() {
            return Err(indexed_error("topology is missing face-wire index ", offset));
        }
        if offset >= topology.face_wire_orientations.len() {
            return Err(indexed_error("topology is missing face-wire orientation ", offset));
        }
        if offset >= topology.face_wire_roles.len() {
            return Err(indexed_error("topology is missing face-wire role ", offset));
        }
        loops.push(
            BrepFaceLoop {
                wire_index: topology.face_wire_indices[offset],
                orientation: topology.face_wire_orientations[offset],
                role: topology.face_wire_roles[offset],
            },
        );
        offset += 1;
    }
    Ok(loops)
}

// ---------------------------------------------------------------------------
// Adjacency.
// ---------------------------------------------------------------------------

/// Every edge's face range lies inside the edge-face array.
pub open spec fn edge_face_ranges_in_bounds(t: TopologyTables) -> bool {
    forall|e: int|
        0 <= e < t.edge_faces@.len() ==> range_within(
            #[trigger] t.edge_faces@[e],
            t.edge_face_indices@.len(),
        )
}

/// The faces that edge `e` bounds, as the tables hold them.
pub open spec fn edge_face_list(t: TopologyTables, e: int) -> Seq<usize> {
    range_slice(t.edge_face_indices@, t.edge_faces@[e])
}

/// The faces that edge `edge_index` bounds.
pub fn adjacent_face_indices(topology: &TopologyTables, edge_index: usize) -> (r: Result<
    Vec<usize>,
    Error,
>)
    requires
        edge_index < topology.edge_faces@.len() ==> range_within(
            topology.edge_faces@[edge_index as int],
            topology.edge_face_indices@.len(),
        ),
    ensures
        r is Err <==> edge_index >= topology.edge_faces@.len(),
        r matches Ok(v) ==> v@ == edge_face_list(*topology, edge_index as int),
        r matches Err(e) ==> e@ == "topology is missing edge-face range "@ + decimal(
            edge_index as nat,
        ),
{
    if edge_index >= topology.edge_faces.len() {
        return Err(indexed_error("topology is missing edge-face range ", edge_index));
    }
    let range = topology.edge_faces[edge_index];
    Ok(copy_range(&topology.edge_face_indices, range))
}

/// How many sub-shapes of `kind` the tables list, for the kinds they list.
pub open spec fn spec_topology_count(t: TopologyTables, kind: ShapeKind) -> Option<usize> {
    match kind {
        ShapeKind::Face => Some(t.faces@.len() as usize),
        ShapeKind::Wire => Some(t.wires@.len() as usize),
        ShapeKind::Edge => Some(t.edges@.len() as usize),
        ShapeKind::Vertex => Some(t.vertex_count),
        _ => None,
    }
}

/// The number of faces, wires, edges or vertices in the tables; no number
/// for the other kinds.
pub fn topology_backed_subshape_count(topology: &TopologyTables, kind: ShapeKind) -> (r: Option<
    usize,
>)
    ensures
        r == spec_topology_count(*topology, kind),
{
    match kind {
        ShapeKind::Face => Some(topology.faces.len()),
        ShapeKind::Wire => Some(topology.wires.len()),
        ShapeKind::Edge => Some(topology.edges.len()),
        ShapeKind::Vertex => Some(topology.vertex_count),
        _ => None,
    }
}


/// Adds `x` to a set of values kept in increasing order.
pub fn insert_sorted(set: &mut Vec<usize>, x: usize)
    requires
        strictly_increasing(old(set)@),
    ensures
        strictly_increasing(final(set)@),
        forall|c: usize| final(set)@.contains(c) <==> (old(set)@.contains(c) || c == x),
{
    let mut p: usize = 0;
    while p < set.len() && set[p] < x
        invariant
            p <= set@.len(),
            set@ == old(set)@,
            strictly_increasing(set@),
            forall|i: int| 0 <= i < p ==> #[trigger] set@[i] < x,
        decreases set.len() - p,
    {
        p += 1;
    }
    if p < set.len() && set[p] == x {
        assert(set@[p as int] == x);
        return;
    }
    let ghost before = set@;
    set.insert(p, x);
    proof {
        assert forall|i: int, j: int| 0 <= i < j < set@.len() implies (#[trigger] set@[i])
            < #[trigger] set@[j] by {
            if j < p {
            } else if j == p {
            } else if i < p {
                assert(set@[j] == before[j - 1]);
                if p < before.len() {
                    assert(before[p as int] >= x);
                    assert(before[p as int] != x);
                    if j - 1 > p {
                        assert(before[p as int] < before[j - 1]);
                    }
                }
            } else if i == p {
                assert(set@[j] == before[j - 1]);
                assert(before[p as int] > x);
                if j - 1 > p {
                    assert(before[p as int] < before[j - 1]);
                }
            } else {
                assert(set@[i] == before[i - 1]);
                assert(set@[j] == before[j - 1]);
            }
        }
        assert(before == old(set)@);
        assert forall|c: usize| #[trigger] set@.contains(c) <==> (before.contains(c) || c == x) by {
            if set@.contains(c) {
                let i = choose|i: int| 0 <= i < set@.len() && set@[i] == c;
                if i < p {
                    assert(before[i] == c);
                } else if i > p {
                    assert(before[i - 1] == c);
                }
            }
            if before.contains(c) {
                let i = choose|i: int| 0 <= i < before.len() && before[i] == c;
                if i < p {
                    assert(set@[i] == c);
                } else {
                    assert(set@[i + 1] == c);
                }
            }
            if c == x {
                assert(set@[p as int] == x);
            }
        }
    }
}

/// The first edge of `edges` that has no face range in the tables.
pub open spec fn first_missing_edge(t: TopologyTables, edges: Seq<usize>) -> Option<usize>
    decreases edges.len(),
{
    if edges.len() == 0 {
        None
    } else if edges[0] >= t.edge_faces@.len() {
        Some(edges[0])
    } else {
        first_missing_edge(t, edges.drop_first())
    }
}

/// The message of the first lookup that fails while walking the loops: each
/// loop's wire, then each edge of that wire.
pub open spec fn adjacency_failure(
    t: TopologyTables,
    wires: Seq<BrepWire>,
    loops: Seq<BrepFaceLoop>,
) -> Option<Seq<char>>
    decreases loops.len(),
{
    if loops.len() == 0 {
        None
    } else if loops[0].wire_index >= wires.len() {
        Some("topology is missing wire index "@ + decimal(loops[0].wire_index as nat))
    } else {
        match first_missing_edge(t, wires[loops[0].wire_index as int].edge_indices@) {
            Some(e) => Some("topology is missing edge-face range "@ + decimal(e as nat)),
            None => adjacency_failure(t, wires, loops.drop_first()),
        }
    }
}

/// Face `c` is another face than `f` and shares edge `e`.
pub open spec fn edge_contributes(t: TopologyTables, e: usize, f: usize, c: usize) -> bool {
    c != f && edge_face_list(t, e as int).contains(c)
}

/// Face `c` is another face than `f` and shares an edge of the loop's wire.
pub open spec fn loop_contributes(
    t: TopologyTables,
    wires: Seq<BrepWire>,
    l: BrepFaceLoop,
    f: usize,
    c: usize,
) -> bool {
    exists|k: int|
        0 <= k < wires[l.wire_index as int].edge_indices@.len() && edge_contributes(
            t,
            #[trigger] wires[l.wire_index as int].edge_indices@[k],
            f,
            c,
        )
}

/// The faces next to face `f`: every other face that shares an edge of one
/// of its loops, in increasing order; or the message of the first lookup
/// that fails.
pub open spec fn is_adjacent_face(
    t: TopologyTables,
    wires: Seq<BrepWire>,
    loops: Seq<BrepFaceLoop>,
    f: usize,
    c: usize,
) -> bool {
    exists|li: int| 0 <= li < loops.len() && loop_contributes(t, wires, #[trigger] loops[li], f, c)
}

proof fn lemma_missing_edge_skip(t: TopologyTables, edges: Seq<usize>, k: int)
    requires
        0 <= k < edges.len(),
        edges[k] < t.edge_faces@.len(),
        first_missing_edge(t, edges) == first_missing_edge(t, edges.skip(k)),
    ensures
        first_missing_edge(t, edges) == first_missing_edge(t, edges.skip(k + 1)),
{
    assert(edges.skip(k).drop_first() =~= edges.skip(k + 1));
}

proof fn lemma_missing_edge_found(t: TopologyTables, edges: Seq<usize>, k: int)
    requires
        0 <= k < edges.len(),
        edges[k] >= t.edge_faces@.len(),
        first_missing_edge(t, edges) == first_missing_edge(t, edges.skip(k)),
    ensures
        first_missing_edge(t, edges) == Some(edges[k]),
{
}

proof fn lemma_failure_skip(t: TopologyTables, wires: Seq<BrepWire>, loops: Seq<BrepFaceLoop>, li: int)
    requires
        0 <= li < loops.len(),
        loops[li].wire_index < wires.len(),
        first_missing_edge(t, wires[loops[li].wire_index as int].edge_indices@) is None,
        adjacency_failure(t, wires, loops) == adjacency_failure(t, wires, loops.skip(li)),
    ensures
        adjacency_failure(t, wires, loops) == adjacency_failure(t, wires, loops.skip(li + 1)),
{
    assert(loops.skip(li).drop_first() =~= loops.skip(li + 1));
    assert(loops.skip(li)[0] == loops[li]);
}

/// The faces that share an edge with face `face_index`, in increasing order.
pub fn face_adjacent_face_indices(
    topology: &TopologyTables,
    wires: &[BrepWire],
    face_index: usize,
) -> (r: Result<Vec<usize>, Error>)
    requires
        face_index < topology.faces@.len() ==> topology.faces@[face_index as int].offset
            + topology.faces@[face_index as int].count <= usize::MAX,
        edge_face_ranges_in_bounds(*topology),
    ensures
        match spec_face_loops(*topology, face_index) {
            Err(m) => r matches Err(e) && e@ == m,
            Ok(loops) => match adjacency_failure(*topology, wires@, loops) {
                Some(m) => r matches Err(e) && e@ == m,
                None => r matches Ok(v) && strictly_increasing(v@) && forall|c: usize|
                    v@.contains(c) <==> is_adjacent_face(*topology, wires@, loops, face_index, c),
            },
        },
{
    let loops = match face_loops(topology, face_index) {
        Ok(loops) => loops,
        Err(e) => return Err(e),
    };
    let ghost ls = loops@;
    let ghost t = *topology;
    let mut adjacent: Vec<usize> = Vec::new();
    proof {
        assert(ls.skip(0) =~= ls);
    }
    let mut li: usize = 0;
    while li < loops.len()
        invariant
            t == *topology,
            edge_face_ranges_in_bounds(t),
            ls == loops@,
            spec_face_loops(t, face_index) == Ok::<Seq<BrepFaceLoop>, Seq<char>>(ls),
            li <= ls.len(),
            adjacency_failure(t, wires@, ls) == adjacency_failure(t, wires@, ls.skip(li as int)),
            strictly_increasing(adjacent@),
            forall|c: usize|
                adjacent@.contains(c) <==> exists|lj: int|
                    0 <= lj < li && loop_contributes(t, wires@, #[trigger] ls[lj], face_index, c),
        decreases loops.len() - li,
    {
        let face_loop = loops[li];
        proof {
            assert(ls.skip(li as int)[0] == face_loop);
        }
        if face_loop.wire_index >= wires.len() {
            return Err(indexed_error("topology is missing wire index ", face_loop.wire_index));
        }
        let wire = &wires[face_loop.wire_index];
        let ghost edges = wire.edge_indices@;
        proof {
            assert(edges.skip(0) =~= edges);
        }
        let mut k: usize = 0;
        while k < wire.edge_indices.len()
            invariant
                t == *topology,
                edge_face_ranges_in_bounds(t),
                ls == loops@,
                spec_face_loops(t, face_index) == Ok::<Seq<BrepFaceLoop>, Seq<char>>(ls),
                li < ls.len(),
                face_loop == ls[li as int],
                face_loop.wire_index < wires@.len(),
                *wire == wires@[face_loop.wire_index as int],
                edges == wire.edge_indices@,
                k <= edges.len(),
                adjacency_failure(t, wires@, ls) == adjacency_failure(t, wires@, ls.skip(li as int)),
                first_missing_edge(t, edges) == first_missing_edge(t, edges.skip(k as int)),
                strictly_increasing(adjacent@),
                forall|c: usize|
                    adjacent@.contains(c) <==> (exists|lj: int|
                        0 <= lj < li && loop_contributes(t, wires@, #[trigger] ls[lj], face_index, c))
                        || exists|kk: int|
                        0 <= kk < k && edge_contributes(t, #[trigger] edges[kk], face_index, c),
            decreases edges.len() - k,
        {
            let edge_index = wire.edge_indices[k];
            if edge_index >= topology.edge_faces.len() {
                proof {
                    lemma_missing_edge_found(t, edges, k as int);
                }
                return Err(indexed_error("topology is missing edge-face range ", edge_index));
            }
            let range = topology.edge_faces[edge_index];
            proof {
                assert(range_within(t.edge_faces@[edge_index as int], t.edge_face_indices@.len()));
                assert(t.edge_face_indices@.len() == topology.edge_face_indices.len());
            }
            let ghost list = edge_face_list(t, edge_index as int);
            let mut j: usize = range.offset;
            let end = range.offset + range.count;
            while j < end
                invariant
                    t == *topology,
                    edge_index < t.edge_faces@.len(),
                    range == t.edge_faces@[edge_index as int],
                    range_within(range, t.edge_face_indices@.len()),
                    end == range.offset + range.count,
                    range.offset <= j <= end,
                    list == edge_face_list(t, edge_index as int),
                    strictly_increasing(adjacent@),
                    forall|c: usize|
                        adjacent@.contains(c) <==> (exists|lj: int|
                            0 <= lj < li && loop_contributes(
                                t,
                                wires@,
                                #[trigger] ls[lj],
                                face_index,
                                c,
                            )) || (exists|kk: int|
                            0 <= kk < k && edge_contributes(t, #[trigger] edges[kk], face_index, c))
                            || (c != face_index && exists|jj: int|
                            0 <= jj < j - range.offset && #[trigger] list[jj] == c),
                decreases end - j,
            {
                let candidate = topology.edge_face_indices[j];
                proof {
                    assert(list[j - range.offset] == candidate);
                }
                if candidate != face_index {
                    insert_sorted(&mut adjacent, candidate);
                }
                j += 1;
            }
            proof {
                assert forall|c: usize|
                    (c != face_index && exists|jj: int|
                        0 <= jj < j - range.offset && #[trigger] list[jj] == c) <==> edge_contributes(
                        t,
                        edge_index,
                        face_index,
                        c,
                    ) by {
                    if edge_contributes(t, edge_index, face_index, c) {
                        let jj = choose|jj: int| 0 <= jj < list.len() && list[jj] == c;
                        assert(list[jj] == c);
                    }
                }
                assert forall|c: usize|
                    (exists|kk: int|
                        0 <= kk < k + 1 && edge_contributes(t, #[trigger] edges[kk], face_index, c))
                        <==> ((exists|kk: int|
                        0 <= kk < k && edge_contributes(t, #[trigger] edges[kk], face_index, c))
                        || edge_contributes(t, edge_index, face_index, c)) by {
                    if edge_contributes(t, edge_index, face_index, c) {
                        assert(edges[k as int] == edge_index);
                    }
                }
                lemma_missing_edge_skip(t, edges, k as int);
            }
            k += 1;
        }
        proof {
            assert(edges.skip(k as int) =~= Seq::<usize>::empty());
            assert(first_missing_edge(t, edges) is None);
            lemma_failure_skip(t, wires@, ls, li as int);
            assert forall|c: usize|
                (exists|lj: int|
                    0 <= lj < li + 1 && loop_contributes(t, wires@, #[trigger] ls[lj], face_index, c))
                    <==> ((exists|lj: int|
                    0 <= lj < li && loop_contributes(t, wires@, #[trigger] ls[lj], face_index, c))
                    || loop_contributes(t, wires@, face_loop, face_index, c)) by {
                if loop_contributes(t, wires@, face_loop, face_index, c) {
                    assert(ls[li as int] == face_loop);
                }
            }
        }
        li += 1;
    }
    proof {
        assert(ls.skip(li as int) =~= Seq::<BrepFaceLoop>::empty());
    }
    Ok(adjacent)
}


// ---------------------------------------------------------------------------
// Loop roles of a face.
// ---------------------------------------------------------------------------

/// The wire of the first outer loop, if the face has one.
pub open spec fn spec_outer_wire(loops: Seq<BrepFaceLoop>) -> Option<usize>
    decreases loops.len(),
{
    if loops.len() == 0 {
        None
    } else if loops[0].role == LoopRole::Outer {
        Some(loops[0].wire_index)
    } else {
        spec_outer_wire(loops.drop_first())
    }
}

/// How many of the loops are inner loops.
pub open spec fn spec_inner_count(loops: Seq<BrepFaceLoop>) -> nat
    decreases loops.len(),
{
    if loops.len() == 0 {
        0
    } else {
        spec_inner_count(loops.drop_last()) + if loops.last().role == LoopRole::Inner {
            1nat
        } else {
            0nat
        }
    }
}

/// The wire of a face's first outer loop.
pub fn outer_wire_index(loops: &[BrepFaceLoop]) -> (r: Option<usize>)
    ensures
        r == spec_outer_wire(loops@),
{
    let mut k: usize = 0;
    proof {
        assert(loops@.skip(0) =~= loops@);
    }
    while k < loops.len()
        invariant
            k <= loops@.len(),
            spec_outer_wire(loops@) == spec_outer_wire(loops@.skip(k as int)),
        decreases loops.len() - k,
    {
        assert(loops@.skip(k as int)[0] == loops@[k as int]);
        if loops[k].role == LoopRole::Outer {
            return Some(loops[k].wire_index);
        }
        assert(loops@.skip(k as int).drop_first() =~= loops@.skip(k + 1));
        k += 1;
    }
    proof {
        assert(loops@.skip(k as int) =~= Seq::<BrepFaceLoop>::empty());
    }
    None
}

/// How many of a face's loops are inner loops.
pub fn inner_wire_count(loops: &[BrepFaceLoop]) -> (r: usize)
    ensures
        r == spec_inner_count(loops@),
{
    let mut count: usize = 0;
    let mut k: usize = 0;
    while k < loops.len()
        invariant
            k <= loops@.len(),
            count <= k,
            count == spec_inner_count(loops@.take(k as int)),
        decreases loops.len() - k,
    {
        assert(loops@.take(k + 1).drop_last() =~= loops@.take(k as int));
        if loops[k].role == LoopRole::Inner {
            count += 1;
        }
        k += 1;
    }
    assert(loops@.take(k as int) =~= loops@);
    count
}


// ---------------------------------------------------------------------------
// Laws: what the builders write, the readers read back.
// ---------------------------------------------------------------------------

/// Packing each edge's face list (as `flatten_edge_face_lists` does) and
/// reading an edge's faces back gives that edge's list.
pub proof fn lemma_edge_faces_read_back(t: TopologyTables, lists: Seq<Seq<usize>>)
    requires
        t.edge_faces@.len() == lists.len(),
        forall|i: int| 0 <= i < lists.len() ==> #[trigger] t.edge_faces@[i] == packed_range(lists, i),
        t.edge_face_indices@ == flatten(lists),
        forall|i: int| 0 <= i < lists.len() ==> (#[trigger] lists[i]).len() <= usize::MAX,
        flatten(lists).len() <= usize::MAX,
    ensures
        edge_face_ranges_in_bounds(t),
        forall|e: int| 0 <= e < lists.len() ==> #[trigger] edge_face_list(t, e) == lists[e],
{
    assert forall|e: int| 0 <= e < lists.len() implies range_within(
        #[trigger] t.edge_faces@[e],
        t.edge_face_indices@.len(),
    ) && edge_face_list(t, e) == lists[e] by {
        lemma_flatten_slot(lists, e);
    }
}

/// The loops of a face recorded after others (as `append_prepared_face_topology`
/// records them) read back as the wires, orientations and roles it was given.
pub proof fn lemma_appended_face_loops_read_back(
    t: TopologyTables,
    f: usize,
    prefix_wires: Seq<usize>,
    prefix_orientations: Seq<Orientation>,
    prefix_roles: Seq<LoopRole>,
    wires: Seq<usize>,
    orientations: Seq<Orientation>,
    roles: Seq<LoopRole>,
)
    requires
        prefix_wires.len() == prefix_orientations.len(),
        prefix_wires.len() == prefix_roles.len(),
        wires.len() == orientations.len(),
        wires.len() == roles.len(),
        prefix_wires.len() + wires.len() <= usize::MAX,
        t.face_wire_indices@ == prefix_wires + wires,
        t.face_wire_orientations@ == prefix_orientations + orientations,
        t.face_wire_roles@ == prefix_roles + roles,
        f < t.faces@.len(),
        t.faces@[f as int] == (TopologyRange {
            offset: prefix_wires.len() as usize,
            count: wires.len() as usize,
        }),
    ensures
        spec_face_loops(t, f) == Ok::<Seq<BrepFaceLoop>, Seq<char>>(
            Seq::new(
                wires.len(),
                |k: int| BrepFaceLoop { wire_index: wires[k], orientation: orientations[k], role: roles[k] },
            ),
        ),
{
    let n = wires.len();
    let p = prefix_wires.len();
    assert(loop_entries(t) == p + n);
    let expected = Seq::new(
        n,
        |k: int| BrepFaceLoop { wire_index: wires[k], orientation: orientations[k], role: roles[k] },
    );
    assert(Seq::new(n, |k: int| loop_at(t, p + k)) =~= expected);
}

/// The vertices of edge `index`, as the tables hold them.
pub fn topology_edge(topology: &TopologyTables, index: usize) -> (r: Result<
    TopologyEdgeVertices,
    Error,
>)
    ensures
        index < topology.edges@.len() ==> r == Ok::<TopologyEdgeVertices, Error>(
            topology.edges@[index as int],
        ),
        index >= topology.edges@.len() ==> (r matches Err(e) && e@ == "topology is missing edge index "@
            + decimal(index as nat)),
{
    if index < topology.edges.len() {
        Ok(topology.edges[index])
    } else {
        Err(indexed_error("topology is missing edge index ", index))
    }
}

/// A vertex index that names one of the tables' vertices, if it does.
pub open spec fn spec_present_vertex(t: TopologyTables, v: Option<usize>) -> Option<usize> {
    match v {
        Some(i) => if i < t.vertex_count {
            Some(i)
        } else {
            None
        },
        None => None,
    }
}

/// The vertices whose positions give the end points of edge `edge_index`:
/// each end that is known and names one of the tables' vertices; none for
/// an edge the tables do not hold.
pub fn edge_point_vertices(topology: &TopologyTables, edge_index: usize) -> (r: (
    Option<usize>,
    Option<usize>,
))
    ensures
        edge_index < topology.edges@.len() ==> r == (
            spec_present_vertex(*topology, topology.edges@[edge_index as int].start_vertex),
            spec_present_vertex(*topology, topology.edges@[edge_index as int].end_vertex),
        ),
        edge_index >= topology.edges@.len() ==> r == (None::<usize>, None::<usize>),
{
    if edge_index >= topology.edges.len() {
        return (None, None);
    }
    let edge = topology.edges[edge_index];
    let start = match edge.start_vertex {
        Some(i) => if i < topology.vertex_count {
            Some(i)
        } else {
            None
        },
        None => None,
    };
    let end = match edge.end_vertex {
        Some(i) => if i < topology.vertex_count {
            Some(i)
        } else {
            None
        },
        None => None,
    };
    (start, end)
}

/// Some loop of the face uses edge `e` through its wire.
pub open spec fn loops_use_edge(wires: Seq<BrepWire>, loops: Seq<BrepFaceLoop>, e: usize) -> bool {
    exists|li: int, k: int|
        0 <= li < loops.len() && 0 <= k < wires[loops[li].wire_index as int].edge_indices@.len()
            && (#[trigger] wires[loops[li].wire_index as int].edge_indices@[k]) == e
}

/// Faces are adjacent exactly when they share an edge: in tables whose edge
/// lists record, face after face, the edges each face uses (`used`), face
/// `c` is next to face `f`, whose loops use the edges `used[f]`, exactly
/// when it is another face that uses one of those edges. The relation is
/// therefore symmetric.
pub proof fn lemma_adjacency_is_shared_edges(
    t: TopologyTables,
    wires: Seq<BrepWire>,
    loops: Seq<BrepFaceLoop>,
    used: Seq<Seq<usize>>,
    f: usize,
    c: usize,
)
    requires
        used.len() <= usize::MAX + 1,
        f < used.len(),
        forall|e: int|
            0 <= e < t.edge_faces@.len() ==> #[trigger] edge_face_list(t, e) == recorded_edge_faces(
                t.edge_faces@.len() as nat,
                used,
            )[e],
        forall|li: int| 0 <= li < loops.len() ==> (#[trigger] loops[li]).wire_index < wires.len(),
        forall|e: usize| loops_use_edge(wires, loops, e) <==> #[trigger] used[f as int].contains(e),
        forall|e: usize| #[trigger] used[f as int].contains(e) ==> e < t.edge_faces@.len(),
    ensures
        is_adjacent_face(t, wires, loops, f, c) <==> (c != f && c < used.len() && exists|e: usize|
            #[trigger] used[f as int].contains(e) && used[c as int].contains(e)),
{
    let n = t.edge_faces@.len() as nat;
    lemma_recorded_edge_faces(n, used);
    if is_adjacent_face(t, wires, loops, f, c) {
        let li = choose|li: int| 0 <= li < loops.len() && loop_contributes(t, wires, #[trigger] loops[li], f, c);
        let w = wires[loops[li].wire_index as int];
        let k = choose|k: int|
            0 <= k < w.edge_indices@.len() && edge_contributes(t, #[trigger] w.edge_indices@[k], f, c);
        let e = w.edge_indices@[k];
        assert(loops_use_edge(wires, loops, e));
        assert(used[f as int].contains(e));
        assert(edge_face_list(t, e as int) == recorded_edge_faces(n, used)[e as int]);
        assert(recorded_edge_faces(n, used)[e as int].contains(c));
    }
    if c != f && c < used.len() && exists|e: usize|
        #[trigger] used[f as int].contains(e) && used[c as int].contains(e) {
        let e = choose|e: usize| #[trigger] used[f as int].contains(e) && used[c as int].contains(e);
        assert(loops_use_edge(wires, loops, e));
        let (li, k) = choose|li: int, k: int|
            0 <= li < loops.len() && 0 <= k < wires[loops[li].wire_index as int].edge_indices@.len()
                && (#[trigger] wires[loops[li].wire_index as int].edge_indices@[k]) == e;
        assert(edge_face_list(t, e as int) == recorded_edge_faces(n, used)[e as int]);
        assert(recorded_edge_faces(n, used)[e as int].contains(c));
        assert(edge_contributes(t, e, f, c));
        assert(loop_contributes(t, wires, loops[li], f, c));
    }
}

} // verus!
