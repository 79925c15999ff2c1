//! Flat topology tables: wires, face loops and edge-face adjacency packed
//! into index ranges over shared arrays, and the operations that write and
//! read them.
use vstd::prelude::*;

use crate::kinds::{LoopRole, Orientation};

verus! {

/// A run of `count` entries of a shared index array, starting at `offset`.
#[derive(Clone, Copy, Debug, PartialEq, Eq, Structural)]
pub struct TopologyRange {
    pub offset: usize,
    pub count: usize,
}

// ---------------------------------------------------------------------------
// Flattening lists into one array with ranges.
// ---------------------------------------------------------------------------

/// The lists one after the other.
pub open spec fn flatten<T>(lists: Seq<Seq<T>>) -> Seq<T>
    decreases lists.len(),
{
    if lists.len() == 0 {
        Seq::empty()
    } else {
        flatten(lists.drop_last()) + lists.last()
    }
}

/// Where list `i` starts in `flatten(lists)`.
pub open spec fn flat_offset<T>(lists: Seq<Seq<T>>, i: int) -> nat {
    flatten(lists.take(i)).len()
}

/// The range that list `i` occupies in `flatten(lists)`.
pub open spec fn packed_range<T>(lists: Seq<Seq<T>>, i: int) -> TopologyRange {
    TopologyRange { offset: flat_offset(lists, i) as usize, count: lists[i].len() as usize }
}

/// The entries of `array` that `range` covers.
pub open spec fn range_slice<T>(array: Seq<T>, range: TopologyRange) -> Seq<T> {
    array.subrange(range.offset as int, range.offset + range.count)
}

/// `range` lies inside an array of length `len`.
pub open spec fn range_within(range: TopologyRange, len: nat) -> bool {
    range.offset + range.count <= len
}

pub proof fn lemma_flatten_take_step<T>(lists: Seq<Seq<T>>, i: int)
    requires
        0 <= i < lists.len(),
    ensures
        flatten(lists.take(i + 1)) == flatten(lists.take(i)) + lists[i],
{
    assert(lists.take(i + 1).drop_last() =~= lists.take(i));
}

pub proof fn lemma_flatten_append<T>(a: Seq<Seq<T>>, b: Seq<Seq<T>>)
    ensures
        flatten(a + b) == flatten(a) + flatten(b),
    decreases b.len(),
{
    if b.len() == 0 {
        assert(a + b =~= a);
        assert(flatten(a) + flatten(b) =~= flatten(a));
    } else {
        lemma_flatten_append(a, b.drop_last());
        assert((a + b).drop_last() =~= a + b.drop_last());
        assert((a + b).last() == b.last());
        assert(flatten(a + b) =~= flatten(a) + flatten(b));
    }
}

/// List `i` is exactly the stretch of `flatten(lists)` that its packed range
/// covers.
pub proof fn lemma_flatten_slot<T>(lists: Seq<Seq<T>>, i: int)
    requires
        0 <= i < lists.len(),
    ensures
        flat_offset(lists, i) + lists[i].len() <= flatten(lists).len(),
        flatten(lists).subrange(
            flat_offset(lists, i) as int,
            (flat_offset(lists, i) + lists[i].len()) as int,
        ) == lists[i],
{
    let head = lists.take(i);
    let tail = lists.skip(i + 1);
    let one = seq![lists[i]];
    assert(lists =~= head + (one + tail));
    lemma_flatten_append(head, one + tail);
    lemma_flatten_append(one, tail);
    assert(one.drop_last() =~= Seq::<Seq<T>>::empty());
    assert(flatten(one.drop_last()) == Seq::<T>::empty());
    assert(flatten(one) == flatten(one.drop_last()) + one.last());
    assert(flatten(one) =~= lists[i]);
    let f = flatten(lists);
    assert(f =~= flatten(head) + (lists[i] + flatten(tail)));
    assert(f.subrange(flat_offset(lists, i) as int, (flat_offset(lists, i) + lists[i].len()) as int)
        =~= lists[i]);
}

/// Appends a copy of `src` to `dst`.
pub fn extend_copy<T: Copy>(dst: &mut Vec<T>, src: &[T])
    ensures
        final(dst)@ == old(dst)@ + src@,
{
    let mut k: usize = 0;
    let ghost start = dst@;
    while k < src.len()
        invariant
            k <= src@.len(),
            dst@ =~= start + src@.take(k as int),
        decreases src.len() - k,
    {
        dst.push(src[k]);
        assert(src@.take(k + 1) =~= src@.take(k as int).push(src@[k as int]));
        k += 1;
    }
    assert(src@.take(k as int) =~= src@);
}

// ---------------------------------------------------------------------------
// Wires.
// ---------------------------------------------------------------------------

/// A wire as an ordered chain: its edges, their orientations, and the
/// vertices it passes through.
#[derive(Clone, Debug, PartialEq, Eq)]
pub struct RootWireTopology {
    pub edge_indices: Vec<usize>,
    pub edge_orientations: Vec<Orientation>,
    pub vertex_indices: Vec<usize>,
}

pub open spec fn wire_edge_lists(wires: Seq<RootWireTopology>) -> Seq<Seq<usize>> {
    wires.map_values(|w: RootWireTopology| w.edge_indices@)
}

pub open spec fn wire_orientation_lists(wires: Seq<RootWireTopology>) -> Seq<Seq<Orientation>> {
    wires.map_values(|w: RootWireTopology| w.edge_orientations@)
}

pub open spec fn wire_vertex_lists(wires: Seq<RootWireTopology>) -> Seq<Seq<usize>> {
    wires.map_values(|w: RootWireTopology| w.vertex_indices@)
}

/// The packed tables of a list of wires: a range per wire over the shared
/// edge array (which the orientations share), the edges, the orientations, a
/// range per wire over the shared vertex array, and the vertices.
pub struct PackedWires {
    pub wires: Vec<TopologyRange>,
    pub wire_edge_indices: Vec<usize>,
    pub wire_edge_orientations: Vec<Orientation>,
    pub wire_vertices: Vec<TopologyRange>,
    pub wire_vertex_indices: Vec<usize>,
}

/// `p` is the packing of `ws`.
pub open spec fn is_packing_of(p: PackedWires, ws: Seq<RootWireTopology>) -> bool {
    &&& p.wires@.len() == ws.len()
    &&& p.wire_vertices@.len() == ws.len()
    &&& forall|i: int|
        0 <= i < ws.len() ==> #[trigger] p.wires@[i] == packed_range(wire_edge_lists(ws), i)
    &&& forall|i: int|
        0 <= i < ws.len() ==> #[trigger] p.wire_vertices@[i] == packed_range(wire_vertex_lists(ws), i)
    &&& p.wire_edge_indices@ == flatten(wire_edge_lists(ws))
    &&& p.wire_edge_orientations@ == flatten(wire_orientation_lists(ws))
    &&& p.wire_vertex_indices@ == flatten(wire_vertex_lists(ws))
}

/// Packs wires into shared arrays, one edge range and one vertex range per
/// wire, in the order of the wires.
pub fn pack_wire_topology(root_wires: &[RootWireTopology]) -> (r: (
    Vec<TopologyRange>,
    Vec<usize>,
    Vec<Orientation>,
    Vec<TopologyRange>,
    Vec<usize>,
))
    ensures
        is_packing_of(
            PackedWires {
                wires: r.0,
                wire_edge_indices: r.1,
                wire_edge_orientations: r.2,
                wire_vertices: r.3,
                wire_vertex_indices: r.4,
            },
            root_wires@,
        ),
{
    let ghost ws = root_wires@;
    let ghost el = wire_edge_lists(ws);
    let ghost ol = wire_orientation_lists(ws);
    let ghost vl = wire_vertex_lists(ws);
    let mut wires: Vec<TopologyRange> = Vec::new();
    let mut wire_edge_indices: Vec<usize> = Vec::new();
    let mut wire_edge_orientations: Vec<Orientation> = Vec::new();
    let mut wire_vertices: Vec<TopologyRange> = Vec::new();
    let mut wire_vertex_indices: Vec<usize> = Vec::new();
    let mut w: usize = 0;
    while w < root_wires.len()
        invariant
            ws == root_wires@,
            el == wire_edge_lists(ws),
            ol == wire_orientation_lists(ws),
            vl == wire_vertex_lists(ws),
            w <= ws.len(),
            wires@.len() == w,
            wire_vertices@.len() == w,
            forall|i: int| 0 <= i < w ==> #[trigger] wires@[i] == packed_range(el, i),
            forall|i: int| 0 <= i < w ==> #[trigger] wire_vertices@[i] == packed_range(vl, i),
            wire_edge_indices@ == flatten(el.take(w as int)),
            wire_edge_orientations@ == flatten(ol.take(w as int)),
            wire_vertex_indices@ == flatten(vl.take(w as int)),
        decreases root_wires.len() - w,
    {
        let wire = &root_wires[w];
        proof {
            lemma_flatten_take_step(el, w as int);
            lemma_flatten_take_step(ol, w as int);
            lemma_flatten_take_step(vl, w as int);
        }
        wires.push(TopologyRange { offset: wire_edge_indices.len(), count: wire.edge_indices.len() });
        extend_copy(&mut wire_edge_indices, wire.edge_indices.as_slice());
        extend_copy(&mut wire_edge_orientations, wire.edge_orientations.as_slice());
        wire_vertices.push(
            TopologyRange { offset: wire_vertex_indices.len(), count: wire.vertex_indices.len() },
        );
        extend_copy(&mut wire_vertex_indices, wire.vertex_indices.as_slice());
        w += 1;
    }
    assert(el.take(w as int) =~= el);
    assert(ol.take(w as int) =~= ol);
    assert(vl.take(w as int) =~= vl);
    (wires, wire_edge_indices, wire_edge_orientations, wire_vertices, wire_vertex_indices)
}

// ---------------------------------------------------------------------------
// Edge-face adjacency.
// ---------------------------------------------------------------------------

/// Packs the faces of each edge into one array with a range per edge.
pub fn flatten_edge_face_lists(edge_face_lists: Vec<Vec<usize>>) -> (r: (
    Vec<TopologyRange>,
    Vec<usize>,
))
    ensures
        r.0@.len() == edge_face_lists@.len(),
        forall|i: int|
            0 <= i < edge_face_lists@.len() ==> #[trigger] r.0@[i] == packed_range(
                edge_face_lists@.map_values(|l: Vec<usize>| l@),
                i,
            ),
        r.1@ == flatten(edge_face_lists@.map_values(|l: Vec<usize>| l@)),
{
    let ghost ls = edge_face_lists@.map_values(|l: Vec<usize>| l@);
    let mut edge_faces: Vec<TopologyRange> = Vec::new();
    let mut edge_face_indices: Vec<usize> = Vec::new();
    let mut e: usize = 0;
    while e < edge_face_lists.len()
        invariant
            ls == edge_face_lists@.map_values(|l: Vec<usize>| l@),
            e <= edge_face_lists@.len(),
            edge_faces@.len() == e,
            forall|i: int| 0 <= i < e ==> #[trigger] edge_faces@[i] == packed_range(ls, i),
            edge_face_indices@ == flatten(ls.take(e as int)),
        decreases edge_face_lists.len() - e,
    {
        let face_indices = &edge_face_lists[e];
        proof {
            lemma_flatten_take_step(ls, e as int);
        }
        edge_faces.push(TopologyRange { offset: edge_face_indices.len(), count: face_indices.len() });
        extend_copy(&mut edge_face_indices, face_indices.as_slice());
        e += 1;
    }
    assert(ls.take(e as int) =~= ls);
    (edge_faces, edge_face_indices)
}


// ---------------------------------------------------------------------------
// Building the face side of a snapshot.
// ---------------------------------------------------------------------------

/// The face-side tables of a topology snapshot.
pub struct TopologySnapshotFaceFields {
    pub edge_faces: Vec<TopologyRange>,
    pub edge_face_indices: Vec<usize>,
    pub faces: Vec<TopologyRange>,
    pub face_wire_indices: Vec<usize>,
    pub face_wire_orientations: Vec<Orientation>,
    pub face_wire_roles: Vec<LoopRole>,
}

/// `s` lists values in strictly increasing order (a set, walked in order).
pub open spec fn strictly_increasing(s: Seq<usize>) -> bool {
    forall|i: int, j: int| 0 <= i < j < s.len() ==> (#[trigger] s[i]) < #[trigger] s[j]
}

/// What one face contributes: the root wires that bound it, how it uses
/// them, their roles, and the set of edges of those wires, listed in
/// increasing order.
pub struct PreparedFaceTopology {
    pub face_wire_indices: Vec<usize>,
    pub face_wire_orientations: Vec<Orientation>,
    pub wire_roles: Vec<LoopRole>,
    pub used_edges: Vec<usize>,
}

/// Gathers the face-side tables one face at a time.
pub struct FaceSnapshotAccumulator {
    pub edge_face_lists: Vec<Vec<usize>>,
    pub faces: Vec<TopologyRange>,
    pub face_wire_indices: Vec<usize>,
    pub face_wire_orientations: Vec<Orientation>,
    pub face_wire_roles: Vec<LoopRole>,
}

/// The faces of each edge, by view.
pub open spec fn edge_lists_view(lists: Seq<Vec<usize>>) -> Seq<Seq<usize>> {
    lists.map_values(|l: Vec<usize>| l@)
}

/// The edge-face lists after `face_index` is recorded on each edge of `used`
/// that exists.
pub open spec fn record_face_on_edges(
    lists: Seq<Seq<usize>>,
    used: Seq<usize>,
    face_index: usize,
) -> Seq<Seq<usize>> {
    Seq::new(
        lists.len(),
        |e: int|
            if used.contains(e as usize) {
                lists[e].push(face_index)
            } else {
                lists[e]
            },
    )
}

/// The edge-face lists after recording faces `0 .. used.len()` one after
/// another on `n` edges that start with no faces, face `f` on each edge of
/// `used[f]`.
pub open spec fn recorded_edge_faces(n: nat, used: Seq<Seq<usize>>) -> Seq<Seq<usize>>
    decreases used.len(),
{
    if used.len() == 0 {
        Seq::new(n, |e: int| Seq::<usize>::empty())
    } else {
        record_face_on_edges(
            recorded_edge_faces(n, used.drop_last()),
            used.last(),
            (used.len() - 1) as usize,
        )
    }
}

/// Edge-face adjacency reads back what the faces recorded: after faces are
/// recorded in order, each edge lists exactly the faces that use it, each
/// once and in increasing order.
pub proof fn lemma_recorded_edge_faces(n: nat, used: Seq<Seq<usize>>)
    requires
        used.len() <= usize::MAX + 1,
    ensures
        recorded_edge_faces(n, used).len() == n,
        forall|e: int, f: usize|
            0 <= e < n ==> (#[trigger] recorded_edge_faces(n, used)[e].contains(f) <==> (f
                < used.len() && used[f as int].contains(e as usize))),
        forall|e: int| 0 <= e < n ==> strictly_increasing(#[trigger] recorded_edge_faces(n, used)[e]),
    decreases used.len(),
{
    if used.len() > 0 {
        let prev_used = used.drop_last();
        lemma_recorded_edge_faces(n, prev_used);
        let prev = recorded_edge_faces(n, prev_used);
        let cur = recorded_edge_faces(n, used);
        let last = (used.len() - 1) as usize;
        assert forall|e: int, f: usize| 0 <= e < n implies (#[trigger] cur[e].contains(f) <==> (f
            < used.len() && used[f as int].contains(e as usize))) by {
            if used.last().contains(e as usize) {
                assert(cur[e] == prev[e].push(last));
                if cur[e].contains(f) {
                    let j = choose|j: int| 0 <= j < cur[e].len() && cur[e][j] == f;
                    if j < prev[e].len() {
                        assert(prev[e][j] == f);
                        assert(prev[e].contains(f));
                        assert(used[f as int] == prev_used[f as int]);
                    }
                }
                if f < used.len() && used[f as int].contains(e as usize) {
                    if f == last {
                        assert(cur[e][prev[e].len() as int] == f);
                    } else {
                        assert(prev_used[f as int] == used[f as int]);
                        assert(prev[e].contains(f));
                        let j = choose|j: int| 0 <= j < prev[e].len() && prev[e][j] == f;
                        assert(cur[e][j] == f);
                    }
                }
            } else {
                assert(cur[e] == prev[e]);
                if f < used.len() && used[f as int].contains(e as usize) {
                    assert(f != last);
                    assert(prev_used[f as int] == used[f as int]);
                }
                if cur[e].contains(f) {
                    assert(prev[e].contains(f));
                    assert(used[f as int] == prev_used[f as int]);
                }
            }
        }
        assert forall|e: int| 0 <= e < n implies strictly_increasing(#[trigger] cur[e]) by {
            if used.last().contains(e as usize) {
                assert(cur[e] == prev[e].push(last));
                assert forall|i: int, j: int| 0 <= i < j < cur[e].len() implies (#[trigger] cur[e][i])
                    < #[trigger] cur[e][j] by {
                    if j == prev[e].len() {
                        assert(cur[e][i] == prev[e][i]);
                        assert(prev[e].contains(prev[e][i]));
                        assert(prev[e][i] < prev_used.len());
                    } else {
                        assert(cur[e][i] == prev[e][i] && cur[e][j] == prev[e][j]);
                    }
                }
            } else {
                assert(cur[e] == prev[e]);
            }
        }
    } else {
        let cur = recorded_edge_faces(n, used);
        assert forall|e: int, f: usize| 0 <= e < n implies !#[trigger] cur[e].contains(f) by {
            assert(cur[e] =~= Seq::<usize>::empty());
        }
    }
}

impl FaceSnapshotAccumulator {
    /// An accumulator with an empty face list for each of `edge_count` edges
    /// and no faces yet; `face_count` only sizes the face table.
    pub fn new(edge_count: usize, face_count: usize) -> (r: Self)
        ensures
            r.edge_face_lists@.len() == edge_count,
            forall|e: int| 0 <= e < edge_count ==> (#[trigger] r.edge_face_lists@[e])@.len() == 0,
            r.faces@.len() == 0,
            r.face_wire_indices@.len() == 0,
            r.face_wire_orientations@.len() == 0,
            r.face_wire_roles@.len() == 0,
    {
        let mut edge_face_lists: Vec<Vec<usize>> = Vec::new();
        let mut e: usize = 0;
        while e < edge_count
            invariant
                e <= edge_count,
                edge_face_lists@.len() == e,
                forall|k: int| 0 <= k < e ==> (#[trigger] edge_face_lists@[k])@.len() == 0,
            decreases edge_count - e,
        {
            edge_face_lists.push(Vec::new());
            e += 1;
        }
        FaceSnapshotAccumulator {
            edge_face_lists,
            faces: Vec::with_capacity(face_count),
            face_wire_indices: Vec::new(),
            face_wire_orientations: Vec::new(),
            face_wire_roles: Vec::new(),
        }
    }

    /// Hands over the tables, with the faces of each edge packed into one
    /// array with a range per edge.
    pub fn into_fields(self) -> (r: TopologySnapshotFaceFields)
        ensures
            r.edge_faces@.len() == self.edge_face_lists@.len(),
            forall|i: int|
                0 <= i < self.edge_face_lists@.len() ==> #[trigger] r.edge_faces@[i] == packed_range(
                    edge_lists_view(self.edge_face_lists@),
                    i,
                ),
            r.edge_face_indices@ == flatten(edge_lists_view(self.edge_face_lists@)),
            r.faces == self.faces,
            r.face_wire_indices == self.face_wire_indices,
            r.face_wire_orientations == self.face_wire_orientations,
            r.face_wire_roles == self.face_wire_roles,
    {
        let (edge_faces, edge_face_indices) = flatten_edge_face_lists(self.edge_face_lists);
        TopologySnapshotFaceFields {
            edge_faces,
            edge_face_indices,
            faces: self.faces,
            face_wire_indices: self.face_wire_indices,
            face_wire_orientations: self.face_wire_orientations,
            face_wire_roles: self.face_wire_roles,
        }
    }

    /// Records one face: its wires, their orientations and roles, a range
    /// over the face-wire arrays starting at `face_wire_offset`, and the face
    /// on each of `used_edges`. Fails (`None`) when one of `used_edges` is not
    /// an edge; the edges before it are recorded all the same.
    pub fn append_face_topology_outputs(
        &mut self,
        face_index: usize,
        face_wire_offset: usize,
        face_wire_indices: Vec<usize>,
        face_wire_orientations: Vec<Orientation>,
        used_edges: Vec<usize>,
        wire_roles: Vec<LoopRole>,
    ) -> (r: Option<()>)
        requires
            strictly_increasing(used_edges@),
        ensures
            final(self).face_wire_indices@ == old(self).face_wire_indices@ + face_wire_indices@,
            final(self).face_wire_orientations@ == old(self).face_wire_orientations@
                + face_wire_orientations@,
            final(self).face_wire_roles@ == old(self).face_wire_roles@ + wire_roles@,
            final(self).faces@ == old(self).faces@.push(
                TopologyRange { offset: face_wire_offset, count: face_wire_indices@.len() as usize },
            ),
            edge_lists_view(final(self).edge_face_lists@) == record_face_on_edges(
                edge_lists_view(old(self).edge_face_lists@),
                used_edges@,
                face_index,
            ),
            r is None <==> exists|k: int|
                0 <= k < used_edges@.len() && (#[trigger] used_edges@[k])
                    >= old(self).edge_face_lists@.len(),
    {
        let face_wire_count = face_wire_indices.len();
        extend_copy(&mut self.face_wire_indices, face_wire_indices.as_slice());
        extend_copy(&mut self.face_wire_orientations, face_wire_orientations.as_slice());
        self.faces.push(TopologyRange { offset: face_wire_offset, count: face_wire_count });
        extend_copy(&mut self.face_wire_roles, wire_roles.as_slice());

        let ghost before = edge_lists_view(self.edge_face_lists@);
        let ghost fwi = self.face_wire_indices@;
        let ghost fwo = self.face_wire_orientations@;
        let ghost fwr = self.face_wire_roles@;
        let ghost fcs = self.faces@;
        let n = self.edge_face_lists.len();
        let mut k: usize = 0;
        while k < used_edges.len()
            invariant
                strictly_increasing(used_edges@),
                k <= used_edges@.len(),
                n == self.edge_face_lists@.len(),
                before.len() == n,
                self.face_wire_indices@ == fwi,
                self.face_wire_orientations@ == fwo,
                self.face_wire_roles@ == fwr,
                self.faces@ == fcs,
                fwi == old(self).face_wire_indices@ + face_wire_indices@,
                fwo == old(self).face_wire_orientations@ + face_wire_orientations@,
                fwr == old(self).face_wire_roles@ + wire_roles@,
                fcs == old(self).faces@.push(
                    TopologyRange { offset: face_wire_offset, count: face_wire_indices@.len() as usize },
                ),
                before == edge_lists_view(old(self).edge_face_lists@),
                forall|j: int| 0 <= j < k ==> (#[trigger] used_edges@[j]) < n,
                edge_lists_view(self.edge_face_lists@) =~= record_face_on_edges(
                    before,
                    used_edges@.take(k as int),
                    face_index,
                ),
            decreases used_edges.len() - k,
        {
            let edge_index = used_edges[k];
            if edge_index >= n {
                proof {
                    assert forall|e: int| 0 <= e < n implies (used_edges@.take(k as int).contains(
                        e as usize,
                    ) <==> #[trigger] used_edges@.contains(e as usize)) by {
                        if used_edges@.contains(e as usize) {
                            let j = choose|j: int|
                                0 <= j < used_edges@.len() && used_edges@[j] == e as usize;
                            if j >= k {
                                if j > k {
                                    assert(used_edges@[k as int] < used_edges@[j]);
                                }
                                assert(false);
                            }
                            assert(used_edges@.take(k as int)[j] == e as usize);
                        }
                    }
                    assert(record_face_on_edges(before, used_edges@.take(k as int), face_index)
                        =~= record_face_on_edges(before, used_edges@, face_index));
                }
                return None;
            }
            let ghost prev = edge_lists_view(self.edge_face_lists@);
            let ghost prev_vec = self.edge_face_lists@;
            self.edge_face_lists[edge_index].push(face_index);
            proof {
                let taken = used_edges@.take(k as int);
                let next = used_edges@.take(k + 1);
                assert(next =~= taken.push(edge_index));
                assert forall|e: int| 0 <= e < n implies (#[trigger] next.contains(e as usize) <==> (
                taken.contains(e as usize) || e == edge_index)) by {
                    if next.contains(e as usize) {
                        let j = choose|j: int| 0 <= j < next.len() && next[j] == e as usize;
                        if j < k {
                            assert(taken[j] == e as usize);
                        }
                    }
                    if e == edge_index {
                        assert(next[k as int] == edge_index);
                    }
                    if taken.contains(e as usize) {
                        let j = choose|j: int| 0 <= j < taken.len() && taken[j] == e as usize;
                        assert(next[j] == e as usize);
                    }
                }
                assert(!taken.contains(edge_index)) by {
                    if taken.contains(edge_index) {
                        let j = choose|j: int| 0 <= j < taken.len() && taken[j] == edge_index;
                        assert(used_edges@[j] < used_edges@[k as int]);
                    }
                }
                assert forall|e: int| 0 <= e < n implies edge_lists_view(self.edge_face_lists@)[e]
                    == record_face_on_edges(before, next, face_index)[e] by {
                    assert(prev[e] == prev_vec[e]@);
                    assert(prev[e] == record_face_on_edges(before, taken, face_index)[e]);
                    if e == edge_index {
                        assert(self.edge_face_lists@[e]@ == prev_vec[e]@.push(face_index));
                    } else {
                        assert(self.edge_face_lists@[e] == prev_vec[e]);
                    }
                }
                assert(edge_lists_view(self.edge_face_lists@) =~= record_face_on_edges(
                    before,
                    next,
                    face_index,
                ));
            }
            k += 1;
        }
        proof {
            assert(used_edges@.take(k as int) =~= used_edges@);
            assert(!exists|j: int|
                0 <= j < used_edges@.len() && (#[trigger] used_edges@[j]) >= n);
        }
        Some(())
    }

    /// Records one prepared face, with its wires placed after the ones
    /// already recorded.
    pub fn append_prepared_face_topology(
        &mut self,
        face_index: usize,
        prepared_face_topology: PreparedFaceTopology,
    ) -> (r: Option<()>)
        requires
            strictly_increasing(prepared_face_topology.used_edges@),
        ensures
            final(self).face_wire_indices@ == old(self).face_wire_indices@
                + prepared_face_topology.face_wire_indices@,
            final(self).face_wire_orientations@ == old(self).face_wire_orientations@
                + prepared_face_topology.face_wire_orientations@,
            final(self).face_wire_roles@ == old(self).face_wire_roles@
                + prepared_face_topology.wire_roles@,
            final(self).faces@ == old(self).faces@.push(
                TopologyRange {
                    offset: old(self).face_wire_indices@.len() as usize,
                    count: prepared_face_topology.face_wire_indices@.len() as usize,
                },
            ),
            edge_lists_view(final(self).edge_face_lists@) == record_face_on_edges(
                edge_lists_view(old(self).edge_face_lists@),
                prepared_face_topology.used_edges@,
                face_index,
            ),
            r is None <==> exists|k: int|
                0 <= k < prepared_face_topology.used_edges@.len()
                    && (#[trigger] prepared_face_topology.used_edges@[k])
                    >= old(self).edge_face_lists@.len(),
    {
        let face_wire_offset = self.face_wire_indices.len();
        self.append_face_topology_outputs(
            face_index,
            face_wire_offset,
            prepared_face_topology.face_wire_indices,
            prepared_face_topology.face_wire_orientations,
            prepared_face_topology.used_edges,
            prepared_face_topology.wire_roles,
        )
    }
}


// ---------------------------------------------------------------------------
// The index tables of a snapshot.
// ---------------------------------------------------------------------------

/// The vertices that bound an edge, where they were found.
#[derive(Clone, Copy, Debug, PartialEq, Eq, Structural)]
pub struct TopologyEdgeVertices {
    pub start_vertex: Option<usize>,
    pub end_vertex: Option<usize>,
}

/// The index tables of a topology snapshot: every table but the vertex
/// positions and edge lengths, which the table logic never reads.
pub struct TopologyTables {
    pub vertex_count: usize,
    pub edges: Vec<TopologyEdgeVertices>,
    pub edge_faces: Vec<TopologyRange>,
    pub edge_face_indices: Vec<usize>,
    pub wires: Vec<TopologyRange>,
    pub wire_edge_indices: Vec<usize>,
    pub wire_edge_orientations: Vec<Orientation>,
    pub wire_vertices: Vec<TopologyRange>,
    pub wire_vertex_indices: Vec<usize>,
    pub faces: Vec<TopologyRange>,
    pub face_wire_indices: Vec<usize>,
    pub face_wire_orientations: Vec<Orientation>,
    pub face_wire_roles: Vec<LoopRole>,
}

/// Copies the entries of `array` that `range` covers.
pub fn copy_range<T: Copy>(array: &Vec<T>, range: TopologyRange) -> (r: Vec<T>)
    requires
        range_within(range, array@.len()),
    ensures
        r@ == range_slice(array@, range),
{
    let mut out: Vec<T> = Vec::new();
    let mut k: usize = 0;
    while k < range.count
        invariant
            range_within(range, array@.len()),
            range.offset + range.count <= array.len(),
            k <= range.count,
            out@ =~= array@.subrange(range.offset as int, range.offset + k),
        decreases range.count - k,
    {
        out.push(array[range.offset + k]);
        k += 1;
    }
    out
}

/// The tables of a snapshot put together: its vertex count and edges, its
/// packed wires (as `pack_wire_topology` gives them), and its face-side
/// tables (as `FaceSnapshotAccumulator::into_fields` gives them).
pub fn build_ported_topology_snapshot(
    vertex_count: usize,
    edges: Vec<TopologyEdgeVertices>,
    packed_wires: (Vec<TopologyRange>, Vec<usize>, Vec<Orientation>, Vec<TopologyRange>, Vec<usize>),
    face_fields: TopologySnapshotFaceFields,
) -> (r: TopologyTables)
    ensures
        r.vertex_count == vertex_count,
        r.edges@ == edges@,
        r.wires@ == packed_wires.0@,
        r.wire_edge_indices@ == packed_wires.1@,
        r.wire_edge_orientations@ == packed_wires.2@,
        r.wire_vertices@ == packed_wires.3@,
        r.wire_vertex_indices@ == packed_wires.4@,
        r.edge_faces@ == face_fields.edge_faces@,
        r.edge_face_indices@ == face_fields.edge_face_indices@,
        r.faces@ == face_fields.faces@,
        r.face_wire_indices@ == face_fields.face_wire_indices@,
        r.face_wire_orientations@ == face_fields.face_wire_orientations@,
        r.face_wire_roles@ == face_fields.face_wire_roles@,
{
    let (wires, wire_edge_indices, wire_edge_orientations, wire_vertices, wire_vertex_indices) =
        packed_wires;
    TopologyTables {
        vertex_count,
        edges,
        edge_faces: face_fields.edge_faces,
        edge_face_indices: face_fields.edge_face_indices,
        wires,
        wire_edge_indices,
        wire_edge_orientations,
        wire_vertices,
        wire_vertex_indices,
        faces: face_fields.faces,
        face_wire_indices: face_fields.face_wire_indices,
        face_wire_orientations: face_fields.face_wire_orientations,
        face_wire_roles: face_fields.face_wire_roles,
    }
}

} // verus!
