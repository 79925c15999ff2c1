//! Matching the wires of a face against the wires of the root topology, the
//! roles of a face's wires, and the edges of a face that can carry the basis
//! curve of a swept surface.
use vstd::prelude::*;

use crate::brep::{insert_sorted, BrepFaceLoop, BrepWire};
use crate::kinds::{CurveKind, LoopRole, Orientation};
use crate::topology::{strictly_increasing, PreparedFaceTopology, RootWireTopology};
use crate::wire::{
    contains_index, match_root_wire_index, oriented_wire_edges, spec_oriented_uses, wire_matches,
};

verus! {

/// The wires of one face matched so far: the root wire of each, in the
/// face's order, how the face uses it, and the set of edges of those wires
/// in increasing order.
pub struct FaceWireMatcher {
    pub face_wire_indices: Vec<usize>,
    pub face_wire_orientations: Vec<Orientation>,
    pub used_edges: Vec<usize>,
}

impl FaceWireMatcher {
    /// One orientation per matched wire, and the edge set in increasing order.
    pub open spec fn wf(&self) -> bool {
        &&& self.face_wire_orientations@.len() == self.face_wire_indices@.len()
        &&& strictly_increasing(self.used_edges@)
    }

    /// No wire matched yet.
    pub fn new() -> (r: Self)
        ensures
            r.wf(),
            r.face_wire_indices@.len() == 0,
            r.face_wire_orientations@.len() == 0,
            r.used_edges@.len() == 0,
    {
        FaceWireMatcher {
            face_wire_indices: Vec::new(),
            face_wire_orientations: Vec::new(),
            used_edges: Vec::new(),
        }
    }

    /// The first root wire, not yet matched to a wire of this face, that
    /// records the same wire as `face_wire`; none if there is none.
    pub fn match_face_wire(
        &self,
        root_wires: &[RootWireTopology],
        face_wire: &RootWireTopology,
    ) -> (r: Option<usize>)
        ensures
            match r {
                None => forall|i: int|
                    0 <= i < root_wires@.len() ==> !#[trigger] wire_matches(
                        root_wires@,
                        *face_wire,
                        self.face_wire_indices@,
                        i,
                    ),
                Some(i) => i < root_wires@.len() && wire_matches(
                    root_wires@,
                    *face_wire,
                    self.face_wire_indices@,
                    i as int,
                ) && forall|j: int|
                    0 <= j < i ==> !#[trigger] wire_matches(
                        root_wires@,
                        *face_wire,
                        self.face_wire_indices@,
                        j,
                    ),
            },
    {
        match_root_wire_index(root_wires, face_wire, &self.face_wire_indices)
    }

    /// Records that the face uses root wire `root_wire_index`, whose edges
    /// are those of `face_wire`, with `orientation`.
    pub fn record_face_wire(
        &mut self,
        root_wire_index: usize,
        face_wire: &RootWireTopology,
        orientation: Orientation,
    )
        requires
            old(self).wf(),
        ensures
            final(self).wf(),
            final(self).face_wire_indices@ == old(self).face_wire_indices@.push(root_wire_index),
            final(self).face_wire_orientations@ == old(self).face_wire_orientations@.push(
                orientation,
            ),
            forall|e: usize|
                final(self).used_edges@.contains(e) <==> (old(self).used_edges@.contains(e)
                    || face_wire.edge_indices@.contains(e)),
    {
        self.face_wire_indices.push(root_wire_index);
        self.face_wire_orientations.push(orientation);
        let mut k: usize = 0;
        while k < face_wire.edge_indices.len()
            invariant
                k <= face_wire.edge_indices@.len(),
                strictly_increasing(self.used_edges@),
                self.face_wire_indices@ == old(self).face_wire_indices@.push(root_wire_index),
                self.face_wire_orientations@ == old(self).face_wire_orientations@.push(
                    orientation,
                ),
                forall|e: usize|
                    self.used_edges@.contains(e) <==> (old(self).used_edges@.contains(e)
                        || face_wire.edge_indices@.take(k as int).contains(e)),
            decreases face_wire.edge_indices.len() - k,
        {
            let e = face_wire.edge_indices[k];
            insert_sorted(&mut self.used_edges, e);
            proof {
                let before = face_wire.edge_indices@.take(k as int);
                let after = face_wire.edge_indices@.take(k + 1);
                assert(after =~= before.push(e));
                assert forall|c: usize| after.contains(c) <==> (before.contains(c) || c == e) by {
                    if after.contains(c) {
                        let j = choose|j: int| 0 <= j < after.len() && after[j] == c;
                        if j < k {
                            assert(before[j] == c);
                        }
                    }
                    if before.contains(c) {
                        let j = choose|j: int| 0 <= j < before.len() && before[j] == c;
                        assert(after[j] == c);
                    }
                    if c == e {
                        assert(after[k as int] == c);
                    }
                }
            }
            k += 1;
        }
        assert(face_wire.edge_indices@.take(k as int) =~= face_wire.edge_indices@);
    }

    /// The face's contribution, with the given roles of its wires.
    pub fn finish(self, wire_roles: Vec<LoopRole>) -> (r: PreparedFaceTopology)
        ensures
            r.face_wire_indices == self.face_wire_indices,
            r.face_wire_orientations == self.face_wire_orientations,
            r.wire_roles == wire_roles,
            r.used_edges == self.used_edges,
    {
        PreparedFaceTopology {
            face_wire_indices: self.face_wire_indices,
            face_wire_orientations: self.face_wire_orientations,
            wire_roles,
            used_edges: self.used_edges,
        }
    }
}

/// A face never uses one root wire twice: recording the wire that
/// `match_face_wire` found keeps the face's root wires distinct.
pub proof fn lemma_matched_wires_stay_distinct(
    face_wire_indices: Seq<usize>,
    root_wires: Seq<RootWireTopology>,
    face_wire: RootWireTopology,
    i: int,
)
    requires
        face_wire_indices.no_duplicates(),
        0 <= i <= usize::MAX,
        wire_matches(root_wires, face_wire, face_wire_indices, i),
    ensures
        face_wire_indices.push(i as usize).no_duplicates(),
{
    let s = face_wire_indices.push(i as usize);
    assert forall|a: int, b: int| 0 <= a < s.len() && 0 <= b < s.len() && a != b implies s[a]
        != s[b] by {
        if b == s.len() - 1 && a < b {
            assert(face_wire_indices[a] == s[a]);
        } else if a == s.len() - 1 && b < a {
            assert(face_wire_indices[b] == s[b]);
        }
    }
}

/// The roles of a face's wires: a lone wire is the outer one; otherwise
/// there is one role per measured wire area, the wire of the largest area is
/// the outer one and the others are inner, and there are none when no area
/// is large enough to bound the face.
pub open spec fn spec_wire_roles(
    face_wire_count: usize,
    area_count: usize,
    largest_area_offset: Option<usize>,
) -> Option<Seq<LoopRole>> {
    if face_wire_count == 1 {
        Some(seq![LoopRole::Outer])
    } else {
        match largest_area_offset {
            None => None,
            Some(o) => Some(
                Seq::new(
                    area_count as nat,
                    |k: int|
                        if k == o {
                            LoopRole::Outer
                        } else {
                            LoopRole::Inner
                        },
                ),
            ),
        }
    }
}

/// A face with more than one wire has exactly one outer loop, at the offset
/// of the largest area, when that offset names one of the measured areas.
pub proof fn lemma_one_outer_loop(face_wire_count: usize, area_count: usize, outer: usize)
    requires
        face_wire_count != 1,
        outer < area_count,
    ensures
        ({
            let roles = spec_wire_roles(face_wire_count, area_count, Some(outer))->Some_0;
            &&& roles.len() == area_count
            &&& roles[outer as int] == LoopRole::Outer
            &&& forall|k: int| 0 <= k < roles.len() && k != outer ==> roles[k] == LoopRole::Inner
        }),
{
}

/// The roles of a face's wires, given the number of wires, the number of
/// wire areas measured, and the offset of the largest area where that area
/// is large enough to bound the face.
pub fn classify_wire_roles(
    face_wire_count: usize,
    area_count: usize,
    largest_area_offset: Option<usize>,
) -> (r: Option<Vec<LoopRole>>)
    ensures
        match spec_wire_roles(face_wire_count, area_count, largest_area_offset) {
            None => r is None,
            Some(roles) => r matches Some(v) && v@ == roles,
        },
{
    if face_wire_count == 1 {
        let mut one: Vec<LoopRole> = Vec::new();
        one.push(LoopRole::Outer);
        assert(one@ =~= seq![LoopRole::Outer]);
        return Some(one);
    }
    let outer = match largest_area_offset {
        None => return None,
        Some(o) => o,
    };
    let mut roles: Vec<LoopRole> = Vec::new();
    let mut k: usize = 0;
    while k < area_count
        invariant
            k <= area_count,
            roles@.len() == k,
            forall|j: int|
                0 <= j < k ==> #[trigger] roles@[j] == (if j == outer {
                    LoopRole::Outer
                } else {
                    LoopRole::Inner
                }),
        decreases area_count - k,
    {
        if k == outer {
            roles.push(LoopRole::Outer);
        } else {
            roles.push(LoopRole::Inner);
        }
        k += 1;
    }
    let ghost expected = Seq::new(
        area_count as nat,
        |j: int|
            if j == outer {
                LoopRole::Outer
            } else {
                LoopRole::Inner
            },
    );
    assert(roles@ =~= expected);
    Some(roles)
}

// ---------------------------------------------------------------------------
// The edges of a face that can carry a swept surface's basis curve.
// ---------------------------------------------------------------------------

/// The uses of edges that a face's loops make, loop after loop, each wire
/// walked the way its loop uses it; none if a loop names no wire.
pub open spec fn spec_loop_uses(wires: Seq<BrepWire>, loops: Seq<BrepFaceLoop>) -> Option<
    Seq<(usize, Orientation)>,
>
    decreases loops.len(),
{
    if loops.len() == 0 {
        Some(Seq::empty())
    } else {
        let l = loops.last();
        match spec_loop_uses(wires, loops.drop_last()) {
            None => None,
            Some(before) => if l.wire_index < wires.len() {
                Some(
                    before + spec_oriented_uses(
                        wires[l.wire_index as int].edge_indices@,
                        wires[l.wire_index as int].edge_orientations@,
                        l.orientation,
                    ),
                )
            } else {
                None
            },
        }
    }
}

/// Some use in `uses` is of edge `e`.
pub open spec fn uses_edge(uses: Seq<(usize, Orientation)>, e: usize) -> bool {
    exists|k: int| 0 <= k < uses.len() && (#[trigger] uses[k]).0 == e
}

/// The first use of each edge whose curve is of `basis_kind`, in order;
/// none if the first use of some edge names no edge, or if an edge of that
/// kind has no ported curve.
pub open spec fn spec_curve_uses(
    uses: Seq<(usize, Orientation)>,
    edge_kinds: Seq<CurveKind>,
    has_ported_curve: Seq<bool>,
    basis_kind: CurveKind,
) -> Option<Seq<(usize, Orientation)>>
    decreases uses.len(),
{
    if uses.len() == 0 {
        Some(Seq::empty())
    } else {
        let x = uses.last();
        match spec_curve_uses(uses.drop_last(), edge_kinds, has_ported_curve, basis_kind) {
            None => None,
            Some(found) => if uses_edge(uses.drop_last(), x.0) {
                Some(found)
            } else if x.0 >= edge_kinds.len() {
                None
            } else if edge_kinds[x.0 as int] != basis_kind {
                Some(found)
            } else if !has_ported_curve[x.0 as int] {
                None
            } else {
                Some(found.push(x))
            },
        }
    }
}

/// The uses of edges from which a swept face's basis curve is picked: the
/// first use of each edge of the face's loops whose curve is of
/// `basis_kind`; none when a lookup fails, an edge of that kind has no
/// ported curve, or there is no such edge.
pub open spec fn spec_face_curve_edges(
    loops: Seq<BrepFaceLoop>,
    wires: Seq<BrepWire>,
    edge_kinds: Seq<CurveKind>,
    has_ported_curve: Seq<bool>,
    basis_kind: CurveKind,
) -> Option<Seq<(usize, Orientation)>> {
    match spec_loop_uses(wires, loops) {
        None => None,
        Some(uses) => match spec_curve_uses(uses, edge_kinds, has_ported_curve, basis_kind) {
            None => None,
            Some(found) => if found.len() == 0 {
                None
            } else {
                Some(found)
            },
        },
    }
}

/// Once a loop names no wire, the later loops change nothing.
proof fn lemma_loop_uses_stay_none(wires: Seq<BrepWire>, loops: Seq<BrepFaceLoop>, j: int)
    requires
        0 <= j <= loops.len(),
        spec_loop_uses(wires, loops.take(j)) is None,
    ensures
        spec_loop_uses(wires, loops) is None,
    decreases loops.len() - j,
{
    if j < loops.len() {
        assert(loops.take(j + 1).drop_last() =~= loops.take(j));
        lemma_loop_uses_stay_none(wires, loops, j + 1);
    } else {
        assert(loops.take(j) =~= loops);
    }
}

/// The uses of the first `j` loops come first among the uses of all loops.
proof fn lemma_loop_uses_prefix(wires: Seq<BrepWire>, loops: Seq<BrepFaceLoop>, j: int)
    requires
        0 <= j <= loops.len(),
        spec_loop_uses(wires, loops.take(j)) is Some,
    ensures
        spec_loop_uses(wires, loops) is Some ==> ({
            let p = spec_loop_uses(wires, loops.take(j))->Some_0;
            let all = spec_loop_uses(wires, loops)->Some_0;
            p.len() <= all.len() && all.take(p.len() as int) == p
        }),
    decreases loops.len() - j,
{
    if j == loops.len() {
        assert(loops.take(j) =~= loops);
        let all = spec_loop_uses(wires, loops)->Some_0;
        assert(all.take(all.len() as int) =~= all);
    } else {
        assert(loops.take(j + 1).drop_last() =~= loops.take(j));
        if spec_loop_uses(wires, loops.take(j + 1)) is None {
            lemma_loop_uses_stay_none(wires, loops, j + 1);
        } else {
            lemma_loop_uses_prefix(wires, loops, j + 1);
            if spec_loop_uses(wires, loops) is Some {
                let p = spec_loop_uses(wires, loops.take(j))->Some_0;
                let p1 = spec_loop_uses(wires, loops.take(j + 1))->Some_0;
                let all = spec_loop_uses(wires, loops)->Some_0;
                assert(p1.take(p.len() as int) =~= p);
                assert(all.take(p.len() as int) =~= p1.take(p.len() as int));
            }
        }
    }
}

/// Once a lookup has failed, later uses change nothing.
proof fn lemma_curve_uses_stay_none(
    s: Seq<(usize, Orientation)>,
    t: Seq<(usize, Orientation)>,
    edge_kinds: Seq<CurveKind>,
    has_ported_curve: Seq<bool>,
    basis_kind: CurveKind,
)
    requires
        spec_curve_uses(s, edge_kinds, has_ported_curve, basis_kind) is None,
    ensures
        spec_curve_uses(s + t, edge_kinds, has_ported_curve, basis_kind) is None,
    decreases t.len(),
{
    if t.len() == 0 {
        assert(s + t =~= s);
    } else {
        lemma_curve_uses_stay_none(s, t.drop_last(), edge_kinds, has_ported_curve, basis_kind);
        assert((s + t).drop_last() =~= s + t.drop_last());
    }
}

/// A lookup that fails at use `k` of loop `li` leaves the face without
/// candidates.
proof fn lemma_after_inner_failure(
    wires: Seq<BrepWire>,
    loops: Seq<BrepFaceLoop>,
    li: int,
    start: Seq<(usize, Orientation)>,
    uses: Seq<(usize, Orientation)>,
    k: int,
    edge_kinds: Seq<CurveKind>,
    has_ported_curve: Seq<bool>,
    basis_kind: CurveKind,
)
    requires
        0 <= li < loops.len(),
        spec_loop_uses(wires, loops.take(li)) == Some(start),
        loops[li].wire_index < wires.len(),
        uses == spec_oriented_uses(
            wires[loops[li].wire_index as int].edge_indices@,
            wires[loops[li].wire_index as int].edge_orientations@,
            loops[li].orientation,
        ),
        0 <= k < uses.len(),
        spec_curve_uses(start + uses.take(k + 1), edge_kinds, has_ported_curve, basis_kind) is None,
    ensures
        spec_face_curve_edges(loops, wires, edge_kinds, has_ported_curve, basis_kind) is None,
{
    assert(loops.take(li + 1).drop_last() =~= loops.take(li));
    assert(loops.take(li + 1).last() == loops[li]);
    assert(spec_loop_uses(wires, loops.take(li + 1)) == Some(start + uses));
    lemma_loop_uses_prefix(wires, loops, li + 1);
    if spec_loop_uses(wires, loops) is Some {
        let all = spec_loop_uses(wires, loops)->Some_0;
        let p = start + uses.take(k + 1);
        let rest = all.skip(p.len() as int);
        let whole = start + uses;
        assert(all.take(whole.len() as int) == whole);
        assert(whole.take(p.len() as int) =~= p);
        assert(all.take(p.len() as int) =~= whole.take(p.len() as int));
        assert(all =~= p + rest);
        lemma_curve_uses_stay_none(p, rest, edge_kinds, has_ported_curve, basis_kind);
    }
}

/// Each edge gives at most one candidate use: the uses picked for a swept
/// face's basis curve name distinct edges, all of them edges of the loops.
pub proof fn lemma_curve_uses_distinct(
    uses: Seq<(usize, Orientation)>,
    edge_kinds: Seq<CurveKind>,
    has_ported_curve: Seq<bool>,
    basis_kind: CurveKind,
)
    requires
        spec_curve_uses(uses, edge_kinds, has_ported_curve, basis_kind) is Some,
    ensures
        ({
            let found = spec_curve_uses(uses, edge_kinds, has_ported_curve, basis_kind)->Some_0;
            &&& forall|i: int| 0 <= i < found.len() ==> uses_edge(uses, (#[trigger] found[i]).0)
            &&& forall|i: int, j: int|
                0 <= i < j < found.len() ==> (#[trigger] found[i]).0 != (#[trigger] found[j]).0
        }),
    decreases uses.len(),
{
    if uses.len() > 0 {
        let prev = uses.drop_last();
        lemma_curve_uses_distinct(prev, edge_kinds, has_ported_curve, basis_kind);
        let found = spec_curve_uses(uses, edge_kinds, has_ported_curve, basis_kind)->Some_0;
        let before = spec_curve_uses(prev, edge_kinds, has_ported_curve, basis_kind)->Some_0;
        assert forall|i: int| 0 <= i < found.len() implies uses_edge(uses, (#[trigger] found[i]).0) by {
            if i < before.len() {
                assert(found[i] == before[i]);
                assert(uses_edge(prev, before[i].0));
                let k = choose|k: int| 0 <= k < prev.len() && (#[trigger] prev[k]).0 == before[i].0;
                assert(uses[k] == prev[k]);
            } else {
                assert(found[i] == uses.last());
                assert(uses[uses.len() - 1].0 == found[i].0);
            }
        }
        assert forall|i: int, j: int| 0 <= i < j < found.len() implies (#[trigger] found[i]).0
            != (#[trigger] found[j]).0 by {
            if j >= before.len() {
                assert(found[i] == before[i]);
                assert(uses_edge(prev, before[i].0));
            } else {
                assert(found[i] == before[i] && found[j] == before[j]);
            }
        }
    }
}

/// The uses of edges from which a swept face's basis curve is picked, as
/// `spec_face_curve_edges` states; `edge_kinds` and `has_ported_curve` give
/// each edge's curve kind and whether it has a ported curve.
pub fn face_curve_edges(
    loops: &[BrepFaceLoop],
    wires: &[BrepWire],
    edge_kinds: &[CurveKind],
    has_ported_curve: &[bool],
    basis_kind: CurveKind,
) -> (r: Option<Vec<(usize, Orientation)>>)
    requires
        has_ported_curve@.len() == edge_kinds@.len(),
    ensures
        match spec_face_curve_edges(loops@, wires@, edge_kinds@, has_ported_curve@, basis_kind) {
            None => r is None,
            Some(found) => r matches Some(v) && v@ == found,
        },
{
    let mut seen: Vec<usize> = Vec::new();
    let mut found: Vec<(usize, Orientation)> = Vec::new();
    let ghost mut done: Seq<(usize, Orientation)> = Seq::empty();
    let mut li: usize = 0;
    assert(loops@.take(0) =~= Seq::<BrepFaceLoop>::empty());
    while li < loops.len()
        invariant
            has_ported_curve@.len() == edge_kinds@.len(),
            li <= loops@.len(),
            spec_loop_uses(wires@, loops@.take(li as int)) == Some(done),
            spec_curve_uses(done, edge_kinds@, has_ported_curve@, basis_kind) == Some(found@),
            forall|e: usize| seen@.contains(e) <==> uses_edge(done, e),
        decreases loops.len() - li,
    {
        let face_loop = loops[li];
        proof {
            assert(loops@.take(li + 1).drop_last() =~= loops@.take(li as int));
            assert(loops@.take(li + 1).last() == face_loop);
        }
        if face_loop.wire_index >= wires.len() {
            proof {
                lemma_loop_uses_stay_none(wires@, loops@, (li + 1) as int);
                assert(loops@.take(loops@.len() as int) =~= loops@);
            }
            return None;
        }
        let uses = oriented_wire_edges(&wires[face_loop.wire_index], face_loop.orientation);
        let ghost start = done;
        let mut k: usize = 0;
        while k < uses.len()
            invariant
                has_ported_curve@.len() == edge_kinds@.len(),
                li < loops@.len(),
                face_loop == loops@[li as int],
                face_loop.wire_index < wires@.len(),
                spec_loop_uses(wires@, loops@.take(li as int)) == Some(start),
                uses@ == spec_oriented_uses(
                    wires@[face_loop.wire_index as int].edge_indices@,
                    wires@[face_loop.wire_index as int].edge_orientations@,
                    face_loop.orientation,
                ),
                k <= uses@.len(),
                done == start + uses@.take(k as int),
                spec_curve_uses(done, edge_kinds@, has_ported_curve@, basis_kind) == Some(found@),
                forall|e: usize| seen@.contains(e) <==> uses_edge(done, e),
            decreases uses.len() - k,
        {
            let (edge_index, orientation) = uses[k];
            let ghost next = done.push((edge_index, orientation));
            proof {
                assert(next.drop_last() =~= done);
                assert(next.last() == (edge_index, orientation));
                assert(uses@.take(k + 1) =~= uses@.take(k as int).push(uses@[k as int]));
                assert(next =~= start + uses@.take(k + 1));
                assert forall|e: usize| uses_edge(next, e) <==> (uses_edge(done, e) || e == edge_index) by {
                    if uses_edge(next, e) {
                        let j = choose|j: int| 0 <= j < next.len() && (#[trigger] next[j]).0 == e;
                        if j < done.len() {
                            assert(done[j] == next[j]);
                        }
                    }
                    if uses_edge(done, e) {
                        let j = choose|j: int| 0 <= j < done.len() && (#[trigger] done[j]).0 == e;
                        assert(next[j] == done[j]);
                    }
                    if e == edge_index {
                        assert(next[done.len() as int].0 == e);
                    }
                }
            }
            if contains_index(&seen, edge_index) {
                proof {
                    done = next;
                }
                k += 1;
                continue;
            }
            let ghost seen_before = seen@;
            seen.push(edge_index);
            proof {
                assert forall|x: usize| seen@.contains(x) <==> uses_edge(next, x) by {
                    if seen@.contains(x) {
                        let j = choose|j: int| 0 <= j < seen@.len() && seen@[j] == x;
                        if j < seen_before.len() {
                            assert(seen_before[j] == x);
                        }
                    }
                    if seen_before.contains(x) {
                        let j = choose|j: int| 0 <= j < seen_before.len() && seen_before[j] == x;
                        assert(seen@[j] == x);
                    }
                    if x == edge_index {
                        assert(seen@[seen_before.len() as int] == x);
                    }
                }
            }
            if edge_index >= edge_kinds.len() {
                proof {
                    lemma_after_inner_failure(wires@, loops@, li as int, start, uses@, k as int, edge_kinds@, has_ported_curve@, basis_kind);
                }
                return None;
            }
            if edge_kinds[edge_index] != basis_kind {
                proof {
                    done = next;
                }
                k += 1;
                continue;
            }
            if !has_ported_curve[edge_index] {
                proof {
                    lemma_after_inner_failure(wires@, loops@, li as int, start, uses@, k as int, edge_kinds@, has_ported_curve@, basis_kind);
                }
                return None;
            }
            found.push((edge_index, orientation));
            proof {
                done = next;
            }
            k += 1;
        }
        proof {
            assert(uses@.take(k as int) =~= uses@);
        }
        li += 1;
    }
    proof {
        assert(loops@.take(li as int) =~= loops@);
    }
    if found.len() == 0 {
        None
    } else {
        Some(found)
    }
}

} // verus!
