//! Ordering the edge occurrences of a wire into a chain of edges and vertices,
//! reading a wire out of its own topology snapshot, and matching a face's
//! wires against the root wires.
use vstd::prelude::*;

use crate::brep::{indexed_error, BrepWire};
use crate::error::{decimal, Error};
use crate::kinds::{spec_reversed, reversed_orientation, Orientation};
use crate::topology::{strictly_increasing, RootWireTopology, TopologyEdgeVertices, TopologyTables};

verus! {

/// One use of an edge inside a wire: the edge, the way it is used, and the
/// vertices at which the use starts and ends (already swapped for a
/// reversed use).
#[derive(Clone, Copy, Debug, PartialEq, Eq, Structural)]
pub struct WireOccurrence {
    pub edge_index: usize,
    pub orientation: Orientation,
    pub start_vertex: usize,
    pub end_vertex: usize,
}

// ---------------------------------------------------------------------------
// Chains.
// ---------------------------------------------------------------------------

/// The vertex at position `k` of the chain that `ordered` walks: the start of
/// the first occurrence, then the end of each occurrence in turn.
pub open spec fn chain_vertex(occ: Seq<WireOccurrence>, ordered: Seq<usize>, k: int) -> usize {
    if k == 0 {
        occ[ordered[0] as int].start_vertex
    } else {
        occ[ordered[k - 1] as int].end_vertex
    }
}

/// The vertices that the occurrences listed by `ordered` pass through.
pub open spec fn chain_vertices(occ: Seq<WireOccurrence>, ordered: Seq<usize>) -> Seq<usize> {
    Seq::new(ordered.len() + 1, |k: int| chain_vertex(occ, ordered, k))
}

/// `ordered` is a non-empty list of occurrence indices, each in bounds, and
/// each occurrence starts at the vertex where the one before it ends.
pub open spec fn chains(occ: Seq<WireOccurrence>, ordered: Seq<usize>) -> bool {
    &&& ordered.len() > 0
    &&& forall|k: int| 0 <= k < ordered.len() ==> (#[trigger] ordered[k]) < occ.len()
    &&& forall|k: int|
        #![trigger ordered[k]]
        0 <= k < ordered.len() ==> occ[ordered[k] as int].start_vertex == chain_vertex(
            occ,
            ordered,
            k,
        )
}

/// Checks that the occurrences listed by `ordered` form a chain and, if they
/// do, returns the vertices it passes through.
pub fn chain_wire_occurrences(occurrences: &[WireOccurrence], ordered: &[usize]) -> (r: Option<
    Vec<usize>,
>)
    requires
        ordered@.len() > 0 ==> ordered@[0] < occurrences@.len(),
    ensures
        r is Some <==> chains(occurrences@, ordered@),
        r matches Some(v) ==> v@ == chain_vertices(occurrences@, ordered@),
{
    if ordered.len() == 0 {
        return None;
    }
    let first = ordered[0];
    let mut vertices: Vec<usize> = Vec::new();
    vertices.push(occurrences[first].start_vertex);
    let mut current_vertex = occurrences[first].end_vertex;
    vertices.push(current_vertex);
    let mut k: usize = 1;
    while k < ordered.len()
        invariant
            1 <= k <= ordered@.len(),
            ordered@[0] < occurrences@.len(),
            forall|j: int| 0 <= j < k ==> (#[trigger] ordered@[j]) < occurrences@.len(),
            forall|j: int|
                #![trigger ordered@[j]]
                0 <= j < k ==> occurrences@[ordered@[j] as int].start_vertex == chain_vertex(
                    occurrences@,
                    ordered@,
                    j,
                ),
            vertices@.len() == k + 1,
            forall|j: int|
                0 <= j <= k ==> #[trigger] vertices@[j] == chain_vertex(occurrences@, ordered@, j),
            current_vertex == occurrences@[ordered@[k - 1] as int].end_vertex,
        decreases ordered.len() - k,
    {
        let index = ordered[k];
        if index >= occurrences.len() {
            return None;
        }
        let occurrence = occurrences[index];
        if occurrence.start_vertex != current_vertex {
            return None;
        }
        current_vertex = occurrence.end_vertex;
        vertices.push(current_vertex);
        k += 1;
    }
    assert(vertices@ =~= chain_vertices(occurrences@, ordered@));
    Some(vertices)
}


// ---------------------------------------------------------------------------
// Ordering.
// ---------------------------------------------------------------------------

/// The indices `0, 1, ..., n - 1` in order.
pub open spec fn identity_order(n: nat) -> Seq<usize> {
    Seq::new(n, |i: int| i as usize)
}

/// How many occurrences start at `v`.
pub open spec fn starts_at_count(occ: Seq<WireOccurrence>, v: usize) -> nat
    decreases occ.len(),
{
    if occ.len() == 0 {
        0
    } else {
        starts_at_count(occ.drop_last(), v) + if occ.last().start_vertex == v {
            1nat
        } else {
            0nat
        }
    }
}

/// How many occurrences end at `v`.
pub open spec fn ends_at_count(occ: Seq<WireOccurrence>, v: usize) -> nat
    decreases occ.len(),
{
    if occ.len() == 0 {
        0
    } else {
        ends_at_count(occ.drop_last(), v) + if occ.last().end_vertex == v {
            1nat
        } else {
            0nat
        }
    }
}

/// `v` is where an open wire must begin: some occurrence starts there, and one
/// more occurrence leaves it than arrives at it.
pub open spec fn is_start_candidate(occ: Seq<WireOccurrence>, v: usize) -> bool {
    &&& exists|i: int| 0 <= i < occ.len() && occ[i].start_vertex == v
    &&& starts_at_count(occ, v) == ends_at_count(occ, v) + 1
}

/// The vertex from which the wire is walked: the single start candidate if
/// there is one, the start of the first occurrence if there is none, and no
/// vertex (`None`) if two different vertices are candidates.
pub open spec fn walk_start(occ: Seq<WireOccurrence>) -> Option<usize> {
    if exists|a: usize, b: usize|
        a != b && is_start_candidate(occ, a) && is_start_candidate(occ, b) {
        None
    } else if exists|a: usize| is_start_candidate(occ, a) {
        Some(choose|a: usize| is_start_candidate(occ, a))
    } else {
        Some(occ[0].start_vertex)
    }
}

/// Occurrence `i` is not yet used and starts at `current`.
pub open spec fn can_follow(occ: Seq<WireOccurrence>, used: Set<int>, current: usize, i: int) -> bool {
    0 <= i < occ.len() && !used.contains(i) && occ[i].start_vertex == current
}

/// Occurrence `i` is the only one that can follow at `current`.
pub open spec fn is_sole_follower(
    occ: Seq<WireOccurrence>,
    used: Set<int>,
    current: usize,
    i: int,
) -> bool {
    can_follow(occ, used, current, i) && forall|j: int|
        #[trigger] can_follow(occ, used, current, j) ==> j == i
}

/// The occurrence that must come next at `current`, if exactly one can.
pub open spec fn sole_follower(occ: Seq<WireOccurrence>, used: Set<int>, current: usize) -> Option<
    int,
> {
    if exists|i: int| is_sole_follower(occ, used, current, i) {
        Some(choose|i: int| is_sole_follower(occ, used, current, i))
    } else {
        None
    }
}

/// Walks `steps` occurrences from `current`, taking at each vertex the one
/// unused occurrence that starts there; fails as soon as there is none or
/// more than one.
pub open spec fn walk(occ: Seq<WireOccurrence>, used: Set<int>, current: usize, steps: nat) -> Option<
    Seq<usize>,
>
    decreases steps,
{
    if steps == 0 {
        Some(Seq::empty())
    } else {
        match sole_follower(occ, used, current) {
            None => None,
            Some(i) => match walk(occ, used.insert(i), occ[i].end_vertex, (steps - 1) as nat) {
                None => None,
                Some(rest) => Some(seq![i as usize] + rest),
            },
        }
    }
}

/// The wire that the occurrences listed by `ordered` make: their edges, their
/// orientations and the vertices they pass through.
pub open spec fn ordered_wire(occ: Seq<WireOccurrence>, ordered: Seq<usize>) -> (
    Seq<usize>,
    Seq<Orientation>,
    Seq<usize>,
) {
    (
        ordered.map_values(|i: usize| occ[i as int].edge_index),
        ordered.map_values(|i: usize| occ[i as int].orientation),
        chain_vertices(occ, ordered),
    )
}

/// What ordering a wire's occurrences gives. No occurrences give an empty
/// wire; occurrences that already chain in the given order keep it;
/// otherwise the wire is walked from `walk_start`, and the result is the
/// walked chain, or `None` where the start is ambiguous or the walk fails.
pub open spec fn spec_order_wire(occ: Seq<WireOccurrence>) -> Option<
    (Seq<usize>, Seq<Orientation>, Seq<usize>),
> {
    if occ.len() == 0 {
        Some((Seq::empty(), Seq::empty(), Seq::empty()))
    } else if chains(occ, identity_order(occ.len())) {
        Some(ordered_wire(occ, identity_order(occ.len())))
    } else {
        match walk_start(occ) {
            None => None,
            Some(start) => match walk(occ, Set::empty(), start, occ.len()) {
                None => None,
                Some(ordered) => if chains(occ, ordered) {
                    Some(ordered_wire(occ, ordered))
                } else {
                    None
                },
            },
        }
    }
}

/// `prefix` followed by a walk's result, where the walk succeeded.
pub open spec fn prepend_walk(prefix: Seq<usize>, rest: Option<Seq<usize>>) -> Option<Seq<usize>> {
    match rest {
        None => None,
        Some(r) => Some(prefix + r),
    }
}

/// The set of indices that `used` marks.
pub open spec fn marked(used: Seq<bool>) -> Set<int> {
    Set::new(|i: int| 0 <= i < used.len() && used[i])
}

fn count_starts_at(occurrences: &[WireOccurrence], v: usize) -> (c: usize)
    ensures
        c == starts_at_count(occurrences@, v),
{
    let mut c: usize = 0;
    let mut k: usize = 0;
    while k < occurrences.len()
        invariant
            k <= occurrences@.len(),
            c <= k,
            c == starts_at_count(occurrences@.take(k as int), v),
        decreases occurrences.len() - k,
    {
        assert(occurrences@.take(k + 1).drop_last() =~= occurrences@.take(k as int));
        if occurrences[k].start_vertex == v {
            c += 1;
        }
        k += 1;
    }
    assert(occurrences@.take(k as int) =~= occurrences@);
    c
}

fn count_ends_at(occurrences: &[WireOccurrence], v: usize) -> (c: usize)
    ensures
        c == ends_at_count(occurrences@, v),
{
    let mut c: usize = 0;
    let mut k: usize = 0;
    while k < occurrences.len()
        invariant
            k <= occurrences@.len(),
            c <= k,
            c == ends_at_count(occurrences@.take(k as int), v),
        decreases occurrences.len() - k,
    {
        assert(occurrences@.take(k + 1).drop_last() =~= occurrences@.take(k as int));
        if occurrences[k].end_vertex == v {
            c += 1;
        }
        k += 1;
    }
    assert(occurrences@.take(k as int) =~= occurrences@);
    c
}

/// Finds the vertex from which a wire that does not chain in its given order
/// is walked (`walk_start`).
fn choose_walk_start(occurrences: &[WireOccurrence]) -> (r: Option<usize>)
    requires
        occurrences@.len() > 0,
    ensures
        r == walk_start(occurrences@),
{
    let n = occurrences.len();
    let mut found: Option<usize> = None;
    let mut ambiguous = false;
    let mut i: usize = 0;
    while i < n
        invariant
            n == occurrences@.len(),
            i <= n,
            found is None ==> forall|k: int|
                0 <= k < i ==> !is_start_candidate(
                    occurrences@,
                    #[trigger] occurrences@[k].start_vertex,
                ),
            found matches Some(w) ==> is_start_candidate(occurrences@, w),
            found is None ==> !ambiguous,
            ambiguous ==> (found matches Some(w) && exists|k: int|
                0 <= k < i && is_start_candidate(occurrences@, #[trigger] occurrences@[k].start_vertex)
                    && occurrences@[k].start_vertex != w),
            !ambiguous ==> (found matches Some(w) ==> forall|k: int|
                0 <= k < i && is_start_candidate(occurrences@, #[trigger] occurrences@[k].start_vertex)
                    ==> occurrences@[k].start_vertex == w),
        decreases n - i,
    {
        let v = occurrences[i].start_vertex;
        let out_count = count_starts_at(occurrences, v);
        let in_count = count_ends_at(occurrences, v);
        assert(exists|j: int| 0 <= j < occurrences@.len() && occurrences@[j].start_vertex == v) by {
            assert(occurrences@[i as int].start_vertex == v);
        }
        if out_count > 0 && out_count - 1 == in_count {
            match found {
                None => {
                    found = Some(v);
                },
                Some(w) => {
                    if w != v {
                        ambiguous = true;
                    }
                },
            }
        }
        i += 1;
    }
    if ambiguous {
        proof {
            let w = found->0;
            let k = choose|k: int|
                0 <= k < n && is_start_candidate(occurrences@, #[trigger] occurrences@[k].start_vertex)
                    && occurrences@[k].start_vertex != w;
            let a = occurrences@[k].start_vertex;
            assert(a != w && is_start_candidate(occurrences@, a) && is_start_candidate(occurrences@, w));
        }
        return None;
    }
    match found {
        Some(w) => {
            proof {
                assert forall|a: usize, b: usize|
                    !(a != b && is_start_candidate(occurrences@, a) && is_start_candidate(
                        occurrences@,
                        b,
                    )) by {
                    if is_start_candidate(occurrences@, a) && is_start_candidate(occurrences@, b) {
                        let ka = choose|j: int|
                            0 <= j < occurrences@.len() && occurrences@[j].start_vertex == a;
                        let kb = choose|j: int|
                            0 <= j < occurrences@.len() && occurrences@[j].start_vertex == b;
                        assert(is_start_candidate(occurrences@, occurrences@[ka].start_vertex));
                        assert(is_start_candidate(occurrences@, occurrences@[kb].start_vertex));
                    }
                }
                let c = choose|a: usize| is_start_candidate(occurrences@, a);
                let kc = choose|j: int| 0 <= j < occurrences@.len() && occurrences@[j].start_vertex == c;
                assert(is_start_candidate(occurrences@, occurrences@[kc].start_vertex));
            }
            Some(w)
        },
        None => {
            proof {
                assert forall|a: usize| !is_start_candidate(occurrences@, a) by {
                    if is_start_candidate(occurrences@, a) {
                        let ka = choose|j: int|
                            0 <= j < occurrences@.len() && occurrences@[j].start_vertex == a;
                        assert(is_start_candidate(occurrences@, occurrences@[ka].start_vertex));
                    }
                }
            }
            Some(occurrences[0].start_vertex)
        },
    }
}

/// Finds the one occurrence that can follow at `current` (`sole_follower`).
fn find_sole_follower(occurrences: &[WireOccurrence], used: &Vec<bool>, current: usize) -> (r:
    Option<usize>)
    requires
        used@.len() == occurrences@.len(),
    ensures
        match r {
            None => sole_follower(occurrences@, marked(used@), current) is None,
            Some(f) => sole_follower(occurrences@, marked(used@), current) == Some(f as int),
        },
{
    let n = occurrences.len();
    let ghost set = marked(used@);
    let mut first: Option<usize> = None;
    let mut extra = false;
    let mut j: usize = 0;
    while j < n
        invariant
            n == occurrences@.len(),
            used@.len() == n,
            set == marked(used@),
            j <= n,
            first is None ==> forall|k: int|
                0 <= k < j ==> !#[trigger] can_follow(occurrences@, set, current, k),
            first is None ==> !extra,
            first matches Some(f) ==> f < j && can_follow(occurrences@, set, current, f as int),
            first matches Some(f) ==> (!extra ==> forall|k: int|
                0 <= k < j && #[trigger] can_follow(occurrences@, set, current, k) ==> k == f),
            first matches Some(f) ==> (extra ==> exists|k: int|
                0 <= k < j && #[trigger] can_follow(occurrences@, set, current, k) && k != f),
        decreases n - j,
    {
        if !used[j] && occurrences[j].start_vertex == current {
            assert(can_follow(occurrences@, set, current, j as int));
            if first.is_none() {
                first = Some(j);
            } else {
                extra = true;
            }
        }
        j += 1;
    }
    match first {
        None => {
            assert(!exists|i: int| is_sole_follower(occurrences@, set, current, i));
            None
        },
        Some(f) => {
            if extra {
                proof {
                    assert forall|i: int| !is_sole_follower(occurrences@, set, current, i) by {
                        if is_sole_follower(occurrences@, set, current, i) {
                            let k = choose|k: int|
                                0 <= k < j && #[trigger] can_follow(occurrences@, set, current, k)
                                    && k != f;
                            assert(k == i);
                            assert(f as int == i);
                        }
                    }
                }
                None
            } else {
                proof {
                    assert(is_sole_follower(occurrences@, set, current, f as int));
                    let c = choose|i: int| is_sole_follower(occurrences@, set, current, i);
                    assert(can_follow(occurrences@, set, current, f as int));
                    assert(c == f as int);
                }
                Some(f)
            }
        },
    }
}

/// Lists the edges, orientations and vertices of the occurrences in the order
/// given by `ordered`, once `ordered` is known to chain.
fn collect_ordered_wire(
    occurrences: &[WireOccurrence],
    ordered: &Vec<usize>,
    vertices: Vec<usize>,
) -> (r: (Vec<usize>, Vec<Orientation>, Vec<usize>))
    requires
        chains(occurrences@, ordered@),
        vertices@ == chain_vertices(occurrences@, ordered@),
    ensures
        (r.0@, r.1@, r.2@) == ordered_wire(occurrences@, ordered@),
{
    let mut edges: Vec<usize> = Vec::new();
    let mut orientations: Vec<Orientation> = Vec::new();
    let mut k: usize = 0;
    while k < ordered.len()
        invariant
            chains(occurrences@, ordered@),
            k <= ordered@.len(),
            edges@ =~= ordered@.take(k as int).map_values(|i: usize| occurrences@[i as int].edge_index),
            orientations@ =~= ordered@.take(k as int).map_values(
                |i: usize| occurrences@[i as int].orientation,
            ),
        decreases ordered.len() - k,
    {
        let index = ordered[k];
        assert(index < occurrences@.len());
        edges.push(occurrences[index].edge_index);
        orientations.push(occurrences[index].orientation);
        assert(ordered@.take(k + 1) =~= ordered@.take(k as int).push(index));
        k += 1;
    }
    assert(ordered@.take(k as int) =~= ordered@);
    (edges, orientations, vertices)
}

/// Orders the occurrences of a wire into a chain, as `spec_order_wire` states.
pub fn order_wire_occurrences(occurrences: &[WireOccurrence]) -> (r: Option<
    (Vec<usize>, Vec<Orientation>, Vec<usize>),
>)
    ensures
        match r {
            None => spec_order_wire(occurrences@) is None,
            Some(t) => spec_order_wire(occurrences@) == Some((t.0@, t.1@, t.2@)),
        },
{
    let n = occurrences.len();
    if n == 0 {
        let r = (Vec::new(), Vec::new(), Vec::new());
        assert(r.0@ =~= Seq::<usize>::empty());
        assert(r.2@ =~= Seq::<usize>::empty());
        return Some(r);
    }
    let mut identity: Vec<usize> = Vec::new();
    let mut i: usize = 0;
    while i < n
        invariant
            n == occurrences@.len(),
            i <= n,
            identity@ =~= identity_order(i as nat),
        decreases n - i,
    {
        identity.push(i);
        i += 1;
    }
    assert(identity@ =~= identity_order(n as nat));
    if let Some(vertices) = chain_wire_occurrences(occurrences, identity.as_slice()) {
        return Some(collect_ordered_wire(occurrences, &identity, vertices));
    }
    let start_vertex = match choose_walk_start(occurrences) {
        Some(v) => v,
        None => return None,
    };

    let mut used: Vec<bool> = Vec::new();
    let mut u: usize = 0;
    while u < n
        invariant
            n == occurrences@.len(),
            u <= n,
            used@.len() == u,
            forall|k: int| 0 <= k < u ==> !used@[k],
        decreases n - u,
    {
        used.push(false);
        u += 1;
    }
    assert(marked(used@) =~= Set::<int>::empty());

    let mut ordered: Vec<usize> = Vec::new();
    let mut current_vertex = start_vertex;
    while ordered.len() < n
        invariant
            n == occurrences@.len(),
            used@.len() == n,
            ordered@.len() <= n,
            forall|k: int| 0 <= k < ordered@.len() ==> (#[trigger] ordered@[k]) < n,
            !chains(occurrences@, identity_order(n as nat)),
            walk_start(occurrences@) == Some(start_vertex),
            walk(occurrences@, Set::empty(), start_vertex, n as nat) == prepend_walk(
                ordered@,
                walk(occurrences@, marked(used@), current_vertex, (n - ordered@.len()) as nat),
            ),
        decreases n - ordered.len(),
    {
        let ghost remaining = (n - ordered@.len()) as nat;
        let ghost before = marked(used@);
        let next = find_sole_follower(occurrences, &used, current_vertex);
        let index = match next {
            None => {
                assert(remaining > 0);
                assert(walk(occurrences@, before, current_vertex, remaining) is None);
                return None;
            },
            Some(index) => index,
        };
        proof {
            assert(sole_follower(occurrences@, before, current_vertex) == Some(index as int));
        }
        used.set(index, true);
        assert(marked(used@) =~= before.insert(index as int));
        let ghost old_ordered = ordered@;
        let ghost old_current = current_vertex;
        ordered.push(index);
        current_vertex = occurrences[index].end_vertex;
        proof {
            let w = walk(occurrences@, marked(used@), current_vertex, (remaining - 1) as nat);
            assert(walk(occurrences@, before, old_current, remaining) == prepend_walk(
                seq![index],
                w,
            ));
            match w {
                None => {},
                Some(rest) => {
                    assert(old_ordered + (seq![index] + rest) =~= ordered@ + rest);
                },
            }
        }
    }
    assert(walk(occurrences@, marked(used@), current_vertex, 0) == Some(Seq::<usize>::empty()));
    assert(ordered@ + Seq::<usize>::empty() =~= ordered@);
    match chain_wire_occurrences(occurrences, ordered.as_slice()) {
        None => None,
        Some(vertices) => Some(collect_ordered_wire(occurrences, &ordered, vertices)),
    }
}


// ---------------------------------------------------------------------------
// Laws of the ordering.
// ---------------------------------------------------------------------------

/// `ordered` lists each of the indices `0 .. n` exactly once.
pub open spec fn is_index_permutation(ordered: Seq<usize>, n: nat) -> bool {
    &&& ordered.len() == n
    &&& forall|k: int| 0 <= k < ordered.len() ==> (#[trigger] ordered[k]) < n
    &&& forall|k1: int, k2: int|
        0 <= k1 < ordered.len() && 0 <= k2 < ordered.len() && k1 != k2 ==> (#[trigger] ordered[k1])
            != #[trigger] ordered[k2]
}

/// A successful walk takes `steps` occurrences, each in bounds, none of them
/// already used, and none twice.
pub proof fn lemma_walk_takes_distinct_unused(
    occ: Seq<WireOccurrence>,
    used: Set<int>,
    current: usize,
    steps: nat,
)
    requires
        walk(occ, used, current, steps) is Some,
        occ.len() <= usize::MAX,
    ensures
        ({
            let r = walk(occ, used, current, steps)->0;
            &&& r.len() == steps
            &&& forall|k: int| 0 <= k < r.len() ==> (#[trigger] r[k]) < occ.len()
            &&& forall|k: int| 0 <= k < r.len() ==> !used.contains(#[trigger] r[k] as int)
            &&& forall|k1: int, k2: int|
                0 <= k1 < r.len() && 0 <= k2 < r.len() && k1 != k2 ==> (#[trigger] r[k1])
                    != #[trigger] r[k2]
        }),
    decreases steps,
{
    if steps > 0 {
        let i = sole_follower(occ, used, current)->0;
        assert(is_sole_follower(occ, used, current, i));
        let next_used = used.insert(i);
        lemma_walk_takes_distinct_unused(occ, next_used, occ[i].end_vertex, (steps - 1) as nat);
        let rest = walk(occ, next_used, occ[i].end_vertex, (steps - 1) as nat)->0;
        let r = seq![i as usize] + rest;
        assert(walk(occ, used, current, steps)->0 == r);
        assert(r[0] as int == i);
        assert forall|k: int| 0 <= k < r.len() implies (#[trigger] r[k]) < occ.len() by {
            if k > 0 {
                assert(r[k] == rest[k - 1]);
            }
        }
        assert forall|k: int| 0 <= k < r.len() implies !used.contains(#[trigger] r[k] as int) by {
            if k > 0 {
                assert(r[k] == rest[k - 1]);
                assert(!next_used.contains(rest[k - 1] as int));
            }
        }
        assert forall|k1: int, k2: int|
            0 <= k1 < r.len() && 0 <= k2 < r.len() && k1 != k2 implies (#[trigger] r[k1])
                != #[trigger] r[k2] by {
            if k1 > 0 {
                assert(r[k1] == rest[k1 - 1]);
                assert(!next_used.contains(rest[k1 - 1] as int));
            }
            if k2 > 0 {
                assert(r[k2] == rest[k2 - 1]);
                assert(!next_used.contains(rest[k2 - 1] as int));
            }
        }
    }
}

/// The identity order lists each index once.
pub proof fn lemma_identity_is_permutation(n: nat)
    requires
        n <= usize::MAX,
    ensures
        is_index_permutation(identity_order(n), n),
{
}

/// Whatever ordering a wire's occurrences get uses each occurrence exactly
/// once, and each occurrence starts where the previous one ends: the edges,
/// orientations and vertices are those of a chain through all occurrences.
pub proof fn lemma_order_wire_is_chain_of_all(occ: Seq<WireOccurrence>)
    requires
        spec_order_wire(occ) is Some,
        0 < occ.len() <= usize::MAX,
    ensures
        exists|ordered: Seq<usize>|
            #![trigger ordered_wire(occ, ordered)]
            is_index_permutation(ordered, occ.len()) && chains(occ, ordered) && spec_order_wire(
                occ,
            ) == Some(ordered_wire(occ, ordered)),
{
    let n = occ.len();
    if chains(occ, identity_order(n)) {
        let ordered = identity_order(n);
        assert(is_index_permutation(ordered, n));
        assert(spec_order_wire(occ) == Some(ordered_wire(occ, ordered)));
    } else {
        let start = walk_start(occ)->0;
        lemma_walk_takes_distinct_unused(occ, Set::empty(), start, n);
        let ordered = walk(occ, Set::empty(), start, n)->0;
        assert(is_index_permutation(ordered, n));
        assert(spec_order_wire(occ) == Some(ordered_wire(occ, ordered)));
    }
}

/// Occurrences that already chain in their given order keep that order.
pub proof fn lemma_order_wire_keeps_chained_order(occ: Seq<WireOccurrence>)
    requires
        chains(occ, identity_order(occ.len())),
    ensures
        spec_order_wire(occ) == Some(ordered_wire(occ, identity_order(occ.len()))),
{
}

/// An ordered wire has one more vertex than it has edges, and as many
/// orientations as edges.
pub proof fn lemma_order_wire_lengths(occ: Seq<WireOccurrence>)
    requires
        spec_order_wire(occ) is Some,
        0 < occ.len() <= usize::MAX,
    ensures
        ({
            let t = spec_order_wire(occ)->0;
            &&& t.0.len() == occ.len()
            &&& t.1.len() == occ.len()
            &&& t.2.len() == occ.len() + 1
        }),
{
    lemma_order_wire_is_chain_of_all(occ);
}


// ---------------------------------------------------------------------------
// Matching occurrences and wires against the root topology.
// ---------------------------------------------------------------------------

/// A root edge joins the two vertices, in either direction.
pub open spec fn spec_matches_edge_vertices(edge: TopologyEdgeVertices, start: usize, end: usize) -> bool {
    match (edge.start_vertex, edge.end_vertex) {
        (Some(s), Some(e)) => (s == start && e == end) || (s == end && e == start),
        _ => false,
    }
}

pub fn matches_edge_vertices(root_edge: &TopologyEdgeVertices, start_vertex: usize, end_vertex: usize) -> (r: bool)
    ensures
        r == spec_matches_edge_vertices(*root_edge, start_vertex, end_vertex),
{
    match (root_edge.start_vertex, root_edge.end_vertex) {
        (Some(root_start), Some(root_end)) => (root_start == start_vertex && root_end == end_vertex)
            || (root_start == end_vertex && root_end == start_vertex),
        _ => false,
    }
}

/// The vertices a root edge goes between when used with `orientation`:
/// swapped for a reversed use; none unless both ends are known.
pub open spec fn spec_oriented_vertices(edge: TopologyEdgeVertices, orientation: Orientation) -> Option<(usize, usize)> {
    match (edge.start_vertex, edge.end_vertex) {
        (Some(s), Some(e)) => if orientation == Orientation::Reversed {
            Some((e, s))
        } else {
            Some((s, e))
        },
        _ => None,
    }
}

pub fn oriented_root_edge_vertices(root_edge: &TopologyEdgeVertices, orientation: Orientation) -> (r: Option<(usize, usize)>)
    ensures
        r == spec_oriented_vertices(*root_edge, orientation),
{
    let start_vertex = match root_edge.start_vertex {
        Some(v) => v,
        None => return None,
    };
    let end_vertex = match root_edge.end_vertex {
        Some(v) => v,
        None => return None,
    };
    Some(match orientation {
        Orientation::Reversed => (end_vertex, start_vertex),
        _ => (start_vertex, end_vertex),
    })
}

/// The edge uses of a wire in the order a face walks them: as recorded for a
/// wire used forward, and for a wire used reversed, back to front with each
/// use reversed. Edges and orientations are paired up to the shorter list.
pub open spec fn spec_oriented_uses(
    edges: Seq<usize>,
    orientations: Seq<Orientation>,
    wire_orientation: Orientation,
) -> Seq<(usize, Orientation)> {
    let n = if edges.len() <= orientations.len() {
        edges.len()
    } else {
        orientations.len()
    };
    if wire_orientation == Orientation::Reversed {
        Seq::new(
            n,
            |k: int| (edges[n - 1 - k], spec_reversed(orientations[n - 1 - k])),
        )
    } else {
        Seq::new(n, |k: int| (edges[k], orientations[k]))
    }
}

pub fn oriented_wire_edges(wire: &BrepWire, wire_orientation: Orientation) -> (r: Vec<(usize, Orientation)>)
    ensures
        r@ == spec_oriented_uses(wire.edge_indices@, wire.edge_orientations@, wire_orientation),
{
    let n = if wire.edge_indices.len() <= wire.edge_orientations.len() {
        wire.edge_indices.len()
    } else {
        wire.edge_orientations.len()
    };
    let ghost e = wire.edge_indices@;
    let ghost o = wire.edge_orientations@;
    let mut uses: Vec<(usize, Orientation)> = Vec::new();
    if wire_orientation == Orientation::Reversed {
        let mut k: usize = 0;
        while k < n
            invariant
                n <= e.len(),
                n <= o.len(),
                e == wire.edge_indices@,
                o == wire.edge_orientations@,
                k <= n,
                uses@ =~= Seq::new(k as nat, |j: int| (e[n - 1 - j], spec_reversed(o[n - 1 - j]))),
            decreases n - k,
        {
            let j = n - 1 - k;
            uses.push((wire.edge_indices[j], reversed_orientation(wire.edge_orientations[j])));
            k += 1;
        }
    } else {
        let mut k: usize = 0;
        while k < n
            invariant
                n <= e.len(),
                n <= o.len(),
                e == wire.edge_indices@,
                o == wire.edge_orientations@,
                k <= n,
                uses@ =~= Seq::new(k as nat, |j: int| (e[j], o[j])),
            decreases n - k,
        {
            uses.push((wire.edge_indices[k], wire.edge_orientations[k]));
            k += 1;
        }
    }
    uses
}

/// Walking a wire reversed twice gives back its uses as recorded.
pub proof fn lemma_oriented_uses_reverse_twice(uses: Seq<(usize, Orientation)>)
    ensures
        ({
            let once = spec_oriented_uses(
                uses.map_values(|u: (usize, Orientation)| u.0),
                uses.map_values(|u: (usize, Orientation)| u.1),
                Orientation::Reversed,
            );
            spec_oriented_uses(
                once.map_values(|u: (usize, Orientation)| u.0),
                once.map_values(|u: (usize, Orientation)| u.1),
                Orientation::Reversed,
            ) =~= uses
        }),
{
}

/// Two wires record the same edges, orientations and vertices.
pub open spec fn same_wire(a: RootWireTopology, b: RootWireTopology) -> bool {
    a.edge_indices@ == b.edge_indices@ && a.edge_orientations@ == b.edge_orientations@
        && a.vertex_indices@ == b.vertex_indices@
}

fn same_indices(a: &Vec<usize>, b: &Vec<usize>) -> (r: bool)
    ensures
        r == (a@ == b@),
{
    if a.len() != b.len() {
        return false;
    }
    let mut k: usize = 0;
    while k < a.len()
        invariant
            a@.len() == b@.len(),
            k <= a@.len(),
            forall|j: int| 0 <= j < k ==> a@[j] == b@[j],
        decreases a.len() - k,
    {
        if a[k] != b[k] {
            return false;
        }
        k += 1;
    }
    assert(a@ =~= b@);
    true
}

fn same_orientations(a: &Vec<Orientation>, b: &Vec<Orientation>) -> (r: bool)
    ensures
        r == (a@ == b@),
{
    if a.len() != b.len() {
        return false;
    }
    let mut k: usize = 0;
    while k < a.len()
        invariant
            a@.len() == b@.len(),
            k <= a@.len(),
            forall|j: int| 0 <= j < k ==> a@[j] == b@[j],
        decreases a.len() - k,
    {
        if a[k] != b[k] {
            return false;
        }
        k += 1;
    }
    assert(a@ =~= b@);
    true
}

/// Whether two wires record the same edges, orientations and vertices.
pub fn same_root_wire(a: &RootWireTopology, b: &RootWireTopology) -> (r: bool)
    ensures
        r == same_wire(*a, *b),
{
    same_indices(&a.edge_indices, &b.edge_indices) && same_orientations(
        &a.edge_orientations,
        &b.edge_orientations,
    ) && same_indices(&a.vertex_indices, &b.vertex_indices)
}

/// Whether the indices hold `x`.
pub fn contains_index(set: &Vec<usize>, x: usize) -> (r: bool)
    ensures
        r == set@.contains(x),
{
    let mut k: usize = 0;
    while k < set.len()
        invariant
            k <= set@.len(),
            forall|j: int| 0 <= j < k ==> set@[j] != x,
        decreases set.len() - k,
    {
        if set[k] == x {
            assert(set@[k as int] == x);
            return true;
        }
        k += 1;
    }
    false
}

/// Root wire `i` is still free and records the same wire as the face's.
pub open spec fn wire_matches(
    root_wires: Seq<RootWireTopology>,
    face_wire: RootWireTopology,
    used: Seq<usize>,
    i: int,
) -> bool {
    !used.contains(i as usize) && same_wire(root_wires[i], face_wire)
}

/// The first root wire that is still free and records the same wire as the
/// face's; none if there is none.
pub fn match_root_wire_index(
    root_wires: &[RootWireTopology],
    face_wire_topology: &RootWireTopology,
    used_root_wire_indices: &Vec<usize>,
) -> (r: Option<usize>)
    ensures
        match r {
            None => forall|i: int|
                0 <= i < root_wires@.len() ==> !#[trigger] wire_matches(
                    root_wires@,
                    *face_wire_topology,
                    used_root_wire_indices@,
                    i,
                ),
            Some(i) => i < root_wires@.len() && wire_matches(
                root_wires@,
                *face_wire_topology,
                used_root_wire_indices@,
                i as int,
            ) && forall|j: int|
                0 <= j < i ==> !#[trigger] wire_matches(
                    root_wires@,
                    *face_wire_topology,
                    used_root_wire_indices@,
                    j,
                ),
        },
{
    let mut i: usize = 0;
    while i < root_wires.len()
        invariant
            i <= root_wires@.len(),
            forall|j: int|
                0 <= j < i ==> !#[trigger] wire_matches(
                    root_wires@,
                    *face_wire_topology,
                    used_root_wire_indices@,
                    j,
                ),
        decreases root_wires.len() - i,
    {
        if !contains_index(used_root_wire_indices, i) && same_root_wire(
            &root_wires[i],
            face_wire_topology,
        ) {
            return Some(i);
        }
        i += 1;
    }
    None
}


// ---------------------------------------------------------------------------
// Reading a wire out of its own topology snapshot.
// ---------------------------------------------------------------------------

/// What geometry tells about a wire's own topology snapshot, for matching it
/// against the root topology: for each local vertex, the root vertex at the
/// same position (if exactly one); for each local edge, the root edges with
/// the same curve kind and length, in increasing order, or the kernel's
/// error when its geometry could not be read.
pub struct WireSnapshotFacts {
    pub vertex_matches: Vec<Option<usize>>,
    pub edge_candidates: Vec<Result<Vec<usize>, Error>>,
}

/// What one edge occurrence of the snapshot gives.
pub enum SnapshotStep {
    /// A lookup failed, with this message.
    Fail(Seq<char>),
    /// The occurrence cannot be matched to exactly one root edge with known ends.
    Reject,
    /// The occurrence is root edge `edge`, used with `orientation`, from
    /// vertex `start` to vertex `end`.
    Accept { edge: usize, orientation: Orientation, start: usize, end: usize },
}

/// How far reading the occurrences got.
pub enum SnapshotProgress {
    Failed(Seq<char>),
    Rejected,
    Building { edges: Seq<usize>, orientations: Seq<Orientation>, vertices: Seq<usize> },
}

/// The root vertex that local vertex `i` is at, if any.
pub open spec fn local_vertex_match(facts: WireSnapshotFacts, i: usize) -> Option<usize> {
    if i < facts.vertex_matches@.len() {
        facts.vertex_matches@[i as int]
    } else {
        None
    }
}

/// Root edge `r` joins the two vertices, where both are known.
pub open spec fn fits_vertices(
    root_edges: Seq<TopologyEdgeVertices>,
    r: usize,
    start: Option<usize>,
    end: Option<usize>,
) -> bool {
    match (start, end) {
        (Some(s), Some(e)) => spec_matches_edge_vertices(root_edges[r as int], s, e),
        _ => true,
    }
}

/// A known vertex, or else the one the matched root edge gives.
pub open spec fn or_root_end(v: Option<usize>, fallback: Option<usize>) -> Option<usize> {
    match v {
        Some(x) => Some(x),
        None => fallback,
    }
}

/// What occurrence `k` of the snapshot's single wire gives.
pub open spec fn snapshot_step(
    t: TopologyTables,
    facts: WireSnapshotFacts,
    root_edges: Seq<TopologyEdgeVertices>,
    k: int,
) -> SnapshotStep {
    let wr = t.wires@[0];
    let vr = t.wire_vertices@[0];
    let weo = wr.offset + k;
    let si = vr.offset + k;
    if weo >= t.wire_edge_indices@.len() {
        SnapshotStep::Fail("wire topology is missing edge occurrence "@ + decimal(weo as nat))
    } else if weo >= t.wire_edge_orientations@.len() {
        SnapshotStep::Fail("wire topology is missing edge orientation "@ + decimal(weo as nat))
    } else {
        let lei = t.wire_edge_indices@[weo];
        let orientation = t.wire_edge_orientations@[weo];
        if lei >= facts.edge_candidates@.len() {
            SnapshotStep::Fail(
                "wire topology referenced local edge index "@ + decimal(lei as nat)
                    + " outside the edge map"@,
            )
        } else if si >= t.wire_vertex_indices@.len() {
            SnapshotStep::Fail("wire topology is missing start vertex occurrence "@ + decimal(si as nat))
        } else if si + 1 >= t.wire_vertex_indices@.len() {
            SnapshotStep::Fail(
                "wire topology is missing end vertex occurrence "@ + decimal((si + 1) as nat),
            )
        } else {
            let sv = local_vertex_match(facts, t.wire_vertex_indices@[si]);
            let ev = local_vertex_match(facts, t.wire_vertex_indices@[si + 1]);
            match facts.edge_candidates@[lei as int] {
                Err(e) => SnapshotStep::Fail(e@),
                Ok(candidates) => {
                    let ms = candidates@.filter(|r: usize| fits_vertices(root_edges, r, sv, ev));
                    if ms.len() != 1 {
                        SnapshotStep::Reject
                    } else {
                        let oriented = spec_oriented_vertices(root_edges[ms[0] as int], orientation);
                        let s = or_root_end(
                            sv,
                            match oriented {
                                Some(p) => Some(p.0),
                                None => None,
                            },
                        );
                        let e = or_root_end(
                            ev,
                            match oriented {
                                Some(p) => Some(p.1),
                                None => None,
                            },
                        );
                        match (s, e) {
                            (Some(s), Some(e)) => SnapshotStep::Accept {
                                edge: ms[0],
                                orientation,
                                start: s,
                                end: e,
                            },
                            _ => SnapshotStep::Reject,
                        }
                    }
                },
            }
        }
    }
}

/// The progress after the first `k` occurrences: each accepted occurrence
/// must start where the previous one ended.
pub open spec fn snapshot_progress(
    t: TopologyTables,
    facts: WireSnapshotFacts,
    root_edges: Seq<TopologyEdgeVertices>,
    k: nat,
) -> SnapshotProgress
    decreases k,
{
    if k == 0 {
        SnapshotProgress::Building {
            edges: Seq::empty(),
            orientations: Seq::empty(),
            vertices: Seq::empty(),
        }
    } else {
        match snapshot_progress(t, facts, root_edges, (k - 1) as nat) {
            SnapshotProgress::Building { edges, orientations, vertices } => match snapshot_step(
                t,
                facts,
                root_edges,
                k - 1,
            ) {
                SnapshotStep::Fail(m) => SnapshotProgress::Failed(m),
                SnapshotStep::Reject => SnapshotProgress::Rejected,
                SnapshotStep::Accept { edge, orientation, start, end } => if vertices.len() > 0
                    && vertices.last() != start {
                    SnapshotProgress::Rejected
                } else {
                    SnapshotProgress::Building {
                        edges: edges.push(edge),
                        orientations: orientations.push(orientation),
                        vertices: if vertices.len() == 0 {
                            seq![start, end]
                        } else {
                            vertices.push(end)
                        },
                    }
                },
            },
            other => other,
        }
    }
}

/// Once reading has failed or been rejected, later occurrences change nothing.
proof fn lemma_progress_stops(
    t: TopologyTables,
    facts: WireSnapshotFacts,
    root_edges: Seq<TopologyEdgeVertices>,
    k: nat,
    n: nat,
)
    requires
        k <= n,
        !(snapshot_progress(t, facts, root_edges, k) is Building),
    ensures
        snapshot_progress(t, facts, root_edges, n) == snapshot_progress(t, facts, root_edges, k),
    decreases n - k,
{
    if k < n {
        lemma_progress_stops(t, facts, root_edges, k, (n - 1) as nat);
    }
}

proof fn lemma_progress_lengths(
    t: TopologyTables,
    facts: WireSnapshotFacts,
    root_edges: Seq<TopologyEdgeVertices>,
    k: nat,
)
    ensures
        snapshot_progress(t, facts, root_edges, k) matches SnapshotProgress::Building {
            edges,
            orientations,
            vertices,
        } ==> edges.len() == k && orientations.len() == k && vertices.len() == (if k == 0 {
            0
        } else {
            k + 1
        }),
    decreases k,
{
    if k > 0 {
        lemma_progress_lengths(t, facts, root_edges, (k - 1) as nat);
    }
}

/// A wire read from its own snapshot is a chain: one edge and one
/// orientation per occurrence of the snapshot's wire, and one more vertex
/// than edges.
pub proof fn lemma_snapshot_wire_is_chain(
    t: TopologyTables,
    facts: WireSnapshotFacts,
    root_edges: Seq<TopologyEdgeVertices>,
)
    requires
        spec_snapshot_wire(t, facts, root_edges) is Ok,
        spec_snapshot_wire(t, facts, root_edges)->Ok_0 is Some,
    ensures
        ({
            let w = spec_snapshot_wire(t, facts, root_edges)->Ok_0->Some_0;
            &&& w.0.len() == t.wires@[0].count
            &&& w.1.len() == w.0.len()
            &&& w.2.len() == w.0.len() + 1
        }),
{
    lemma_progress_lengths(t, facts, root_edges, t.wires@[0].count as nat);
}

/// While reading goes on, each entry read so far is what the step of its
/// occurrence accepted: its edge and orientation, and the vertices it runs
/// between.
proof fn lemma_progress_entries(
    t: TopologyTables,
    facts: WireSnapshotFacts,
    root_edges: Seq<TopologyEdgeVertices>,
    k: nat,
)
    ensures
        snapshot_progress(t, facts, root_edges, k) matches SnapshotProgress::Building {
            edges,
            orientations,
            vertices,
        } ==> {
            &&& edges.len() == k
            &&& orientations.len() == k
            &&& vertices.len() == (if k == 0 {
                0
            } else {
                k + 1
            })
            &&& forall|j: int|
                0 <= j < k ==> (#[trigger] snapshot_step(t, facts, root_edges, j) matches SnapshotStep::Accept {
                    edge,
                    orientation,
                    start,
                    end,
                } && edge == edges[j] && orientation == orientations[j] && start == vertices[j]
                    && end == vertices[j + 1])
        },
    decreases k,
{
    if k > 0 {
        lemma_progress_entries(t, facts, root_edges, (k - 1) as nat);
    }
}

/// What an accepted step takes from the snapshot and the facts: the
/// occurrence's own orientation, a candidate of its local edge, and the
/// root vertex at each of its ends where that vertex was located.
proof fn lemma_accepted_step(
    t: TopologyTables,
    facts: WireSnapshotFacts,
    root_edges: Seq<TopologyEdgeVertices>,
    j: int,
)
    requires
        0 <= j,
        snapshot_step(t, facts, root_edges, j) is Accept,
    ensures
        ({
            let step = snapshot_step(t, facts, root_edges, j);
            let weo = t.wires@[0].offset + j;
            let si = t.wire_vertices@[0].offset + j;
            &&& 0 <= weo < t.wire_edge_orientations@.len()
            &&& 0 <= weo < t.wire_edge_indices@.len()
            &&& step->orientation == t.wire_edge_orientations@[weo]
            &&& t.wire_edge_indices@[weo] < facts.edge_candidates@.len()
            &&& facts.edge_candidates@[t.wire_edge_indices@[weo] as int] is Ok
            &&& facts.edge_candidates@[t.wire_edge_indices@[weo] as int]->Ok_0@.contains(step->edge)
            &&& 0 <= si && si + 1 < t.wire_vertex_indices@.len()
            &&& local_vertex_match(facts, t.wire_vertex_indices@[si]) matches Some(x) ==> step->start
                == x
            &&& local_vertex_match(facts, t.wire_vertex_indices@[si + 1]) matches Some(x)
                ==> step->end == x
        }),
{
    let weo = t.wires@[0].offset + j;
    let lei = t.wire_edge_indices@[weo];
    let si = t.wire_vertices@[0].offset + j;
    let sv = local_vertex_match(facts, t.wire_vertex_indices@[si]);
    let ev = local_vertex_match(facts, t.wire_vertex_indices@[si + 1]);
    let candidates = facts.edge_candidates@[lei as int]->Ok_0;
    let pred = |r: usize| fits_vertices(root_edges, r, sv, ev);
    let ms = candidates@.filter(pred);
    assert(ms.len() == 1);
    assert(ms.contains(ms[0]));
    candidates@.lemma_filter_contains_rev(pred, ms[0]);
}

/// A wire read from its own snapshot follows the snapshot: the wire's k-th
/// orientation is the orientation of the snapshot's k-th occurrence, its
/// k-th edge is one of the root edges that match that occurrence's local
/// edge, and wherever a local vertex of the occurrence was located in the
/// root topology, the wire passes through that root vertex there.
pub proof fn lemma_snapshot_wire_follows_snapshot(
    t: TopologyTables,
    facts: WireSnapshotFacts,
    root_edges: Seq<TopologyEdgeVertices>,
)
    requires
        spec_snapshot_wire(t, facts, root_edges) is Ok,
        spec_snapshot_wire(t, facts, root_edges)->Ok_0 is Some,
    ensures
        ({
            let w = spec_snapshot_wire(t, facts, root_edges)->Ok_0->Some_0;
            let eo = t.wires@[0].offset;
            let vo = t.wire_vertices@[0].offset;
            forall|k: int|
                0 <= k < t.wires@[0].count ==> {
                    &&& #[trigger] w.1[k] == t.wire_edge_orientations@[eo + k]
                    &&& facts.edge_candidates@[t.wire_edge_indices@[eo + k] as int] is Ok
                    &&& facts.edge_candidates@[t.wire_edge_indices@[eo + k] as int]->Ok_0@.contains(
                        w.0[k],
                    )
                    &&& local_vertex_match(facts, t.wire_vertex_indices@[vo + k]) matches Some(x)
                        ==> w.2[k] == x
                    &&& local_vertex_match(facts, t.wire_vertex_indices@[vo + k + 1]) matches Some(x)
                        ==> w.2[k + 1] == x
                }
        }),
{
    let n = t.wires@[0].count as nat;
    lemma_progress_entries(t, facts, root_edges, n);
    let w = spec_snapshot_wire(t, facts, root_edges)->Ok_0->Some_0;
    assert forall|k: int| 0 <= k < t.wires@[0].count implies {
        let eo = t.wires@[0].offset;
        let vo = t.wire_vertices@[0].offset;
        &&& #[trigger] w.1[k] == t.wire_edge_orientations@[eo + k]
        &&& facts.edge_candidates@[t.wire_edge_indices@[eo + k] as int] is Ok
        &&& facts.edge_candidates@[t.wire_edge_indices@[eo + k] as int]->Ok_0@.contains(w.0[k])
        &&& local_vertex_match(facts, t.wire_vertex_indices@[vo + k]) matches Some(x) ==> w.2[k] == x
        &&& local_vertex_match(facts, t.wire_vertex_indices@[vo + k + 1]) matches Some(x) ==> w.2[k
            + 1] == x
    } by {
        assert(snapshot_step(t, facts, root_edges, k) is Accept);
        lemma_accepted_step(t, facts, root_edges, k);
    }
}

/// The snapshot holds exactly one wire and no face, with one more vertex
/// occurrence than edge occurrences and at least one edge.
pub open spec fn snapshot_is_single_wire(t: TopologyTables) -> bool {
    &&& t.faces@.len() == 0
    &&& t.wires@.len() == 1
    &&& t.wires@[0].count != 0
    &&& t.wire_vertices@[0].count == t.wires@[0].count + 1
}

/// The root-topology wire that a wire's own snapshot describes: `Ok(None)`
/// unless the snapshot is a single wire and every occurrence is matched and
/// chained; an error for the first lookup that fails.
pub open spec fn spec_snapshot_wire(
    t: TopologyTables,
    facts: WireSnapshotFacts,
    root_edges: Seq<TopologyEdgeVertices>,
) -> Result<Option<(Seq<usize>, Seq<Orientation>, Seq<usize>)>, Seq<char>> {
    if !snapshot_is_single_wire(t) {
        Ok(None)
    } else {
        match snapshot_progress(t, facts, root_edges, t.wires@[0].count as nat) {
            SnapshotProgress::Failed(m) => Err(m),
            SnapshotProgress::Rejected => Ok(None),
            SnapshotProgress::Building { edges, orientations, vertices } => Ok(
                Some((edges, orientations, vertices)),
            ),
        }
    }
}

/// The root edges among `candidates` that join the two vertices, where both
/// are known.
fn fitting_root_edges(
    root_edges: &[TopologyEdgeVertices],
    candidates: &Vec<usize>,
    start: Option<usize>,
    end: Option<usize>,
) -> (r: Vec<usize>)
    requires
        forall|i: int| 0 <= i < candidates@.len() ==> (#[trigger] candidates@[i]) < root_edges@.len(),
    ensures
        r@ == candidates@.filter(|c: usize| fits_vertices(root_edges@, c, start, end)),
        forall|i: int| 0 <= i < r@.len() ==> (#[trigger] r@[i]) < root_edges@.len(),
{
    let ghost pred = |c: usize| fits_vertices(root_edges@, c, start, end);
    let mut out: Vec<usize> = Vec::new();
    let mut k: usize = 0;
    while k < candidates.len()
        invariant
            forall|i: int| 0 <= i < candidates@.len() ==> (#[trigger] candidates@[i]) < root_edges@.len(),
            k <= candidates@.len(),
            pred == (|c: usize| fits_vertices(root_edges@, c, start, end)),
            out@ == candidates@.take(k as int).filter(pred),
            forall|i: int| 0 <= i < out@.len() ==> (#[trigger] out@[i]) < root_edges@.len(),
        decreases candidates.len() - k,
    {
        let c = candidates[k];
        let fits = match (start, end) {
            (Some(s), Some(e)) => matches_edge_vertices(&root_edges[c], s, e),
            _ => true,
        };
        proof {
            reveal_with_fuel(Seq::<_>::filter, 1);
            assert(candidates@.take(k + 1).drop_last() =~= candidates@.take(k as int));
            assert(fits == pred(c));
        }
        if fits {
            out.push(c);
        }
        k += 1;
    }
    assert(candidates@.take(k as int) =~= candidates@);
    out
}

/// Reads the single wire of a wire's own topology snapshot as a wire of the
/// root topology, as `spec_snapshot_wire` states.
pub fn root_wire_topology_from_snapshot(
    topology: &TopologyTables,
    facts: &WireSnapshotFacts,
    root_edges: &[TopologyEdgeVertices],
) -> (r: Result<Option<RootWireTopology>, Error>)
    requires
        topology.faces@.len() == 0 && topology.wires@.len() == 1 ==> topology.wire_vertices@.len()
            >= 1,
        topology.faces@.len() == 0 && topology.wires@.len() == 1 && topology.wire_vertices@.len()
            >= 1 ==> {
            &&& topology.wires@[0].offset + topology.wires@[0].count <= usize::MAX
            &&& topology.wires@[0].count < usize::MAX
            &&& topology.wire_vertices@[0].offset + topology.wire_vertices@[0].count <= usize::MAX
        },
        forall|l: int|
            0 <= l < facts.edge_candidates@.len() ==> match #[trigger] facts.edge_candidates@[l] {
                Ok(c) => forall|i: int| 0 <= i < c@.len() ==> (#[trigger] c@[i]) < root_edges@.len(),
                Err(_) => true,
            },
    ensures
        match spec_snapshot_wire(*topology, *facts, root_edges@) {
            Err(m) => r matches Err(e) && e@ == m,
            Ok(None) => r matches Ok(None),
            Ok(Some(w)) => r matches Ok(Some(x)) && (x.edge_indices@, x.edge_orientations@, x.vertex_indices@) == w,
        },
{
    if topology.faces.len() != 0 || topology.wires.len() != 1 {
        return Ok(None);
    }
    let wire_range = topology.wires[0];
    let vertex_range = topology.wire_vertices[0];
    if wire_range.count == 0 || vertex_range.count != wire_range.count + 1 {
        return Ok(None);
    }
    let ghost t = *topology;
    let ghost f = *facts;
    let ghost re = root_edges@;
    let mut edge_indices: Vec<usize> = Vec::new();
    let mut edge_orientations: Vec<Orientation> = Vec::new();
    let mut ordered_vertices: Vec<usize> = Vec::new();
    let mut k: usize = 0;
    while k < wire_range.count
        invariant
            t == *topology,
            f == *facts,
            re == root_edges@,
            snapshot_is_single_wire(t),
            wire_range == t.wires@[0],
            vertex_range == t.wire_vertices@[0],
            wire_range.offset + wire_range.count <= usize::MAX,
            vertex_range.offset + vertex_range.count <= usize::MAX,
            vertex_range.count == wire_range.count + 1,
            k <= wire_range.count,
            forall|l: int|
                0 <= l < facts.edge_candidates@.len() ==> match #[trigger] facts.edge_candidates@[l] {
                    Ok(c) => forall|i: int| 0 <= i < c@.len() ==> (#[trigger] c@[i]) < root_edges@.len(),
                    Err(_) => true,
                },
            snapshot_progress(t, f, re, k as nat) == (SnapshotProgress::Building {
                edges: edge_indices@,
                orientations: edge_orientations@,
                vertices: ordered_vertices@,
            }),
        decreases wire_range.count - k,
    {
        let ghost step = snapshot_step(t, f, re, k as int);
        let wire_edge_offset = wire_range.offset + k;
        if wire_edge_offset >= topology.wire_edge_indices.len() {
            proof { lemma_progress_stops(t, f, re, (k + 1) as nat, wire_range.count as nat); }
            return Err(indexed_error("wire topology is missing edge occurrence ", wire_edge_offset));
        }
        let local_edge_index = topology.wire_edge_indices[wire_edge_offset];
        if wire_edge_offset >= topology.wire_edge_orientations.len() {
            proof { lemma_progress_stops(t, f, re, (k + 1) as nat, wire_range.count as nat); }
            return Err(indexed_error("wire topology is missing edge orientation ", wire_edge_offset));
        }
        let orientation = topology.wire_edge_orientations[wire_edge_offset];
        if local_edge_index >= facts.edge_candidates.len() {
            let mut s = String::from_str("wire topology referenced local edge index ");
            let text = crate::error::decimal_text(local_edge_index);
            s.append(text.as_str());
            s.append(" outside the edge map");
            proof { lemma_progress_stops(t, f, re, (k + 1) as nat, wire_range.count as nat); }
            return Err(Error::new(s));
        }
        let start_offset = vertex_range.offset + k;
        if start_offset >= topology.wire_vertex_indices.len() {
            proof { lemma_progress_stops(t, f, re, (k + 1) as nat, wire_range.count as nat); }
            return Err(indexed_error("wire topology is missing start vertex occurrence ", start_offset));
        }
        let local_start_index = topology.wire_vertex_indices[start_offset];
        if start_offset + 1 >= topology.wire_vertex_indices.len() {
            proof { lemma_progress_stops(t, f, re, (k + 1) as nat, wire_range.count as nat); }
            return Err(indexed_error("wire topology is missing end vertex occurrence ", start_offset + 1));
        }
        let local_end_index = topology.wire_vertex_indices[start_offset + 1];
        let start_vertex = if local_start_index < facts.vertex_matches.len() {
            facts.vertex_matches[local_start_index]
        } else {
            None
        };
        let end_vertex = if local_end_index < facts.vertex_matches.len() {
            facts.vertex_matches[local_end_index]
        } else {
            None
        };
        let candidates = match &facts.edge_candidates[local_edge_index] {
            Ok(candidates) => candidates,
            Err(e) => {
                proof { lemma_progress_stops(t, f, re, (k + 1) as nat, wire_range.count as nat); }
                return Err(Error::new(e.message()));
            },
        };
        let matches = fitting_root_edges(root_edges, candidates, start_vertex, end_vertex);
        if matches.len() != 1 {
            proof { lemma_progress_stops(t, f, re, (k + 1) as nat, wire_range.count as nat); }
            return Ok(None);
        }
        let matched = matches[0];
        let oriented = oriented_root_edge_vertices(&root_edges[matched], orientation);
        let start = match start_vertex {
            Some(v) => Some(v),
            None => match oriented {
                Some(p) => Some(p.0),
                None => None,
            },
        };
        let end = match end_vertex {
            Some(v) => Some(v),
            None => match oriented {
                Some(p) => Some(p.1),
                None => None,
            },
        };
        let (start, end) = match (start, end) {
            (Some(s), Some(e)) => (s, e),
            _ => {
                proof { lemma_progress_stops(t, f, re, (k + 1) as nat, wire_range.count as nat); }
                return Ok(None);
            },
        };
        if ordered_vertices.len() > 0 && ordered_vertices[ordered_vertices.len() - 1] != start {
            proof { lemma_progress_stops(t, f, re, (k + 1) as nat, wire_range.count as nat); }
            return Ok(None);
        }
        edge_indices.push(matched);
        edge_orientations.push(orientation);
        if ordered_vertices.len() == 0 {
            ordered_vertices.push(start);
        }
        ordered_vertices.push(end);
        proof {
            assert(ordered_vertices@.len() == 2 ==> ordered_vertices@ =~= seq![start, end]);
        }
        k += 1;
    }
    Ok(
        Some(
            RootWireTopology {
                edge_indices,
                edge_orientations,
                vertex_indices: ordered_vertices,
            },
        ),
    )
}

/// The use of a root edge that one edge of a wire makes: the edge's ends
/// are swapped for a reversed use, and of the root edges with the same
/// curve kind and length (`candidates`), exactly one must join those ends.
pub open spec fn spec_wire_occurrence(
    start_vertex: usize,
    end_vertex: usize,
    orientation: Orientation,
    candidates: Seq<usize>,
    root_edges: Seq<TopologyEdgeVertices>,
) -> Option<WireOccurrence> {
    let (s, e) = if orientation == Orientation::Reversed {
        (end_vertex, start_vertex)
    } else {
        (start_vertex, end_vertex)
    };
    let ms = candidates.filter(|r: usize| fits_vertices(root_edges, r, Some(s), Some(e)));
    if ms.len() == 1 {
        Some(WireOccurrence { edge_index: ms[0], orientation, start_vertex: s, end_vertex: e })
    } else {
        None
    }
}

/// The occurrence of a root edge that a wire's edge makes, as
/// `spec_wire_occurrence` states.
pub fn wire_occurrence(
    start_vertex: usize,
    end_vertex: usize,
    orientation: Orientation,
    candidates: &Vec<usize>,
    root_edges: &[TopologyEdgeVertices],
) -> (r: Option<WireOccurrence>)
    requires
        forall|i: int| 0 <= i < candidates@.len() ==> (#[trigger] candidates@[i]) < root_edges@.len(),
    ensures
        r == spec_wire_occurrence(start_vertex, end_vertex, orientation, candidates@, root_edges@),
{
    let (s, e) = if orientation == Orientation::Reversed {
        (end_vertex, start_vertex)
    } else {
        (start_vertex, end_vertex)
    };
    let matches = fitting_root_edges(root_edges, candidates, Some(s), Some(e));
    if matches.len() != 1 {
        return None;
    }
    Some(WireOccurrence { edge_index: matches[0], orientation, start_vertex: s, end_vertex: e })
}

/// The one position at which `flags` holds, if exactly one does; used to
/// find the single root vertex at a point.
pub open spec fn spec_sole_match(flags: Seq<bool>) -> Option<usize> {
    if exists|i: int|
        0 <= i < flags.len() && flags[i] && forall|j: int|
            0 <= j < flags.len() && flags[j] ==> j == i {
        Some(
            (choose|i: int|
                0 <= i < flags.len() && flags[i] && forall|j: int|
                    0 <= j < flags.len() && flags[j] ==> j == i) as usize,
        )
    } else {
        None
    }
}

pub fn sole_match(flags: &[bool]) -> (r: Option<usize>)
    ensures
        r == spec_sole_match(flags@),
{
    let mut found: Option<usize> = None;
    let mut i: usize = 0;
    while i < flags.len()
        invariant
            i <= flags@.len(),
            match found {
                None => forall|j: int| 0 <= j < i ==> !flags@[j],
                Some(f) => f < i && flags@[f as int] && forall|j: int|
                    0 <= j < i && flags@[j] ==> j == f,
            },
        decreases flags.len() - i,
    {
        if flags[i] {
            if let Some(f) = found {
                proof {
                    assert(flags@[f as int] && flags@[i as int] && f != i);
                    assert(!exists|k: int|
                        0 <= k < flags@.len() && flags@[k] && forall|j: int|
                            0 <= j < flags@.len() && flags@[j] ==> j == k);
                }
                return None;
            }
            found = Some(i);
        }
        i += 1;
    }
    proof {
        match found {
            None => {
                assert(!exists|k: int|
                    0 <= k < flags@.len() && flags@[k] && forall|j: int|
                        0 <= j < flags@.len() && flags@[j] ==> j == k);
            },
            Some(f) => {
                let w = f as int;
                assert(0 <= w < flags@.len() && flags@[w] && forall|j: int|
                    0 <= j < flags@.len() && flags@[j] ==> j == w);
                let c = choose|k: int|
                    0 <= k < flags@.len() && flags@[k] && forall|j: int|
                        0 <= j < flags@.len() && flags@[j] ==> j == k;
                assert(c == w);
            },
        }
    }
    found
}

} // verus!
