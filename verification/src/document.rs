//! The named shapes of a modelling document: lookup by name, replacement on
//! store, pairs of distinct inputs, and the inputs of assembly operations.
use vstd::prelude::*;

use crate::error::{curve_kind_name, surface_kind_name, Error};
use crate::kinds::{CurveKind, SurfaceKind};

verus! {

/// A named shape held by a document.
pub struct ShapeEntry<S> {
    pub name: String,
    pub shape: S,
}

/// The shapes of a document, each under a name that no other shape has, in
/// the order in which their names were first stored.
pub struct ShapeRegistry<S> {
    entries: Vec<ShapeEntry<S>>,
}

/// `i` is the first position at which `names` holds `name`.
pub open spec fn is_first_position(names: Seq<Seq<char>>, name: Seq<char>, i: int) -> bool {
    0 <= i < names.len() && names[i] == name && forall|j: int| 0 <= j < i ==> names[j] != name
}

/// The first position at which `names` holds `name`.
pub open spec fn first_position(names: Seq<Seq<char>>, name: Seq<char>) -> Option<int> {
    if exists|i: int| is_first_position(names, name, i) {
        Some(choose|i: int| is_first_position(names, name, i))
    } else {
        None
    }
}

/// No name occurs twice.
pub open spec fn distinct_names(names: Seq<Seq<char>>) -> bool {
    forall|i: int, j: int|
        0 <= i < names.len() && 0 <= j < names.len() && i != j ==> #[trigger] names[i]
            != #[trigger] names[j]
}

pub open spec fn unknown_shape_message(name: Seq<char>) -> Seq<char> {
    "unknown shape '"@ + name + "'"@
}

impl<S> ShapeRegistry<S> {
    /// The names, in order.
    pub closed spec fn names(&self) -> Seq<Seq<char>> {
        self.entries@.map_values(|e: ShapeEntry<S>| e.name@)
    }

    /// The shapes, in the order of their names.
    pub closed spec fn shapes(&self) -> Seq<S> {
        self.entries@.map_values(|e: ShapeEntry<S>| e.shape)
    }

    /// Every registry keeps its names distinct.
    #[verifier::type_invariant]
    pub closed spec fn wf(&self) -> bool {
        distinct_names(self.names())
    }

    /// The shape stored under `name`, if any.
    pub open spec fn lookup(&self, name: Seq<char>) -> Option<S> {
        match first_position(self.names(), name) {
            Some(i) => Some(self.shapes()[i]),
            None => None,
        }
    }

    pub proof fn lemma_lengths(&self)
        ensures
            self.names().len() == self.shapes().len(),
    {
    }

    /// A registry with no shapes.
    pub fn new() -> (r: Self)
        ensures
            r.wf(),
            r.names().len() == 0,
            r.shapes().len() == 0,
    {
        ShapeRegistry { entries: Vec::new() }
    }

    /// How many shapes the registry holds.
    pub fn len(&self) -> (r: usize)
        ensures
            r == self.names().len(),
    {
        self.entries.len()
    }

    /// Where the shape named `name` stands.
    pub fn position_of(&self, name: &str) -> (r: Option<usize>)
        ensures
            match r {
                None => first_position(self.names(), name@) is None && forall|j: int|
                    0 <= j < self.names().len() ==> #[trigger] self.names()[j] != name@,
                Some(i) => first_position(self.names(), name@) == Some(i as int),
            },
    {
        let key = String::from_str(name);
        let mut i: usize = 0;
        while i < self.entries.len()
            invariant
                key@ == name@,
                i <= self.entries@.len(),
                forall|j: int| 0 <= j < i ==> self.names()[j] != name@,
            decreases self.entries.len() - i,
        {
            if self.entries[i].name == key {
                proof {
                    assert(is_first_position(self.names(), name@, i as int));
                    let c = choose|k: int| is_first_position(self.names(), name@, k);
                    assert(!(c < i));
                    assert(!(c > i));
                }
                return Some(i);
            }
            i += 1;
        }
        None
    }

    /// Whether a shape is stored under `name`.
    pub fn contains_shape(&self, name: &str) -> (r: bool)
        ensures
            r == (first_position(self.names(), name@) is Some),
    {
        self.position_of(name).is_some()
    }

    /// The shape stored under `name`.
    pub fn shape_ref(&self, name: &str) -> (r: Result<&S, Error>)
        ensures
            match self.lookup(name@) {
                Some(s) => r matches Ok(x) && *x == s,
                None => r matches Err(e) && e@ == unknown_shape_message(name@),
            },
    {
        proof {
            use_type_invariant(self);
        }
        match self.position_of(name) {
            Some(index) => Ok(&self.entries[index].shape),
            None => Err(unknown_shape_error(name)),
        }
    }

    /// The two shapes of a binary operation: both must be stored, and under
    /// different names.
    pub fn shape_pair(&self, lhs: &str, rhs: &str) -> (r: Result<(&S, &S), Error>)
        ensures
            match (self.lookup(lhs@), self.lookup(rhs@)) {
                (None, _) => r matches Err(e) && e@ == unknown_shape_message(lhs@),
                (Some(_), None) => r matches Err(e) && e@ == unknown_shape_message(rhs@),
                (Some(a), Some(b)) => if lhs@ == rhs@ {
                    r matches Err(e) && e@
                        == "binary operation requires distinct shape inputs, got '"@ + lhs@
                        + "' twice"@
                } else {
                    r matches Ok(p) && *p.0 == a && *p.1 == b
                },
            },
    {
        proof {
            use_type_invariant(self);
        }
        let lhs_index = match self.position_of(lhs) {
            Some(i) => i,
            None => return Err(unknown_shape_error(lhs)),
        };
        let rhs_index = match self.position_of(rhs) {
            Some(i) => i,
            None => return Err(unknown_shape_error(rhs)),
        };
        if lhs_index == rhs_index {
            let mut s = String::from_str("binary operation requires distinct shape inputs, got '");
            s.append(lhs);
            s.append("' twice");
            return Err(Error::new(s));
        }
        proof {
            assert(self.names()[lhs_index as int] == lhs@);
            assert(self.names()[rhs_index as int] == rhs@);
        }
        Ok((&self.entries[lhs_index].shape, &self.entries[rhs_index].shape))
    }

    /// Stores `shape` under `name`, in place of the shape stored under that
    /// name if there is one, else after all the others.
    pub fn store_shape(&mut self, name: String, shape: S)
        ensures
            match first_position(old(self).names(), name@) {
                Some(i) => final(self).names() == old(self).names() && final(self).shapes()
                    == old(self).shapes().update(i, shape),
                None => final(self).names() == old(self).names().push(name@) && final(self).shapes()
                    == old(self).shapes().push(shape),
            },
    {
        proof {
            use_type_invariant(&*self);
        }
        let ghost old_names = self.names();
        let ghost old_shapes = self.shapes();
        let position = self.position_of(name.as_str());
        let mut entries: Vec<ShapeEntry<S>> = Vec::new();
        std::mem::swap(&mut entries, &mut self.entries);
        let ghost old_entries = entries@;
        assert(old_entries.map_values(|e: ShapeEntry<S>| e.name@) == old_names);
        assert(old_entries.map_values(|e: ShapeEntry<S>| e.shape) == old_shapes);
        match position {
            Some(index) => {
                entries.set(index, ShapeEntry { name, shape });
                proof {
                    assert(old_names[index as int] == name@);
                    assert(entries@.map_values(|e: ShapeEntry<S>| e.name@) =~= old_names);
                    assert(entries@.map_values(|e: ShapeEntry<S>| e.shape) =~= old_shapes.update(
                        index as int,
                        shape,
                    ));
                }
                self.entries = entries;
            },
            None => {
                let ghost key = name@;
                assert(forall|j: int| 0 <= j < old_names.len() ==> #[trigger] old_names[j] != key);
                entries.push(ShapeEntry { name, shape });
                proof {
                    let names = entries@.map_values(|e: ShapeEntry<S>| e.name@);
                    assert(names =~= old_names.push(key));
                    assert(entries@.map_values(|e: ShapeEntry<S>| e.shape) =~= old_shapes.push(
                        shape,
                    ));
                    assert forall|i: int, j: int|
                        0 <= i < names.len() && 0 <= j < names.len() && i != j implies #[trigger] names[i]
                        != #[trigger] names[j] by {
                        if i < old_names.len() && j < old_names.len() {
                            assert(names[i] == old_names[i]);
                            assert(names[j] == old_names[j]);
                        } else if i < old_names.len() {
                            assert(names[i] == old_names[i]);
                        } else if j < old_names.len() {
                            assert(names[j] == old_names[j]);
                        }
                    }
                }
                self.entries = entries;
            },
        }
    }

    /// The names, in order.
    pub fn shape_names(&self) -> (r: Vec<String>)
        ensures
            r@.map_values(|s: String| s@) == self.names(),
    {
        let mut out: Vec<String> = Vec::new();
        let mut i: usize = 0;
        while i < self.entries.len()
            invariant
                i <= self.entries@.len(),
                out@.map_values(|s: String| s@) =~= self.names().take(i as int),
            decreases self.entries.len() - i,
        {
            out.push(self.entries[i].name.clone());
            assert(self.names().take(i + 1) =~= self.names().take(i as int).push(
                self.names()[i as int],
            ));
            i += 1;
        }
        assert(self.names().take(i as int) =~= self.names());
        out
    }

    /// The shapes stored under `names`, in that order; an error for the
    /// first name that holds no shape.
    pub fn shape_refs(&self, names: &[String]) -> (r: Result<Vec<&S>, Error>)
        ensures
            match r {
                Ok(v) => v@.len() == names@.len() && forall|k: int|
                    0 <= k < names@.len() ==> self.lookup(#[trigger] names@[k]@) == Some(*v@[k]),
                Err(e) => exists|k: int|
                    0 <= k < names@.len() && self.lookup(#[trigger] names@[k]@) is None
                        && e@ == unknown_shape_message(names@[k]@) && forall|j: int|
                        0 <= j < k ==> self.lookup(#[trigger] names@[j]@) is Some,
            },
    {
        proof {
            use_type_invariant(self);
        }
        let mut out: Vec<&S> = Vec::new();
        let mut k: usize = 0;
        while k < names.len()
            invariant
                self.wf(),
                k <= names@.len(),
                out@.len() == k,
                forall|j: int| 0 <= j < k ==> self.lookup(#[trigger] names@[j]@) == Some(*out@[j]),
            decreases names.len() - k,
        {
            match self.shape_ref(names[k].as_str()) {
                Ok(s) => out.push(s),
                Err(e) => {
                    assert(self.lookup(names@[k as int]@) is None);
                    return Err(e);
                },
            }
            k += 1;
        }
        Ok(out)
    }
}

/// Storing a shape and then looking up its name finds that shape, and every
/// other name still finds what it found before.
pub proof fn lemma_store_then_lookup<S>(
    before: ShapeRegistry<S>,
    after: ShapeRegistry<S>,
    name: Seq<char>,
    shape: S,
    other: Seq<char>,
)
    requires
        before.wf(),
        after.wf(),
        match first_position(before.names(), name) {
            Some(i) => after.names() == before.names() && after.shapes() == before.shapes().update(
                i,
                shape,
            ),
            None => after.names() == before.names().push(name) && after.shapes()
                == before.shapes().push(shape),
        },
    ensures
        after.lookup(name) == Some(shape),
        other != name ==> after.lookup(other) == before.lookup(other),
{
    before.lemma_lengths();
    after.lemma_lengths();
    let bn = before.names();
    let an = after.names();
    match first_position(bn, name) {
        Some(i) => {
            assert(is_first_position(bn, name, i));
            assert(is_first_position(an, name, i));
            let c = choose|j: int| is_first_position(an, name, j);
            assert(c == i);
        },
        None => {
            let n = bn.len() as int;
            assert forall|j: int| 0 <= j < n implies bn[j] != name by {
                if bn[j] == name {
                    assert(is_first_position(bn, name, j));
                }
            }
            assert(is_first_position(an, name, n));
            let c = choose|j: int| is_first_position(an, name, j);
            assert(c == n);
            if other != name {
                assert forall|j: int| is_first_position(an, other, j) <==> is_first_position(bn, other, j) by {
                    if 0 <= j < n {
                        assert(an[j] == bn[j]);
                    }
                }
            }
        },
    }
}

/// The error for a name that holds no shape.
pub fn unknown_shape_error(name: &str) -> (r: Error)
    ensures
        r@ == unknown_shape_message(name@),
{
    let mut s = String::from_str("unknown shape '");
    s.append(name);
    s.append("'");
    Error::new(s)
}

/// The inputs of an assembly operation (compound, comp-solid), which needs
/// at least one.
pub fn assembly_input_names(operation: &str, inputs: &[String]) -> (r: Result<Vec<String>, Error>)
    ensures
        inputs@.len() == 0 <==> r is Err,
        r matches Err(e) ==> e@ == operation@ + " operation requires at least one input shape"@,
        r matches Ok(v) ==> v@.map_values(|s: String| s@) == inputs@.map_values(|s: String| s@),
{
    if inputs.len() == 0 {
        let mut s = String::from_str(operation);
        s.append(" operation requires at least one input shape");
        return Err(Error::new(s));
    }
    let mut out: Vec<String> = Vec::new();
    let mut k: usize = 0;
    while k < inputs.len()
        invariant
            k <= inputs@.len(),
            out@.map_values(|s: String| s@) =~= inputs@.take(k as int).map_values(|s: String| s@),
        decreases inputs.len() - k,
    {
        let ghost before = out@;
        let copy = inputs[k].clone();
        out.push(copy);
        assert(inputs@.take(k + 1) =~= inputs@.take(k as int).push(inputs@[k as int]));
        assert(out@.map_values(|s: String| s@) =~= before.map_values(|s: String| s@).push(
            inputs@[k as int]@,
        ));
        k += 1;
    }
    assert(inputs@.take(k as int) =~= inputs@);
    Ok(out)
}

/// How a single edge is picked out of a shape: the first, the longest or the
/// shortest edge of a curve kind.
#[derive(Clone, Copy, Debug, PartialEq, Eq, Structural)]
pub enum EdgeSelector {
    FirstByCurveKind(CurveKind),
    LongestByCurveKind(CurveKind),
    ShortestByCurveKind(CurveKind),
}


/// The positions whose kind is `kind`, in increasing order.
pub open spec fn positions_of_kind<K>(kinds: Seq<K>, kind: K) -> Seq<usize>
    decreases kinds.len(),
{
    if kinds.len() == 0 {
        Seq::empty()
    } else if kinds.last() == kind {
        positions_of_kind(kinds.drop_last(), kind).push((kinds.len() - 1) as usize)
    } else {
        positions_of_kind(kinds.drop_last(), kind)
    }
}

/// The indices of the edges whose curve is of `kind`, given each edge's kind
/// by index.
pub fn edge_indices_by_curve_kind(edge_kinds: &[CurveKind], kind: CurveKind) -> (r: Vec<usize>)
    ensures
        r@ == positions_of_kind(edge_kinds@, kind),
{
    let mut out: Vec<usize> = Vec::new();
    let mut k: usize = 0;
    while k < edge_kinds.len()
        invariant
            k <= edge_kinds@.len(),
            out@ == positions_of_kind(edge_kinds@.take(k as int), kind),
        decreases edge_kinds.len() - k,
    {
        assert(edge_kinds@.take(k + 1).drop_last() =~= edge_kinds@.take(k as int));
        if edge_kinds[k] == kind {
            out.push(k);
        }
        k += 1;
    }
    assert(edge_kinds@.take(k as int) =~= edge_kinds@);
    out
}

/// The indices of the faces whose surface is of `kind`, given each face's
/// kind by index.
pub fn face_indices_by_surface_kind(face_kinds: &[SurfaceKind], kind: SurfaceKind) -> (r: Vec<usize>)
    ensures
        r@ == positions_of_kind(face_kinds@, kind),
{
    let mut out: Vec<usize> = Vec::new();
    let mut k: usize = 0;
    while k < face_kinds.len()
        invariant
            k <= face_kinds@.len(),
            out@ == positions_of_kind(face_kinds@.take(k as int), kind),
        decreases face_kinds.len() - k,
    {
        assert(face_kinds@.take(k + 1).drop_last() =~= face_kinds@.take(k as int));
        if face_kinds[k] == kind {
            out.push(k);
        }
        k += 1;
    }
    assert(face_kinds@.take(k as int) =~= face_kinds@);
    out
}

/// The error for a shape with no edge of a curve kind.
pub fn missing_edge_error(shape_name: &str, kind: CurveKind) -> (r: Error)
    ensures
        r@ == "shape '"@ + shape_name@ + "' has no "@ + curve_kind_name(kind) + " edge"@,
{
    let mut s = String::from_str("shape '");
    s.append(shape_name);
    s.append("' has no ");
    s.append(kind.name());
    s.append(" edge");
    Error::new(s)
}

/// The error for a shape with no face of a surface kind.
pub fn missing_face_error(shape_name: &str, kind: SurfaceKind) -> (r: Error)
    ensures
        r@ == "shape '"@ + shape_name@ + "' has no "@ + surface_kind_name(kind) + " face"@,
{
    let mut s = String::from_str("shape '");
    s.append(shape_name);
    s.append("' has no ");
    s.append(kind.name());
    s.append(" face");
    Error::new(s)
}

/// The first edge whose curve is of `kind`, given each edge's kind by index;
/// the error names the shape when there is none.
pub fn first_edge_of_kind(shape_name: &str, edge_kinds: &[CurveKind], kind: CurveKind) -> (r: Result<
    usize,
    Error,
>)
    ensures
        positions_of_kind(edge_kinds@, kind).len() == 0 ==> (r matches Err(e) && e@ == "shape '"@
            + shape_name@ + "' has no "@ + curve_kind_name(kind) + " edge"@),
        positions_of_kind(edge_kinds@, kind).len() > 0 ==> r == Ok::<usize, Error>(
            positions_of_kind(edge_kinds@, kind)[0],
        ),
{
    let positions = edge_indices_by_curve_kind(edge_kinds, kind);
    if positions.len() == 0 {
        Err(missing_edge_error(shape_name, kind))
    } else {
        Ok(positions[0])
    }
}

/// The first face whose surface is of `kind`, given each face's kind by
/// index; the error names the shape when there is none.
pub fn first_face_of_kind(shape_name: &str, face_kinds: &[SurfaceKind], kind: SurfaceKind) -> (r:
    Result<usize, Error>)
    ensures
        positions_of_kind(face_kinds@, kind).len() == 0 ==> (r matches Err(e) && e@ == "shape '"@
            + shape_name@ + "' has no "@ + surface_kind_name(kind) + " face"@),
        positions_of_kind(face_kinds@, kind).len() > 0 ==> r == Ok::<usize, Error>(
            positions_of_kind(face_kinds@, kind)[0],
        ),
{
    let positions = face_indices_by_surface_kind(face_kinds, kind);
    if positions.len() == 0 {
        Err(missing_face_error(shape_name, kind))
    } else {
        Ok(positions[0])
    }
}

} // verus!
