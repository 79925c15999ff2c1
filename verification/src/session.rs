//! Kernel sessions and the queries that the library answers by asking the
//! kernel.
//!
//! The kernel runs outside the verified code, behind a C interface. The
//! library names a session and the shapes it holds by the tokens the kernel
//! hands out, and each query is a small state machine: it says which kernel
//! request to make, takes the kernel's reply, and either asks for more or
//! finishes with the answer. The caller performs the requests.
use vstd::prelude::*;

use crate::abi::{shape_kind_to_abi, LeanOcctShapeKind};
use crate::brep::{spec_topology_count, topology_backed_subshape_count};
use crate::error::{decimal, shape_kind_name, Error};
use crate::kinds::ShapeKind;
use crate::summary::{
    check_subshape_index, check_subshape_total, spec_count_source, spec_summary_count,
    subshape_count_source, summary_subshape_count, ShapeCounts, SubshapeCountSource,
};
use crate::topology::TopologyTables;

verus! {

/// A kernel session, named by the token the kernel issued for it.
#[derive(Clone, Copy, Debug, PartialEq, Eq, Structural)]
pub struct Context {
    pub token: u64,
}

/// A shape held by the kernel, named by the token the kernel issued for it.
#[derive(Clone, Copy, Debug, PartialEq, Eq, Structural)]
pub struct Shape {
    pub token: u64,
}

/// A modelling kernel: a session and the operations built on it.
pub struct ModelKernel {
    context: Context,
}

impl ModelKernel {
    /// The kernel that works in `context`.
    pub fn new(context: Context) -> (r: ModelKernel)
        ensures
            r.spec_context() == context,
    {
        ModelKernel { context }
    }

    pub closed spec fn spec_context(&self) -> Context {
        self.context
    }

    /// The session the kernel works in.
    pub fn context(&self) -> (r: &Context)
        ensures
            *r == self.spec_context(),
    {
        &self.context
    }
}

/// A request that the library makes of the kernel.
#[derive(Clone, Copy, Debug, PartialEq, Eq, Structural)]
pub enum KernelRequest {
    /// Build the Rust-side topology tables of a shape, if they can be built.
    PortedTopology { shape: Shape },
    /// Count the sub-shapes of every kind (the shape summary).
    DescribeShape { shape: Shape },
    /// Count the sub-shapes of one kind.
    SubshapeCount { shape: Shape, kind: LeanOcctShapeKind },
    /// Hand out the sub-shape of one kind at an index.
    Subshape { shape: Shape, kind: LeanOcctShapeKind, index: usize },
}

/// The kernel's reply to a request.
pub enum KernelReply {
    PortedTopology(Option<TopologyTables>),
    ShapeSummary(ShapeCounts),
    SubshapeCount(usize),
    Subshape(Shape),
    Failed(Error),
}

/// What a query does next: ask the kernel, or finish.
pub enum QueryStep<T> {
    Ask(KernelRequest),
    Finish(Result<T, Error>),
}

/// The query finishes with `v`.
pub open spec fn finishes_ok<T>(r: QueryStep<T>, v: T) -> bool {
    r matches QueryStep::Finish(Ok(x)) && x == v
}

/// The query finishes with the error `e`.
pub open spec fn finishes_err<T>(r: QueryStep<T>, e: Error) -> bool {
    r matches QueryStep::Finish(Err(x)) && x == e
}

// ---------------------------------------------------------------------------
// Counting sub-shapes.
// ---------------------------------------------------------------------------

#[derive(Clone, Copy, Debug, PartialEq, Eq, Structural)]
pub enum CountStage {
    AwaitTopology,
    AwaitSummary,
    AwaitKernelCount,
    Finished,
}

/// Counting the sub-shapes of one kind: faces, wires, edges and vertices
/// from the topology tables (or the kernel when the tables cannot be built),
/// compounds, comp-solids, solids and shells from the shape summary, other
/// kinds from the kernel.
pub struct SubshapeCountQuery {
    pub shape: Shape,
    pub kind: ShapeKind,
    pub stage: CountStage,
}

impl SubshapeCountQuery {
    /// The stage agrees with where the count of the kind comes from.
    pub open spec fn wf(&self) -> bool {
        &&& self.stage == CountStage::AwaitTopology ==> spec_count_source(self.kind)
            == SubshapeCountSource::Topology
        &&& self.stage == CountStage::AwaitSummary ==> spec_count_source(self.kind)
            == SubshapeCountSource::Summary
    }
}

pub open spec fn count_reply_fits(stage: CountStage, reply: KernelReply) -> bool {
    match reply {
        KernelReply::Failed(_) => true,
        KernelReply::PortedTopology(_) => stage == CountStage::AwaitTopology,
        KernelReply::ShapeSummary(_) => stage == CountStage::AwaitSummary,
        KernelReply::SubshapeCount(_) => stage == CountStage::AwaitKernelCount,
        KernelReply::Subshape(_) => false,
    }
}

impl Context {
    /// Starts counting the sub-shapes of `kind` in `shape`, with the first
    /// request to make.
    pub fn subshape_count(&self, shape: &Shape, kind: ShapeKind) -> (r: (
        SubshapeCountQuery,
        KernelRequest,
    ))
        ensures
            r.0.shape == *shape,
            r.0.kind == kind,
            r.0.wf(),
            match spec_count_source(kind) {
                SubshapeCountSource::Topology => r.0.stage == CountStage::AwaitTopology && r.1
                    == (KernelRequest::PortedTopology { shape: *shape }),
                SubshapeCountSource::Summary => r.0.stage == CountStage::AwaitSummary && r.1
                    == (KernelRequest::DescribeShape { shape: *shape }),
                SubshapeCountSource::Kernel => r.0.stage == CountStage::AwaitKernelCount && r.1
                    == (KernelRequest::SubshapeCount { shape: *shape, kind: shape_kind_to_abi(kind) }),
            },
    {
        let shape = *shape;
        match subshape_count_source(kind) {
            SubshapeCountSource::Topology => (
                SubshapeCountQuery { shape, kind, stage: CountStage::AwaitTopology },
                KernelRequest::PortedTopology { shape },
            ),
            SubshapeCountSource::Summary => (
                SubshapeCountQuery { shape, kind, stage: CountStage::AwaitSummary },
                KernelRequest::DescribeShape { shape },
            ),
            SubshapeCountSource::Kernel => (
                SubshapeCountQuery { shape, kind, stage: CountStage::AwaitKernelCount },
                KernelRequest::SubshapeCount { shape, kind: kind.to_ffi() },
            ),
        }
    }
}

impl SubshapeCountQuery {
    /// Takes the kernel's reply to the last request. A failed request ends
    /// the query with its error; tables that cannot be built hand the count
    /// to the kernel; any other reply gives the count.
    pub fn answer(&mut self, reply: KernelReply) -> (r: QueryStep<usize>)
        requires
            old(self).wf(),
            old(self).stage != CountStage::Finished,
            count_reply_fits(old(self).stage, reply),
        ensures
            final(self).wf(),
            final(self).shape == old(self).shape,
            final(self).kind == old(self).kind,
            match reply {
                KernelReply::Failed(e) => final(self).stage == CountStage::Finished && finishes_err(
                    r,
                    e,
                ),
                KernelReply::PortedTopology(None) => final(self).stage == CountStage::AwaitKernelCount
                    && r == QueryStep::<usize>::Ask(
                    KernelRequest::SubshapeCount {
                        shape: old(self).shape,
                        kind: shape_kind_to_abi(old(self).kind),
                    },
                ),
                KernelReply::PortedTopology(Some(t)) => final(self).stage == CountStage::Finished
                    && spec_topology_count(t, old(self).kind) is Some && finishes_ok(
                    r,
                    spec_topology_count(t, old(self).kind)->0,
                ),
                KernelReply::ShapeSummary(counts) => final(self).stage == CountStage::Finished
                    && finishes_ok(r, spec_summary_count(counts, old(self).kind)),
                KernelReply::SubshapeCount(count) => final(self).stage == CountStage::Finished
                    && finishes_ok(r, count),
                KernelReply::Subshape(_) => false,
            },
    {
        match reply {
            KernelReply::Failed(e) => {
                self.stage = CountStage::Finished;
                QueryStep::Finish(Err(e))
            },
            KernelReply::PortedTopology(None) => {
                self.stage = CountStage::AwaitKernelCount;
                QueryStep::Ask(KernelRequest::SubshapeCount { shape: self.shape, kind: self.kind.to_ffi() })
            },
            KernelReply::PortedTopology(Some(topology)) => {
                self.stage = CountStage::Finished;
                match topology_backed_subshape_count(&topology, self.kind) {
                    Some(count) => QueryStep::Finish(Ok(count)),
                    None => {
                        assert(false);
                        QueryStep::Finish(Ok(0))
                    },
                }
            },
            KernelReply::ShapeSummary(counts) => {
                self.stage = CountStage::Finished;
                QueryStep::Finish(Ok(summary_subshape_count(&counts, self.kind)))
            },
            KernelReply::SubshapeCount(count) => {
                self.stage = CountStage::Finished;
                QueryStep::Finish(Ok(count))
            },
            KernelReply::Subshape(_) => {
                assert(false);
                QueryStep::Finish(Ok(0))
            },
        }
    }
}


// ---------------------------------------------------------------------------
// One sub-shape.
// ---------------------------------------------------------------------------

#[derive(Clone, Copy, Debug, PartialEq, Eq, Structural)]
pub enum SubshapeStage {
    AwaitTopology,
    AwaitSubshape,
    Finished,
}

/// Fetching the sub-shape of one kind at an index: where the topology tables
/// count that kind, an index past the count is refused before the kernel
/// is asked.
pub struct SubshapeQuery {
    pub shape: Shape,
    pub kind: ShapeKind,
    pub index: usize,
    pub stage: SubshapeStage,
}

pub open spec fn subshape_reply_fits(stage: SubshapeStage, reply: KernelReply) -> bool {
    match reply {
        KernelReply::Failed(_) => true,
        KernelReply::PortedTopology(_) => stage == SubshapeStage::AwaitTopology,
        KernelReply::Subshape(_) => stage == SubshapeStage::AwaitSubshape,
        _ => false,
    }
}

/// The message for an index past the count of its kind.
pub open spec fn index_error_message(kind: ShapeKind, index: usize, count: usize) -> Seq<char> {
    "subshape index "@ + decimal(index as nat) + " out of bounds for "@ + shape_kind_name(kind)
        + " count "@ + decimal(count as nat)
}

impl Context {
    /// Starts fetching the sub-shape of `kind` at `index` in `shape`.
    pub fn subshape(&self, shape: &Shape, kind: ShapeKind, index: usize) -> (r: (
        SubshapeQuery,
        KernelRequest,
    ))
        ensures
            r.0 == (SubshapeQuery {
                shape: *shape,
                kind,
                index,
                stage: SubshapeStage::AwaitTopology,
            }),
            r.1 == (KernelRequest::PortedTopology { shape: *shape }),
    {
        (
            SubshapeQuery { shape: *shape, kind, index, stage: SubshapeStage::AwaitTopology },
            KernelRequest::PortedTopology { shape: *shape },
        )
    }
}

impl SubshapeQuery {
    /// Takes the kernel's reply to the last request.
    pub fn answer(&mut self, reply: KernelReply) -> (r: QueryStep<Shape>)
        requires
            old(self).stage != SubshapeStage::Finished,
            subshape_reply_fits(old(self).stage, reply),
        ensures
            final(self).shape == old(self).shape,
            final(self).kind == old(self).kind,
            final(self).index == old(self).index,
            ({
                let fetch = KernelRequest::Subshape {
                    shape: old(self).shape,
                    kind: shape_kind_to_abi(old(self).kind),
                    index: old(self).index,
                };
                match reply {
                    KernelReply::Failed(e) => final(self).stage == SubshapeStage::Finished
                        && finishes_err(r, e),
                    KernelReply::PortedTopology(t) => {
                        let count = match t {
                            Some(t) => spec_topology_count(t, old(self).kind),
                            None => None,
                        };
                        match count {
                            Some(c) => if old(self).index >= c {
                                final(self).stage == SubshapeStage::Finished && (r matches QueryStep::Finish(
                                    Err(e),
                                ) && e@ == index_error_message(old(self).kind, old(self).index, c))
                            } else {
                                final(self).stage == SubshapeStage::AwaitSubshape && r
                                    == QueryStep::<Shape>::Ask(fetch)
                            },
                            None => final(self).stage == SubshapeStage::AwaitSubshape && r
                                == QueryStep::<Shape>::Ask(fetch),
                        }
                    },
                    KernelReply::Subshape(s) => final(self).stage == SubshapeStage::Finished
                        && finishes_ok(r, s),
                    _ => false,
                }
            }),
    {
        match reply {
            KernelReply::Failed(e) => {
                self.stage = SubshapeStage::Finished;
                QueryStep::Finish(Err(e))
            },
            KernelReply::PortedTopology(topology) => {
                let count = match &topology {
                    Some(t) => topology_backed_subshape_count(t, self.kind),
                    None => None,
                };
                if let Some(count) = count {
                    if let Err(e) = check_subshape_index(self.kind, self.index, count) {
                        self.stage = SubshapeStage::Finished;
                        return QueryStep::Finish(Err(e));
                    }
                }
                self.stage = SubshapeStage::AwaitSubshape;
                QueryStep::Ask(
                    KernelRequest::Subshape {
                        shape: self.shape,
                        kind: self.kind.to_ffi(),
                        index: self.index,
                    },
                )
            },
            KernelReply::Subshape(s) => {
                self.stage = SubshapeStage::Finished;
                QueryStep::Finish(Ok(s))
            },
            _ => {
                assert(false);
                QueryStep::Finish(Ok(self.shape))
            },
        }
    }
}

// ---------------------------------------------------------------------------
// All sub-shapes of a kind, from the kernel.
// ---------------------------------------------------------------------------

#[derive(Clone, Copy, Debug, PartialEq, Eq, Structural)]
pub enum CollectStage {
    AwaitCount,
    AwaitShape,
    Finished,
}

/// Fetching every sub-shape of one kind from the kernel: the count, then
/// each sub-shape by index, in order.
pub struct SubshapesOcctQuery {
    pub shape: Shape,
    pub kind: ShapeKind,
    pub expected: usize,
    pub shapes: Vec<Shape>,
    pub stage: CollectStage,
}

impl SubshapesOcctQuery {
    /// While shapes are awaited, fewer than the count have arrived.
    pub open spec fn wf(&self) -> bool {
        &&& self.stage == CollectStage::AwaitCount ==> self.shapes@.len() == 0
        &&& self.stage == CollectStage::AwaitShape ==> self.shapes@.len() < self.expected
    }

    /// The request for the sub-shape at `index`.
    pub open spec fn fetch(&self, index: usize) -> KernelRequest {
        KernelRequest::Subshape { shape: self.shape, kind: shape_kind_to_abi(self.kind), index }
    }

    fn start(shape: Shape, kind: ShapeKind) -> (r: (SubshapesOcctQuery, KernelRequest))
        ensures
            r.0.wf(),
            r.0.shape == shape,
            r.0.kind == kind,
            r.0.shapes@.len() == 0,
            r.0.stage == CollectStage::AwaitCount,
            r.1 == (KernelRequest::SubshapeCount { shape, kind: shape_kind_to_abi(kind) }),
    {
        (
            SubshapesOcctQuery {
                shape,
                kind,
                expected: 0,
                shapes: Vec::new(),
                stage: CollectStage::AwaitCount,
            },
            KernelRequest::SubshapeCount { shape, kind: kind.to_ffi() },
        )
    }
}

pub open spec fn collect_reply_fits(stage: CollectStage, reply: KernelReply) -> bool {
    match reply {
        KernelReply::Failed(_) => true,
        KernelReply::SubshapeCount(_) => stage == CollectStage::AwaitCount,
        KernelReply::Subshape(_) => stage == CollectStage::AwaitShape,
        _ => false,
    }
}

impl Context {
    /// Starts fetching every sub-shape of `kind` in `shape` from the kernel.
    pub fn subshapes_occt(&self, shape: &Shape, kind: ShapeKind) -> (r: (
        SubshapesOcctQuery,
        KernelRequest,
    ))
        ensures
            r.0.wf(),
            r.0.shape == *shape,
            r.0.kind == kind,
            r.0.shapes@.len() == 0,
            r.0.stage == CollectStage::AwaitCount,
            r.1 == (KernelRequest::SubshapeCount { shape: *shape, kind: shape_kind_to_abi(kind) }),
    {
        SubshapesOcctQuery::start(*shape, kind)
    }
}

impl SubshapesOcctQuery {
    /// Takes the kernel's reply to the last request: after a count of `n`,
    /// asks for the sub-shapes at `0 .. n` one by one and finishes with them
    /// in that order; a failed request ends the query with its error.
    pub fn answer(&mut self, reply: KernelReply) -> (r: QueryStep<Vec<Shape>>)
        requires
            old(self).wf(),
            old(self).stage != CollectStage::Finished,
            collect_reply_fits(old(self).stage, reply),
        ensures
            final(self).wf(),
            final(self).shape == old(self).shape,
            final(self).kind == old(self).kind,
            match reply {
                KernelReply::Failed(e) => final(self).stage == CollectStage::Finished && finishes_err(
                    r,
                    e,
                ),
                KernelReply::SubshapeCount(n) => final(self).expected == n && if n == 0 {
                    final(self).stage == CollectStage::Finished && (r matches QueryStep::Finish(
                        Ok(v),
                    ) && v@ == Seq::<Shape>::empty())
                } else {
                    final(self).stage == CollectStage::AwaitShape && final(self).shapes@
                        == old(self).shapes@ && r == QueryStep::<Vec<Shape>>::Ask(
                        old(self).fetch(0),
                    )
                },
                KernelReply::Subshape(s) => final(self).expected == old(self).expected && if old(
                    self,
                ).shapes@.len() + 1 == old(self).expected {
                    final(self).stage == CollectStage::Finished && (r matches QueryStep::Finish(
                        Ok(v),
                    ) && v@ == old(self).shapes@.push(s))
                } else {
                    final(self).stage == CollectStage::AwaitShape && final(self).shapes@ == old(
                        self,
                    ).shapes@.push(s) && r == QueryStep::<Vec<Shape>>::Ask(
                        old(self).fetch((old(self).shapes@.len() + 1) as usize),
                    )
                },
                _ => false,
            },
    {
        match reply {
            KernelReply::Failed(e) => {
                self.stage = CollectStage::Finished;
                QueryStep::Finish(Err(e))
            },
            KernelReply::SubshapeCount(n) => {
                self.expected = n;
                if n == 0 {
                    self.stage = CollectStage::Finished;
                    let none: Vec<Shape> = Vec::new();
                    assert(none@ =~= Seq::<Shape>::empty());
                    QueryStep::Finish(Ok(none))
                } else {
                    self.stage = CollectStage::AwaitShape;
                    QueryStep::Ask(
                        KernelRequest::Subshape { shape: self.shape, kind: self.kind.to_ffi(), index: 0 },
                    )
                }
            },
            KernelReply::Subshape(s) => {
                self.shapes.push(s);
                if self.shapes.len() == self.expected {
                    self.stage = CollectStage::Finished;
                    let mut out: Vec<Shape> = Vec::new();
                    std::mem::swap(&mut out, &mut self.shapes);
                    QueryStep::Finish(Ok(out))
                } else {
                    QueryStep::Ask(
                        KernelRequest::Subshape {
                            shape: self.shape,
                            kind: self.kind.to_ffi(),
                            index: self.shapes.len(),
                        },
                    )
                }
            },
            _ => {
                assert(false);
                QueryStep::Finish(Ok(Vec::new()))
            },
        }
    }
}

// ---------------------------------------------------------------------------
// All sub-shapes of a kind, checked against the topology tables.
// ---------------------------------------------------------------------------

#[derive(Clone, Copy, Debug, PartialEq, Eq, Structural)]
pub enum SubshapesStage {
    AwaitTopology,
    Collecting,
    Finished,
}

/// Fetching every sub-shape of one kind: from the kernel, and where the
/// topology tables count that kind, checked against their count.
pub struct SubshapesQuery {
    pub shape: Shape,
    pub kind: ShapeKind,
    pub check: Option<usize>,
    pub collect: SubshapesOcctQuery,
    pub stage: SubshapesStage,
}

impl SubshapesQuery {
    pub open spec fn wf(&self) -> bool {
        &&& self.collect.wf()
        &&& self.stage == SubshapesStage::Collecting ==> self.collect.stage != CollectStage::Finished
    }

    /// The reply fits the request last made.
    pub open spec fn reply_fits(&self, reply: KernelReply) -> bool {
        match self.stage {
            SubshapesStage::AwaitTopology => reply is PortedTopology || reply is Failed,
            SubshapesStage::Collecting => collect_reply_fits(self.collect.stage, reply),
            SubshapesStage::Finished => false,
        }
    }
}

/// The message for a list whose length is not the count the tables give.
pub open spec fn total_error_message(kind: ShapeKind, expected: usize, found: nat) -> Seq<char> {
    "expected "@ + decimal(expected as nat) + " "@ + shape_kind_name(kind)
        + " subshape(s) from topology, found "@ + decimal(found) + " via OCCT"@
}

/// The query finishes with the collected shapes `v`, or, where the tables
/// count the kind and the count differs from their number, with the error
/// that says so.
pub open spec fn finishes_checked(
    r: QueryStep<Vec<Shape>>,
    kind: ShapeKind,
    check: Option<usize>,
    v: Seq<Shape>,
) -> bool {
    match check {
        Some(c) => if c != v.len() {
            r matches QueryStep::Finish(Err(e)) && e@ == total_error_message(kind, c, v.len())
        } else {
            r matches QueryStep::Finish(Ok(x)) && x@ == v
        },
        None => r matches QueryStep::Finish(Ok(x)) && x@ == v,
    }
}

impl Context {
    /// Starts fetching every sub-shape of `kind` in `shape`.
    pub fn subshapes(&self, shape: &Shape, kind: ShapeKind) -> (r: (SubshapesQuery, KernelRequest))
        ensures
            r.0.wf(),
            r.0.shape == *shape,
            r.0.kind == kind,
            r.0.stage == SubshapesStage::AwaitTopology,
            r.1 == (KernelRequest::PortedTopology { shape: *shape }),
    {
        let (collect, _) = SubshapesOcctQuery::start(*shape, kind);
        (
            SubshapesQuery {
                shape: *shape,
                kind,
                check: None,
                collect,
                stage: SubshapesStage::AwaitTopology,
            },
            KernelRequest::PortedTopology { shape: *shape },
        )
    }
}

impl SubshapesQuery {
    /// Takes the kernel's reply to the last request. The tables' count (for
    /// the kinds they count) is kept; the sub-shapes are then collected from
    /// the kernel, and a list whose length differs from the kept count is
    /// refused.
    pub fn answer(&mut self, reply: KernelReply) -> (r: QueryStep<Vec<Shape>>)
        requires
            old(self).wf(),
            old(self).reply_fits(reply),
        ensures
            final(self).wf(),
            final(self).shape == old(self).shape,
            final(self).kind == old(self).kind,
            old(self).stage == SubshapesStage::AwaitTopology ==> match reply {
                KernelReply::Failed(e) => final(self).stage == SubshapesStage::Finished
                    && finishes_err(r, e),
                KernelReply::PortedTopology(t) => {
                    &&& final(self).check == match t {
                        Some(t) => spec_topology_count(t, old(self).kind),
                        None => None,
                    }
                    &&& final(self).stage == SubshapesStage::Collecting
                    &&& final(self).collect.stage == CollectStage::AwaitCount
                    &&& final(self).collect.shape == old(self).shape
                    &&& final(self).collect.kind == old(self).kind
                    &&& final(self).collect.shapes@.len() == 0
                    &&& r == QueryStep::<Vec<Shape>>::Ask(
                        KernelRequest::SubshapeCount {
                            shape: old(self).shape,
                            kind: shape_kind_to_abi(old(self).kind),
                        },
                    )
                },
                _ => false,
            },
            old(self).stage == SubshapesStage::Collecting ==> {
                &&& final(self).check == old(self).check
                &&& final(self).collect.shape == old(self).collect.shape
                &&& final(self).collect.kind == old(self).collect.kind
                &&& match reply {
                    KernelReply::Failed(e) => final(self).stage == SubshapesStage::Finished
                        && finishes_err(r, e),
                    KernelReply::SubshapeCount(n) => if n == 0 {
                        final(self).stage == SubshapesStage::Finished && finishes_checked(
                            r,
                            old(self).kind,
                            old(self).check,
                            Seq::empty(),
                        )
                    } else {
                        final(self).stage == SubshapesStage::Collecting && r == QueryStep::<
                            Vec<Shape>,
                        >::Ask(old(self).collect.fetch(0))
                    },
                    KernelReply::Subshape(s) => {
                        let v = old(self).collect.shapes@.push(s);
                        if v.len() == old(self).collect.expected {
                            final(self).stage == SubshapesStage::Finished && finishes_checked(
                                r,
                                old(self).kind,
                                old(self).check,
                                v,
                            )
                        } else {
                            final(self).stage == SubshapesStage::Collecting && r == QueryStep::<
                                Vec<Shape>,
                            >::Ask(old(self).collect.fetch(v.len() as usize))
                        }
                    },
                    _ => false,
                }
            },
    {
        match self.stage {
            SubshapesStage::AwaitTopology => {
                match reply {
                    KernelReply::Failed(e) => {
                        self.stage = SubshapesStage::Finished;
                        QueryStep::Finish(Err(e))
                    },
                    KernelReply::PortedTopology(topology) => {
                        self.check = match &topology {
                            Some(t) => topology_backed_subshape_count(t, self.kind),
                            None => None,
                        };
                        let (collect, first) = SubshapesOcctQuery::start(self.shape, self.kind);
                        self.collect = collect;
                        self.stage = SubshapesStage::Collecting;
                        QueryStep::Ask(first)
                    },
                    _ => {
                        assert(false);
                        QueryStep::Finish(Ok(Vec::new()))
                    },
                }
            },
            SubshapesStage::Collecting => {
                let step = self.collect.answer(reply);
                match step {
                    QueryStep::Ask(request) => QueryStep::Ask(request),
                    QueryStep::Finish(Err(e)) => {
                        self.stage = SubshapesStage::Finished;
                        QueryStep::Finish(Err(e))
                    },
                    QueryStep::Finish(Ok(shapes)) => {
                        self.stage = SubshapesStage::Finished;
                        match self.check {
                            Some(expected) => {
                                match check_subshape_total(self.kind, expected, shapes.len()) {
                                    Ok(()) => QueryStep::Finish(Ok(shapes)),
                                    Err(e) => QueryStep::Finish(Err(e)),
                                }
                            },
                            None => QueryStep::Finish(Ok(shapes)),
                        }
                    },
                }
            },
            SubshapesStage::Finished => {
                assert(false);
                QueryStep::Finish(Ok(Vec::new()))
            },
        }
    }
}

} // verus!
