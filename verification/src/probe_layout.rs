//! The layout of the early probes that decide whether a sampled edge interval
//! needs refining: which samples each probe spans, where the probes land
//! among the samples of the next stage, and which sample triplets and spans
//! the two sides of the refined interval are measured on. The samples
//! themselves are points in floating point and are not held here; this
//! module holds the indices and proves that they stay inside the sample
//! arrays that they index.
use vstd::prelude::*;

verus! {

/// A probe between two samples of a stage, by their indices.
#[derive(Clone, Copy, Debug, PartialEq, Eq, Structural)]
pub struct MidpointEdgeProbeSpanLayout {
    pub start: usize,
    pub end: usize,
}

impl MidpointEdgeProbeSpanLayout {
    pub fn new(start: usize, end: usize) -> (r: Self)
        ensures
            r == (MidpointEdgeProbeSpanLayout { start, end }),
    {
        MidpointEdgeProbeSpanLayout { start, end }
    }

    /// Both ends index a stage of `n` samples.
    pub open spec fn fits(self, n: usize) -> bool {
        self.start < n && self.end < n
    }
}

/// The two probes a stage makes.
#[derive(Clone, Copy, Debug, PartialEq, Eq, Structural)]
pub struct MidpointEdgeProbePairRequestLayout {
    pub first: MidpointEdgeProbeSpanLayout,
    pub second: MidpointEdgeProbeSpanLayout,
}

impl MidpointEdgeProbePairRequestLayout {
    pub fn new(first: MidpointEdgeProbeSpanLayout, second: MidpointEdgeProbeSpanLayout) -> (r:
        Self)
        ensures
            r == (MidpointEdgeProbePairRequestLayout { first, second }),
    {
        MidpointEdgeProbePairRequestLayout { first, second }
    }
}

/// A position among the (at most five) samples that a stage starts from.
#[derive(Clone, Copy, Debug, PartialEq, Eq, Structural)]
pub enum EarlyProbeSourcePosition {
    First,
    Second,
    Third,
    Fourth,
    Fifth,
}

pub open spec fn spec_source_index(p: EarlyProbeSourcePosition) -> usize {
    match p {
        EarlyProbeSourcePosition::First => 0,
        EarlyProbeSourcePosition::Second => 1,
        EarlyProbeSourcePosition::Third => 2,
        EarlyProbeSourcePosition::Fourth => 3,
        EarlyProbeSourcePosition::Fifth => 4,
    }
}

impl EarlyProbeSourcePosition {
    pub fn index(self) -> (r: usize)
        ensures
            r == spec_source_index(self),
    {
        match self {
            EarlyProbeSourcePosition::First => 0,
            EarlyProbeSourcePosition::Second => 1,
            EarlyProbeSourcePosition::Third => 2,
            EarlyProbeSourcePosition::Fourth => 3,
            EarlyProbeSourcePosition::Fifth => 4,
        }
    }
}

/// Where a sample of the next stage comes from: a sample of this stage, or
/// one of the two probes.
#[derive(Clone, Copy, Debug, PartialEq, Eq, Structural)]
pub enum EarlyProbeSampleRole {
    Source(EarlyProbeSourcePosition),
    FirstProbe,
    SecondProbe,
}

/// The role reads a sample that a stage of `n` samples has.
pub open spec fn role_fits(role: EarlyProbeSampleRole, n: usize) -> bool {
    match role {
        EarlyProbeSampleRole::Source(p) => spec_source_index(p) < n,
        _ => true,
    }
}

/// One probing stage: from `source_count` samples to `stage_count`.
#[derive(Clone, Debug)]
pub struct EarlyProbeStageLayout {
    pub source_count: usize,
    pub probe_request_layout: MidpointEdgeProbePairRequestLayout,
    pub sample_roles: Vec<EarlyProbeSampleRole>,
}

impl EarlyProbeStageLayout {
    pub fn new(
        source_count: usize,
        probe_request_layout: MidpointEdgeProbePairRequestLayout,
        sample_roles: Vec<EarlyProbeSampleRole>,
    ) -> (r: Self)
        ensures
            r.source_count == source_count,
            r.probe_request_layout == probe_request_layout,
            r.sample_roles@ == sample_roles@,
    {
        EarlyProbeStageLayout { source_count, probe_request_layout, sample_roles }
    }

    /// Every index the stage reads lies among its source samples.
    pub open spec fn fits(&self) -> bool {
        &&& self.probe_request_layout.first.fits(self.source_count)
        &&& self.probe_request_layout.second.fits(self.source_count)
        &&& forall|i: int|
            0 <= i < self.sample_roles@.len() ==> role_fits(
                #[trigger] self.sample_roles@[i],
                self.source_count,
            )
    }
}

/// Three samples of the refined stage: a segment from `start` to `end`
/// measured at `midpoint`.
#[derive(Clone, Copy, Debug, PartialEq, Eq, Structural)]
pub struct PreparedRefinementTripletLayout {
    pub start: usize,
    pub end: usize,
    pub midpoint: usize,
}

impl PreparedRefinementTripletLayout {
    pub fn new(start: usize, midpoint: usize, end: usize) -> (r: Self)
        ensures
            r == (PreparedRefinementTripletLayout { start, end, midpoint }),
    {
        PreparedRefinementTripletLayout { start, end, midpoint }
    }

    pub open spec fn fits(self, n: usize) -> bool {
        self.start < n && self.midpoint < n && self.end < n
    }
}

/// Two samples of the refined stage whose midpoint is probed.
#[derive(Clone, Copy, Debug, PartialEq, Eq, Structural)]
pub struct PreparedRefinementSpanLayout {
    pub start: usize,
    pub end: usize,
}

impl PreparedRefinementSpanLayout {
    pub fn new(start: usize, end: usize) -> (r: Self)
        ensures
            r == (PreparedRefinementSpanLayout { start, end }),
    {
        PreparedRefinementSpanLayout { start, end }
    }

    pub open spec fn fits(self, n: usize) -> bool {
        self.start < n && self.end < n
    }
}

/// The samples one side of the refined interval is measured on.
#[derive(Clone, Copy, Debug, PartialEq, Eq, Structural)]
pub struct PreparedIntervalAwareRefinementSideLayout {
    pub coarse: PreparedRefinementTripletLayout,
    pub outer: PreparedRefinementTripletLayout,
    pub inner: PreparedRefinementSpanLayout,
}

impl PreparedIntervalAwareRefinementSideLayout {
    pub fn new(
        coarse: PreparedRefinementTripletLayout,
        outer: PreparedRefinementTripletLayout,
        inner: PreparedRefinementSpanLayout,
    ) -> (r: Self)
        ensures
            r == (PreparedIntervalAwareRefinementSideLayout { coarse, outer, inner }),
    {
        PreparedIntervalAwareRefinementSideLayout { coarse, outer, inner }
    }

    pub open spec fn fits(self, n: usize) -> bool {
        self.coarse.fits(n) && self.outer.fits(n) && self.inner.fits(n)
    }
}

/// The two sides of the refined interval.
#[derive(Clone, Copy, Debug, PartialEq, Eq, Structural)]
pub struct PreparedIntervalAwareRefinementSideLayouts {
    pub left: PreparedIntervalAwareRefinementSideLayout,
    pub right: PreparedIntervalAwareRefinementSideLayout,
}

impl PreparedIntervalAwareRefinementSideLayouts {
    pub fn new(
        left: PreparedIntervalAwareRefinementSideLayout,
        right: PreparedIntervalAwareRefinementSideLayout,
    ) -> (r: Self)
        ensures
            r == (PreparedIntervalAwareRefinementSideLayouts { left, right }),
    {
        PreparedIntervalAwareRefinementSideLayouts { left, right }
    }
}

/// The early probing of an interval: a midpoint stage from its three
/// samples to five, an outer stage from five to seven, the sides measured
/// on those seven, and how many coarse checks precede the adaptive chase.
#[derive(Clone, Debug)]
pub struct EarlyProbeRefinementStages {
    pub midpoint_stage: EarlyProbeStageLayout,
    pub outer_stage: EarlyProbeStageLayout,
    pub interval_aware_side_layouts: PreparedIntervalAwareRefinementSideLayouts,
    pub coarse_refinement_checks_before_adaptive_chase: usize,
}

impl EarlyProbeRefinementStages {
    pub fn new(
        midpoint_stage: EarlyProbeStageLayout,
        outer_stage: EarlyProbeStageLayout,
        interval_aware_side_layouts: PreparedIntervalAwareRefinementSideLayouts,
        coarse_refinement_checks_before_adaptive_chase: usize,
    ) -> (r: Self)
        ensures
            r.midpoint_stage.source_count == midpoint_stage.source_count,
            r.midpoint_stage.probe_request_layout == midpoint_stage.probe_request_layout,
            r.midpoint_stage.sample_roles@ == midpoint_stage.sample_roles@,
            r.outer_stage.source_count == outer_stage.source_count,
            r.outer_stage.probe_request_layout == outer_stage.probe_request_layout,
            r.outer_stage.sample_roles@ == outer_stage.sample_roles@,
            r.interval_aware_side_layouts == interval_aware_side_layouts,
            r.coarse_refinement_checks_before_adaptive_chase
                == coarse_refinement_checks_before_adaptive_chase,
    {
        EarlyProbeRefinementStages {
            midpoint_stage,
            outer_stage,
            interval_aware_side_layouts,
            coarse_refinement_checks_before_adaptive_chase,
        }
    }

    /// The stages chain: the midpoint stage reads the interval's three
    /// samples and makes as many as the outer stage reads; the outer stage
    /// makes the seven that the sides are measured on; every index lies
    /// inside the samples it reads.
    pub open spec fn fits(&self) -> bool {
        &&& self.midpoint_stage.source_count == 3
        &&& self.midpoint_stage.fits()
        &&& self.midpoint_stage.sample_roles@.len() == self.outer_stage.source_count
        &&& self.outer_stage.fits()
        &&& self.outer_stage.sample_roles@.len() == 7
        &&& self.interval_aware_side_layouts.left.fits(7)
        &&& self.interval_aware_side_layouts.right.fits(7)
    }
}

/// The sources that a stage's roles read, in the order of the roles.
pub open spec fn source_order(roles: Seq<EarlyProbeSampleRole>) -> Seq<usize>
    decreases roles.len(),
{
    if roles.len() == 0 {
        Seq::empty()
    } else {
        match roles.last() {
            EarlyProbeSampleRole::Source(p) => source_order(roles.drop_last()).push(
                spec_source_index(p),
            ),
            _ => source_order(roles.drop_last()),
        }
    }
}

/// The probing stages of an interval. Every index in them lies inside the
/// samples it reads, the stages chain from an interval's three samples to
/// seven, and each stage keeps its source samples in order, the probes
/// falling between them.
pub fn early_probe_refinement_stages() -> (r: EarlyProbeRefinementStages)
    ensures
        r.midpoint_stage.source_count == 3,
        r.midpoint_stage.probe_request_layout == (MidpointEdgeProbePairRequestLayout {
            first: MidpointEdgeProbeSpanLayout { start: 0, end: 1 },
            second: MidpointEdgeProbeSpanLayout { start: 1, end: 2 },
        }),
        r.midpoint_stage.sample_roles@ == seq![
            EarlyProbeSampleRole::Source(EarlyProbeSourcePosition::First),
            EarlyProbeSampleRole::FirstProbe,
            EarlyProbeSampleRole::Source(EarlyProbeSourcePosition::Second),
            EarlyProbeSampleRole::SecondProbe,
            EarlyProbeSampleRole::Source(EarlyProbeSourcePosition::Third),
        ],
        r.outer_stage.source_count == 5,
        r.outer_stage.probe_request_layout == (MidpointEdgeProbePairRequestLayout {
            first: MidpointEdgeProbeSpanLayout { start: 0, end: 1 },
            second: MidpointEdgeProbeSpanLayout { start: 3, end: 4 },
        }),
        r.outer_stage.sample_roles@ == seq![
            EarlyProbeSampleRole::Source(EarlyProbeSourcePosition::First),
            EarlyProbeSampleRole::FirstProbe,
            EarlyProbeSampleRole::Source(EarlyProbeSourcePosition::Second),
            EarlyProbeSampleRole::Source(EarlyProbeSourcePosition::Third),
            EarlyProbeSampleRole::Source(EarlyProbeSourcePosition::Fourth),
            EarlyProbeSampleRole::SecondProbe,
            EarlyProbeSampleRole::Source(EarlyProbeSourcePosition::Fifth),
        ],
        r.interval_aware_side_layouts == (PreparedIntervalAwareRefinementSideLayouts {
            left: PreparedIntervalAwareRefinementSideLayout {
                coarse: PreparedRefinementTripletLayout { start: 0, end: 3, midpoint: 2 },
                outer: PreparedRefinementTripletLayout { start: 0, end: 2, midpoint: 1 },
                inner: PreparedRefinementSpanLayout { start: 2, end: 3 },
            },
            right: PreparedIntervalAwareRefinementSideLayout {
                coarse: PreparedRefinementTripletLayout { start: 3, end: 6, midpoint: 4 },
                outer: PreparedRefinementTripletLayout { start: 4, end: 6, midpoint: 5 },
                inner: PreparedRefinementSpanLayout { start: 3, end: 4 },
            },
        }),
        r.coarse_refinement_checks_before_adaptive_chase == 3,
        r.fits(),
        source_order(r.midpoint_stage.sample_roles@) == seq![0usize, 1, 2],
        source_order(r.outer_stage.sample_roles@) == seq![0usize, 1, 2, 3, 4],
{
    let midpoint_roles = vec![
        EarlyProbeSampleRole::Source(EarlyProbeSourcePosition::First),
        EarlyProbeSampleRole::FirstProbe,
        EarlyProbeSampleRole::Source(EarlyProbeSourcePosition::Second),
        EarlyProbeSampleRole::SecondProbe,
        EarlyProbeSampleRole::Source(EarlyProbeSourcePosition::Third),
    ];
    let midpoint_stage = EarlyProbeStageLayout::new(
        3,
        MidpointEdgeProbePairRequestLayout::new(
            MidpointEdgeProbeSpanLayout::new(0, 1),
            MidpointEdgeProbeSpanLayout::new(1, 2),
        ),
        midpoint_roles,
    );
    let outer_roles = vec![
        EarlyProbeSampleRole::Source(EarlyProbeSourcePosition::First),
        EarlyProbeSampleRole::FirstProbe,
        EarlyProbeSampleRole::Source(EarlyProbeSourcePosition::Second),
        EarlyProbeSampleRole::Source(EarlyProbeSourcePosition::Third),
        EarlyProbeSampleRole::Source(EarlyProbeSourcePosition::Fourth),
        EarlyProbeSampleRole::SecondProbe,
        EarlyProbeSampleRole::Source(EarlyProbeSourcePosition::Fifth),
    ];
    let outer_stage = EarlyProbeStageLayout::new(
        5,
        MidpointEdgeProbePairRequestLayout::new(
            MidpointEdgeProbeSpanLayout::new(0, 1),
            MidpointEdgeProbeSpanLayout::new(3, 4),
        ),
        outer_roles,
    );
    let sides = PreparedIntervalAwareRefinementSideLayouts::new(
        PreparedIntervalAwareRefinementSideLayout::new(
            PreparedRefinementTripletLayout::new(0, 2, 3),
            PreparedRefinementTripletLayout::new(0, 1, 2),
            PreparedRefinementSpanLayout::new(2, 3),
        ),
        PreparedIntervalAwareRefinementSideLayout::new(
            PreparedRefinementTripletLayout::new(3, 4, 6),
            PreparedRefinementTripletLayout::new(4, 5, 6),
            PreparedRefinementSpanLayout::new(3, 4),
        ),
    );
    let r = EarlyProbeRefinementStages::new(midpoint_stage, outer_stage, sides, 3);
    proof {
        let m = r.midpoint_stage.sample_roles@;
        let o = r.outer_stage.sample_roles@;
        reveal_with_fuel(source_order, 8);
        assert(source_order(m) =~= seq![0usize, 1, 2]);
        assert(source_order(o) =~= seq![0usize, 1, 2, 3, 4]);
    }
    r
}

} // verus!
