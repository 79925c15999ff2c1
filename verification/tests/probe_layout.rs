use lean_occt::probe_layout::{
    early_probe_refinement_stages, EarlyProbeSampleRole, EarlyProbeSourcePosition,
    MidpointEdgeProbeSpanLayout, PreparedRefinementSpanLayout, PreparedRefinementTripletLayout,
};

#[test]
fn source_positions_index_the_samples() {
    assert_eq!(EarlyProbeSourcePosition::First.index(), 0);
    assert_eq!(EarlyProbeSourcePosition::Third.index(), 2);
    assert_eq!(EarlyProbeSourcePosition::Fifth.index(), 4);
}

#[test]
fn probe_stages_chain_from_three_samples_to_seven() {
    let stages = early_probe_refinement_stages();
    assert_eq!(stages.midpoint_stage.source_count, 3);
    assert_eq!(stages.midpoint_stage.sample_roles.len(), stages.outer_stage.source_count);
    assert_eq!(stages.outer_stage.sample_roles.len(), 7);
    assert_eq!(stages.coarse_refinement_checks_before_adaptive_chase, 3);
    assert_eq!(
        stages.midpoint_stage.probe_request_layout.second,
        MidpointEdgeProbeSpanLayout::new(1, 2)
    );
    assert_eq!(
        stages.outer_stage.sample_roles[5],
        EarlyProbeSampleRole::SecondProbe
    );
    assert_eq!(
        stages.interval_aware_side_layouts.right.coarse,
        PreparedRefinementTripletLayout::new(3, 4, 6)
    );
    assert_eq!(stages.interval_aware_side_layouts.left.inner, PreparedRefinementSpanLayout::new(2, 3));
    // Every index stays inside the samples it reads.
    for stage in [&stages.midpoint_stage, &stages.outer_stage] {
        let span = stage.probe_request_layout;
        assert!(span.first.end < stage.source_count && span.second.end < stage.source_count);
        for role in &stage.sample_roles {
            if let EarlyProbeSampleRole::Source(position) = role {
                assert!(position.index() < stage.source_count);
            }
        }
    }
}

#[test]
fn triplet_layout_keeps_its_midpoint() {
    let triplet = PreparedRefinementTripletLayout::new(0, 2, 3);
    assert_eq!((triplet.start, triplet.midpoint, triplet.end), (0, 2, 3));
}
