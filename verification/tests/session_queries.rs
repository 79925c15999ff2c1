use lean_occt::abi::LeanOcctShapeKind;
use lean_occt::error::Error;
use lean_occt::kinds::ShapeKind;
use lean_occt::session::{
    CollectStage, Context, KernelReply, KernelRequest, ModelKernel, QueryStep, Shape,
};
use lean_occt::summary::ShapeCounts;
use lean_occt::topology::{TopologyEdgeVertices, TopologyRange, TopologyTables};

fn tables(faces: usize) -> TopologyTables {
    TopologyTables {
        vertex_count: 8,
        edges: vec![TopologyEdgeVertices { start_vertex: None, end_vertex: None }; 12],
        edge_faces: vec![],
        edge_face_indices: vec![],
        wires: vec![],
        wire_edge_indices: vec![],
        wire_edge_orientations: vec![],
        wire_vertices: vec![],
        wire_vertex_indices: vec![],
        faces: vec![TopologyRange { offset: 0, count: 0 }; faces],
        face_wire_indices: vec![],
        face_wire_orientations: vec![],
        face_wire_roles: vec![],
    }
}

fn finished<T>(step: QueryStep<T>) -> Result<T, Error> {
    match step {
        QueryStep::Finish(result) => result,
        QueryStep::Ask(_) => panic!("query asked for more"),
    }
}

fn asked<T>(step: QueryStep<T>) -> KernelRequest {
    match step {
        QueryStep::Ask(request) => request,
        QueryStep::Finish(_) => panic!("query finished early"),
    }
}

const SHAPE: Shape = Shape { token: 7 };
const CONTEXT: Context = Context { token: 1 };

#[test]
fn kernel_keeps_its_context() {
    let kernel = ModelKernel::new(CONTEXT);
    assert_eq!(*kernel.context(), CONTEXT);
}

#[test]
fn face_count_comes_from_topology() {
    let (mut query, first) = CONTEXT.subshape_count(&SHAPE, ShapeKind::Face);
    assert_eq!(first, KernelRequest::PortedTopology { shape: SHAPE });
    let count = finished(query.answer(KernelReply::PortedTopology(Some(tables(6))))).unwrap();
    assert_eq!(count, 6);
}

#[test]
fn edge_count_falls_back_to_kernel() {
    let (mut query, _) = CONTEXT.subshape_count(&SHAPE, ShapeKind::Edge);
    let next = asked(query.answer(KernelReply::PortedTopology(None)));
    assert_eq!(next, KernelRequest::SubshapeCount { shape: SHAPE, kind: LeanOcctShapeKind::Edge });
    assert_eq!(finished(query.answer(KernelReply::SubshapeCount(12))).unwrap(), 12);
}

#[test]
fn solid_count_comes_from_summary() {
    let (mut query, first) = CONTEXT.subshape_count(&SHAPE, ShapeKind::Solid);
    assert_eq!(first, KernelRequest::DescribeShape { shape: SHAPE });
    let summary = ShapeCounts {
        compound_count: 0,
        compsolid_count: 0,
        solid_count: 2,
        shell_count: 2,
        face_count: 12,
        wire_count: 12,
        edge_count: 24,
        vertex_count: 16,
    };
    assert_eq!(finished(query.answer(KernelReply::ShapeSummary(summary))).unwrap(), 2);
}

#[test]
fn shape_count_goes_to_kernel_and_failures_end_queries() {
    let (mut query, first) = CONTEXT.subshape_count(&SHAPE, ShapeKind::Shape);
    assert_eq!(first, KernelRequest::SubshapeCount { shape: SHAPE, kind: LeanOcctShapeKind::Shape });
    let err = finished(query.answer(KernelReply::Failed(Error::from_text("kernel said no")))).unwrap_err();
    assert_eq!(err.message(), "kernel said no");
}

#[test]
fn subshape_index_is_checked_against_topology() {
    let (mut query, first) = CONTEXT.subshape(&SHAPE, ShapeKind::Face, 6);
    assert_eq!(first, KernelRequest::PortedTopology { shape: SHAPE });
    let err = finished(query.answer(KernelReply::PortedTopology(Some(tables(6))))).unwrap_err();
    assert_eq!(err.message(), "subshape index 6 out of bounds for Face count 6");
}

#[test]
fn subshape_is_fetched_from_kernel() {
    let (mut query, _) = CONTEXT.subshape(&SHAPE, ShapeKind::Face, 2);
    let next = asked(query.answer(KernelReply::PortedTopology(Some(tables(6)))));
    assert_eq!(next, KernelRequest::Subshape { shape: SHAPE, kind: LeanOcctShapeKind::Face, index: 2 });
    let child = Shape { token: 99 };
    assert_eq!(finished(query.answer(KernelReply::Subshape(child))).unwrap(), child);
}

#[test]
fn subshape_without_topology_is_not_checked() {
    let (mut query, _) = CONTEXT.subshape(&SHAPE, ShapeKind::Solid, 40);
    let next = asked(query.answer(KernelReply::PortedTopology(Some(tables(1)))));
    assert_eq!(next, KernelRequest::Subshape { shape: SHAPE, kind: LeanOcctShapeKind::Solid, index: 40 });
}

#[test]
fn kernel_subshapes_are_collected_in_order() {
    let (mut query, first) = CONTEXT.subshapes_occt(&SHAPE, ShapeKind::Wire);
    assert_eq!(first, KernelRequest::SubshapeCount { shape: SHAPE, kind: LeanOcctShapeKind::Wire });
    assert_eq!(
        asked(query.answer(KernelReply::SubshapeCount(3))),
        KernelRequest::Subshape { shape: SHAPE, kind: LeanOcctShapeKind::Wire, index: 0 }
    );
    assert_eq!(
        asked(query.answer(KernelReply::Subshape(Shape { token: 10 }))),
        KernelRequest::Subshape { shape: SHAPE, kind: LeanOcctShapeKind::Wire, index: 1 }
    );
    asked(query.answer(KernelReply::Subshape(Shape { token: 11 })));
    let shapes = finished(query.answer(KernelReply::Subshape(Shape { token: 12 }))).unwrap();
    assert_eq!(shapes, vec![Shape { token: 10 }, Shape { token: 11 }, Shape { token: 12 }]);
    assert_eq!(query.stage, CollectStage::Finished);
}

#[test]
fn no_kernel_subshapes() {
    let (mut query, _) = CONTEXT.subshapes_occt(&SHAPE, ShapeKind::Shell);
    assert_eq!(finished(query.answer(KernelReply::SubshapeCount(0))).unwrap(), vec![]);
}

#[test]
fn subshapes_are_checked_against_topology_count() {
    let (mut query, first) = CONTEXT.subshapes(&SHAPE, ShapeKind::Face);
    assert_eq!(first, KernelRequest::PortedTopology { shape: SHAPE });
    assert_eq!(
        asked(query.answer(KernelReply::PortedTopology(Some(tables(2))))),
        KernelRequest::SubshapeCount { shape: SHAPE, kind: LeanOcctShapeKind::Face }
    );
    asked(query.answer(KernelReply::SubshapeCount(1)));
    let err = finished(query.answer(KernelReply::Subshape(Shape { token: 3 }))).unwrap_err();
    assert_eq!(err.message(), "expected 2 Face subshape(s) from topology, found 1 via OCCT");
}

#[test]
fn subshapes_matching_topology_count() {
    let (mut query, _) = CONTEXT.subshapes(&SHAPE, ShapeKind::Face);
    asked(query.answer(KernelReply::PortedTopology(Some(tables(1)))));
    asked(query.answer(KernelReply::SubshapeCount(1)));
    let shapes = finished(query.answer(KernelReply::Subshape(Shape { token: 4 }))).unwrap();
    assert_eq!(shapes, vec![Shape { token: 4 }]);
}

#[test]
fn subshapes_without_tables_are_not_checked() {
    let (mut query, _) = CONTEXT.subshapes(&SHAPE, ShapeKind::Face);
    asked(query.answer(KernelReply::PortedTopology(None)));
    assert_eq!(finished(query.answer(KernelReply::SubshapeCount(0))).unwrap(), vec![]);
}
