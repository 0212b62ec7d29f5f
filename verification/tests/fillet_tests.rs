use nova_kernel::ops::fillet::{analyze_fillet_edges, ChamferOp, ChamferOptions, FilletEngine, FilletOp, FilletOptions};
use nova_kernel::ops::OpsError;
use nova_kernel::topo::body::{Body, Edge, PointBits, Vertex};
use nova_kernel::topo::entity::{Entity, EntityId, EntityIdGenerator};

#[test]
fn test_fillet_op_creation() {
    let edges = Vec::new();
    let op = FilletOp::new(edges, 5.0f64.to_bits());
    assert_eq!(f64::from_bits(op.radius), 5.0);
    assert!(op.variable_radius.is_none());
}

#[test]
fn test_chamfer_op_creation() {
    let edges = Vec::new();
    let op = ChamferOp::new(edges, 2.0f64.to_bits());
    assert_eq!(f64::from_bits(op.distance1), 2.0);
    assert!(op.distance2.is_none());
}

#[test]
fn test_chamfer_with_distances() {
    let edges = Vec::new();
    let op = ChamferOp::with_distances(edges, 2.0f64.to_bits(), 3.0f64.to_bits());
    assert_eq!(f64::from_bits(op.distance1), 2.0);
    assert_eq!(op.distance2.map(f64::from_bits), Some(3.0));
}

#[test]
fn test_fillet_options() {
    let opts = FilletOptions::new();
    assert_eq!(f64::from_bits(opts.default_radius), 1.0);
    assert!(opts.propagate_tangent);
    assert!(opts.trim_edges);
}

#[test]
fn test_chamfer_options() {
    let opts = ChamferOptions::new();
    assert_eq!(f64::from_bits(opts.default_distance), 1.0);
    assert!(!opts.propagate_tangent);
}

#[test]
fn fillet_requests_and_checks() {
    let opts = FilletOptions::default();
    assert_eq!(f64::from_bits(opts.max_radius), 1000.0);
    assert_eq!(f64::from_bits(opts.min_radius), 1e-6);
    assert_eq!(f64::from_bits(ChamferOptions::default().max_distance), 1000.0);
    let v = FilletOp::with_variable_radius(Vec::new(), vec![(0, 1), (2, 3)]);
    assert_eq!(v.radius, 0);
    assert_eq!(v.variable_radius, Some(vec![(0, 1), (2, 3)]));
    let a = ChamferOp::with_angle(Vec::new(), 1.5f64.to_bits(), 45.0f64.to_bits());
    assert_eq!(a.angle.map(f64::from_bits), Some(45.0));
    assert!(a.distance2.is_none());

    let mut ids = EntityIdGenerator::new();
    let p = Vertex::new(&mut ids, PointBits { x: 0, y: 0, z: 0 });
    let q = Vertex::new(&mut ids, PointBits { x: 1, y: 0, z: 0 });
    let edge = Edge::new(&mut ids, p, q);
    let body = Body::new(&mut ids);
    let engine = FilletEngine::new();
    assert_eq!(engine.fillet_options, FilletOptions::new());
    assert_eq!(
        engine.variable_fillet(&body, &edge, &[(0, 1)]).unwrap_err(),
        OpsError::InvalidParameters("Variable fillet needs at least 2 radius values".to_string())
    );
    assert_eq!(
        engine.variable_fillet(&body, &edge, &[(0, 1), (1, 2)]).unwrap_err(),
        OpsError::NotSupported("Variable radius fillet not yet implemented".to_string())
    );
}

#[test]
fn fillet_analysis_sorts_edges_by_adjacent_faces() {
    let mut ids = EntityIdGenerator::new();
    let a = Vertex::new(&mut ids, PointBits { x: 0, y: 0, z: 0 });
    let b = Vertex::new(&mut ids, PointBits { x: 1.0f64.to_bits(), y: 0, z: 0 });
    let mut two = Edge::new(&mut ids, a.duplicate(), b.duplicate());
    two.add_coedge(EntityId(900));
    two.add_coedge(EntityId(901));
    let mut one = Edge::new(&mut ids, a.duplicate(), b.duplicate());
    one.add_coedge(EntityId(902));
    let none = Edge::new(&mut ids, a, b);
    let analysis = analyze_fillet_edges(&[two.duplicate(), one.duplicate(), none.duplicate()]);
    assert_eq!(analysis.valid_edges, vec![two.id()]);
    assert_eq!(
        analysis.invalid_edges,
        vec![
            (one.id(), "Edge has 1 adjacent faces (expected 2)".to_string()),
            (none.id(), "Edge has 0 adjacent faces (expected 2)".to_string()),
        ]
    );
    assert_eq!(analysis.new_face_count, 1);
}
