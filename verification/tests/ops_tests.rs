use nova_kernel::geom::GeometryError;
use nova_kernel::ops::boolean::{BooleanEngine, BooleanOp, PointClassification};
use nova_kernel::ops::error::{ErrorContext, OpsError as DetailedOpsError};
use nova_kernel::ops::feature::{FeatureEngine, LoftOptions, SweepOptions};
use nova_kernel::ops::split::{SplitEngine, SplitOptions};
use nova_kernel::ops::transform::{TransformEngine, TransformOptions};
use nova_kernel::ops::{boolean_unite, OpsError};
use nova_kernel::tess::TessellationError;
use nova_kernel::topo::body::Body;
use nova_kernel::topo::entity::EntityIdGenerator;

#[test]
fn boolean_operations_report_their_name() {
    let mut ids = EntityIdGenerator::new();
    let a = Body::new(&mut ids);
    let b = Body::new(&mut ids);
    assert_eq!(BooleanOp::Subtract.name(), "subtract");
    let engine = BooleanEngine::new(BooleanOp::Intersect);
    assert_eq!(
        engine.execute(&a, &b).unwrap_err(),
        OpsError::NotSupported("Boolean operation 'intersect' not yet implemented".to_string())
    );
    assert_eq!(boolean_unite(&a, &b).unwrap_err(), OpsError::NotSupported("Boolean unite not yet implemented".to_string()));
    assert!(matches!(PointClassification::OnBoundary, PointClassification::OnBoundary));
}

#[test]
fn engines_are_not_available_yet() {
    let mut ids = EntityIdGenerator::new();
    let body = Body::new(&mut ids);
    assert!(SweepOptions::default().solid);
    assert!(LoftOptions::default().solid);
    assert!(!SplitOptions::default().keep_both);
    assert!(!TransformOptions::default().copy);
    assert_eq!(
        FeatureEngine::new().extrude(&body).unwrap_err(),
        OpsError::NotSupported("Extrude not yet implemented".to_string())
    );
    assert_eq!(
        SplitEngine::new().split_with_surface(&body, &SplitOptions::default()).unwrap_err(),
        OpsError::NotSupported("Surface split not yet implemented".to_string())
    );
    assert_eq!(
        TransformEngine::new().scale(&body, &TransformOptions::default()).unwrap_err(),
        OpsError::NotSupported("Transform not yet implemented".to_string())
    );
}

#[test]
fn ops_error_context_and_conversions() {
    let ctx = ErrorContext::new("fillet").with_entity("edge 4").with_detail("radius too large");
    assert_eq!(ctx.entity, Some("edge 4".to_string()));
    assert_eq!(ctx.details, vec!["radius too large".to_string()]);
    let err = DetailedOpsError::from_geometry(GeometryError::Degenerate("arc".to_string()));
    assert_eq!(err, DetailedOpsError::Geometry("Degenerate geometry: arc".to_string()));
    assert_eq!(TessellationError::InvalidBody.to_string(), "Invalid body for tessellation");
    assert_eq!(TessellationError::NumericalError("nan".to_string()).to_string(), "Numerical error: nan");
}
