use nova_kernel::check::{check_body, heal_body, ValidationError, ValidationResult, ValidationWarning, Validator};
use nova_kernel::topo::body::Body;
use nova_kernel::topo::entity::EntityIdGenerator;

#[test]
fn test_validation_result() {
    let mut result = ValidationResult::new();
    assert!(result.is_valid());

    result.add_error(ValidationError::InvalidTopology("test".to_string()));
    assert!(!result.is_valid());
}

#[test]
fn test_validator() {
    let mut ids = EntityIdGenerator::new();
    let validator = Validator::new();
    let body = Body::new(&mut ids);
    let result = validator.validate(&body);
    assert!(result.is_valid());
}

#[test]
fn merge_keeps_errors_and_warnings_in_order() {
    let mut a = ValidationResult::new();
    a.add_warning(ValidationWarning::SmallEdge);
    let mut b = ValidationResult::new();
    b.add_error(ValidationError::GapInBoundary);
    b.add_warning(ValidationWarning::SharpAngle);
    assert!(a.is_valid());
    assert!(!b.is_valid());
    a.merge(b);
    assert!(!a.is_valid());
    assert_eq!(a.errors, vec![ValidationError::GapInBoundary]);
    assert_eq!(a.warnings, vec![ValidationWarning::SmallEdge, ValidationWarning::SharpAngle]);
}

#[test]
fn merging_two_valid_results_stays_valid() {
    let mut a = ValidationResult::new();
    let b = ValidationResult::new();
    a.merge(b);
    assert!(a.is_valid());
}

#[test]
fn validation_error_messages() {
    assert_eq!(ValidationError::InvalidTopology("loop".to_string()).to_string(), "Invalid topology: loop");
    assert_eq!(ValidationError::InvalidGeometry("arc".to_string()).to_string(), "Invalid geometry: arc");
    assert_eq!(ValidationError::SelfIntersection.to_string(), "Self-intersection detected");
    assert_eq!(ValidationError::GapInBoundary.to_string(), "Gap in boundary");
    assert_eq!(ValidationError::DegenerateGeometry.to_string(), "Degenerate geometry");
    assert_eq!(ValidationError::OrientationError.to_string(), "Orientation error");
}

#[test]
fn check_and_heal_leave_a_body_valid() {
    let mut ids = EntityIdGenerator::new();
    let mut body = Body::new(&mut ids);
    assert!(check_body(&body).is_valid());
    assert!(heal_body(&mut body).is_ok());
    assert!(body.is_empty());
}
