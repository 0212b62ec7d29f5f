//! High-level operations: booleans, features, splitting and transforms.
//! None of them is available yet; each reports that it is not supported.
use vstd::prelude::*;
use crate::text::string_from_str;
use crate::topo::body::{Body, Edge};

pub mod error;
pub mod boolean;
pub mod feature;
pub mod fillet;
pub mod split;
pub mod transform;

verus! {

/// Operations error types.
#[derive(Debug, Clone, PartialEq, Eq)]
pub enum OpsError {
    /// Invalid input bodies
    InvalidBodies(String),
    /// Invalid parameters
    InvalidParameters(String),
    /// Geometry error
    Geometry(String),
    /// Topology error
    Topology(String),
    /// Operation not supported
    NotSupported(String),
}

/// Result type for operations.
pub type OpsResult<T> = Result<T, OpsError>;

/// `r` is the "not supported" error with message `m`.
pub open spec fn not_supported<T>(r: OpsResult<T>, m: Seq<char>) -> bool {
    r matches Err(OpsError::NotSupported(s)) && s@ == m
}

/// Transform a body: not available yet.
pub fn transform_body(body: &Body) -> (r: OpsResult<Body>)
    ensures
        not_supported(r, "Body transformation not yet implemented"@),
{
    Err(OpsError::NotSupported(string_from_str("Body transformation not yet implemented")))
}

/// Create an extruded body: not available yet.
pub fn extrude(profile: &Body) -> (r: OpsResult<Body>)
    ensures
        not_supported(r, "Extrude not yet implemented"@),
{
    Err(OpsError::NotSupported(string_from_str("Extrude not yet implemented")))
}

/// Create a revolved body: not available yet.
pub fn revolve(profile: &Body) -> (r: OpsResult<Body>)
    ensures
        not_supported(r, "Revolve not yet implemented"@),
{
    Err(OpsError::NotSupported(string_from_str("Revolve not yet implemented")))
}

/// Loft between profiles: not available yet.
pub fn loft(profiles: &[Body]) -> (r: OpsResult<Body>)
    ensures
        not_supported(r, "Loft not yet implemented"@),
{
    Err(OpsError::NotSupported(string_from_str("Loft not yet implemented")))
}

/// Sweep a profile along a path: not available yet.
pub fn sweep(profile: &Body) -> (r: OpsResult<Body>)
    ensures
        not_supported(r, "Sweep not yet implemented"@),
{
    Err(OpsError::NotSupported(string_from_str("Sweep not yet implemented")))
}

/// Boolean unite: not available yet.
pub fn boolean_unite(body1: &Body, body2: &Body) -> (r: OpsResult<Body>)
    ensures
        not_supported(r, "Boolean unite not yet implemented"@),
{
    Err(OpsError::NotSupported(string_from_str("Boolean unite not yet implemented")))
}

/// Boolean subtract: not available yet.
pub fn boolean_subtract(body1: &Body, body2: &Body) -> (r: OpsResult<Body>)
    ensures
        not_supported(r, "Boolean subtract not yet implemented"@),
{
    Err(OpsError::NotSupported(string_from_str("Boolean subtract not yet implemented")))
}

/// Boolean intersect: not available yet.
pub fn boolean_intersect(body1: &Body, body2: &Body) -> (r: OpsResult<Body>)
    ensures
        not_supported(r, "Boolean intersect not yet implemented"@),
{
    Err(OpsError::NotSupported(string_from_str("Boolean intersect not yet implemented")))
}

/// Apply a fillet to edges: not available yet.
pub fn fillet_edges(body: &Body, edges: &[&Edge]) -> (r: OpsResult<Body>)
    ensures
        not_supported(r, "Fillet not yet implemented"@),
{
    Err(OpsError::NotSupported(string_from_str("Fillet not yet implemented")))
}

/// Apply a chamfer to edges: not available yet.
pub fn chamfer_edges(body: &Body, edges: &[&Edge]) -> (r: OpsResult<Body>)
    ensures
        not_supported(r, "Chamfer not yet implemented"@),
{
    Err(OpsError::NotSupported(string_from_str("Chamfer not yet implemented")))
}

/// Split a body with a surface: not available yet.
pub fn split_body(body: &Body) -> (r: OpsResult<Vec<Body>>)
    ensures
        not_supported(r, "Split not yet implemented"@),
{
    Err(OpsError::NotSupported(string_from_str("Split not yet implemented")))
}

} // verus!
