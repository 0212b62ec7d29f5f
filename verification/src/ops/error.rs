//! The detailed error type of the operations and its error context.
use vstd::prelude::*;
use crate::geom::GeometryError;
use crate::text::{string_from_str, strings_model};
use crate::topo::TopologyError;

verus! {

/// Errors that can occur during CAD operations.
#[derive(Debug, Clone, PartialEq, Eq)]
pub enum OpsError {
    /// Topology error
    Topology(String),
    /// Geometry error
    Geometry(String),
    /// Boolean operation failed
    BooleanFailed(String),
    /// Feature creation failed
    FeatureFailed(String),
    /// Fillet/Chamfer failed
    FilletFailed(String),
    /// Invalid input bodies
    InvalidBodies(String),
    /// No intersection found
    NoIntersection,
    /// Non-manifold result
    NonManifold(String),
    /// Self-intersection detected
    SelfIntersection(String),
    /// Invalid parameters
    InvalidParameters(String),
    /// Operation not supported
    NotSupported(String),
    /// Numerical error
    Numerical(String),
}

/// Result type for operations.
pub type OpsResult<T> = Result<T, OpsError>;

impl OpsError {
    /// A topology error, carrying its message.
    pub fn from_topology(err: TopologyError) -> (r: OpsError)
        ensures
            r matches OpsError::Topology(m) && m@ == err.text(),
    {
        OpsError::Topology(err.to_string())
    }

    /// A geometry error, carrying its message.
    pub fn from_geometry(err: GeometryError) -> (r: OpsError)
        ensures
            r matches OpsError::Geometry(m) && m@ == err.text(),
    {
        OpsError::Geometry(err.to_string())
    }
}

/// Error context for detailed error reporting.
#[derive(Debug, Clone)]
pub struct ErrorContext {
    /// Operation being performed
    pub operation: String,
    /// Entity involved
    pub entity: Option<String>,
    /// Additional context
    pub details: Vec<String>,
}

impl ErrorContext {
    /// Create a new error context for an operation.
    pub fn new(operation: &str) -> (r: Self)
        ensures
            r.operation@ == operation@,
            r.entity is None,
            r.details@.len() == 0,
    {
        ErrorContext { operation: string_from_str(operation), entity: None, details: Vec::new() }
    }

    /// The context with the entity involved.
    pub fn with_entity(self, entity: &str) -> (r: Self)
        ensures
            r.operation == self.operation,
            r.entity matches Some(e) && e@ == entity@,
            r.details == self.details,
    {
        let mut s = self;
        s.entity = Some(string_from_str(entity));
        s
    }

    /// The context with one more detail, after the others.
    pub fn with_detail(self, detail: &str) -> (r: Self)
        ensures
            r.operation == self.operation,
            r.entity == self.entity,
            strings_model(r.details@) == strings_model(self.details@).push(detail@),
    {
        let mut s = self;
        s.details.push(string_from_str(detail));
        assert(strings_model(s.details@) =~= strings_model(self.details@).push(detail@));
        s
    }
}

} // verus!
