//! Error types for synchronous editing.
use vstd::prelude::*;
use crate::geom::GeometryError;
use crate::text::{string_from_str, strings_model};
use crate::topo::TopologyError;

verus! {

/// Errors that can occur during synchronous editing.
#[derive(Debug, Clone, PartialEq, Eq)]
pub enum SyncError {
    /// Topology error
    Topology(String),
    /// Geometry error
    Geometry(String),
    /// Face editing failed
    FaceEditFailed(String),
    /// Live Rule violation
    RuleViolation(String),
    /// Feature recognition failed
    RecognitionFailed(String),
    /// Topology resolution failed
    ResolutionFailed(String),
    /// Invalid selection
    InvalidSelection(String),
    /// No faces selected
    NoSelection,
    /// Face not found
    FaceNotFound(u64),
    /// Cannot resolve topology
    UnresolvableTopology(String),
    /// Would create invalid solid
    WouldInvalidateSolid(String),
    /// Degenerate geometry
    DegenerateGeometry(String),
    /// Self-intersection detected
    SelfIntersection(String),
    /// Operation not supported
    NotSupported(String),
    /// Feature not implemented
    NotImplemented(String),
}

/// Result type for synchronous operations.
pub type SyncResult<T> = Result<T, SyncError>;

impl SyncError {
    /// A topology error, carrying its message.
    pub fn from_topology(err: TopologyError) -> (r: SyncError)
        ensures
            r matches SyncError::Topology(m) && m@ == err.text(),
    {
        SyncError::Topology(err.to_string())
    }

    /// A geometry error, carrying its message.
    pub fn from_geometry(err: GeometryError) -> (r: SyncError)
        ensures
            r matches SyncError::Geometry(m) && m@ == err.text(),
    {
        SyncError::Geometry(err.to_string())
    }
}

/// Error context for detailed error reporting.
#[derive(Debug, Clone)]
pub struct ErrorContext {
    /// Operation being performed
    pub operation: String,
    /// Entity involved
    pub entity_id: Option<u64>,
    /// Additional context
    pub details: Vec<String>,
}

impl ErrorContext {
    /// Create a new error context for an operation.
    pub fn new(operation: &str) -> (r: Self)
        ensures
            r.operation@ == operation@,
            r.entity_id == None::<u64>,
            r.details@.len() == 0,
    {
        ErrorContext { operation: string_from_str(operation), entity_id: None, details: Vec::new() }
    }

    /// The context with the entity involved.
    pub fn with_entity(self, entity_id: u64) -> (r: Self)
        ensures
            r.operation == self.operation,
            r.entity_id == Some(entity_id),
            r.details == self.details,
    {
        let mut s = self;
        s.entity_id = Some(entity_id);
        s
    }

    /// The context with one more detail, after the others.
    pub fn with_detail(self, detail: &str) -> (r: Self)
        ensures
            r.operation == self.operation,
            r.entity_id == self.entity_id,
            strings_model(r.details@) == strings_model(self.details@).push(detail@),
    {
        let mut s = self;
        s.details.push(string_from_str(detail));
        assert(strings_model(s.details@) =~= strings_model(self.details@).push(detail@));
        s
    }
}

} // verus!
