//! Boolean operations: unite, subtract, intersect.
use vstd::prelude::*;
use crate::numbers::push_str;
use crate::text::string_from_chars;
use crate::topo::body::Body;
use crate::ops::{OpsError, OpsResult, not_supported};

verus! {

/// Boolean operation types.
#[derive(Debug, Clone, Copy, PartialEq, Eq, Structural)]
pub enum BooleanOp {
    /// Unite two bodies (union)
    Unite,
    /// Subtract body2 from body1
    Subtract,
    /// Intersect two bodies
    Intersect,
}

impl BooleanOp {
    /// The operation's name.
    pub open spec fn name_spec(self) -> Seq<char> {
        match self {
            BooleanOp::Unite => "unite"@,
            BooleanOp::Subtract => "subtract"@,
            BooleanOp::Intersect => "intersect"@,
        }
    }

    /// Get the operation name.
    pub fn name(&self) -> (r: &'static str)
        ensures
            r@ == self.name_spec(),
    {
        match self {
            BooleanOp::Unite => "unite",
            BooleanOp::Subtract => "subtract",
            BooleanOp::Intersect => "intersect",
        }
    }
}

/// Boolean operation engine.
#[derive(Debug, Clone)]
pub struct BooleanEngine {
    /// Operation type
    pub op: BooleanOp,
}

impl BooleanEngine {
    /// Create a new boolean engine.
    pub fn new(op: BooleanOp) -> (r: Self)
        ensures
            r.op == op,
    {
        BooleanEngine { op }
    }

    /// Execute the boolean operation: not available yet.
    pub fn execute(&self, body1: &Body, body2: &Body) -> (r: OpsResult<Body>)
        ensures
            not_supported(r, "Boolean operation '"@ + self.op.name_spec() + "' not yet implemented"@),
    {
        let mut m: Vec<char> = Vec::new();
        push_str(&mut m, "Boolean operation '");
        push_str(&mut m, self.op.name());
        push_str(&mut m, "' not yet implemented");
        Err(OpsError::NotSupported(string_from_chars(m.as_slice())))
    }
}

/// Point classification relative to a body.
#[derive(Debug, Clone, Copy, PartialEq, Eq, Structural)]
pub enum PointClassification {
    /// Point is inside the body
    Inside,
    /// Point is outside the body
    Outside,
    /// Point is on the boundary
    OnBoundary,
}

} // verus!
