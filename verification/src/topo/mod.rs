//! Boundary-representation topology: vertices, edges, coedges, loops,
//! faces, shells and bodies, with persistent entity identifiers.
use vstd::prelude::*;
use crate::geom::GeometryError;
use crate::text::prefixed;

pub mod entity;
pub mod body;
pub mod census;
pub mod validate;
pub mod cube;
pub mod euler;
pub mod euler_advanced;

verus! {

/// Topology-related errors.
#[derive(Debug, Clone, PartialEq, Eq)]
pub enum TopologyError {
    /// Invalid entity reference
    InvalidReference(String),
    /// Topology inconsistency
    Inconsistency(String),
    /// Euler operator failed
    EulerFailed(String),
    /// Geometry error
    Geometry(GeometryError),
}

impl TopologyError {
    /// The message of the error.
    pub open spec fn text(&self) -> Seq<char> {
        match self {
            TopologyError::InvalidReference(s) => "Invalid entity reference: "@ + s@,
            TopologyError::Inconsistency(s) => "Topology inconsistency: "@ + s@,
            TopologyError::EulerFailed(s) => "Euler operator failed: "@ + s@,
            TopologyError::Geometry(g) => "Geometry error: "@ + g.text(),
        }
    }

    /// The message of the error.
    pub fn to_string(&self) -> (r: String)
        ensures
            r@ == self.text(),
    {
        match self {
            TopologyError::InvalidReference(s) => prefixed("Invalid entity reference: ", s),
            TopologyError::Inconsistency(s) => prefixed("Topology inconsistency: ", s),
            TopologyError::EulerFailed(s) => prefixed("Euler operator failed: ", s),
            TopologyError::Geometry(g) => prefixed("Geometry error: ", &g.to_string()),
        }
    }
}

/// Result type for topology operations.
pub type TopoResult<T> = Result<T, TopologyError>;

/// Orientation of a topological entity.
#[derive(Debug, Clone, Copy, PartialEq, Eq, Structural, Hash)]
pub enum Orientation {
    /// Forward orientation
    Forward,
    /// Reversed orientation
    Reversed,
}

impl Orientation {
    /// The opposite orientation.
    pub open spec fn reversed_spec(self) -> Orientation {
        match self {
            Orientation::Forward => Orientation::Reversed,
            Orientation::Reversed => Orientation::Forward,
        }
    }

    /// Check if forward.
    pub fn is_forward(&self) -> (b: bool)
        ensures
            b == (*self == Orientation::Forward),
    {
        matches!(self, Orientation::Forward)
    }

    /// Check if reversed.
    pub fn is_reversed(&self) -> (b: bool)
        ensures
            b == (*self == Orientation::Reversed),
    {
        matches!(self, Orientation::Reversed)
    }

    /// Reverse the orientation.
    pub fn reverse(&self) -> (r: Self)
        ensures
            r == self.reversed_spec(),
    {
        match self {
            Orientation::Forward => Orientation::Reversed,
            Orientation::Reversed => Orientation::Forward,
        }
    }
}

impl Default for Orientation {
    fn default() -> (r: Self)
        ensures
            r == Orientation::Forward,
    {
        Orientation::Forward
    }
}

/// Reversing an orientation twice gives it back, and a reversed orientation
/// is never the one it came from.
pub proof fn lemma_orientation_reverse_involution(o: Orientation)
    ensures
        o.reversed_spec().reversed_spec() == o,
        o.reversed_spec() != o,
{
}

/// Sense flag for coedges (direction within a loop).
#[derive(Debug, Clone, Copy, PartialEq, Eq, Structural, Hash)]
pub enum Sense {
    /// Same direction as edge
    Same,
    /// Opposite direction to edge
    Opposite,
}

impl Sense {
    /// The opposite sense.
    pub open spec fn reversed_spec(self) -> Sense {
        match self {
            Sense::Same => Sense::Opposite,
            Sense::Opposite => Sense::Same,
        }
    }

    /// Check if same as edge.
    pub fn is_same(&self) -> (b: bool)
        ensures
            b == (*self == Sense::Same),
    {
        matches!(self, Sense::Same)
    }

    /// Check if opposite to edge.
    pub fn is_opposite(&self) -> (b: bool)
        ensures
            b == (*self == Sense::Opposite),
    {
        matches!(self, Sense::Opposite)
    }

    /// Reverse the sense.
    pub fn reverse(&self) -> (r: Self)
        ensures
            r == self.reversed_spec(),
    {
        match self {
            Sense::Same => Sense::Opposite,
            Sense::Opposite => Sense::Same,
        }
    }
}

impl Default for Sense {
    fn default() -> (r: Self)
        ensures
            r == Sense::Same,
    {
        Sense::Same
    }
}

/// Reversing a sense twice gives it back, and a reversed sense is never the
/// one it came from.
pub proof fn lemma_sense_reverse_involution(s: Sense)
    ensures
        s.reversed_spec().reversed_spec() == s,
        s.reversed_spec() != s,
{
}

} // verus!
