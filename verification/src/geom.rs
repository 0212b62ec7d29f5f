//! Geometry vocabulary shared by the kernel: curve and surface kinds,
//! continuity classes and geometry errors.
use vstd::prelude::*;
use crate::text::prefixed;

verus! {

/// Geometry-related errors.
#[derive(Debug, Clone, PartialEq, Eq)]
pub enum GeometryError {
    /// Invalid parameter value
    InvalidParameter(String),
    /// Degenerate geometry
    Degenerate(String),
    /// Intersection failed
    IntersectionFailed(String),
    /// Closest point computation failed
    ClosestPointFailed(String),
    /// Unsupported operation
    Unsupported(String),
    /// Numerical error
    Numerical(String),
}

impl GeometryError {
    /// The message of the error.
    pub open spec fn text(&self) -> Seq<char> {
        match self {
            GeometryError::InvalidParameter(s) => "Invalid parameter: "@ + s@,
            GeometryError::Degenerate(s) => "Degenerate geometry: "@ + s@,
            GeometryError::IntersectionFailed(s) => "Intersection failed: "@ + s@,
            GeometryError::ClosestPointFailed(s) => "Closest point failed: "@ + s@,
            GeometryError::Unsupported(s) => "Unsupported operation: "@ + s@,
            GeometryError::Numerical(s) => "Numerical error: "@ + s@,
        }
    }

    /// The message of the error.
    pub fn to_string(&self) -> (r: String)
        ensures
            r@ == self.text(),
    {
        match self {
            GeometryError::InvalidParameter(s) => prefixed("Invalid parameter: ", s),
            GeometryError::Degenerate(s) => prefixed("Degenerate geometry: ", s),
            GeometryError::IntersectionFailed(s) => prefixed("Intersection failed: ", s),
            GeometryError::ClosestPointFailed(s) => prefixed("Closest point failed: ", s),
            GeometryError::Unsupported(s) => prefixed("Unsupported operation: ", s),
            GeometryError::Numerical(s) => prefixed("Numerical error: ", s),
        }
    }
}

/// Curve type enumeration.
#[derive(Debug, Clone, Copy, PartialEq, Eq, Structural)]
pub enum CurveType {
    /// Infinite or bounded line
    Line,
    /// Circular arc
    CircularArc,
    /// Elliptical arc
    EllipseArc,
    /// NURBS curve
    NurbsCurve,
    /// Intersection curve
    IntersectionCurve,
    /// Offset curve
    OffsetCurve,
    /// Composite curve
    CompositeCurve,
}

/// Surface type enumeration.
#[derive(Debug, Clone, Copy, PartialEq, Eq, Structural)]
pub enum SurfaceType {
    /// Planar surface
    Planar,
    /// Cylindrical surface
    Cylindrical,
    /// Conical surface
    Conical,
    /// Spherical surface
    Spherical,
    /// Toroidal surface
    Toroidal,
    /// NURBS surface
    NurbsSurface,
    /// Swept surface
    SweptSurface,
    /// Offset surface
    OffsetSurface,
    /// Ruled surface
    RuledSurface,
}

/// Continuity types for curves and surfaces.
#[derive(Debug, Clone, Copy, PartialEq, Eq, Structural)]
pub enum Continuity {
    /// Position only (C0)
    C0,
    /// Position + tangent (C1)
    C1,
    /// Position + tangent + curvature (C2)
    C2,
    /// Geometric continuity (G1)
    G1,
    /// Geometric continuity (G2)
    G2,
}

} // verus!
