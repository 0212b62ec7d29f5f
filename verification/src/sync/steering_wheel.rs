//! The steering wheel widget's modes, handles and axes.
use vstd::prelude::*;

verus! {

/// Operation modes for the steering wheel.
#[derive(Debug, Clone, Copy, PartialEq, Eq, Structural)]
pub enum WheelMode {
    /// Free movement
    Free,
    /// Move along primary axis
    MovePrimary,
    /// Move along secondary axis
    MoveSecondary,
    /// Move along tertiary axis
    MoveTertiary,
    /// Move in primary-secondary plane
    MovePlane,
    /// Rotate around primary axis
    RotatePrimary,
    /// Rotate around secondary axis
    RotateSecondary,
    /// Rotate around tertiary axis
    RotateTertiary,
    /// Scale uniformly
    ScaleUniform,
    /// Scale along primary axis
    ScalePrimary,
}

/// Types of handles on the steering wheel.
#[derive(Debug, Clone, Copy, PartialEq, Eq, Structural)]
pub enum WheelHandle {
    /// Primary axis handle
    PrimaryAxis,
    /// Secondary axis handle
    SecondaryAxis,
    /// Tertiary axis handle
    TertiaryAxis,
    /// Plane movement handle
    Plane,
    /// Rotation ring
    RotationRing,
}

/// Steering wheel axis.
#[derive(Debug, Clone, Copy, PartialEq, Eq, Structural)]
pub enum SteeringAxis {
    /// X axis
    X,
    /// Y axis
    Y,
    /// Z axis
    Z,
}

} // verus!
