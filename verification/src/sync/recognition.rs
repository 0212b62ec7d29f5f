//! Relationships between recognised features.
use vstd::prelude::*;

verus! {

/// Relationship between features.
#[derive(Debug, Clone, Copy, PartialEq, Eq, Structural)]
pub struct FeatureRelationship {
    /// Parent feature ID
    pub parent_id: u64,
    /// Child feature ID
    pub child_id: u64,
    /// Type of relationship
    pub relation_type: RelationType,
}

/// Types of feature relationships.
#[derive(Debug, Clone, Copy, PartialEq, Eq, Structural)]
pub enum RelationType {
    /// Parent contains child
    Contains,
    /// Parent is adjacent to child
    Adjacent,
    /// Parent is blend of child
    Blend,
    /// Pattern instance
    PatternInstance,
    /// Mirror instance
    MirrorInstance,
}

} // verus!
