//! Feature operations: extrude, revolve, sweep and loft.
use vstd::prelude::*;
use crate::text::string_from_str;
use crate::topo::body::Body;
use crate::ops::{OpsError, OpsResult, not_supported};

verus! {

/// Sweep options.
#[derive(Debug, Clone)]
pub struct SweepOptions {
    /// Whether to create a solid
    pub solid: bool,
}

impl Default for SweepOptions {
    fn default() -> (r: Self)
        ensures
            r.solid,
    {
        SweepOptions { solid: true }
    }
}

/// Loft options.
#[derive(Debug, Clone)]
pub struct LoftOptions {
    /// Whether to create a solid
    pub solid: bool,
}

impl Default for LoftOptions {
    fn default() -> (r: Self)
        ensures
            r.solid,
    {
        LoftOptions { solid: true }
    }
}

/// Feature creation engine.
#[derive(Debug, Clone)]
pub struct FeatureEngine;

impl FeatureEngine {
    /// Create a new feature engine.
    pub fn new() -> (r: Self) {
        FeatureEngine
    }

    /// Extrude a profile: not available yet.
    pub fn extrude(&self, profile: &Body) -> (r: OpsResult<Body>)
        ensures
            not_supported(r, "Extrude not yet implemented"@),
    {
        Err(OpsError::NotSupported(string_from_str("Extrude not yet implemented")))
    }

    /// Revolve a profile: not available yet.
    pub fn revolve(&self, profile: &Body) -> (r: OpsResult<Body>)
        ensures
            not_supported(r, "Revolve not yet implemented"@),
    {
        Err(OpsError::NotSupported(string_from_str("Revolve not yet implemented")))
    }

    /// Sweep a profile along a path: not available yet.
    pub fn sweep(&self, profile: &Body, options: &SweepOptions) -> (r: OpsResult<Body>)
        ensures
            not_supported(r, "Sweep not yet implemented"@),
    {
        Err(OpsError::NotSupported(string_from_str("Sweep not yet implemented")))
    }

    /// Loft between profiles: not available yet.
    pub fn loft(&self, profiles: &[Body], options: &LoftOptions) -> (r: OpsResult<Body>)
        ensures
            not_supported(r, "Loft not yet implemented"@),
    {
        Err(OpsError::NotSupported(string_from_str("Loft not yet implemented")))
    }
}

impl Default for FeatureEngine {
    fn default() -> (r: Self) {
        FeatureEngine::new()
    }
}

} // verus!
