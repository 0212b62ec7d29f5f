//! Transform operations on bodies.
use vstd::prelude::*;
use crate::text::string_from_str;
use crate::topo::body::Body;
use crate::ops::{OpsError, OpsResult, not_supported};

verus! {

/// Transform options.
#[derive(Debug, Clone)]
pub struct TransformOptions {
    /// Copy the body instead of modifying in place
    pub copy: bool,
}

impl Default for TransformOptions {
    fn default() -> (r: Self)
        ensures
            !r.copy,
    {
        TransformOptions { copy: false }
    }
}

/// Transform engine.
#[derive(Debug, Clone)]
pub struct TransformEngine;

impl TransformEngine {
    /// Create a new transform engine.
    pub fn new() -> (r: Self) {
        TransformEngine
    }

    /// Transform a body: not available yet.
    pub fn transform(&self, body: &Body, options: &TransformOptions) -> (r: OpsResult<Body>)
        ensures
            not_supported(r, "Transform not yet implemented"@),
    {
        Err(OpsError::NotSupported(string_from_str("Transform not yet implemented")))
    }

    /// Translate a body: a transform, so not available yet either.
    pub fn translate(&self, body: &Body, options: &TransformOptions) -> (r: OpsResult<Body>)
        ensures
            not_supported(r, "Transform not yet implemented"@),
    {
        self.transform(body, options)
    }

    /// Rotate a body: a transform, so not available yet either.
    pub fn rotate(&self, body: &Body, options: &TransformOptions) -> (r: OpsResult<Body>)
        ensures
            not_supported(r, "Transform not yet implemented"@),
    {
        self.transform(body, options)
    }

    /// Scale a body uniformly: a transform, so not available yet either.
    pub fn scale(&self, body: &Body, options: &TransformOptions) -> (r: OpsResult<Body>)
        ensures
            not_supported(r, "Transform not yet implemented"@),
    {
        self.transform(body, options)
    }
}

impl Default for TransformEngine {
    fn default() -> (r: Self) {
        TransformEngine::new()
    }
}

} // verus!
