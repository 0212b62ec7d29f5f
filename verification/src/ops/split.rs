//! Split operations: dividing bodies and faces.
use vstd::prelude::*;
use crate::text::string_from_str;
use crate::topo::body::{Body, Face};
use crate::ops::{OpsError, OpsResult, not_supported};

verus! {

/// Split operation options.
#[derive(Debug, Clone)]
pub struct SplitOptions {
    /// Keep both sides of the split
    pub keep_both: bool,
}

impl Default for SplitOptions {
    fn default() -> (r: Self)
        ensures
            !r.keep_both,
    {
        SplitOptions { keep_both: false }
    }
}

/// Result of splitting a face.
#[derive(Debug)]
pub struct FaceSplit {
    /// The split faces
    pub faces: Vec<Face>,
}

/// Split engine.
#[derive(Debug, Clone)]
pub struct SplitEngine;

impl SplitEngine {
    /// Create a new split engine.
    pub fn new() -> (r: Self) {
        SplitEngine
    }

    /// Split a body with a surface: not available yet.
    pub fn split_with_surface(&self, body: &Body, options: &SplitOptions) -> (r: OpsResult<Vec<Body>>)
        ensures
            not_supported(r, "Surface split not yet implemented"@),
    {
        Err(OpsError::NotSupported(string_from_str("Surface split not yet implemented")))
    }

    /// Split a face at curves: not available yet.
    pub fn split_face_at_curves(&self, face: &Face) -> (r: OpsResult<Vec<Face>>)
        ensures
            not_supported(r, "Face split not yet implemented"@),
    {
        Err(OpsError::NotSupported(string_from_str("Face split not yet implemented")))
    }
}

impl Default for SplitEngine {
    fn default() -> (r: Self) {
        SplitEngine::new()
    }
}

/// Split a body with a surface: not available yet.
pub fn split_body_with_surface(body: &Body) -> (r: OpsResult<Vec<Body>>)
    ensures
        not_supported(r, "Body splitting not yet implemented"@),
{
    Err(OpsError::NotSupported(string_from_str("Body splitting not yet implemented")))
}

} // verus!
