//! Synchronous (direct) editing: moving, rotating and offsetting faces, and
//! keeping the solid's topology valid afterwards.
use vstd::prelude::*;
use crate::text::string_from_str;
use crate::topo::body::{Body, Face};

pub mod error;
pub mod resolve;
pub mod live_rules;
pub mod feature_handle;
pub mod recognition;
pub mod steering_wheel;
pub mod face_edit;
pub mod face_edit_impl;

pub use error::{SyncError, SyncResult, ErrorContext};

verus! {

/// Synchronous editing engine.
#[derive(Debug, Clone)]
pub struct SyncEngine;

impl SyncEngine {
    /// Create a new sync engine.
    pub fn new() -> (r: Self) {
        SyncEngine
    }

    /// Move faces: not available yet, always the `NotImplemented` error.
    pub fn move_faces(&self, body: &Body, faces: &[&Face]) -> (r: SyncResult<Body>)
        ensures
            r matches Err(SyncError::NotImplemented(m)) && m@ == "Face move not yet implemented"@,
    {
        Err(SyncError::NotImplemented(string_from_str("Face move not yet implemented")))
    }

    /// Rotate faces: not available yet, always the `NotImplemented` error.
    pub fn rotate_faces(&self, body: &Body, faces: &[&Face]) -> (r: SyncResult<Body>)
        ensures
            r matches Err(SyncError::NotImplemented(m)) && m@ == "Face rotate not yet implemented"@,
    {
        Err(SyncError::NotImplemented(string_from_str("Face rotate not yet implemented")))
    }

    /// Offset faces: not available yet, always the `NotImplemented` error.
    pub fn offset_faces(&self, body: &Body, faces: &[&Face]) -> (r: SyncResult<Body>)
        ensures
            r matches Err(SyncError::NotImplemented(m)) && m@ == "Face offset not yet implemented"@,
    {
        Err(SyncError::NotImplemented(string_from_str("Face offset not yet implemented")))
    }
}

impl Default for SyncEngine {
    fn default() -> (r: Self) {
        SyncEngine::new()
    }
}

} // verus!
