//! Face editing algorithms: deleting faces and checking the result.
use vstd::prelude::*;
use crate::numbers::{decimal, decimal_signed, push_decimal, push_decimal_signed, push_str};
use crate::text::string_from_chars;
use crate::topo::entity::EntityId;
use crate::topo::body::{Body, BodyModel, body_without_faces, edge_refs, face_refs, vertex_refs};
use crate::topo::validate::counts_fit;
use crate::sync::error::{SyncError, SyncResult};
use crate::sync::resolve::{first_nonmanifold, first_nonmanifold_exec};

verus! {

/// The message of the face editor's check of a body, if it fails: first
/// the Euler characteristic V - E + F against twice the number of shells,
/// then the edges in order, each of which must have two coedges.
pub open spec fn face_edit_check(b: BodyModel) -> Option<Seq<char>> {
    let euler = b.vertices().len() - b.edges().len() + b.faces().len();
    let expected = 2 * b.shells.len();
    if euler != expected {
        Some("Euler characteristic "@ + decimal_signed(euler) + " != "@ + decimal_signed(expected as int))
    } else {
        match first_nonmanifold(b.edges()) {
            Some(n) => Some("Non-manifold edge with "@ + decimal(n) + " coedges"@),
            None => None,
        }
    }
}

/// Implementation of face editing algorithms.
pub struct FaceEditImpl;

impl FaceEditImpl {
    /// Check a body after an edit: the Euler characteristic V - E + F must
    /// be twice the number of shells, and every edge must have two coedges.
    pub fn validate_body(body: &Body) -> (r: SyncResult<()>)
        requires
            counts_fit(body@),
        ensures
            r is Ok <==> face_edit_check(body@) is None,
            r matches Err(e) ==> (e matches SyncError::WouldInvalidateSolid(m) && face_edit_check(body@) == Some(m@)),
    {
        let vertices = body.vertices();
        let edges = body.edges();
        let faces = body.faces();
        let shells = body.shells();
        let ghost bm = body@;
        assert(shells@.map_values(|x: crate::topo::body::Shell| x@).len() == shells@.len());
        assert(vertex_refs(vertices@).len() == vertices@.len());
        assert(edge_refs(edges@).len() == edges@.len());
        assert(face_refs(faces@).len() == faces@.len());
        let euler = vertices.len() as i32 - edges.len() as i32 + faces.len() as i32;
        let expected = 2 * (shells.len() as i32);
        if euler != expected {
            let mut m: Vec<char> = Vec::new();
            push_str(&mut m, "Euler characteristic ");
            push_decimal_signed(&mut m, euler as i64);
            push_str(&mut m, " != ");
            push_decimal_signed(&mut m, expected as i64);
            assert(m@ =~= face_edit_check(bm).unwrap());
            return Err(SyncError::WouldInvalidateSolid(string_from_chars(m.as_slice())));
        }
        match first_nonmanifold_exec(&edges) {
            Some(n) => {
                let mut m: Vec<char> = Vec::new();
                push_str(&mut m, "Non-manifold edge with ");
                push_decimal(&mut m, n as u64);
                push_str(&mut m, " coedges");
                assert(m@ =~= face_edit_check(bm).unwrap());
                Err(SyncError::WouldInvalidateSolid(string_from_chars(m.as_slice())))
            },
            None => Ok(()),
        }
    }

    /// Delete faces and heal the body: the faces with the given identifiers
    /// leave their shells (healing extends no face yet, so both ways give
    /// the same body), and the result is checked.
    pub fn delete_faces(body: &mut Body, face_ids: &[EntityId], heal: bool) -> (r: SyncResult<()>)
        requires
            counts_fit(body_without_faces(old(body)@, face_ids@)),
        ensures
            final(body)@ == body_without_faces(old(body)@, face_ids@),
            r is Ok <==> face_edit_check(final(body)@) is None,
            r matches Err(e) ==> (e matches SyncError::WouldInvalidateSolid(m) && face_edit_check(final(body)@) == Some(m@)),
    {
        if !heal {
            body.remove_faces(face_ids);
        } else {
            Self::heal_after_delete(body, face_ids);
        }
        Self::validate_body(body)
    }

    /// Removes the deleted faces; extending the remaining faces over the
    /// gaps they leave is not done yet.
    fn heal_after_delete(body: &mut Body, deleted_ids: &[EntityId])
        ensures
            final(body)@ == body_without_faces(old(body)@, deleted_ids@),
    {
        body.remove_faces(deleted_ids);
    }
}

/// The bit pattern of the `f64` value `1e-6`.
pub const DEFAULT_EDIT_TOLERANCE_BITS: u64 = 0x3eb0c6f7a0b5ed8du64;

/// Options for face editing operations.
#[derive(Debug, Clone, Copy)]
pub struct FaceEditOptions {
    /// Tolerance for geometric operations (bit pattern of an `f64`)
    pub tolerance: u64,
    /// Whether to maintain Live Rules
    pub maintain_rules: bool,
    /// Whether to heal topology after operation
    pub heal_topology: bool,
    /// Whether to stop at first intersection
    pub stop_at_intersection: bool,
}

impl Default for FaceEditOptions {
    fn default() -> (r: Self)
        ensures
            r.tolerance == DEFAULT_EDIT_TOLERANCE_BITS,
            r.maintain_rules && r.heal_topology && !r.stop_at_intersection,
    {
        FaceEditOptions {
            tolerance: DEFAULT_EDIT_TOLERANCE_BITS,
            maintain_rules: true,
            heal_topology: true,
            stop_at_intersection: false,
        }
    }
}

/// Result of a face editing operation.
#[derive(Debug, Clone)]
pub struct FaceEditResult {
    /// Whether the operation succeeded
    pub success: bool,
    /// Faces that were modified
    pub modified_faces: Vec<EntityId>,
    /// New faces created
    pub new_faces: Vec<EntityId>,
    /// Deleted faces
    pub deleted_faces: Vec<EntityId>,
    /// Warnings
    pub warnings: Vec<String>,
}

} // verus!
