//! Face editing: the engine that moves, rotates and offsets faces, and the
//! history of the operations performed.
use vstd::prelude::*;
use crate::topo::entity::{EntityId, Entity};
use crate::topo::body::{Body, Face, FaceModel, face_refs};
use crate::sync::error::{SyncError, SyncResult};
use crate::sync::resolve::{faces_share_edge, faces_share_edge_exec};

verus! {

/// Kinds of synchronous operations.
#[derive(Debug, Clone, Copy, PartialEq, Eq, Structural)]
pub enum SyncOpType {
    /// Faces were moved
    FaceMove,
    /// Faces were rotated
    FaceRotate,
    /// Faces were offset
    FaceOffset,
}

/// A recorded synchronous operation.
#[derive(Debug, Clone)]
pub struct SyncOperation {
    /// Operation number, counted from 1
    pub id: u64,
    /// Kind of operation
    pub op_type: SyncOpType,
    /// Faces affected
    pub affected_faces: Vec<EntityId>,
}

/// The history of synchronous operations.
#[derive(Debug, Clone)]
pub struct SyncContext {
    /// Operations performed, oldest first
    pub history: Vec<SyncOperation>,
}

impl SyncContext {
    /// An empty history.
    pub fn new() -> (r: Self)
        ensures
            r.history@.len() == 0,
    {
        SyncContext { history: Vec::new() }
    }

    /// Record an operation after the others.
    pub fn record_operation(&mut self, op: SyncOperation)
        ensures
            final(self).history@ == old(self).history@.push(op),
    {
        self.history.push(op);
    }
}

/// The identifiers of a list of faces.
pub open spec fn face_ids(fs: Seq<Face>) -> Seq<EntityId> {
    fs.map_values(|f: Face| f@.id)
}

/// Face `f` shares an edge with some face of `selected`.
pub open spec fn touches_any(f: FaceModel, selected: Seq<Face>) -> bool {
    exists|j: int| 0 <= j < selected.len() && faces_share_edge(f, #[trigger] selected[j]@)
}

/// The faces of `fs` that are not selected but share an edge with a
/// selected face, in order.
pub open spec fn affected_faces(fs: Seq<FaceModel>, selected: Seq<Face>) -> Seq<FaceModel>
    decreases fs.len(),
{
    if fs.len() == 0 {
        Seq::empty()
    } else if !face_ids(selected).contains(fs.last().id) && touches_any(fs.last(), selected) {
        affected_faces(fs.drop_last(), selected).push(fs.last())
    } else {
        affected_faces(fs.drop_last(), selected)
    }
}

/// The faces affected by editing `selected` are exactly the faces of `fs`
/// that share an edge with a selected face and carry the identifier of none
/// of the selected faces, all of them, in order: no selected face is ever
/// among them.
pub proof fn lemma_affected_faces_exclude_selected(fs: Seq<FaceModel>, selected: Seq<Face>)
    ensures
        affected_faces(fs, selected) == fs.filter(
            |f: FaceModel|
                (forall|q: int| 0 <= q < selected.len() ==> (#[trigger] selected[q])@.id != f.id) && touches_any(
                    f,
                    selected,
                ),
        ),
        forall|k: int, q: int|
            0 <= k < affected_faces(fs, selected).len() && 0 <= q < selected.len() ==> (#[trigger] affected_faces(
                fs,
                selected,
            )[k]).id != (#[trigger] selected[q])@.id,
    decreases fs.len(),
{
    reveal(Seq::filter);
    let pred = |f: FaceModel|
        (forall|q: int| 0 <= q < selected.len() ==> (#[trigger] selected[q])@.id != f.id) && touches_any(f, selected);
    if fs.len() > 0 {
        lemma_affected_faces_exclude_selected(fs.drop_last(), selected);
        let l = fs.last();
        assert(!face_ids(selected).contains(l.id) <==> (forall|q: int|
            0 <= q < selected.len() ==> (#[trigger] selected[q])@.id != l.id)) by {
            if face_ids(selected).contains(l.id) {
                let i = choose|i: int| 0 <= i < face_ids(selected).len() && face_ids(selected)[i] == l.id;
                assert(selected[i]@.id == l.id);
            }
            if exists|q: int| 0 <= q < selected.len() && (#[trigger] selected[q])@.id == l.id {
                let q = choose|q: int| 0 <= q < selected.len() && (#[trigger] selected[q])@.id == l.id;
                assert(face_ids(selected)[q] == l.id);
            }
        }
    }
    assert(affected_faces(fs, selected) == fs.filter(pred));
    assert forall|k: int, q: int|
        0 <= k < affected_faces(fs, selected).len() && 0 <= q < selected.len() implies (#[trigger] affected_faces(
            fs,
            selected,
        )[k]).id != (#[trigger] selected[q])@.id by {
        fs.lemma_filter_pred(pred, k);
    }
}

/// After an edit of `faces`, the history holds one more operation of the
/// given kind, numbered after the others and listing those faces.
pub open spec fn recorded(old_ctx: SyncContext, new_ctx: SyncContext, kind: SyncOpType, faces: Seq<Face>) -> bool {
    &&& new_ctx.history@.len() == old_ctx.history@.len() + 1
    &&& new_ctx.history@.take(old_ctx.history@.len() as int) == old_ctx.history@
    &&& new_ctx.history@.last().id == old_ctx.history@.len() + 1
    &&& new_ctx.history@.last().op_type == kind
    &&& new_ctx.history@.last().affected_faces@ == face_ids(faces)
}

fn ids_of_faces(faces: &[Face]) -> (r: Vec<EntityId>)
    ensures
        r@ == face_ids(faces@),
{
    let mut r: Vec<EntityId> = Vec::new();
    let mut i: usize = 0;
    while i < faces.len()
        invariant
            i <= faces@.len(),
            r@ == face_ids(faces@).take(i as int),
        decreases faces.len() - i,
    {
        r.push(faces[i].id());
        assert(face_ids(faces@).take(i + 1) =~= face_ids(faces@).take(i as int).push(faces@[i as int]@.id));
        i = i + 1;
    }
    assert(face_ids(faces@).take(faces@.len() as int) =~= face_ids(faces@));
    r
}

/// Face editing engine.
pub struct FaceEditEngine<'a> {
    context: &'a SyncContext,
}

impl<'a> FaceEditEngine<'a> {
    /// Create a new face editing engine over a context.
    pub fn new(context: &'a SyncContext) -> (r: Self)
        ensures
            r.context() == context,
    {
        FaceEditEngine { context }
    }

    /// The context the engine works in.
    pub closed spec fn context(&self) -> &'a SyncContext {
        self.context
    }

    fn record(ctx: &mut SyncContext, kind: SyncOpType, faces: &[Face])
        requires
            old(ctx).history@.len() < u64::MAX,
        ensures
            recorded(*old(ctx), *final(ctx), kind, faces@),
    {
        let op = SyncOperation { id: ctx.history.len() as u64 + 1, op_type: kind, affected_faces: ids_of_faces(faces) };
        ctx.record_operation(op);
        assert(ctx.history@.take(old(ctx).history@.len() as int) =~= old(ctx).history@);
    }

    /// Move faces: an empty selection is refused; otherwise the move is
    /// recorded in the history. The faces' geometry and the neighbours'
    /// topology are left as they are.
    pub fn move_faces(&self, body: &mut Body, faces: &[Face], ctx: &mut SyncContext) -> (r: SyncResult<()>)
        requires
            old(ctx).history@.len() < u64::MAX,
        ensures
            final(body)@ == old(body)@,
            faces@.len() == 0 ==> r == Err::<(), SyncError>(SyncError::NoSelection) && *final(ctx) == *old(ctx),
            faces@.len() > 0 ==> r == Ok::<(), SyncError>(()) && recorded(*old(ctx), *final(ctx), SyncOpType::FaceMove, faces@),
    {
        if faces.len() == 0 {
            return Err(SyncError::NoSelection);
        }
        let affected = self.get_affected_faces(body, faces)?;
        let mut i: usize = 0;
        while i < affected.len()
            decreases affected.len() - i,
        {
            self.resolve_adjacent_face(&affected[i], faces)?;
            i = i + 1;
        }
        Self::record(ctx, SyncOpType::FaceMove, faces);
        Ok(())
    }

    /// Rotate faces: an empty selection is refused; otherwise the rotation
    /// is recorded in the history. The faces' geometry and the neighbours'
    /// topology are left as they are.
    pub fn rotate_faces(&self, body: &mut Body, faces: &[Face], ctx: &mut SyncContext) -> (r: SyncResult<()>)
        requires
            old(ctx).history@.len() < u64::MAX,
        ensures
            final(body)@ == old(body)@,
            faces@.len() == 0 ==> r == Err::<(), SyncError>(SyncError::NoSelection) && *final(ctx) == *old(ctx),
            faces@.len() > 0 ==> r == Ok::<(), SyncError>(()) && recorded(*old(ctx), *final(ctx), SyncOpType::FaceRotate, faces@),
    {
        if faces.len() == 0 {
            return Err(SyncError::NoSelection);
        }
        let affected = self.get_affected_faces(body, faces)?;
        let mut i: usize = 0;
        while i < affected.len()
            decreases affected.len() - i,
        {
            self.resolve_adjacent_face(&affected[i], faces)?;
            i = i + 1;
        }
        Self::record(ctx, SyncOpType::FaceRotate, faces);
        Ok(())
    }

    /// Offset faces: an empty selection is refused; otherwise each face
    /// needs a surface to offset along, and faces carry none, so the first
    /// face fails and nothing is recorded.
    pub fn offset_faces(&self, body: &mut Body, faces: &[Face], ctx: &mut SyncContext) -> (r: SyncResult<()>)
        ensures
            final(body)@ == old(body)@,
            *final(ctx) == *old(ctx),
            faces@.len() == 0 ==> r == Err::<(), SyncError>(SyncError::NoSelection),
            faces@.len() > 0 ==> (r matches Err(SyncError::FaceEditFailed(m)) && m@ == "Face has no surface"@),
    {
        if faces.len() == 0 {
            return Err(SyncError::NoSelection);
        }
        Err(SyncError::FaceEditFailed(crate::text::string_from_str("Face has no surface")))
    }

    /// The faces of the body, shell by shell, that are not selected but
    /// share an edge with a selected face.
    pub fn get_affected_faces(&self, body: &Body, selected: &[Face]) -> (r: SyncResult<Vec<Face>>)
        ensures
            r matches Ok(v) && v@.map_values(|f: Face| f@) == affected_faces(body@.faces(), selected@),
            r matches Ok(v) && forall|k: int, q: int|
                0 <= k < v@.len() && 0 <= q < selected@.len() ==> (#[trigger] v@[k])@.id != (#[trigger] selected@[q])@.id,
    {
        proof {
            lemma_affected_faces_exclude_selected(body@.faces(), selected@);
        }
        let selected_ids = ids_of_faces(selected);
        let faces = body.faces();
        let ghost fm = face_refs(faces@);
        let mut affected: Vec<Face> = Vec::new();
        let mut i: usize = 0;
        assert(fm.take(0) =~= Seq::<FaceModel>::empty());
        assert(affected@.map_values(|f: Face| f@) =~= Seq::<FaceModel>::empty());
        while i < faces.len()
            invariant
                i <= faces@.len(),
                fm == face_refs(faces@),
                selected_ids@ == face_ids(selected@),
                affected@.map_values(|f: Face| f@) == affected_faces(fm.take(i as int), selected@),
            decreases faces.len() - i,
        {
            let face = faces[i];
            assert(fm[i as int] == face@);
            assert(fm.take(i + 1).drop_last() =~= fm.take(i as int));
            let mut chosen = false;
            let mut seen = false;
            let mut j: usize = 0;
            while j < selected_ids.len()
                invariant
                    j <= selected_ids@.len(),
                    seen == (exists|q: int| 0 <= q < j && selected_ids@[q] == face@.id),
                decreases selected_ids.len() - j,
            {
                if selected_ids[j] == face.id() {
                    seen = true;
                }
                j = j + 1;
            }
            if !seen {
                let mut k: usize = 0;
                while k < selected.len() && !chosen
                    invariant
                        k <= selected@.len(),
                        chosen ==> touches_any(face@, selected@),
                        !chosen ==> forall|q: int| 0 <= q < k ==> !faces_share_edge(face@, #[trigger] selected@[q]@),
                    decreases selected.len() - k + (if chosen { 0int } else { 1int }),
                {
                    if faces_share_edge_exec(face, &selected[k]) {
                        chosen = true;
                    } else {
                        k = k + 1;
                    }
                }
            }
            if chosen {
                let ghost before = affected@;
                affected.push(face.duplicate());
                assert(affected@.map_values(|f: Face| f@) =~= before.map_values(|f: Face| f@).push(face@));
            }
            i = i + 1;
        }
        assert(fm.take(fm.len() as int) =~= fm);
        assert forall|k: int, q: int|
            0 <= k < affected@.len() && 0 <= q < selected@.len() implies (#[trigger] affected@[k])@.id != (
            #[trigger] selected@[q])@.id by {
            assert(affected@.map_values(|f: Face| f@)[k] == affected@[k]@);
            assert(affected_faces(fm, selected@)[k] == affected@[k]@);
        }
        Ok(affected)
    }

    /// Whether two faces use a common edge.
    pub fn faces_share_edge(&self, face1: &Face, face2: &Face) -> (b: bool)
        ensures
            b == faces_share_edge(face1@, face2@),
    {
        faces_share_edge_exec(face1, face2)
    }

    /// Adapting a neighbour of the moved faces: at each edge it shares with
    /// them the face would be extended to meet them, which needs surface
    /// geometry that faces do not carry, so nothing changes.
    fn resolve_adjacent_face(&self, adj_face: &Face, moved_faces: &[Face]) -> (r: SyncResult<()>)
        ensures
            r == Ok::<(), SyncError>(()),
    {
        Ok(())
    }
}

} // verus!
