//! Topology resolution after face editing: finding the faces that meet a
//! moved face, the conflicts between them, resolving those, and checking
//! that the result is still a valid solid.
use vstd::prelude::*;
use crate::numbers::{decimal, decimal_signed, push_decimal, push_decimal_signed, push_str};
use crate::text::string_from_chars;
use crate::topo::entity::{EntityId, Entity};
use crate::topo::body::{Edge, Body, Face, Coedge, FaceModel, CoedgeModel, EdgeModel, loops_coedges, coedge_refs, face_refs, edge_refs};
use crate::topo::validate::counts_fit;
use crate::sync::error::{SyncError, SyncResult};

verus! {

/// Strategies for resolving topology conflicts.
#[derive(Debug, Clone, Copy, PartialEq, Eq, Structural)]
pub enum ResolutionStrategy {
    /// Extend faces to meet
    Extend,
    /// Trim faces at intersection
    Trim,
    /// Create blend between faces
    Blend,
    /// Split edge and reconnect
    SplitReconnect,
    /// Merge faces
    Merge,
    /// Automatic (choose best)
    Automatic,
}

impl ResolutionStrategy {
    /// The name of the strategy (its `Debug` form).
    pub open spec fn name_spec(self) -> Seq<char> {
        match self {
            ResolutionStrategy::Extend => "Extend"@,
            ResolutionStrategy::Trim => "Trim"@,
            ResolutionStrategy::Blend => "Blend"@,
            ResolutionStrategy::SplitReconnect => "SplitReconnect"@,
            ResolutionStrategy::Merge => "Merge"@,
            ResolutionStrategy::Automatic => "Automatic"@,
        }
    }

    /// The name of the strategy (its `Debug` form).
    pub fn name(&self) -> (r: &'static str)
        ensures
            r@ == self.name_spec(),
    {
        match self {
            ResolutionStrategy::Extend => "Extend",
            ResolutionStrategy::Trim => "Trim",
            ResolutionStrategy::Blend => "Blend",
            ResolutionStrategy::SplitReconnect => "SplitReconnect",
            ResolutionStrategy::Merge => "Merge",
            ResolutionStrategy::Automatic => "Automatic",
        }
    }
}

/// Types of topology conflicts.
#[derive(Debug, Clone, Copy, PartialEq, Eq, Structural)]
pub enum ConflictType {
    /// Gap between faces
    Gap,
    /// Faces intersect
    Intersection,
    /// Invalid loop structure
    InvalidLoop,
}

/// Conflict severity levels, from least to most severe.
#[derive(Debug, Clone, Copy, PartialEq, Eq, Structural, PartialOrd, Ord)]
pub enum ConflictSeverity {
    /// Can be ignored
    Low,
    /// Should be fixed
    Medium,
    /// Must be fixed
    High,
    /// Critical, may fail
    Critical,
}

/// A topology conflict between two faces at an edge.
#[derive(Debug, Clone, Copy, PartialEq, Eq, Structural)]
pub struct TopologyConflict {
    /// Type of conflict
    pub conflict_type: ConflictType,
    /// First face involved
    pub face1: EntityId,
    /// Second face involved
    pub face2: EntityId,
    /// Edge where the conflict occurs
    pub edge: EntityId,
    /// Severity level
    pub severity: ConflictSeverity,
}

/// An edge shared by two faces, with the coedge of each face that uses it.
#[derive(Debug)]
pub struct SharedEdgeInfo {
    /// The shared edge
    pub edge_id: EntityId,
    /// The coedge of the first face
    pub face1_coedge: Coedge,
    /// The coedge of the second face
    pub face2_coedge: Coedge,
}

impl View for SharedEdgeInfo {
    type V = (EntityId, CoedgeModel, CoedgeModel);

    open spec fn view(&self) -> (EntityId, CoedgeModel, CoedgeModel) {
        (self.edge_id, self.face1_coedge@, self.face2_coedge@)
    }
}

/// Resolution result.
#[derive(Debug, Clone)]
pub struct ResolutionResult {
    /// Whether resolution was successful
    pub success: bool,
    /// Number of conflicts resolved
    pub conflicts_resolved: usize,
    /// Number of conflicts remaining
    pub conflicts_remaining: usize,
    /// Changes made
    pub changes: Vec<ResolutionChange>,
}

/// A change made during resolution.
#[derive(Debug, Clone)]
pub struct ResolutionChange {
    /// Type of change
    pub change_type: ChangeType,
    /// Entities affected
    pub entities: Vec<EntityId>,
    /// Description
    pub description: String,
}

/// Types of resolution changes.
#[derive(Debug, Clone, Copy, PartialEq, Eq, Structural)]
pub enum ChangeType {
    /// Face was extended
    FaceExtended,
    /// Face was trimmed
    FaceTrimmed,
    /// Blend was created
    BlendCreated,
    /// Edge was split
    EdgeSplit,
    /// Faces were merged
    FacesMerged,
    /// Loop was modified
    LoopModified,
}

// ---------------------------------------------------------------------------
// The model of the resolver's queries
// ---------------------------------------------------------------------------
/// The edge identifiers used by a sequence of coedges.
pub open spec fn coedge_edge_ids(cs: Seq<CoedgeModel>) -> Seq<EntityId> {
    cs.map_values(|c: CoedgeModel| c.edge.id)
}

/// Faces `f` and `g` use a common edge.
pub open spec fn faces_share_edge(f: FaceModel, g: FaceModel) -> bool {
    exists|j: int|
        0 <= j < loops_coedges(g.loops).len() && coedge_edge_ids(loops_coedges(f.loops)).contains(
            (#[trigger] loops_coedges(g.loops)[j]).edge.id,
        )
}

/// The faces of `fs` other than `face` that share an edge with it, in order.
pub open spec fn adjacent_faces(fs: Seq<FaceModel>, face: FaceModel) -> Seq<FaceModel>
    decreases fs.len(),
{
    if fs.len() == 0 {
        Seq::empty()
    } else if fs.last().id != face.id && faces_share_edge(face, fs.last()) {
        adjacent_faces(fs.drop_last(), face).push(fs.last())
    } else {
        adjacent_faces(fs.drop_last(), face)
    }
}

/// The last coedge of `cs` that uses the edge `id`.
pub open spec fn last_with_edge(cs: Seq<CoedgeModel>, id: EntityId) -> CoedgeModel
    decreases cs.len(),
{
    if cs.len() == 0 {
        arbitrary()
    } else if cs.last().edge.id == id {
        cs.last()
    } else {
        last_with_edge(cs.drop_last(), id)
    }
}

/// For each coedge of `cs2` (in order) whose edge `cs1` also uses: the
/// edge, the last coedge of `cs1` using it, and that coedge of `cs2`.
pub open spec fn shared_edges(cs1: Seq<CoedgeModel>, cs2: Seq<CoedgeModel>) -> Seq<(EntityId, CoedgeModel, CoedgeModel)>
    decreases cs2.len(),
{
    if cs2.len() == 0 {
        Seq::empty()
    } else if coedge_edge_ids(cs1).contains(cs2.last().edge.id) {
        shared_edges(cs1, cs2.drop_last()).push(
            (cs2.last().edge.id, last_with_edge(cs1, cs2.last().edge.id), cs2.last()),
        )
    } else {
        shared_edges(cs1, cs2.drop_last())
    }
}

/// The first face of `fs` with the identifier `id`.
pub open spec fn find_face(fs: Seq<FaceModel>, id: EntityId) -> Option<FaceModel>
    decreases fs.len(),
{
    if fs.len() == 0 {
        None
    } else if fs[0].id == id {
        Some(fs[0])
    } else {
        find_face(fs.drop_first(), id)
    }
}

/// The number of coedges of the first edge of `es` that is not used by
/// exactly two coedges.
pub open spec fn first_nonmanifold(es: Seq<EdgeModel>) -> Option<nat>
    decreases es.len(),
{
    if es.len() == 0 {
        None
    } else if es[0].coedges.len() != 2 {
        Some(es[0].coedges.len())
    } else {
        first_nonmanifold(es.drop_first())
    }
}

/// The message of the resolver's check of a body, if it fails: first the
/// Euler characteristic V - E + F against twice the number of shells, then
/// the edges in order, each of which must have two coedges.
pub open spec fn resolver_check(b: crate::topo::body::BodyModel) -> Option<Seq<char>> {
    let euler = b.vertices().len() - b.edges().len() + b.faces().len();
    let expected = 2 * b.shells.len();
    if euler != expected {
        Some("Euler characteristic mismatch: "@ + decimal_signed(euler) + " != "@ + decimal_signed(expected as int))
    } else {
        match first_nonmanifold(b.edges()) {
            Some(n) => Some("Non-manifold edge detected: "@ + decimal(n) + " coedges"@),
            None => None,
        }
    }
}

/// The outcome of resolving a conflict in a body with the given faces.
pub open spec fn conflict_outcome(
    strategy: ResolutionStrategy,
    fs: Seq<FaceModel>,
    c: TopologyConflict,
) -> Result<(), SyncError> {
    match c.conflict_type {
        ConflictType::Gap => {
            let s = if strategy == ResolutionStrategy::Automatic { ResolutionStrategy::Extend } else { strategy };
            match s {
                ResolutionStrategy::Extend | ResolutionStrategy::Trim => {
                    if find_face(fs, c.face1) is None {
                        Err(SyncError::FaceNotFound(c.face1.0))
                    } else if find_face(fs, c.face2) is None {
                        Err(SyncError::FaceNotFound(c.face2.0))
                    } else {
                        Ok(())
                    }
                },
                ResolutionStrategy::Blend => Ok(()),
                _ => Err(arbitrary()),
            }
        },
        _ => Ok(()),
    }
}

/// The strategy that resolving a gap uses with the given current strategy.
pub open spec fn gap_strategy(strategy: ResolutionStrategy) -> ResolutionStrategy {
    if strategy == ResolutionStrategy::Automatic { ResolutionStrategy::Extend } else { strategy }
}

// ---------------------------------------------------------------------------
// Helpers
// ---------------------------------------------------------------------------
fn ids_contain(v: &Vec<EntityId>, id: EntityId) -> (b: bool)
    ensures
        b == v@.contains(id),
{
    let mut i: usize = 0;
    while i < v.len()
        invariant
            i <= v@.len(),
            forall|j: int| 0 <= j < i ==> v@[j] != id,
        decreases v.len() - i,
    {
        if v[i] == id {
            assert(v@[i as int] == id);
            return true;
        }
        i = i + 1;
    }
    false
}

fn edge_ids_of(cs: &Vec<&Coedge>) -> (r: Vec<EntityId>)
    ensures
        r@ == coedge_edge_ids(coedge_refs(cs@)),
{
    let mut r: Vec<EntityId> = Vec::new();
    let mut i: usize = 0;
    while i < cs.len()
        invariant
            i <= cs@.len(),
            r@ == coedge_edge_ids(coedge_refs(cs@)).take(i as int),
        decreases cs.len() - i,
    {
        r.push(cs[i].edge().id());
        assert(coedge_edge_ids(coedge_refs(cs@)).take(i + 1) =~= coedge_edge_ids(coedge_refs(cs@)).take(
            i as int,
        ).push(cs@[i as int]@.edge.id));
        i = i + 1;
    }
    assert(coedge_edge_ids(coedge_refs(cs@)).take(cs@.len() as int) =~= coedge_edge_ids(coedge_refs(cs@)));
    r
}

proof fn lemma_last_with_edge(cs: Seq<CoedgeModel>, id: EntityId, k: int)
    requires
        0 <= k < cs.len(),
        cs[k].edge.id == id,
        forall|j: int| k < j < cs.len() ==> (#[trigger] cs[j]).edge.id != id,
    ensures
        last_with_edge(cs, id) == cs[k],
    decreases cs.len(),
{
    if k < cs.len() - 1 {
        assert(cs.last().edge.id != id);
        let p = cs.drop_last();
        assert forall|j: int| k < j < p.len() implies (#[trigger] p[j]).edge.id != id by {
            assert(p[j] == cs[j]);
        }
        lemma_last_with_edge(p, id, k);
    }
}

/// The index of the last coedge of `cs` that uses the edge `id`.
fn last_with_edge_exec(cs: &Vec<&Coedge>, id: EntityId) -> (r: Option<usize>)
    ensures
        match r {
            Some(k) => k < cs@.len() && coedge_edge_ids(coedge_refs(cs@)).contains(id)
                && last_with_edge(coedge_refs(cs@), id) == cs@[k as int]@,
            None => !coedge_edge_ids(coedge_refs(cs@)).contains(id),
        },
{
    let ghost cm = coedge_refs(cs@);
    let mut i: usize = cs.len();
    while i > 0
        invariant
            i <= cs@.len(),
            cm == coedge_refs(cs@),
            forall|j: int| i <= j < cs@.len() ==> (#[trigger] cm[j]).edge.id != id,
        decreases i,
    {
        if cs[i - 1].edge().id() == id {
            proof {
                assert(cm[i - 1] == cs@[i - 1]@);
                lemma_last_with_edge(cm, id, i - 1);
                assert(coedge_edge_ids(cm)[i - 1] == id);
            }
            return Some(i - 1);
        }
        i = i - 1;
    }
    assert forall|j: int| 0 <= j < coedge_edge_ids(cm).len() implies coedge_edge_ids(cm)[j] != id by {
        assert(coedge_edge_ids(cm)[j] == cm[j].edge.id);
    }
    None
}

fn find_face_exec(fs: &Vec<&Face>, id: EntityId) -> (r: Option<usize>)
    ensures
        match r {
            Some(k) => k < fs@.len() && find_face(face_refs(fs@), id) == Some(fs@[k as int]@),
            None => find_face(face_refs(fs@), id) is None,
        },
{
    let ghost fm = face_refs(fs@);
    let mut i: usize = 0;
    assert(fm.skip(0) =~= fm);
    while i < fs.len()
        invariant
            i <= fs@.len(),
            fm == face_refs(fs@),
            find_face(fm, id) == find_face(fm.skip(i as int), id),
        decreases fs.len() - i,
    {
        assert(fm.skip(i as int)[0] == fs@[i as int]@);
        if fs[i].id() == id {
            return Some(i);
        }
        assert(fm.skip(i as int).drop_first() =~= fm.skip(i + 1));
        i = i + 1;
    }
    None
}

pub(crate) fn first_nonmanifold_exec(es: &Vec<&Edge>) -> (r: Option<usize>)
    ensures
        match r {
            Some(n) => first_nonmanifold(edge_refs(es@)) == Some(n as nat),
            None => first_nonmanifold(edge_refs(es@)) is None,
        },
{
    let ghost em = edge_refs(es@);
    let mut i: usize = 0;
    assert(em.skip(0) =~= em);
    while i < es.len()
        invariant
            i <= es@.len(),
            em == edge_refs(es@),
            first_nonmanifold(em) == first_nonmanifold(em.skip(i as int)),
        decreases es.len() - i,
    {
        assert(em.skip(i as int)[0] == es@[i as int]@);
        let n = es[i].coedges().len();
        if n != 2 {
            return Some(n);
        }
        assert(em.skip(i as int).drop_first() =~= em.skip(i + 1));
        i = i + 1;
    }
    None
}

/// Whether two faces use a common edge.
pub(crate) fn faces_share_edge_exec(f1: &Face, f2: &Face) -> (b: bool)
    ensures
        b == faces_share_edge(f1@, f2@),
{
    let ids1 = edge_ids_of(&f1.face_coedges());
    let cs2 = f2.face_coedges();
    let ghost m2 = coedge_refs(cs2@);
    let mut k: usize = 0;
    while k < cs2.len()
        invariant
            k <= cs2@.len(),
            m2 == coedge_refs(cs2@),
            m2 == loops_coedges(f2@.loops),
            ids1@ == coedge_edge_ids(loops_coedges(f1@.loops)),
            forall|j: int| 0 <= j < k ==> !ids1@.contains(#[trigger] m2[j].edge.id),
        decreases cs2.len() - k,
    {
        assert(m2[k as int] == cs2@[k as int]@);
        if ids_contain(&ids1, cs2[k].edge().id()) {
            return true;
        }
        k = k + 1;
    }
    false
}

/// Topology resolver for synchronous editing.
#[derive(Debug, Clone)]
pub struct TopologyResolver {
    /// Resolution strategies
    pub strategies: Vec<ResolutionStrategy>,
    /// Current strategy
    pub current_strategy: ResolutionStrategy,
}

impl TopologyResolver {
    /// Create a new topology resolver: strategies Extend, Trim and Blend,
    /// choosing automatically.
    pub fn new() -> (r: Self)
        ensures
            r.strategies@ == seq![ResolutionStrategy::Extend, ResolutionStrategy::Trim, ResolutionStrategy::Blend],
            r.current_strategy == ResolutionStrategy::Automatic,
    {
        TopologyResolver {
            strategies: vec![ResolutionStrategy::Extend, ResolutionStrategy::Trim, ResolutionStrategy::Blend],
            current_strategy: ResolutionStrategy::Automatic,
        }
    }

    /// Resolve topology after faces moved: find the conflicts, resolve each,
    /// and check the result. The body is left as it is; the outcome is that
    /// of the check.
    pub fn resolve_after_move(&self, body: &mut Body, moved_faces: &[Face]) -> (r: SyncResult<()>)
        requires
            counts_fit(old(body)@),
        ensures
            final(body)@ == old(body)@,
            r is Ok <==> resolver_check(old(body)@) is None,
            r matches Err(e) ==> (e matches SyncError::WouldInvalidateSolid(m) && resolver_check(old(body)@) == Some(m@)),
    {
        let conflicts = match self.find_conflicts(body, moved_faces) {
            Ok(c) => c,
            Err(e) => {
                return Err(e);
            },
        };
        let mut i: usize = 0;
        while i < conflicts.len()
            invariant
                conflicts@.len() == 0,
            decreases conflicts.len() - i,
        {
            i = i + 1;
        }
        self.validate_body(body)
    }

    /// Find the conflicts after faces moved: for each moved face and each
    /// adjacent face that did not move, the shared edges where the two faces
    /// no longer meet. Faces sharing an edge always still meet there, so
    /// there are none.
    pub fn find_conflicts(&self, body: &Body, moved_faces: &[Face]) -> (r: SyncResult<Vec<TopologyConflict>>)
        ensures
            r matches Ok(v) && v@.len() == 0,
    {
        let mut conflicts: Vec<TopologyConflict> = Vec::new();
        let mut moved_ids: Vec<EntityId> = Vec::new();
        let mut i: usize = 0;
        while i < moved_faces.len()
            decreases moved_faces.len() - i,
        {
            moved_ids.push(moved_faces[i].id());
            i = i + 1;
        }
        let mut i: usize = 0;
        while i < moved_faces.len()
            invariant
                conflicts@.len() == 0,
            decreases moved_faces.len() - i,
        {
            let moved = &moved_faces[i];
            let adjacent = self.find_adjacent_faces(body, moved);
            let mut j: usize = 0;
            while j < adjacent.len()
                invariant
                    conflicts@.len() == 0,
                decreases adjacent.len() - j,
            {
                let adj = &adjacent[j];
                if !ids_contain(&moved_ids, adj.id()) {
                    let shared = self.find_shared_edges(moved, adj);
                    let mut k: usize = 0;
                    while k < shared.len()
                        invariant
                            conflicts@.len() == 0,
                        decreases shared.len() - k,
                    {
                        if !self.faces_meet_at_edge(moved, adj, &shared[k]) {
                            conflicts.push(TopologyConflict {
                                conflict_type: ConflictType::Gap,
                                face1: moved.id(),
                                face2: adj.id(),
                                edge: shared[k].edge_id,
                                severity: ConflictSeverity::High,
                            });
                        }
                        k = k + 1;
                    }
                }
                j = j + 1;
            }
            i = i + 1;
        }
        Ok(conflicts)
    }

    /// Resolve one conflict. A gap is resolved by the current strategy (by
    /// extending when it is automatic): extending or trimming needs both
    /// faces in the body, blending always succeeds, any other strategy is
    /// an error. Intersections and invalid loops are accepted as they are.
    /// The body is left as it is.
    pub fn resolve_conflict(&self, body: &mut Body, conflict: &TopologyConflict) -> (r: SyncResult<()>)
        ensures
            final(body)@ == old(body)@,
            (conflict.conflict_type == ConflictType::Gap && !(gap_strategy(self.current_strategy) is Extend
                || gap_strategy(self.current_strategy) is Trim || gap_strategy(self.current_strategy) is Blend))
                ==> (r matches Err(SyncError::ResolutionFailed(m))
                && m@ == "Unsupported strategy for gap resolution: "@ + gap_strategy(self.current_strategy).name_spec()),
            (conflict.conflict_type == ConflictType::Gap && !(gap_strategy(self.current_strategy) is Extend
                || gap_strategy(self.current_strategy) is Trim || gap_strategy(self.current_strategy) is Blend))
                || r == conflict_outcome(self.current_strategy, old(body)@.faces(), *conflict),
    {
        match conflict.conflict_type {
            ConflictType::Gap => self.resolve_gap(body, conflict),
            ConflictType::Intersection => Ok(()),
            ConflictType::InvalidLoop => Ok(()),
        }
    }

    fn resolve_gap(&self, body: &mut Body, conflict: &TopologyConflict) -> (r: SyncResult<()>)
        requires
            conflict.conflict_type == ConflictType::Gap,
        ensures
            final(body)@ == old(body)@,
            !(gap_strategy(self.current_strategy) is Extend || gap_strategy(self.current_strategy) is Trim
                || gap_strategy(self.current_strategy) is Blend) ==> (r matches Err(SyncError::ResolutionFailed(m))
                && m@ == "Unsupported strategy for gap resolution: "@ + gap_strategy(self.current_strategy).name_spec()),
            !(gap_strategy(self.current_strategy) is Extend || gap_strategy(self.current_strategy) is Trim
                || gap_strategy(self.current_strategy) is Blend) || r == conflict_outcome(self.current_strategy, old(body)@.faces(), *conflict),
    {
        let strategy = if self.current_strategy == ResolutionStrategy::Automatic {
            self.choose_best_strategy()
        } else {
            self.current_strategy
        };
        match strategy {
            ResolutionStrategy::Extend => self.extend_faces_to_meet(body, conflict),
            ResolutionStrategy::Blend => Ok(()),
            ResolutionStrategy::Trim => self.extend_faces_to_meet(body, conflict),
            _ => {
                let mut m: Vec<char> = Vec::new();
                push_str(&mut m, "Unsupported strategy for gap resolution: ");
                push_str(&mut m, strategy.name());
                Err(SyncError::ResolutionFailed(string_from_chars(m.as_slice())))
            },
        }
    }

    /// Extending faces to meet needs both faces of the conflict in the body.
    fn extend_faces_to_meet(&self, body: &mut Body, conflict: &TopologyConflict) -> (r: SyncResult<()>)
        ensures
            final(body)@ == old(body)@,
            find_face(old(body)@.faces(), conflict.face1) is None ==> r == Err::<(), SyncError>(SyncError::FaceNotFound(conflict.face1.0)),
            find_face(old(body)@.faces(), conflict.face1) is Some && find_face(old(body)@.faces(), conflict.face2) is None
                ==> r == Err::<(), SyncError>(SyncError::FaceNotFound(conflict.face2.0)),
            find_face(old(body)@.faces(), conflict.face1) is Some && find_face(old(body)@.faces(), conflict.face2) is Some
                ==> r == Ok::<(), SyncError>(()),
    {
        if self.find_face_in_body(body, conflict.face1).is_none() {
            return Err(SyncError::FaceNotFound(conflict.face1.0));
        }
        if self.find_face_in_body(body, conflict.face2).is_none() {
            return Err(SyncError::FaceNotFound(conflict.face2.0));
        }
        Ok(())
    }

    /// The strategy chosen when it is automatic: extending.
    fn choose_best_strategy(&self) -> (r: ResolutionStrategy)
        ensures
            r == ResolutionStrategy::Extend,
    {
        ResolutionStrategy::Extend
    }

    /// Find the faces adjacent to a face: the other faces of the body that
    /// share an edge with it, shell by shell.
    pub fn find_adjacent_faces(&self, body: &Body, face: &Face) -> (r: Vec<Face>)
        ensures
            r@.map_values(|f: Face| f@) == adjacent_faces(body@.faces(), face@),
    {
        let face_edges = edge_ids_of(&face.face_coedges());
        let faces = body.faces();
        let ghost fm = face_refs(faces@);
        let mut adjacent: Vec<Face> = Vec::new();
        let mut i: usize = 0;
        assert(fm.take(0) =~= Seq::<FaceModel>::empty());
        assert(adjacent@.map_values(|f: Face| f@) =~= Seq::<FaceModel>::empty());
        while i < faces.len()
            invariant
                i <= faces@.len(),
                fm == face_refs(faces@),
                fm == body@.faces(),
                face_edges@ == coedge_edge_ids(loops_coedges(face@.loops)),
                adjacent@.map_values(|f: Face| f@) == adjacent_faces(fm.take(i as int), face@),
            decreases faces.len() - i,
        {
            let other = faces[i];
            assert(fm[i as int] == other@);
            assert(fm.take(i + 1).drop_last() =~= fm.take(i as int));
            if other.id() != face.id() {
                let ocs = other.face_coedges();
                let ghost om = coedge_refs(ocs@);
                let mut shares = false;
                let mut k: usize = 0;
                while k < ocs.len() && !shares
                    invariant
                        k <= ocs@.len(),
                        om == coedge_refs(ocs@),
                        om == loops_coedges(other@.loops),
                        face_edges@ == coedge_edge_ids(loops_coedges(face@.loops)),
                        shares ==> faces_share_edge(face@, other@),
                        !shares ==> forall|j: int| 0 <= j < k ==> !face_edges@.contains(#[trigger] om[j].edge.id),
                    decreases ocs.len() - k + (if shares { 0int } else { 1int }),
                {
                    assert(om[k as int] == ocs@[k as int]@);
                    if ids_contain(&face_edges, ocs[k].edge().id()) {
                        shares = true;
                    } else {
                        k = k + 1;
                    }
                }
                if shares {
                    let ghost before = adjacent@;
                    adjacent.push(other.duplicate());
                    assert(adjacent@.map_values(|f: Face| f@) =~= before.map_values(|f: Face| f@).push(other@));
                }
            }
            i = i + 1;
        }
        assert(fm.take(fm.len() as int) =~= fm);
        adjacent
    }

    /// Find the edges shared by two faces: for each coedge of the second
    /// face (in order) whose edge the first face uses, the edge with the
    /// first face's last coedge using it and the second face's coedge.
    pub fn find_shared_edges(&self, face1: &Face, face2: &Face) -> (r: Vec<SharedEdgeInfo>)
        ensures
            r@.map_values(|s: SharedEdgeInfo| s@) == shared_edges(loops_coedges(face1@.loops), loops_coedges(face2@.loops)),
    {
        let cs1 = face1.face_coedges();
        let cs2 = face2.face_coedges();
        let ghost m1 = coedge_refs(cs1@);
        let ghost m2 = coedge_refs(cs2@);
        let mut shared: Vec<SharedEdgeInfo> = Vec::new();
        let mut i: usize = 0;
        assert(m2.take(0) =~= Seq::<CoedgeModel>::empty());
        assert(shared@.map_values(|s: SharedEdgeInfo| s@) =~= Seq::<(EntityId, CoedgeModel, CoedgeModel)>::empty());
        while i < cs2.len()
            invariant
                i <= cs2@.len(),
                m1 == coedge_refs(cs1@),
                m2 == coedge_refs(cs2@),
                shared@.map_values(|s: SharedEdgeInfo| s@) == shared_edges(m1, m2.take(i as int)),
            decreases cs2.len() - i,
        {
            let c = cs2[i];
            assert(m2[i as int] == c@);
            assert(m2.take(i + 1).drop_last() =~= m2.take(i as int));
            let id = c.edge().id();
            match last_with_edge_exec(&cs1, id) {
                Some(k) => {
                    let ghost before = shared@;
                    shared.push(SharedEdgeInfo { edge_id: id, face1_coedge: cs1[k].duplicate(), face2_coedge: c.duplicate() });
                    assert(shared@.map_values(|s: SharedEdgeInfo| s@) =~= before.map_values(|s: SharedEdgeInfo| s@).push(
                        (id, last_with_edge(m1, id), c@),
                    ));
                },
                None => {},
            }
            i = i + 1;
        }
        assert(m2.take(m2.len() as int) =~= m2);
        shared
    }

    /// Whether two faces still meet at a shared edge: they do as long as
    /// they share it.
    pub fn faces_meet_at_edge(&self, face1: &Face, face2: &Face, edge_info: &SharedEdgeInfo) -> (b: bool)
        ensures
            b,
    {
        true
    }

    /// Find a face in the body by identifier: a copy of the first face,
    /// shell by shell, with that identifier.
    pub fn find_face_in_body(&self, body: &Body, face_id: EntityId) -> (r: Option<Face>)
        ensures
            match r {
                Some(f) => find_face(body@.faces(), face_id) == Some(f@),
                None => find_face(body@.faces(), face_id) is None,
            },
    {
        let faces = body.faces();
        match find_face_exec(&faces, face_id) {
            Some(k) => Some(faces[k].duplicate()),
            None => None,
        }
    }

    /// Check the body after resolution: the Euler characteristic V - E + F
    /// must be twice the number of shells, and every edge must have two
    /// coedges.
    pub fn validate_body(&self, body: &Body) -> (r: SyncResult<()>)
        requires
            counts_fit(body@),
        ensures
            r is Ok <==> resolver_check(body@) is None,
            r matches Err(e) ==> (e matches SyncError::WouldInvalidateSolid(m) && resolver_check(body@) == Some(m@)),
    {
        let vertices = body.vertices();
        let edges = body.edges();
        let faces = body.faces();
        let shells = body.shells();
        let ghost bm = body@;
        assert(shells@.map_values(|x: crate::topo::body::Shell| x@).len() == shells@.len());
        assert(crate::topo::body::vertex_refs(vertices@).len() == vertices@.len());
        assert(edge_refs(edges@).len() == edges@.len());
        assert(face_refs(faces@).len() == faces@.len());
        let euler = vertices.len() as i32 - edges.len() as i32 + faces.len() as i32;
        let expected = 2 * (shells.len() as i32);
        if euler != expected {
            let mut m: Vec<char> = Vec::new();
            push_str(&mut m, "Euler characteristic mismatch: ");
            push_decimal_signed(&mut m, euler as i64);
            push_str(&mut m, " != ");
            push_decimal_signed(&mut m, expected as i64);
            assert(m@ =~= resolver_check(bm).unwrap());
            return Err(SyncError::WouldInvalidateSolid(string_from_chars(m.as_slice())));
        }
        match first_nonmanifold_exec(&edges) {
            Some(n) => {
                let mut m: Vec<char> = Vec::new();
                push_str(&mut m, "Non-manifold edge detected: ");
                push_decimal(&mut m, n as u64);
                push_str(&mut m, " coedges");
                assert(m@ =~= resolver_check(bm).unwrap());
                Err(SyncError::WouldInvalidateSolid(string_from_chars(m.as_slice())))
            },
            None => Ok(()),
        }
    }
}

impl Default for TopologyResolver {
    fn default() -> (r: Self)
        ensures
            r.strategies@ == seq![ResolutionStrategy::Extend, ResolutionStrategy::Trim, ResolutionStrategy::Blend],
            r.current_strategy == ResolutionStrategy::Automatic,
    {
        TopologyResolver::new()
    }
}

} // verus!
