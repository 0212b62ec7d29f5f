//! Euler operators for B-Rep topology manipulation.
//!
//! Every operator draws the identifiers of the entities it creates from the
//! generator, in the order its contract lists them.
use vstd::prelude::*;
use crate::text::string_from_str;
use crate::topo::entity::{EntityId, EntityIdGenerator, Entity, id_after, lemma_id_after_step};
use crate::topo::body::{
    PointBits, Vertex, Edge, Coedge, Loop, Face, Shell, Body, VertexModel, EdgeModel, CoedgeModel,
    LoopModel, FaceModel, ShellModel, BodyModel, DEFAULT_TOLERANCE_BITS,
};
use crate::topo::{Orientation, Sense, TopoResult, TopologyError};

verus! {

/// Errors that can occur during Euler operations.
#[derive(Debug, Clone, PartialEq, Eq)]
pub enum EulerError {
    /// Invalid operation
    InvalidOperation(String),
    /// Entity not found
    EntityNotFound(String),
    /// Topology would become invalid
    WouldInvalidate(String),
}

/// A new vertex at `position` with identifier `id`.
pub open spec fn new_vertex_model(id: u64, position: PointBits) -> VertexModel {
    VertexModel { id: EntityId(id), position, tolerance: DEFAULT_TOLERANCE_BITS, edges: Seq::empty() }
}

/// A new edge from `start` to `end` with identifier `id`.
pub open spec fn new_edge_model(id: u64, start: VertexModel, end: VertexModel) -> EdgeModel {
    EdgeModel { id: EntityId(id), start, end, tolerance: DEFAULT_TOLERANCE_BITS, coedges: Seq::empty() }
}

/// A new coedge using `edge` in its own direction, with identifier `id`.
pub open spec fn same_coedge_model(id: u64, edge: EdgeModel) -> CoedgeModel {
    CoedgeModel { id: EntityId(id), edge, sense: Sense::Same }
}

/// A new loop with the given coedges and identifier `id`.
pub open spec fn new_loop_model(id: u64, coedges: Seq<CoedgeModel>) -> LoopModel {
    LoopModel { id: EntityId(id), coedges }
}

/// A new forward face with the given loops and identifier `id`.
pub open spec fn new_face_model(id: u64, loops: Seq<LoopModel>) -> FaceModel {
    FaceModel { id: EntityId(id), loops, orientation: Orientation::Forward }
}

/// `f` with coedge `c` added to its first loop, if it has one.
pub open spec fn add_to_first_loop(f: FaceModel, c: CoedgeModel) -> FaceModel {
    if f.loops.len() > 0 {
        FaceModel {
            loops: f.loops.update(0, LoopModel { coedges: f.loops[0].coedges.push(c), ..f.loops[0] }),
            ..f
        }
    } else {
        f
    }
}

/// Euler operators for B-Rep manipulation.
///
/// These operators build and modify the topology of solid models.
pub struct EulerOps;

impl EulerOps {
    /// MVFS - Make Vertex Face Shell.
    ///
    /// Creates a minimal body: a vertex at `position` and a body holding one
    /// shell that holds one face without loops. Returns the body, the shell,
    /// the face and the vertex; identifiers are drawn for the vertex, the
    /// face, the shell and the body, in that order.
    pub fn mvfs(ids: &mut EntityIdGenerator, position: PointBits) -> (r: (Body, Shell, Face, Vertex))
        ensures
            r.3@ == new_vertex_model(old(ids).next_value(), position),
            r.2@ == new_face_model(id_after(old(ids).next_value(), 1), Seq::empty()),
            r.1@ == (ShellModel {
                id: EntityId(id_after(old(ids).next_value(), 2)),
                faces: seq![r.2@],
                is_outer: true,
            }),
            r.0@ == (BodyModel { id: EntityId(id_after(old(ids).next_value(), 3)), shells: seq![r.1@] }),
            final(ids).next_value() == id_after(old(ids).next_value(), 4),
    {
        let ghost n = ids.next_value();
        proof {
            lemma_id_after_step(n, 0);
            lemma_id_after_step(n, 1);
            lemma_id_after_step(n, 2);
            lemma_id_after_step(n, 3);
        }
        let vertex = Vertex::new(ids, position);
        let face = Face::new(ids);
        let mut shell = Shell::new(ids);
        let mut body = Body::new(ids);
        shell.add_face(face.duplicate());
        body.add_shell(shell.duplicate());
        assert(vertex@.edges =~= Seq::<EntityId>::empty());
        assert(face@.loops =~= Seq::<LoopModel>::empty());
        assert(shell@.faces =~= seq![face@]);
        assert(body@.shells =~= seq![shell@]);
        (body, shell, face, vertex)
    }

    /// MEV - Make Edge Vertex.
    ///
    /// Creates a vertex at `new_position` and an edge from `vertex` to it,
    /// and adds a coedge of the edge to the face's first loop, if the face
    /// has a loop. Identifiers are drawn for the new vertex, the edge and
    /// then the coedge. Returns the edge and the new vertex.
    pub fn mev(ids: &mut EntityIdGenerator, vertex: &mut Vertex, new_position: PointBits, face: &mut Face) -> (r: TopoResult<(Edge, Vertex)>)
        ensures
            r matches Ok((e, v)) && v@ == new_vertex_model(old(ids).next_value(), new_position)
                && e@ == new_edge_model(id_after(old(ids).next_value(), 1), old(vertex)@, v@),
            r matches Ok((e, v)) && final(face)@ == add_to_first_loop(
                old(face)@,
                same_coedge_model(id_after(old(ids).next_value(), 2), e@),
            ),
            final(vertex)@ == old(vertex)@,
            final(ids).next_value() == id_after(old(ids).next_value(), if old(face)@.loops.len() > 0 { 3nat } else { 2nat }),
    {
        let ghost n = ids.next_value();
        proof {
            lemma_id_after_step(n, 0);
            lemma_id_after_step(n, 1);
            lemma_id_after_step(n, 2);
        }
        let new_vertex = Vertex::new(ids, new_position);
        let edge = Edge::new(ids, vertex.duplicate(), new_vertex.duplicate());
        assert(new_vertex@.edges =~= Seq::<EntityId>::empty());
        assert(edge@.coedges =~= Seq::<EntityId>::empty());
        if face.loops().len() > 0 {
            let coedge = Coedge::new(ids, edge.duplicate(), Sense::Same);
            face.add_coedge_to_first_loop(coedge);
        }
        Ok((edge, new_vertex))
    }

    /// MEF - Make Edge Face.
    ///
    /// Creates an edge between two vertices and a new face whose single loop
    /// holds a coedge of that edge. Identifiers are drawn for the edge, the
    /// face, the loop and the coedge. Returns the edge and the new face; the
    /// given face is left as it is.
    pub fn mef(ids: &mut EntityIdGenerator, v1: &Vertex, v2: &Vertex, face: &mut Face) -> (r: TopoResult<(Edge, Face)>)
        ensures
            r matches Ok((e, f)) && e@ == new_edge_model(old(ids).next_value(), v1@, v2@)
                && f@ == new_face_model(
                id_after(old(ids).next_value(), 1),
                seq![new_loop_model(id_after(old(ids).next_value(), 2), seq![same_coedge_model(id_after(old(ids).next_value(), 3), e@)])],
            ),
            final(face)@ == old(face)@,
            final(ids).next_value() == id_after(old(ids).next_value(), 4),
    {
        let ghost n = ids.next_value();
        proof {
            lemma_id_after_step(n, 0);
            lemma_id_after_step(n, 1);
            lemma_id_after_step(n, 2);
            lemma_id_after_step(n, 3);
        }
        let edge = Edge::new(ids, v1.duplicate(), v2.duplicate());
        let mut new_face = Face::new(ids);
        let mut new_loop = Loop::new(ids);
        let coedge = Coedge::new(ids, edge.duplicate(), Sense::Same);
        new_loop.add_coedge(coedge);
        new_face.add_loop(new_loop);
        assert(edge@.coedges =~= Seq::<EntityId>::empty());
        assert(new_face@.loops =~= seq![new_loop_model(id_after(n, 2), seq![same_coedge_model(id_after(n, 3), edge@)])]);
        Ok((edge, new_face))
    }

    /// KEMR - Kill Edge Make Ring.
    ///
    /// Creates a loop holding a coedge of the edge and adds it to the face.
    /// Identifiers are drawn for the loop and then the coedge. Returns the
    /// new loop.
    pub fn kemr(ids: &mut EntityIdGenerator, edge: &Edge, face: &mut Face) -> (r: TopoResult<Loop>)
        ensures
            r matches Ok(l) && l@ == new_loop_model(
                old(ids).next_value(),
                seq![same_coedge_model(id_after(old(ids).next_value(), 1), edge@)],
            ),
            r matches Ok(l) && final(face)@ == (FaceModel { loops: old(face)@.loops.push(l@), ..old(face)@ }),
            final(ids).next_value() == id_after(old(ids).next_value(), 2),
    {
        let ghost n = ids.next_value();
        proof {
            lemma_id_after_step(n, 0);
            lemma_id_after_step(n, 1);
        }
        let mut new_loop = Loop::new(ids);
        let coedge = Coedge::new(ids, edge.duplicate(), Sense::Same);
        new_loop.add_coedge(coedge);
        face.add_loop(new_loop.duplicate());
        assert(new_loop@.coedges =~= seq![same_coedge_model(id_after(n, 1), edge@)]);
        Ok(new_loop)
    }

    /// KFMRH - Kill Face Make Ring Hole.
    ///
    /// Fails when the shell has no faces. Otherwise returns a new loop that
    /// holds the coedges of the face's outer loop (none when the face has no
    /// loop); the shell is left as it is.
    pub fn kfmrh(ids: &mut EntityIdGenerator, face_to_remove: &Face, shell: &mut Shell) -> (r: TopoResult<Loop>)
        ensures
            old(shell)@.faces.len() == 0 ==> (r matches Err(TopologyError::InvalidReference(m))
                && m@ == "Shell has no faces"@ && final(ids).next_value() == old(ids).next_value()),
            old(shell)@.faces.len() > 0 ==> (r matches Ok(l) && l@ == new_loop_model(
                old(ids).next_value(),
                if face_to_remove@.loops.len() > 0 { face_to_remove@.loops[0].coedges } else { Seq::empty() },
            ) && final(ids).next_value() == id_after(old(ids).next_value(), 1)),
            final(shell)@ == old(shell)@,
    {
        let ghost n = ids.next_value();
        proof {
            lemma_id_after_step(n, 0);
        }
        if shell.faces().len() == 0 {
            return Err(TopologyError::InvalidReference(string_from_str("Shell has no faces")));
        }
        let mut hole_loop = Loop::new(ids);
        match face_to_remove.outer_loop() {
            Some(outer) => {
                let cs = outer.coedges();
                let ghost cm = cs@.map_values(|c: Coedge| c@);
                let mut i: usize = 0;
                assert(hole_loop@.coedges =~= cm.take(0));
                while i < cs.len()
                    invariant
                        i <= cs@.len(),
                        cm == cs@.map_values(|c: Coedge| c@),
                        hole_loop@.id == EntityId(n),
                        hole_loop@.coedges == cm.take(i as int),
                    decreases cs.len() - i,
                {
                    hole_loop.add_coedge(cs[i].duplicate());
                    assert(cm.take(i + 1) =~= cm.take(i as int).push(cm[i as int]));
                    i = i + 1;
                }
                assert(cm.take(cm.len() as int) =~= cm);
            },
            None => {
                assert(hole_loop@.coedges =~= Seq::<CoedgeModel>::empty());
            },
        }
        Ok(hole_loop)
    }

    /// MEKR - Make Edge Kill Ring.
    ///
    /// Creates the edge from the inner loop's vertex to the outer loop's
    /// vertex; the face is left as it is.
    pub fn mekr(ids: &mut EntityIdGenerator, inner_vertex: &Vertex, outer_vertex: &Vertex, face: &mut Face) -> (r: TopoResult<Edge>)
        ensures
            r matches Ok(e) && e@ == new_edge_model(old(ids).next_value(), inner_vertex@, outer_vertex@),
            final(face)@ == old(face)@,
            final(ids).next_value() == id_after(old(ids).next_value(), 1),
    {
        proof {
            lemma_id_after_step(ids.next_value(), 0);
        }
        let edge = Edge::new(ids, inner_vertex.duplicate(), outer_vertex.duplicate());
        assert(edge@.coedges =~= Seq::<EntityId>::empty());
        Ok(edge)
    }

    /// JEKV - Join Edge Kill Vertex.
    ///
    /// Creates the edge that joins the far ends of two edges meeting at
    /// `vertex`: from the end of `edge1` that is not `vertex` (its start
    /// unless its start is `vertex`) to the end of `edge2` that is not
    /// `vertex`.
    pub fn jekv(ids: &mut EntityIdGenerator, vertex: &Vertex, edge1: &Edge, edge2: &Edge) -> (r: TopoResult<Edge>)
        ensures
            r matches Ok(e) && e@ == new_edge_model(
                old(ids).next_value(),
                if edge1@.start.id == vertex@.id { edge1@.end } else { edge1@.start },
                if edge2@.start.id == vertex@.id { edge2@.end } else { edge2@.start },
            ),
            final(ids).next_value() == id_after(old(ids).next_value(), 1),
    {
        proof {
            lemma_id_after_step(ids.next_value(), 0);
        }
        let start = if edge1.start_vertex().id() == vertex.id() {
            edge1.end_vertex()
        } else {
            edge1.start_vertex()
        };
        let end = if edge2.start_vertex().id() == vertex.id() {
            edge2.end_vertex()
        } else {
            edge2.start_vertex()
        };
        let merged = Edge::new(ids, start.duplicate(), end.duplicate());
        assert(merged@.coedges =~= Seq::<EntityId>::empty());
        Ok(merged)
    }
}

} // verus!
