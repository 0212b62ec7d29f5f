//! B-Rep body structures: Body, Shell, Face, Loop, Coedge, Edge, Vertex.
//!
//! The structures hold their parts by value; an edge or vertex used in
//! several places is the same entity wherever its identifier is the same.
//! Coordinates and tolerances are kept as the IEEE-754 bit patterns of their
//! `f64` values.
use vstd::prelude::*;
use crate::topo::entity::{EntityId, EntityIdGenerator, new_entity_id, counter_successor, Entity, TopologicalEntity, GeometricEntity};
use crate::topo::{Orientation, Sense};

verus! {

/// The bit pattern of the `f64` value `1e-6`, the default tolerance.
pub const DEFAULT_TOLERANCE_BITS: u64 = 0x3eb0c6f7a0b5ed8du64;

/// A point in space, as the IEEE-754 bit patterns of its `f64` coordinates.
#[derive(Debug, Clone, Copy, PartialEq, Eq, Structural)]
pub struct PointBits {
    /// Bits of the x coordinate
    pub x: u64,
    /// Bits of the y coordinate
    pub y: u64,
    /// Bits of the z coordinate
    pub z: u64,
}


/// The mathematical value of a [`Vertex`].
pub struct VertexModel {
    pub id: EntityId,
    pub position: PointBits,
    pub tolerance: u64,
    pub edges: Seq<EntityId>,
}

/// The mathematical value of an [`Edge`].
pub struct EdgeModel {
    pub id: EntityId,
    pub start: VertexModel,
    pub end: VertexModel,
    pub tolerance: u64,
    pub coedges: Seq<EntityId>,
}

/// The mathematical value of a [`Coedge`].
pub struct CoedgeModel {
    pub id: EntityId,
    pub edge: EdgeModel,
    pub sense: Sense,
}

impl CoedgeModel {
    /// The vertex where this coedge begins, following its sense.
    pub open spec fn start_vertex(self) -> VertexModel {
        if self.sense == Sense::Same {
            self.edge.start
        } else {
            self.edge.end
        }
    }

    /// The vertex where this coedge ends, following its sense.
    pub open spec fn end_vertex(self) -> VertexModel {
        if self.sense == Sense::Same {
            self.edge.end
        } else {
            self.edge.start
        }
    }
}

/// The mathematical value of a [`Loop`].
pub struct LoopModel {
    pub id: EntityId,
    pub coedges: Seq<CoedgeModel>,
}

/// The mathematical value of a [`Face`].
pub struct FaceModel {
    pub id: EntityId,
    pub loops: Seq<LoopModel>,
    pub orientation: Orientation,
}

/// The mathematical value of a [`Shell`].
pub struct ShellModel {
    pub id: EntityId,
    pub faces: Seq<FaceModel>,
    pub is_outer: bool,
}

/// The mathematical value of a [`Body`].
pub struct BodyModel {
    pub id: EntityId,
    pub shells: Seq<ShellModel>,
}

// ---------------------------------------------------------------------------
// Vertex
// ---------------------------------------------------------------------------
/// A vertex is a point in 3D space.
#[derive(Debug)]
pub struct Vertex {
    pub(crate) id: EntityId,
    pub(crate) position: PointBits,
    pub(crate) tolerance: u64,
    pub(crate) edges: Vec<EntityId>,
}

/// The identifiers in `s` without those equal to `x`, in order.
pub open spec fn remove_id(s: Seq<EntityId>, x: EntityId) -> Seq<EntityId>
    decreases s.len(),
{
    if s.len() == 0 {
        s
    } else if s.last() == x {
        remove_id(s.drop_last(), x)
    } else {
        remove_id(s.drop_last(), x).push(s.last())
    }
}

/// Appends `x` to `v` unless it already holds it.
fn push_unique_id(v: &mut Vec<EntityId>, x: EntityId)
    ensures
        final(v)@ == (if old(v)@.contains(x) {
            old(v)@
        } else {
            old(v)@.push(x)
        }),
{
    let mut i: usize = 0;
    while i < v.len()
        invariant
            i <= v@.len(),
            v@ == old(v)@,
            forall|j: int| 0 <= j < i ==> v@[j] != x,
        decreases v.len() - i,
    {
        if v[i] == x {
            assert(v@[i as int] == x);
            return;
        }
        i = i + 1;
    }
    v.push(x);
}

/// `v` without the entries equal to `x`.
fn remove_all_id(v: &mut Vec<EntityId>, x: EntityId)
    ensures
        final(v)@ == remove_id(old(v)@, x),
{
    let mut out: Vec<EntityId> = Vec::new();
    let mut i: usize = 0;
    while i < v.len()
        invariant
            i <= v@.len(),
            v@ == old(v)@,
            out@ == remove_id(v@.take(i as int), x),
        decreases v.len() - i,
    {
        let y = v[i];
        proof {
            assert(v@.take(i + 1).drop_last() =~= v@.take(i as int));
            assert(v@.take(i + 1).last() == y);
        }
        if y != x {
            out.push(y);
        }
        i = i + 1;
    }
    assert(v@.take(v@.len() as int) =~= v@);
    *v = out;
}

impl View for Vertex {
    type V = VertexModel;

    closed spec fn view(&self) -> VertexModel {
        VertexModel { id: self.id, position: self.position, tolerance: self.tolerance, edges: self.edges@ }
    }
}

impl Vertex {
    /// Create a new vertex.
    pub fn new(ids: &mut EntityIdGenerator, position: PointBits) -> (v: Self)
        ensures
            v@.id.0 == old(ids).next_value(),
            final(ids).next_value() == counter_successor(old(ids).next_value()),
            v@.position == position,
            v@.tolerance == DEFAULT_TOLERANCE_BITS,
            v@.edges == Seq::<EntityId>::empty(),
    {
        Vertex {
            id: new_entity_id(ids),
            position,
            tolerance: DEFAULT_TOLERANCE_BITS,
            edges: Vec::new(),
        }
    }

    /// A vertex built from given parts, with the given identifier.
    pub(crate) fn from_parts(id: EntityId, position: PointBits, edges: Vec<EntityId>) -> (v: Self)
        ensures
            v@.id == id,
            v@.position == position,
            v@.tolerance == DEFAULT_TOLERANCE_BITS,
            v@.edges == edges@,
    {
        Vertex { id, position, tolerance: DEFAULT_TOLERANCE_BITS, edges }
    }

    /// A copy of this vertex: the same entity, with the same data.
    pub fn duplicate(&self) -> (v: Self)
        ensures
            v@.id == self@.id,
            v@.position == self@.position,
            v@.tolerance == self@.tolerance,
            v@.edges == self@.edges,
    {
        Vertex {
            id: self.id,
            position: self.position,
            tolerance: self.tolerance,
            edges: self.edges.clone(),
        }
    }

    /// Get the position.
    pub fn position(&self) -> (p: PointBits)
        ensures
            p == self@.position,
    {
        self.position
    }

    /// Set the position.
    pub fn set_position(&mut self, position: PointBits)
        ensures
            final(self)@.position == position,
            final(self)@.id == old(self)@.id,
            final(self)@.tolerance == old(self)@.tolerance,
            final(self)@.edges == old(self)@.edges,
    {
        self.position = position;
    }

    /// Get the tolerance.
    pub fn tolerance(&self) -> (t: u64)
        ensures
            t == self@.tolerance,
    {
        self.tolerance
    }

    /// Set the tolerance.
    pub fn set_tolerance(&mut self, tolerance: u64)
        ensures
            final(self)@.tolerance == tolerance,
            final(self)@.id == old(self)@.id,
            final(self)@.position == old(self)@.position,
            final(self)@.edges == old(self)@.edges,
    {
        self.tolerance = tolerance;
    }

    /// Get connected edges.
    pub fn edges(&self) -> (r: &[EntityId])
        ensures
            r@ == self@.edges,
    {
        self.edges.as_slice()
    }

    /// Add an edge reference (once).
    pub fn add_edge(&mut self, edge_id: EntityId)
        ensures
            final(self)@.edges == (if old(self)@.edges.contains(edge_id) {
                old(self)@.edges
            } else {
                old(self)@.edges.push(edge_id)
            }),
            final(self)@.id == old(self)@.id,
            final(self)@.position == old(self)@.position,
            final(self)@.tolerance == old(self)@.tolerance,
    {
        push_unique_id(&mut self.edges, edge_id);
    }

    /// Remove an edge reference.
    pub fn remove_edge(&mut self, edge_id: EntityId)
        ensures
            final(self)@.edges == remove_id(old(self)@.edges, edge_id),
            final(self)@.id == old(self)@.id,
            final(self)@.position == old(self)@.position,
            final(self)@.tolerance == old(self)@.tolerance,
    {
        remove_all_id(&mut self.edges, edge_id);
    }

    /// Get the degree (number of connected edges).
    pub fn degree(&self) -> (d: usize)
        ensures
            d == self@.edges.len(),
    {
        self.edges.len()
    }
}

impl Entity for Vertex {
    fn id(&self) -> (r: EntityId)
        ensures
            r == self@.id,
    {
        self.id
    }

    fn entity_type(&self) -> (r: &'static str)
        ensures
            r@ == "Vertex"@,
    {
        "Vertex"
    }
}

impl GeometricEntity for Vertex {
    type GeomType = PointBits;

    /// A vertex's geometry is its position.
    fn geometry(&self) -> (r: Option<&PointBits>)
        ensures
            r == Some(&self@.position),
    {
        Some(&self.position)
    }

    /// Moves the vertex to the given position; none leaves it where it is.
    fn set_geometry(&mut self, geometry: Option<PointBits>)
        ensures
            final(self)@.position == (match geometry {
                Some(p) => p,
                None => old(self)@.position,
            }),
            final(self)@.id == old(self)@.id,
            final(self)@.tolerance == old(self)@.tolerance,
            final(self)@.edges == old(self)@.edges,
    {
        if let Some(p) = geometry {
            self.position = p;
        }
    }
}

// ---------------------------------------------------------------------------
// Edge
// ---------------------------------------------------------------------------
/// An edge connects two vertices.
#[derive(Debug)]
pub struct Edge {
    pub(crate) id: EntityId,
    pub(crate) start_vertex: Vertex,
    pub(crate) end_vertex: Vertex,
    pub(crate) tolerance: u64,
    pub(crate) coedges: Vec<EntityId>,
}

impl View for Edge {
    type V = EdgeModel;

    closed spec fn view(&self) -> EdgeModel {
        EdgeModel { id: self.id, start: self.start_vertex@, end: self.end_vertex@, tolerance: self.tolerance, coedges: self.coedges@ }
    }
}

impl Edge {
    /// Create a new edge.
    pub fn new(ids: &mut EntityIdGenerator, start: Vertex, end: Vertex) -> (e: Self)
        ensures
            e@.id.0 == old(ids).next_value(),
            final(ids).next_value() == counter_successor(old(ids).next_value()),
            e@.start == start@,
            e@.end == end@,
            e@.tolerance == DEFAULT_TOLERANCE_BITS,
            e@.coedges == Seq::<EntityId>::empty(),
    {
        Edge {
            id: new_entity_id(ids),
            start_vertex: start,
            end_vertex: end,
            tolerance: DEFAULT_TOLERANCE_BITS,
            coedges: Vec::new(),
        }
    }

    /// An edge built from given parts, with the given identifier.
    pub(crate) fn from_parts(id: EntityId, start: Vertex, end: Vertex, coedges: Vec<EntityId>) -> (e: Self)
        ensures
            e@.id == id,
            e@.start == start@,
            e@.end == end@,
            e@.tolerance == DEFAULT_TOLERANCE_BITS,
            e@.coedges == coedges@,
    {
        Edge { id, start_vertex: start, end_vertex: end, tolerance: DEFAULT_TOLERANCE_BITS, coedges }
    }

    /// A copy of this edge: the same entity, with the same data.
    pub fn duplicate(&self) -> (e: Self)
        ensures
            e@ == self@,
    {
        let e = Edge {
            id: self.id,
            start_vertex: self.start_vertex.duplicate(),
            end_vertex: self.end_vertex.duplicate(),
            tolerance: self.tolerance,
            coedges: self.coedges.clone(),
        };
        assert(e.start_vertex.edges@ =~= self.start_vertex.edges@);
        assert(e.end_vertex.edges@ =~= self.end_vertex.edges@);
        assert(e.coedges@ =~= self.coedges@);
        e
    }

    /// Get the start vertex.
    pub fn start_vertex(&self) -> (v: &Vertex)
        ensures
            v@ == self@.start,
    {
        &self.start_vertex
    }

    /// Get the end vertex.
    pub fn end_vertex(&self) -> (v: &Vertex)
        ensures
            v@ == self@.end,
    {
        &self.end_vertex
    }

    /// Get the tolerance.
    pub fn tolerance(&self) -> (t: u64)
        ensures
            t == self@.tolerance,
    {
        self.tolerance
    }

    /// Set the tolerance.
    pub fn set_tolerance(&mut self, tolerance: u64)
        ensures
            final(self)@.tolerance == tolerance,
            final(self)@.id == old(self)@.id,
            final(self)@.start == old(self)@.start,
            final(self)@.end == old(self)@.end,
            final(self)@.coedges == old(self)@.coedges,
    {
        self.tolerance = tolerance;
    }

    /// Get coedges using this edge.
    pub fn coedges(&self) -> (r: &[EntityId])
        ensures
            r@ == self@.coedges,
    {
        self.coedges.as_slice()
    }

    /// Add a coedge reference (once).
    pub fn add_coedge(&mut self, coedge_id: EntityId)
        ensures
            final(self)@.coedges == (if old(self)@.coedges.contains(coedge_id) {
                old(self)@.coedges
            } else {
                old(self)@.coedges.push(coedge_id)
            }),
            final(self)@.id == old(self)@.id,
            final(self)@.start == old(self)@.start,
            final(self)@.end == old(self)@.end,
            final(self)@.tolerance == old(self)@.tolerance,
    {
        push_unique_id(&mut self.coedges, coedge_id);
    }

    /// Remove a coedge reference.
    pub fn remove_coedge(&mut self, coedge_id: EntityId)
        ensures
            final(self)@.coedges == remove_id(old(self)@.coedges, coedge_id),
            final(self)@.id == old(self)@.id,
            final(self)@.start == old(self)@.start,
            final(self)@.end == old(self)@.end,
            final(self)@.tolerance == old(self)@.tolerance,
    {
        remove_all_id(&mut self.coedges, coedge_id);
    }
}

impl Entity for Edge {
    fn id(&self) -> (r: EntityId)
        ensures
            r == self@.id,
    {
        self.id
    }

    fn entity_type(&self) -> (r: &'static str)
        ensures
            r@ == "Edge"@,
    {
        "Edge"
    }
}

// ---------------------------------------------------------------------------
// Coedge
// ---------------------------------------------------------------------------
/// A coedge is an oriented use of an edge within a loop.
#[derive(Debug)]
pub struct Coedge {
    pub(crate) id: EntityId,
    pub(crate) edge: Edge,
    pub(crate) sense: Sense,
}

impl View for Coedge {
    type V = CoedgeModel;

    closed spec fn view(&self) -> CoedgeModel {
        CoedgeModel { id: self.id, edge: self.edge@, sense: self.sense }
    }
}

impl Coedge {
    /// Create a new coedge.
    pub fn new(ids: &mut EntityIdGenerator, edge: Edge, sense: Sense) -> (c: Self)
        ensures
            c@.id.0 == old(ids).next_value(),
            final(ids).next_value() == counter_successor(old(ids).next_value()),
            c@.edge == edge@,
            c@.sense == sense,
    {
        Coedge { id: new_entity_id(ids), edge, sense }
    }

    /// A coedge built from given parts, with the given identifier.
    pub(crate) fn from_parts(id: EntityId, edge: Edge, sense: Sense) -> (c: Self)
        ensures
            c@.id == id,
            c@.edge == edge@,
            c@.sense == sense,
    {
        Coedge { id, edge, sense }
    }

    /// A copy of this coedge: the same entity, with the same data.
    pub fn duplicate(&self) -> (c: Self)
        ensures
            c@ == self@,
    {
        Coedge { id: self.id, edge: self.edge.duplicate(), sense: self.sense }
    }

    /// Get the edge.
    pub fn edge(&self) -> (e: &Edge)
        ensures
            e@ == self@.edge,
    {
        &self.edge
    }

    /// Get the sense.
    pub fn sense(&self) -> (s: Sense)
        ensures
            s == self@.sense,
    {
        self.sense
    }

    /// Set the sense.
    pub fn set_sense(&mut self, sense: Sense)
        ensures
            final(self)@.sense == sense,
            final(self)@.id == old(self)@.id,
            final(self)@.edge == old(self)@.edge,
    {
        self.sense = sense;
    }

    /// Reverse the sense.
    pub fn reverse_sense(&mut self)
        ensures
            final(self)@.sense == old(self)@.sense.reversed_spec(),
            final(self)@.id == old(self)@.id,
            final(self)@.edge == old(self)@.edge,
    {
        self.sense = self.sense.reverse();
    }

    /// Get the start vertex of this coedge.
    pub fn start_vertex(&self) -> (v: &Vertex)
        ensures
            v@ == self@.start_vertex(),
    {
        if self.sense.is_same() {
            self.edge.start_vertex()
        } else {
            self.edge.end_vertex()
        }
    }

    /// Get the end vertex of this coedge.
    pub fn end_vertex(&self) -> (v: &Vertex)
        ensures
            v@ == self@.end_vertex(),
    {
        if self.sense.is_same() {
            self.edge.end_vertex()
        } else {
            self.edge.start_vertex()
        }
    }
}

impl Entity for Coedge {
    fn id(&self) -> (r: EntityId)
        ensures
            r == self@.id,
    {
        self.id
    }

    fn entity_type(&self) -> (r: &'static str)
        ensures
            r@ == "Coedge"@,
    {
        "Coedge"
    }
}

// ---------------------------------------------------------------------------
// Loop
// ---------------------------------------------------------------------------
/// A loop is a closed sequence of coedges.
#[derive(Debug)]
pub struct Loop {
    pub(crate) id: EntityId,
    pub(crate) coedges: Vec<Coedge>,
}

impl View for Loop {
    type V = LoopModel;

    closed spec fn view(&self) -> LoopModel {
        LoopModel { id: self.id, coedges: self.coedges@.map_values(|c: Coedge| c@) }
    }
}

impl Loop {
    /// Create a new empty loop.
    pub fn new(ids: &mut EntityIdGenerator) -> (l: Self)
        ensures
            l@.id.0 == old(ids).next_value(),
            final(ids).next_value() == counter_successor(old(ids).next_value()),
            l@.coedges == Seq::<CoedgeModel>::empty(),
    {
        Loop { id: new_entity_id(ids), coedges: Vec::new() }
    }

    /// Create a loop from coedges.
    pub fn from_coedges(ids: &mut EntityIdGenerator, coedges: Vec<Coedge>) -> (l: Self)
        ensures
            l@.id.0 == old(ids).next_value(),
            final(ids).next_value() == counter_successor(old(ids).next_value()),
            l@.coedges == coedges@.map_values(|c: Coedge| c@),
    {
        Loop { id: new_entity_id(ids), coedges }
    }

    /// A loop built from given parts, with the given identifier.
    pub(crate) fn from_parts(id: EntityId, coedges: Vec<Coedge>) -> (l: Self)
        ensures
            l@.id == id,
            l@.coedges == coedges@.map_values(|c: Coedge| c@),
    {
        Loop { id, coedges }
    }

    /// A copy of this loop: the same entity, with the same data.
    pub fn duplicate(&self) -> (l: Self)
        ensures
            l@ == self@,
    {
        let mut cs: Vec<Coedge> = Vec::new();
        let mut i: usize = 0;
        while i < self.coedges.len()
            invariant
                i <= self.coedges@.len(),
                cs@.len() == i,
                forall|j: int| 0 <= j < i ==> #[trigger] cs@[j]@ == self.coedges@[j]@,
            decreases self.coedges.len() - i,
        {
            cs.push(self.coedges[i].duplicate());
            i = i + 1;
        }
        assert(cs@.map_values(|c: Coedge| c@) =~= self.coedges@.map_values(|c: Coedge| c@));
        Loop { id: self.id, coedges: cs }
    }

    /// Get all coedges.
    pub fn coedges(&self) -> (r: &[Coedge])
        ensures
            r@.map_values(|c: Coedge| c@) == self@.coedges,
    {
        self.coedges.as_slice()
    }

    /// Add a coedge.
    pub fn add_coedge(&mut self, coedge: Coedge)
        ensures
            final(self)@.coedges == old(self)@.coedges.push(coedge@),
            final(self)@.id == old(self)@.id,
    {
        self.coedges.push(coedge);
    }

    /// Get the number of coedges.
    pub fn len(&self) -> (n: usize)
        ensures
            n == self@.coedges.len(),
    {
        self.coedges.len()
    }

    /// Check if empty.
    pub fn is_empty(&self) -> (b: bool)
        ensures
            b == (self@.coedges.len() == 0),
    {
        self.coedges.len() == 0
    }
}

impl Entity for Loop {
    fn id(&self) -> (r: EntityId)
        ensures
            r == self@.id,
    {
        self.id
    }

    fn entity_type(&self) -> (r: &'static str)
        ensures
            r@ == "Loop"@,
    {
        "Loop"
    }
}

// ---------------------------------------------------------------------------
// Face
// ---------------------------------------------------------------------------
/// A face is a bounded region on a surface.
#[derive(Debug)]
pub struct Face {
    pub(crate) id: EntityId,
    pub(crate) loops: Vec<Loop>,
    pub(crate) orientation: Orientation,
}

impl View for Face {
    type V = FaceModel;

    closed spec fn view(&self) -> FaceModel {
        FaceModel { id: self.id, loops: self.loops@.map_values(|l: Loop| l@), orientation: self.orientation }
    }
}

impl Face {
    /// Create a new face.
    pub fn new(ids: &mut EntityIdGenerator) -> (f: Self)
        ensures
            f@.id.0 == old(ids).next_value(),
            final(ids).next_value() == counter_successor(old(ids).next_value()),
            f@.loops == Seq::<LoopModel>::empty(),
            f@.orientation == Orientation::Forward,
    {
        Face { id: new_entity_id(ids), loops: Vec::new(), orientation: Orientation::Forward }
    }

    /// A face built from given parts, with the given identifier.
    pub(crate) fn from_parts(id: EntityId, loops: Vec<Loop>) -> (f: Self)
        ensures
            f@.id == id,
            f@.loops == loops@.map_values(|l: Loop| l@),
            f@.orientation == Orientation::Forward,
    {
        Face { id, loops, orientation: Orientation::Forward }
    }

    /// A copy of this face: the same entity, with the same data.
    pub fn duplicate(&self) -> (f: Self)
        ensures
            f@ == self@,
    {
        let mut ls: Vec<Loop> = Vec::new();
        let mut i: usize = 0;
        while i < self.loops.len()
            invariant
                i <= self.loops@.len(),
                ls@.len() == i,
                forall|j: int| 0 <= j < i ==> #[trigger] ls@[j]@ == self.loops@[j]@,
            decreases self.loops.len() - i,
        {
            ls.push(self.loops[i].duplicate());
            i = i + 1;
        }
        assert(ls@.map_values(|l: Loop| l@) =~= self.loops@.map_values(|l: Loop| l@));
        Face { id: self.id, loops: ls, orientation: self.orientation }
    }

    /// Get all loops.
    pub fn loops(&self) -> (r: &[Loop])
        ensures
            r@.map_values(|l: Loop| l@) == self@.loops,
    {
        self.loops.as_slice()
    }

    /// Add a loop.
    pub fn add_loop(&mut self, lp: Loop)
        ensures
            final(self)@.loops == old(self)@.loops.push(lp@),
            final(self)@.id == old(self)@.id,
            final(self)@.orientation == old(self)@.orientation,
    {
        self.loops.push(lp);
    }

    /// Adds a coedge at the end of the first loop.
    pub(crate) fn add_coedge_to_first_loop(&mut self, c: Coedge)
        requires
            old(self)@.loops.len() > 0,
        ensures
            final(self)@.loops == old(self)@.loops.update(
                0,
                LoopModel { coedges: old(self)@.loops[0].coedges.push(c@), ..old(self)@.loops[0] },
            ),
            final(self)@.id == old(self)@.id,
            final(self)@.orientation == old(self)@.orientation,
    {
        let ghost before = self.loops@;
        let mut first = self.loops.remove(0);
        first.add_coedge(c);
        self.loops.insert(0, first);
        assert(self.loops@.map_values(|l: Loop| l@) =~= before.map_values(|l: Loop| l@).update(
            0,
            LoopModel { coedges: before[0]@.coedges.push(c@), ..before[0]@ },
        ));
    }

    /// The coedges of all loops of this face, loop after loop.
    pub(crate) fn face_coedges(&self) -> (r: Vec<&Coedge>)
        ensures
            coedge_refs(r@) == loops_coedges(self@.loops),
    {
        let ghost lm = self.loops@.map_values(|l: Loop| l@);
        let mut out: Vec<&Coedge> = Vec::new();
        let mut i: usize = 0;
        assert(lm.take(0) =~= Seq::<LoopModel>::empty());
        assert(coedge_refs(out@) =~= Seq::<CoedgeModel>::empty());
        while i < self.loops.len()
            invariant
                i <= self.loops@.len(),
                lm == self.loops@.map_values(|l: Loop| l@),
                coedge_refs(out@) == loops_coedges(lm.take(i as int)),
            decreases self.loops.len() - i,
        {
            let cs = self.loops[i].coedges();
            let ghost base = coedge_refs(out@);
            let mut j: usize = 0;
            assert(cs@.map_values(|c: Coedge| c@).take(0) =~= Seq::<CoedgeModel>::empty());
            assert(base + Seq::<CoedgeModel>::empty() =~= base);
            while j < cs.len()
                invariant
                    j <= cs@.len(),
                    coedge_refs(out@) == base + cs@.map_values(|c: Coedge| c@).take(j as int),
                decreases cs.len() - j,
            {
                let ghost before = out@;
                out.push(&cs[j]);
                assert(coedge_refs(out@) =~= coedge_refs(before).push(cs@[j as int]@));
                assert(cs@.map_values(|c: Coedge| c@).take(j + 1) =~= cs@.map_values(
                    |c: Coedge| c@,
                ).take(j as int).push(cs@[j as int]@));
                j = j + 1;
            }
            assert(cs@.map_values(|c: Coedge| c@).take(cs@.len() as int) =~= cs@.map_values(
                |c: Coedge| c@,
            ));
            assert(lm.take(i + 1).drop_last() =~= lm.take(i as int));
            assert(lm[i as int] == self.loops@[i as int]@);
            i = i + 1;
        }
        assert(lm.take(lm.len() as int) =~= lm);
        out
    }

    /// Get the outer loop (first loop).
    pub fn outer_loop(&self) -> (r: Option<&Loop>)
        ensures
            match r {
                Some(l) => self@.loops.len() > 0 && l@ == self@.loops[0],
                None => self@.loops.len() == 0,
            },
    {
        if self.loops.len() > 0 {
            Some(&self.loops[0])
        } else {
            None
        }
    }

    /// Get inner loops (all loops except the first).
    pub fn inner_loops(&self) -> (r: &[Loop])
        ensures
            r@.map_values(|l: Loop| l@) == (if self@.loops.len() > 1 {
                self@.loops.drop_first()
            } else {
                Seq::<LoopModel>::empty()
            }),
    {
        if self.loops.len() > 1 {
            let r = vstd::slice::slice_subrange(self.loops.as_slice(), 1, self.loops.len());
            assert(r@ =~= self.loops@.drop_first());
            r
        } else {
            let r = vstd::slice::slice_subrange(self.loops.as_slice(), 0, 0);
            assert(r@ =~= Seq::<Loop>::empty());
            r
        }
    }
}

impl Entity for Face {
    fn id(&self) -> (r: EntityId)
        ensures
            r == self@.id,
    {
        self.id
    }

    fn entity_type(&self) -> (r: &'static str)
        ensures
            r@ == "Face"@,
    {
        "Face"
    }
}

impl TopologicalEntity for Face {
    fn body_id(&self) -> (r: EntityId)
        ensures
            r.0 == 0,
    {
        EntityId::null()
    }

    fn orientation(&self) -> (r: Orientation)
        ensures
            r == self@.orientation,
    {
        self.orientation
    }

    fn set_orientation(&mut self, orientation: Orientation)
        ensures
            final(self)@.orientation == orientation,
            final(self)@.id == old(self)@.id,
            final(self)@.loops == old(self)@.loops,
    {
        self.orientation = orientation;
    }
}

impl Face {
    /// Reverse the orientation.
    pub fn reverse_orientation(&mut self)
        ensures
            final(self)@.orientation == old(self)@.orientation.reversed_spec(),
            final(self)@.id == old(self)@.id,
            final(self)@.loops == old(self)@.loops,
    {
        self.orientation = self.orientation.reverse();
    }
}

// ---------------------------------------------------------------------------
// Shell
// ---------------------------------------------------------------------------
/// The faces of `fs` whose identifiers are not in `ids`, in order.
pub open spec fn faces_not_in(fs: Seq<FaceModel>, ids: Seq<EntityId>) -> Seq<FaceModel>
    decreases fs.len(),
{
    if fs.len() == 0 {
        Seq::empty()
    } else if ids.contains(fs.last().id) {
        faces_not_in(fs.drop_last(), ids)
    } else {
        faces_not_in(fs.drop_last(), ids).push(fs.last())
    }
}

/// The shell without the faces whose identifiers are in `ids`.
pub open spec fn shell_without_faces(s: ShellModel, ids: Seq<EntityId>) -> ShellModel {
    ShellModel { faces: faces_not_in(s.faces, ids), ..s }
}

/// The body without the faces whose identifiers are in `ids`.
pub open spec fn body_without_faces(b: BodyModel, ids: Seq<EntityId>) -> BodyModel {
    BodyModel { shells: b.shells.map_values(|s: ShellModel| shell_without_faces(s, ids)), ..b }
}

/// A shell is a connected set of faces.
#[derive(Debug)]
pub struct Shell {
    pub(crate) id: EntityId,
    pub(crate) faces: Vec<Face>,
    pub(crate) is_outer: bool,
}

impl View for Shell {
    type V = ShellModel;

    closed spec fn view(&self) -> ShellModel {
        ShellModel { id: self.id, faces: self.faces@.map_values(|f: Face| f@), is_outer: self.is_outer }
    }
}

impl Shell {
    /// Create a new (outer) shell.
    pub fn new(ids: &mut EntityIdGenerator) -> (s: Self)
        ensures
            s@.id.0 == old(ids).next_value(),
            final(ids).next_value() == counter_successor(old(ids).next_value()),
            s@.faces == Seq::<FaceModel>::empty(),
            s@.is_outer,
    {
        Shell { id: new_entity_id(ids), faces: Vec::new(), is_outer: true }
    }

    /// A shell built from given faces, with the given identifier.
    pub(crate) fn from_parts(id: EntityId, faces: Vec<Face>, is_outer: bool) -> (s: Self)
        ensures
            s@.id == id,
            s@.faces == faces@.map_values(|f: Face| f@),
            s@.is_outer == is_outer,
    {
        Shell { id, faces, is_outer }
    }

    /// Create an outer shell.
    pub fn outer(ids: &mut EntityIdGenerator) -> (s: Self)
        ensures
            s@.id.0 == old(ids).next_value(),
            final(ids).next_value() == counter_successor(old(ids).next_value()),
            s@.faces == Seq::<FaceModel>::empty(),
            s@.is_outer,
    {
        Self::new(ids)
    }

    /// Create a void shell.
    pub fn void(ids: &mut EntityIdGenerator) -> (s: Self)
        ensures
            s@.id.0 == old(ids).next_value(),
            final(ids).next_value() == counter_successor(old(ids).next_value()),
            s@.faces == Seq::<FaceModel>::empty(),
            !s@.is_outer,
    {
        let mut shell = Self::new(ids);
        shell.is_outer = false;
        shell
    }

    /// A copy of this shell: the same entity, with the same data.
    pub fn duplicate(&self) -> (s: Self)
        ensures
            s@ == self@,
    {
        let mut fs: Vec<Face> = Vec::new();
        let mut i: usize = 0;
        while i < self.faces.len()
            invariant
                i <= self.faces@.len(),
                fs@.len() == i,
                forall|j: int| 0 <= j < i ==> #[trigger] fs@[j]@ == self.faces@[j]@,
            decreases self.faces.len() - i,
        {
            fs.push(self.faces[i].duplicate());
            i = i + 1;
        }
        assert(fs@.map_values(|f: Face| f@) =~= self.faces@.map_values(|f: Face| f@));
        Shell { id: self.id, faces: fs, is_outer: self.is_outer }
    }

    /// Get all faces.
    pub fn faces(&self) -> (r: &[Face])
        ensures
            r@.map_values(|f: Face| f@) == self@.faces,
    {
        self.faces.as_slice()
    }

    /// Add a face.
    pub fn add_face(&mut self, face: Face)
        ensures
            final(self)@.faces == old(self)@.faces.push(face@),
            final(self)@.id == old(self)@.id,
            final(self)@.is_outer == old(self)@.is_outer,
    {
        self.faces.push(face);
    }

    /// Check if this is the outer shell.
    pub fn is_outer(&self) -> (b: bool)
        ensures
            b == self@.is_outer,
    {
        self.is_outer
    }

    /// Removes the faces whose identifiers are listed, keeping the others in
    /// order.
    pub(crate) fn remove_faces(&mut self, ids: &[EntityId])
        ensures
            final(self)@ == shell_without_faces(old(self)@, ids@),
    {
        let ghost fm = self.faces@.map_values(|f: Face| f@);
        let mut kept: Vec<Face> = Vec::new();
        let mut i: usize = 0;
        assert(fm.take(0) =~= Seq::<FaceModel>::empty());
        assert(kept@.map_values(|f: Face| f@) =~= Seq::<FaceModel>::empty());
        while i < self.faces.len()
            invariant
                i <= self.faces@.len(),
                fm == self.faces@.map_values(|f: Face| f@),
                kept@.map_values(|f: Face| f@) == faces_not_in(fm.take(i as int), ids@),
            decreases self.faces.len() - i,
        {
            assert(fm.take(i + 1).drop_last() =~= fm.take(i as int));
            assert(fm.take(i + 1).last() == self.faces@[i as int]@);
            let fid = self.faces[i].id;
            assert(fid == self.faces@[i as int]@.id);
            let mut found = false;
            let mut j: usize = 0;
            while j < ids.len()
                invariant
                    j <= ids@.len(),
                    found == (exists|k: int| 0 <= k < j && ids@[k] == fid),
                decreases ids.len() - j,
            {
                if ids[j] == fid {
                    found = true;
                }
                j = j + 1;
            }
            if !found {
                let ghost before = kept@;
                kept.push(self.faces[i].duplicate());
                assert(kept@.map_values(|f: Face| f@) =~= before.map_values(|f: Face| f@).push(self.faces@[i as int]@));
            }
            i = i + 1;
        }
        assert(fm.take(fm.len() as int) =~= fm);
        self.faces = kept;
    }

    /// Set whether this is the outer shell.
    pub fn set_outer(&mut self, outer: bool)
        ensures
            final(self)@.is_outer == outer,
            final(self)@.id == old(self)@.id,
            final(self)@.faces == old(self)@.faces,
    {
        self.is_outer = outer;
    }
}

impl Entity for Shell {
    fn id(&self) -> (r: EntityId)
        ensures
            r == self@.id,
    {
        self.id
    }

    fn entity_type(&self) -> (r: &'static str)
        ensures
            r@ == "Shell"@,
    {
        "Shell"
    }
}

} // verus!

verus! {

// ---------------------------------------------------------------------------
// Body
// ---------------------------------------------------------------------------
/// The faces of a sequence of shells, shell after shell.
pub open spec fn shells_faces(ss: Seq<ShellModel>) -> Seq<FaceModel>
    decreases ss.len(),
{
    if ss.len() == 0 {
        Seq::empty()
    } else {
        shells_faces(ss.drop_last()) + ss.last().faces
    }
}

/// The loops of a sequence of faces, face after face.
pub open spec fn faces_loops(fs: Seq<FaceModel>) -> Seq<LoopModel>
    decreases fs.len(),
{
    if fs.len() == 0 {
        Seq::empty()
    } else {
        faces_loops(fs.drop_last()) + fs.last().loops
    }
}

/// The coedges of a sequence of loops, loop after loop.
pub open spec fn loops_coedges(ls: Seq<LoopModel>) -> Seq<CoedgeModel>
    decreases ls.len(),
{
    if ls.len() == 0 {
        Seq::empty()
    } else {
        loops_coedges(ls.drop_last()) + ls.last().coedges
    }
}

/// Some edge of `es` has the identifier `id`.
pub open spec fn has_edge_id(es: Seq<EdgeModel>, id: EntityId) -> bool {
    exists|i: int| 0 <= i < es.len() && (#[trigger] es[i]).id == id
}

/// The edges used by a sequence of coedges, each edge once, in the order
/// of first use.
pub open spec fn distinct_edges(cs: Seq<CoedgeModel>) -> Seq<EdgeModel>
    decreases cs.len(),
{
    if cs.len() == 0 {
        Seq::empty()
    } else {
        let d = distinct_edges(cs.drop_last());
        if has_edge_id(d, cs.last().edge.id) {
            d
        } else {
            d.push(cs.last().edge)
        }
    }
}

/// Some vertex of `vs` has the identifier `id`.
pub open spec fn has_vertex_id(vs: Seq<VertexModel>, id: EntityId) -> bool {
    exists|i: int| 0 <= i < vs.len() && (#[trigger] vs[i]).id == id
}

/// The vertices after adding `v` unless one with its identifier is there.
pub open spec fn add_vertex_once(vs: Seq<VertexModel>, v: VertexModel) -> Seq<VertexModel> {
    if has_vertex_id(vs, v.id) {
        vs
    } else {
        vs.push(v)
    }
}

/// The end vertices of a sequence of edges, each vertex once, in the order
/// of first use (start vertex before end vertex).
pub open spec fn distinct_vertices(es: Seq<EdgeModel>) -> Seq<VertexModel>
    decreases es.len(),
{
    if es.len() == 0 {
        Seq::empty()
    } else {
        let d = distinct_vertices(es.drop_last());
        add_vertex_once(add_vertex_once(d, es.last().start), es.last().end)
    }
}

impl BodyModel {
    /// All faces of the body.
    pub open spec fn faces(self) -> Seq<FaceModel> {
        shells_faces(self.shells)
    }

    /// All loops of the body.
    pub open spec fn loops(self) -> Seq<LoopModel> {
        faces_loops(self.faces())
    }

    /// All coedges of the body.
    pub open spec fn coedges(self) -> Seq<CoedgeModel> {
        loops_coedges(self.loops())
    }

    /// All edges of the body, each once.
    pub open spec fn edges(self) -> Seq<EdgeModel> {
        distinct_edges(self.coedges())
    }

    /// All vertices of the body, each once.
    pub open spec fn vertices(self) -> Seq<VertexModel> {
        distinct_vertices(self.edges())
    }
}

/// A solid body composed of shells.
#[derive(Debug)]
pub struct Body {
    pub(crate) id: EntityId,
    pub(crate) shells: Vec<Shell>,
}

impl View for Body {
    type V = BodyModel;

    closed spec fn view(&self) -> BodyModel {
        BodyModel { id: self.id, shells: self.shells@.map_values(|s: Shell| s@) }
    }
}

/// The faces that a list of face references points to.
pub open spec fn face_refs(v: Seq<&Face>) -> Seq<FaceModel> {
    v.map_values(|f: &Face| f@)
}

/// The loops that a list of loop references points to.
pub open spec fn loop_refs(v: Seq<&Loop>) -> Seq<LoopModel> {
    v.map_values(|l: &Loop| l@)
}

/// The coedges that a list of coedge references points to.
pub open spec fn coedge_refs(v: Seq<&Coedge>) -> Seq<CoedgeModel> {
    v.map_values(|c: &Coedge| c@)
}

/// The edges that a list of edge references points to.
pub open spec fn edge_refs(v: Seq<&Edge>) -> Seq<EdgeModel> {
    v.map_values(|e: &Edge| e@)
}

/// The vertices that a list of vertex references points to.
pub open spec fn vertex_refs(v: Seq<&Vertex>) -> Seq<VertexModel> {
    v.map_values(|x: &Vertex| x@)
}

fn has_edge_id_exec(v: &Vec<&Edge>, id: EntityId) -> (b: bool)
    ensures
        b == has_edge_id(edge_refs(v@), id),
{
    let mut i: usize = 0;
    while i < v.len()
        invariant
            i <= v@.len(),
            forall|j: int| 0 <= j < i ==> (#[trigger] v@[j])@.id != id,
        decreases v.len() - i,
    {
        if v[i].id == id {
            assert(edge_refs(v@)[i as int].id == id);
            return true;
        }
        i = i + 1;
    }
    assert forall|j: int| 0 <= j < edge_refs(v@).len() implies (#[trigger] edge_refs(v@)[j]).id
        != id by {
        assert(edge_refs(v@)[j] == v@[j]@);
    }
    false
}

fn has_vertex_id_exec(v: &Vec<&Vertex>, id: EntityId) -> (b: bool)
    ensures
        b == has_vertex_id(vertex_refs(v@), id),
{
    let mut i: usize = 0;
    while i < v.len()
        invariant
            i <= v@.len(),
            forall|j: int| 0 <= j < i ==> (#[trigger] v@[j])@.id != id,
        decreases v.len() - i,
    {
        if v[i].id == id {
            assert(vertex_refs(v@)[i as int].id == id);
            return true;
        }
        i = i + 1;
    }
    assert forall|j: int| 0 <= j < vertex_refs(v@).len() implies (#[trigger] vertex_refs(
        v@,
    )[j]).id != id by {
        assert(vertex_refs(v@)[j] == v@[j]@);
    }
    false
}

impl Body {
    /// Create a new empty body.
    pub fn new(ids: &mut EntityIdGenerator) -> (b: Self)
        ensures
            b@.id.0 == old(ids).next_value(),
            final(ids).next_value() == counter_successor(old(ids).next_value()),
            b@.shells == Seq::<ShellModel>::empty(),
    {
        let b = Body { id: new_entity_id(ids), shells: Vec::new() };
        assert(b@.shells =~= Seq::<ShellModel>::empty());
        b
    }

    /// A body built from given parts, with the given identifier.
    pub(crate) fn from_parts(id: EntityId, shells: Vec<Shell>) -> (b: Self)
        ensures
            b@.id == id,
            b@.shells == shells@.map_values(|s: Shell| s@),
    {
        Body { id, shells }
    }

    /// Get all shells.
    pub fn shells(&self) -> (r: &[Shell])
        ensures
            r@.map_values(|s: Shell| s@) == self@.shells,
    {
        self.shells.as_slice()
    }

    /// Add a shell.
    pub fn add_shell(&mut self, shell: Shell)
        ensures
            final(self)@.shells == old(self)@.shells.push(shell@),
            final(self)@.id == old(self)@.id,
    {
        let ghost before = self.shells@;
        self.shells.push(shell);
        assert(self.shells@.map_values(|s: Shell| s@) =~= before.map_values(|s: Shell| s@).push(
            shell@,
        ));
    }

    /// Get all faces, shell after shell.
    pub fn faces(&self) -> (r: Vec<&Face>)
        ensures
            face_refs(r@) == self@.faces(),
    {
        let ghost sm = self@.shells;
        let mut out: Vec<&Face> = Vec::new();
        let mut i: usize = 0;
        assert(sm.take(0) =~= Seq::<ShellModel>::empty());
        assert(face_refs(out@) =~= Seq::<FaceModel>::empty());
        while i < self.shells.len()
            invariant
                i <= self.shells@.len(),
                sm == self.shells@.map_values(|s: Shell| s@),
                face_refs(out@) == shells_faces(sm.take(i as int)),
            decreases self.shells.len() - i,
        {
            let fs = self.shells[i].faces();
            let ghost base = face_refs(out@);
            let mut j: usize = 0;
            assert(fs@.map_values(|f: Face| f@).take(0) =~= Seq::<FaceModel>::empty());
            assert(base + Seq::<FaceModel>::empty() =~= base);
            while j < fs.len()
                invariant
                    j <= fs@.len(),
                    face_refs(out@) == base + fs@.map_values(|f: Face| f@).take(j as int),
                decreases fs.len() - j,
            {
                let ghost before = out@;
                out.push(&fs[j]);
                assert(face_refs(out@) =~= face_refs(before).push(fs@[j as int]@));
                assert(fs@.map_values(|f: Face| f@).take(j + 1) =~= fs@.map_values(|f: Face| f@).take(
                    j as int,
                ).push(fs@[j as int]@));
                j = j + 1;
            }
            assert(fs@.map_values(|f: Face| f@).take(fs@.len() as int) =~= fs@.map_values(
                |f: Face| f@,
            ));
            assert(sm.take(i + 1).drop_last() =~= sm.take(i as int));
            assert(sm[i as int] == self.shells@[i as int]@);
            i = i + 1;
        }
        assert(sm.take(sm.len() as int) =~= sm);
        out
    }

    /// Get all loops, face after face.
    pub fn loops(&self) -> (r: Vec<&Loop>)
        ensures
            loop_refs(r@) == self@.loops(),
    {
        let faces = self.faces();
        let ghost fm = face_refs(faces@);
        let mut out: Vec<&Loop> = Vec::new();
        let mut i: usize = 0;
        assert(fm.take(0) =~= Seq::<FaceModel>::empty());
        assert(loop_refs(out@) =~= Seq::<LoopModel>::empty());
        while i < faces.len()
            invariant
                i <= faces@.len(),
                fm == face_refs(faces@),
                fm == self@.faces(),
                loop_refs(out@) == faces_loops(fm.take(i as int)),
            decreases faces.len() - i,
        {
            let ls = faces[i].loops();
            let ghost base = loop_refs(out@);
            let mut j: usize = 0;
            assert(ls@.map_values(|l: Loop| l@).take(0) =~= Seq::<LoopModel>::empty());
            assert(base + Seq::<LoopModel>::empty() =~= base);
            while j < ls.len()
                invariant
                    j <= ls@.len(),
                    loop_refs(out@) == base + ls@.map_values(|l: Loop| l@).take(j as int),
                decreases ls.len() - j,
            {
                let ghost before = out@;
                out.push(&ls[j]);
                assert(loop_refs(out@) =~= loop_refs(before).push(ls@[j as int]@));
                assert(ls@.map_values(|l: Loop| l@).take(j + 1) =~= ls@.map_values(|l: Loop| l@).take(
                    j as int,
                ).push(ls@[j as int]@));
                j = j + 1;
            }
            assert(ls@.map_values(|l: Loop| l@).take(ls@.len() as int) =~= ls@.map_values(
                |l: Loop| l@,
            ));
            assert(fm.take(i + 1).drop_last() =~= fm.take(i as int));
            assert(fm[i as int] == faces@[i as int]@);
            i = i + 1;
        }
        assert(fm.take(fm.len() as int) =~= fm);
        out
    }

    /// Get all coedges, loop after loop.
    pub fn coedges(&self) -> (r: Vec<&Coedge>)
        ensures
            coedge_refs(r@) == self@.coedges(),
    {
        let loops = self.loops();
        let ghost lm = loop_refs(loops@);
        let mut out: Vec<&Coedge> = Vec::new();
        let mut i: usize = 0;
        assert(lm.take(0) =~= Seq::<LoopModel>::empty());
        assert(coedge_refs(out@) =~= Seq::<CoedgeModel>::empty());
        while i < loops.len()
            invariant
                i <= loops@.len(),
                lm == loop_refs(loops@),
                lm == self@.loops(),
                coedge_refs(out@) == loops_coedges(lm.take(i as int)),
            decreases loops.len() - i,
        {
            let cs = loops[i].coedges();
            let ghost base = coedge_refs(out@);
            let mut j: usize = 0;
            assert(cs@.map_values(|c: Coedge| c@).take(0) =~= Seq::<CoedgeModel>::empty());
            assert(base + Seq::<CoedgeModel>::empty() =~= base);
            while j < cs.len()
                invariant
                    j <= cs@.len(),
                    coedge_refs(out@) == base + cs@.map_values(|c: Coedge| c@).take(j as int),
                decreases cs.len() - j,
            {
                let ghost before = out@;
                out.push(&cs[j]);
                assert(coedge_refs(out@) =~= coedge_refs(before).push(cs@[j as int]@));
                assert(cs@.map_values(|c: Coedge| c@).take(j + 1) =~= cs@.map_values(
                    |c: Coedge| c@,
                ).take(j as int).push(cs@[j as int]@));
                j = j + 1;
            }
            assert(cs@.map_values(|c: Coedge| c@).take(cs@.len() as int) =~= cs@.map_values(
                |c: Coedge| c@,
            ));
            assert(lm.take(i + 1).drop_last() =~= lm.take(i as int));
            assert(lm[i as int] == loops@[i as int]@);
            i = i + 1;
        }
        assert(lm.take(lm.len() as int) =~= lm);
        out
    }

    /// Get all edges, each once, in the order of first use.
    pub fn edges(&self) -> (r: Vec<&Edge>)
        ensures
            edge_refs(r@) == self@.edges(),
    {
        let coedges = self.coedges();
        let ghost cm = coedge_refs(coedges@);
        let mut out: Vec<&Edge> = Vec::new();
        let mut i: usize = 0;
        assert(cm.take(0) =~= Seq::<CoedgeModel>::empty());
        assert(edge_refs(out@) =~= Seq::<EdgeModel>::empty());
        while i < coedges.len()
            invariant
                i <= coedges@.len(),
                cm == coedge_refs(coedges@),
                cm == self@.coedges(),
                edge_refs(out@) == distinct_edges(cm.take(i as int)),
            decreases coedges.len() - i,
        {
            let c = coedges[i];
            assert(cm[i as int] == c@);
            assert(cm.take(i + 1).drop_last() =~= cm.take(i as int));
            if !has_edge_id_exec(&out, c.edge.id) {
                let ghost before = out@;
                out.push(&c.edge);
                assert(edge_refs(out@) =~= edge_refs(before).push(c@.edge));
            }
            i = i + 1;
        }
        assert(cm.take(cm.len() as int) =~= cm);
        out
    }

    /// Get all vertices, each once, in the order of first use.
    pub fn vertices(&self) -> (r: Vec<&Vertex>)
        ensures
            vertex_refs(r@) == self@.vertices(),
    {
        let edges = self.edges();
        let ghost em = edge_refs(edges@);
        let mut out: Vec<&Vertex> = Vec::new();
        let mut i: usize = 0;
        assert(em.take(0) =~= Seq::<EdgeModel>::empty());
        assert(vertex_refs(out@) =~= Seq::<VertexModel>::empty());
        while i < edges.len()
            invariant
                i <= edges@.len(),
                em == edge_refs(edges@),
                em == self@.edges(),
                vertex_refs(out@) == distinct_vertices(em.take(i as int)),
            decreases edges.len() - i,
        {
            let e = edges[i];
            assert(em[i as int] == e@);
            assert(em.take(i + 1).drop_last() =~= em.take(i as int));
            let ghost d0 = vertex_refs(out@);
            if !has_vertex_id_exec(&out, e.start_vertex.id) {
                let ghost before = out@;
                out.push(&e.start_vertex);
                assert(vertex_refs(out@) =~= vertex_refs(before).push(e@.start));
            }
            assert(vertex_refs(out@) == add_vertex_once(d0, e@.start));
            let ghost d1 = vertex_refs(out@);
            if !has_vertex_id_exec(&out, e.end_vertex.id) {
                let ghost before = out@;
                out.push(&e.end_vertex);
                assert(vertex_refs(out@) =~= vertex_refs(before).push(e@.end));
            }
            assert(vertex_refs(out@) == add_vertex_once(d1, e@.end));
            i = i + 1;
        }
        assert(em.take(em.len() as int) =~= em);
        out
    }

    /// Removes, from every shell, the faces whose identifiers are listed.
    pub(crate) fn remove_faces(&mut self, ids: &[EntityId])
        ensures
            final(self)@ == body_without_faces(old(self)@, ids@),
    {
        let ghost sm = self.shells@.map_values(|s: Shell| s@);
        let mut shells: Vec<Shell> = Vec::new();
        let mut i: usize = 0;
        while i < self.shells.len()
            invariant
                i <= self.shells@.len(),
                sm == self.shells@.map_values(|s: Shell| s@),
                shells@.len() == i,
                forall|j: int| 0 <= j < i ==> (#[trigger] shells@[j])@ == shell_without_faces(sm[j], ids@),
            decreases self.shells.len() - i,
        {
            let mut s = self.shells[i].duplicate();
            s.remove_faces(ids);
            shells.push(s);
            i = i + 1;
        }
        assert(shells@.map_values(|s: Shell| s@) =~= sm.map_values(|s: ShellModel| shell_without_faces(s, ids@)));
        self.shells = shells;
    }

    /// Check if the body is a solid (has a shell).
    pub fn is_solid(&self) -> (b: bool)
        ensures
            b == (self@.shells.len() > 0),
    {
        self.shells.len() > 0
    }

    /// Check if the body is empty.
    pub fn is_empty(&self) -> (b: bool)
        ensures
            b == (self@.shells.len() == 0),
    {
        self.shells.len() == 0
    }
}

impl Entity for Body {
    fn id(&self) -> (r: EntityId)
        ensures
            r == self@.id,
    {
        self.id
    }

    fn entity_type(&self) -> (r: &'static str)
        ensures
            r@ == "Body"@,
    {
        "Body"
    }
}

} // verus!
