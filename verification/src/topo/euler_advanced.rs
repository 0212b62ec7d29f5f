//! Higher-level operations built on the basic Euler operators: splitting and
//! merging faces, holes, and solids made of given faces.
use vstd::prelude::*;
use crate::text::string_from_str;
use crate::topo::entity::{EntityId, EntityIdGenerator, Entity, id_after, lemma_id_after_step};
use crate::topo::body::{
    Vertex, Edge, Coedge, Loop, Face, Shell, Body, VertexModel, CoedgeModel, LoopModel, FaceModel,
    ShellModel, BodyModel,
};
use crate::topo::body::PointBits;
use vstd::arithmetic::div_mod::lemma_fundamental_div_mod_converse;
use crate::topo::euler::{new_vertex_model, new_edge_model, same_coedge_model, new_loop_model, new_face_model};
use crate::topo::{Sense, TopoResult, TopologyError};

verus! {

/// Coedge `c` starts or ends at the vertex with identifier `id`.
pub open spec fn coedge_touches(c: CoedgeModel, id: EntityId) -> bool {
    c.start_vertex().id == id || c.end_vertex().id == id
}

/// Some coedge of loop `l` starts or ends at the vertex `id`.
pub open spec fn loop_touches(l: LoopModel, id: EntityId) -> bool {
    exists|k: int| 0 <= k < l.coedges.len() && coedge_touches(#[trigger] l.coedges[k], id)
}

/// Some loop of `ls` touches both vertices.
pub open spec fn some_loop_touches_both(ls: Seq<LoopModel>, a: EntityId, b: EntityId) -> bool {
    exists|i: int| 0 <= i < ls.len() && loop_touches(#[trigger] ls[i], a) && loop_touches(ls[i], b)
}

/// A face is split between two vertices only along a loop that touches
/// both: whether some loop does is the same whichever vertex is named
/// first, and if no loop touches one of the vertices, none touches both.
pub proof fn lemma_split_needs_a_loop_through_both(ls: Seq<LoopModel>, a: EntityId, b: EntityId)
    ensures
        some_loop_touches_both(ls, a, b) == some_loop_touches_both(ls, b, a),
        (forall|i: int| 0 <= i < ls.len() ==> !loop_touches(#[trigger] ls[i], a)) ==> !some_loop_touches_both(ls, a, b),
        (forall|i: int| 0 <= i < ls.len() ==> !loop_touches(#[trigger] ls[i], b)) ==> !some_loop_touches_both(ls, a, b),
{
}

/// Some coedge of loop `l` uses the edge with identifier `id`.
pub open spec fn loop_uses_edge(l: LoopModel, id: EntityId) -> bool {
    exists|k: int| 0 <= k < l.coedges.len() && (#[trigger] l.coedges[k]).edge.id == id
}

/// The loops of `ls` that do not use the edge `id`, in order.
pub open spec fn loops_without_edge(ls: Seq<LoopModel>, id: EntityId) -> Seq<LoopModel>
    decreases ls.len(),
{
    if ls.len() == 0 {
        Seq::empty()
    } else if loop_uses_edge(ls.last(), id) {
        loops_without_edge(ls.drop_last(), id)
    } else {
        loops_without_edge(ls.drop_last(), id).push(ls.last())
    }
}

/// Side `i` of a ring through the vertices `vs`: an edge from `vs[i]` to the
/// next vertex (the first one after the last), used in its own direction,
/// with the identifiers drawn after the ring's loop.
pub open spec fn ring_coedge(n: u64, vs: Seq<VertexModel>, i: int) -> CoedgeModel {
    same_coedge_model(
        id_after(n, (2 + 2 * i) as nat),
        new_edge_model(id_after(n, (1 + 2 * i) as nat), vs[i], vs[(i + 1) % (vs.len() as int)]),
    )
}

/// The vertex where coedge `i` of a profile loop starts, counting round
/// the loop.
pub open spec fn profile_vertex(l: LoopModel, i: int) -> VertexModel {
    l.coedges[i % (l.coedges.len() as int)].start_vertex()
}

/// Top vertex `i` of an extrusion drawn from `n`.
pub open spec fn top_vertex(n: u64, tops: Seq<PointBits>, i: int) -> VertexModel {
    let j = i % (tops.len() as int);
    new_vertex_model(id_after(n, (4 + j) as nat), tops[j])
}

/// Coedge `i` of the top loop of an extrusion of a `k`-sided profile.
pub open spec fn top_coedge(n: u64, tops: Seq<PointBits>, k: int, i: int) -> CoedgeModel {
    same_coedge_model(
        id_after(n, (6 + k + 2 * i) as nat),
        new_edge_model(id_after(n, (5 + k + 2 * i) as nat), top_vertex(n, tops, i), top_vertex(n, tops, i + 1)),
    )
}

/// Side face `i` of an extrusion of the profile loop `l`: a loop up the
/// side (bottom edge, rising edge, top edge back, falling edge) and the
/// face, numbered from `6 + 3k + 10i`.
pub open spec fn side_face(n: u64, l: LoopModel, tops: Seq<PointBits>, i: int) -> FaceModel {
    let k = l.coedges.len() as int;
    let s = 6 + 3 * k + 10 * i;
    let b1 = profile_vertex(l, i);
    let b2 = profile_vertex(l, i + 1);
    let t1 = top_vertex(n, tops, i);
    let t2 = top_vertex(n, tops, i + 1);
    new_face_model(
        id_after(n, (s + 9) as nat),
        seq![new_loop_model(
            id_after(n, s as nat),
            seq![
                same_coedge_model(id_after(n, (s + 2) as nat), new_edge_model(id_after(n, (s + 1) as nat), b1, b2)),
                same_coedge_model(id_after(n, (s + 4) as nat), new_edge_model(id_after(n, (s + 3) as nat), b2, t2)),
                same_coedge_model(id_after(n, (s + 6) as nat), new_edge_model(id_after(n, (s + 5) as nat), t2, t1)),
                same_coedge_model(id_after(n, (s + 8) as nat), new_edge_model(id_after(n, (s + 7) as nat), t1, b1)),
            ],
        )],
    )
}

/// The body made by extruding the profile loop `l` to the top positions
/// `tops`, with identifiers drawn from `n`: the body, its shell, the bottom
/// face (a copy of the profile loop), the top vertices, the top loop with
/// its edges, the top face, and the side faces.
pub open spec fn extrusion(n: u64, l: LoopModel, tops: Seq<PointBits>) -> BodyModel {
    let k = l.coedges.len() as int;
    let bottom = new_face_model(id_after(n, 2), seq![new_loop_model(id_after(n, 3), l.coedges)]);
    let top = new_face_model(
        id_after(n, (5 + 3 * k) as nat),
        seq![new_loop_model(id_after(n, (4 + k) as nat), Seq::new(k as nat, |i: int| top_coedge(n, tops, k, i)))],
    );
    BodyModel {
        id: EntityId(n),
        shells: seq![ShellModel {
            id: EntityId(id_after(n, 1)),
            faces: seq![bottom, top] + Seq::new(k as nat, |i: int| side_face(n, l, tops, i)),
            is_outer: true,
        }],
    }
}

/// A four-sided face numbered from `s` (identifiers drawn from `n`): its
/// loop, then for each side an edge and its coedge in the edge's own
/// direction (`v1` to `v2`, `v2` to `v3`, `v3` to `v4`, `v4` back to `v1`),
/// then the face.
pub open spec fn quad_face(n: u64, s: int, v1: VertexModel, v2: VertexModel, v3: VertexModel, v4: VertexModel) -> FaceModel {
    new_face_model(
        id_after(n, (s + 9) as nat),
        seq![new_loop_model(
            id_after(n, s as nat),
            seq![
                same_coedge_model(id_after(n, (s + 2) as nat), new_edge_model(id_after(n, (s + 1) as nat), v1, v2)),
                same_coedge_model(id_after(n, (s + 4) as nat), new_edge_model(id_after(n, (s + 3) as nat), v2, v3)),
                same_coedge_model(id_after(n, (s + 6) as nat), new_edge_model(id_after(n, (s + 5) as nat), v3, v4)),
                same_coedge_model(id_after(n, (s + 8) as nat), new_edge_model(id_after(n, (s + 7) as nat), v4, v1)),
            ],
        )],
    )
}

/// Coedge `j` of a cap through the vertices `vs`, numbered from `b`: an
/// edge from `vs[j]` to the next vertex (the first after the last).
pub open spec fn cap_coedge(n: u64, b: int, vs: Seq<VertexModel>, j: int) -> CoedgeModel {
    same_coedge_model(
        id_after(n, (b + 2 + 2 * j) as nat),
        new_edge_model(id_after(n, (b + 1 + 2 * j) as nat), vs[j], vs[(j + 1) % (vs.len() as int)]),
    )
}

/// A cap face through the vertices `vs`, numbered from `b`: its loop, an
/// edge and a coedge per vertex, then the face.
pub open spec fn cap_face(n: u64, b: int, vs: Seq<VertexModel>) -> FaceModel {
    new_face_model(
        id_after(n, (b + 1 + 2 * vs.len()) as nat),
        seq![new_loop_model(id_after(n, b as nat), Seq::new(vs.len(), |j: int| cap_coedge(n, b, vs, j)))],
    )
}

/// Vertex `j` (counted round the ring) of ring `i` of a revolution with `k`
/// vertices per ring, identifiers drawn from `n`: the rings' vertices are
/// numbered ring after ring, after the body and its shell.
pub open spec fn ring_vertex(n: u64, rings: Seq<Seq<PointBits>>, k: int, i: int, j: int) -> VertexModel {
    let jj = j % k;
    new_vertex_model(id_after(n, (2 + i * k + jj) as nat), rings[i][jj])
}

/// The vertices of ring `i` of a revolution, in order.
pub open spec fn ring_vertices(n: u64, rings: Seq<Seq<PointBits>>, k: int, i: int) -> Seq<VertexModel> {
    Seq::new(k as nat, |j: int| ring_vertex(n, rings, k, i, j))
}

/// Quad `f` of a revolution: between ring `f / k` and the next one, from
/// vertex `f % k` of the ring to the following vertex and back along the
/// next ring; numbered after all ring vertices, ten identifiers per quad.
pub open spec fn revolution_quad(n: u64, rings: Seq<Seq<PointBits>>, k: int, f: int) -> FaceModel {
    let i = f / k;
    let j = f % k;
    quad_face(
        n,
        2 + rings.len() * k + 10 * f,
        ring_vertex(n, rings, k, i, j),
        ring_vertex(n, rings, k, i, j + 1),
        ring_vertex(n, rings, k, i + 1, j + 1),
        ring_vertex(n, rings, k, i + 1, j),
    )
}

/// Where the caps of a revolution are numbered from.
pub open spec fn revolution_caps_base(rings: Seq<Seq<PointBits>>, k: int) -> int {
    2 + rings.len() * k + 10 * ((rings.len() - 1) * k)
}

/// How many identifiers a revolution draws.
pub open spec fn revolution_ids(rings: Seq<Seq<PointBits>>, k: int, with_caps: bool) -> int {
    revolution_caps_base(rings, k) + if with_caps { 4 + 4 * k } else { 0 }
}

/// The body made by revolving a profile whose outer loop has `k` vertices,
/// given the positions of each ring of vertices (the profile turned to each
/// step of the angle), with identifiers drawn from `n`: the body, its shell,
/// the vertices of every ring, one quad face per pair of consecutive rings
/// and profile edge, and, when asked, a cap through the first ring and one
/// through the last.
pub open spec fn revolution(n: u64, rings: Seq<Seq<PointBits>>, k: int, with_caps: bool) -> BodyModel {
    let c0 = revolution_caps_base(rings, k);
    let quads = Seq::new(((rings.len() - 1) * k) as nat, |f: int| revolution_quad(n, rings, k, f));
    let caps = if with_caps {
        seq![
            cap_face(n, c0, ring_vertices(n, rings, k, 0)),
            cap_face(n, c0 + 2 + 2 * k, ring_vertices(n, rings, k, rings.len() - 1)),
        ]
    } else {
        Seq::<FaceModel>::empty()
    };
    BodyModel {
        id: EntityId(n),
        shells: seq![ShellModel { id: EntityId(id_after(n, 1)), faces: quads + caps, is_outer: true }],
    }
}

fn make_quad(
    ids: &mut EntityIdGenerator,
    v1: &Vertex,
    v2: &Vertex,
    v3: &Vertex,
    v4: &Vertex,
    Ghost(n): Ghost<u64>,
    Ghost(s): Ghost<int>,
) -> (f: Face)
    requires
        s >= 0,
        old(ids).next_value() == id_after(n, s as nat),
    ensures
        f@ == quad_face(n, s, v1@, v2@, v3@, v4@),
        final(ids).next_value() == id_after(n, (s + 10) as nat),
{
    proof {
        lemma_id_after_step(n, s as nat);
        lemma_id_after_step(n, (s + 1) as nat);
        lemma_id_after_step(n, (s + 2) as nat);
        lemma_id_after_step(n, (s + 3) as nat);
        lemma_id_after_step(n, (s + 4) as nat);
        lemma_id_after_step(n, (s + 5) as nat);
        lemma_id_after_step(n, (s + 6) as nat);
        lemma_id_after_step(n, (s + 7) as nat);
        lemma_id_after_step(n, (s + 8) as nat);
        lemma_id_after_step(n, (s + 9) as nat);
    }
    let mut lp = Loop::new(ids);
    let e1 = Edge::new(ids, v1.duplicate(), v2.duplicate());
    assert(e1@.coedges =~= Seq::<EntityId>::empty());
    let c1 = Coedge::new(ids, e1, Sense::Same);
    let ghost c1m = c1@;
    lp.add_coedge(c1);
    let e2 = Edge::new(ids, v2.duplicate(), v3.duplicate());
    assert(e2@.coedges =~= Seq::<EntityId>::empty());
    let c2 = Coedge::new(ids, e2, Sense::Same);
    let ghost c2m = c2@;
    lp.add_coedge(c2);
    let e3 = Edge::new(ids, v3.duplicate(), v4.duplicate());
    assert(e3@.coedges =~= Seq::<EntityId>::empty());
    let c3 = Coedge::new(ids, e3, Sense::Same);
    let ghost c3m = c3@;
    lp.add_coedge(c3);
    let e4 = Edge::new(ids, v4.duplicate(), v1.duplicate());
    assert(e4@.coedges =~= Seq::<EntityId>::empty());
    let c4 = Coedge::new(ids, e4, Sense::Same);
    let ghost c4m = c4@;
    lp.add_coedge(c4);
    let ghost lm = lp@;
    assert(lm.coedges =~= seq![c1m, c2m, c3m, c4m]);
    let mut f = Face::new(ids);
    f.add_loop(lp);
    assert(f@.loops =~= seq![lm]);
    f
}

fn make_cap(
    ids: &mut EntityIdGenerator,
    ring: &Vec<Vertex>,
    Ghost(n): Ghost<u64>,
    Ghost(b): Ghost<int>,
) -> (f: Face)
    requires
        b >= 0,
        old(ids).next_value() == id_after(n, b as nat),
    ensures
        f@ == cap_face(n, b, vertex_models(ring@)),
        final(ids).next_value() == id_after(n, (b + 2 + 2 * ring@.len()) as nat),
{
    let ghost vs = vertex_models(ring@);
    let k = ring.len();
    proof {
        lemma_id_after_step(n, b as nat);
    }
    let mut lp = Loop::new(ids);
    let ghost want = Seq::new(k as nat, |j: int| cap_coedge(n, b, vs, j));
    assert(lp@.coedges =~= want.take(0));
    let mut j: usize = 0;
    while j < k
        invariant
            j <= k,
            k == ring@.len(),
            vs == vertex_models(ring@),
            want == Seq::new(k as nat, |j: int| cap_coedge(n, b, vs, j)),
            b >= 0,
            lp@.id == EntityId(id_after(n, b as nat)),
            lp@.coedges == want.take(j as int),
            ids.next_value() == id_after(n, (b + 1 + 2 * j) as nat),
        decreases k - j,
    {
        proof {
            lemma_id_after_step(n, (b + 1 + 2 * j) as nat);
            lemma_id_after_step(n, (b + 2 + 2 * j) as nat);
        }
        let next = if j + 1 == k { 0 } else { j + 1 };
        assert(vs[(j + 1) % (k as int)] == vs[next as int]) by {
            assert((j as int + 1) % (k as int) == next as int) by (nonlinear_arith)
                requires j < k, next == (if j + 1 == k { 0 } else { j + 1 });
        }
        let e = Edge::new(ids, ring[j].duplicate(), ring[next].duplicate());
        assert(e@.coedges =~= Seq::<EntityId>::empty());
        let c = Coedge::new(ids, e, Sense::Same);
        assert(c@ == want[j as int]);
        lp.add_coedge(c);
        assert(want.take(j + 1) =~= want.take(j as int).push(want[j as int]));
        j = j + 1;
    }
    assert(want.take(k as int) =~= want);
    let ghost lm = lp@;
    let mut f = Face::new(ids);
    f.add_loop(lp);
    assert(f@.loops =~= seq![lm]);
    f
}

/// The positions of each ring of a revolution.
pub open spec fn ring_positions(rings: Seq<Vec<PointBits>>) -> Seq<Seq<PointBits>> {
    rings.map_values(|v: Vec<PointBits>| v@)
}

/// The models of a list of vertices.
pub open spec fn vertex_models(v: Seq<Vertex>) -> Seq<VertexModel> {
    v.map_values(|x: Vertex| x@)
}

fn coedge_touches_exec(c: &Coedge, id: EntityId) -> (b: bool)
    ensures
        b == coedge_touches(c@, id),
{
    c.start_vertex().id() == id || c.end_vertex().id() == id
}

fn loop_touches_exec(l: &Loop, id: EntityId) -> (b: bool)
    ensures
        b == loop_touches(l@, id),
{
    let cs = l.coedges();
    let ghost cm = cs@.map_values(|c: Coedge| c@);
    let mut k: usize = 0;
    while k < cs.len()
        invariant
            k <= cs@.len(),
            cm == cs@.map_values(|c: Coedge| c@),
            cm == l@.coedges,
            forall|j: int| 0 <= j < k ==> !coedge_touches(#[trigger] cm[j], id),
        decreases cs.len() - k,
    {
        if coedge_touches_exec(&cs[k], id) {
            assert(coedge_touches(cm[k as int], id));
            return true;
        }
        k = k + 1;
    }
    false
}

fn loop_uses_edge_exec(l: &Loop, id: EntityId) -> (b: bool)
    ensures
        b == loop_uses_edge(l@, id),
{
    let cs = l.coedges();
    let ghost cm = cs@.map_values(|c: Coedge| c@);
    let mut k: usize = 0;
    while k < cs.len()
        invariant
            k <= cs@.len(),
            cm == cs@.map_values(|c: Coedge| c@),
            cm == l@.coedges,
            forall|j: int| 0 <= j < k ==> (#[trigger] cm[j]).edge.id != id,
        decreases cs.len() - k,
    {
        if cs[k].edge().id() == id {
            assert(cm[k as int].edge.id == id);
            return true;
        }
        k = k + 1;
    }
    false
}

/// Copies of the loops of `ls` that do not use the edge `id`, appended to `out`.
fn push_loops_without_edge(out: &mut Face, ls: &[Loop], id: EntityId)
    ensures
        final(out)@.loops == old(out)@.loops + loops_without_edge(ls@.map_values(|l: Loop| l@), id),
        final(out)@.id == old(out)@.id,
        final(out)@.orientation == old(out)@.orientation,
{
    let ghost lm = ls@.map_values(|l: Loop| l@);
    let ghost base = out@.loops;
    let mut i: usize = 0;
    assert(lm.take(0) =~= Seq::<LoopModel>::empty());
    assert(base + Seq::<LoopModel>::empty() =~= base);
    while i < ls.len()
        invariant
            i <= ls@.len(),
            lm == ls@.map_values(|l: Loop| l@),
            out@.loops == base + loops_without_edge(lm.take(i as int), id),
            out@.id == old(out)@.id,
            out@.orientation == old(out)@.orientation,
        decreases ls.len() - i,
    {
        assert(lm.take(i + 1).drop_last() =~= lm.take(i as int));
        assert(lm.take(i + 1).last() == ls@[i as int]@);
        if !loop_uses_edge_exec(&ls[i], id) {
            let ghost before = out@.loops;
            out.add_loop(ls[i].duplicate());
            assert(out@.loops =~= before.push(ls@[i as int]@));
        }
        i = i + 1;
    }
    assert(lm.take(lm.len() as int) =~= lm);
}

/// Advanced Euler operations for solid modeling.
pub struct EulerAdvanced;

impl EulerAdvanced {
    /// Extrude a face to create a solid, given the position of the top
    /// vertex above each vertex of the face's outer loop.
    ///
    /// A new body and shell are made first. The face must have an outer
    /// loop with at least three coedges. The shell gets, in order: a bottom
    /// face copying the outer loop, a top face whose loop joins new top
    /// vertices at the given positions, and one side face per profile edge.
    #[verifier::rlimit(40)]
    pub fn extrude_face(ids: &mut EntityIdGenerator, profile: &Face, top_positions: &[PointBits]) -> (r: TopoResult<Body>)
        requires
            profile@.loops.len() > 0 ==> top_positions@.len() == profile@.loops[0].coedges.len(),
        ensures
            profile@.loops.len() == 0 ==> (r matches Err(TopologyError::InvalidReference(m))
                && m@ == "Face has no outer loop"@ && final(ids).next_value() == id_after(old(ids).next_value(), 2)),
            profile@.loops.len() > 0 && profile@.loops[0].coedges.len() < 3 ==> (r matches Err(TopologyError::InvalidReference(m))
                && m@ == "Profile must have at least 3 vertices"@ && final(ids).next_value() == id_after(old(ids).next_value(), 2)),
            profile@.loops.len() > 0 && profile@.loops[0].coedges.len() >= 3 ==> (r matches Ok(b)
                && b@ == extrusion(old(ids).next_value(), profile@.loops[0], top_positions@)
                && final(ids).next_value() == id_after(old(ids).next_value(), (6 + 13 * profile@.loops[0].coedges.len()) as nat)),
    {
        let ghost n = ids.next_value();
        proof {
            lemma_id_after_step(n, 0);
            lemma_id_after_step(n, 1);
        }
        let mut body = Body::new(ids);
        let mut shell = Shell::new(ids);
        let outer = match profile.outer_loop() {
            Some(l) => l,
            None => {
                return Err(TopologyError::InvalidReference(string_from_str("Face has no outer loop")));
            },
        };
        let cs = outer.coedges();
        let ghost lm = outer@;
        let ghost cm = cs@.map_values(|c: Coedge| c@);
        assert(cm == lm.coedges);
        let k = cs.len();
        if k < 3 {
            return Err(TopologyError::InvalidReference(string_from_str("Profile must have at least 3 vertices")));
        }
        let ghost tops = top_positions@;
        // the bottom face copies the profile loop
        proof {
            lemma_id_after_step(n, 2);
            lemma_id_after_step(n, 3);
        }
        let mut bottom = Face::new(ids);
        let mut bottom_loop = Loop::new(ids);
        let mut i: usize = 0;
        while i < k
            invariant
                i <= k,
                k == cs@.len(),
                cm == cs@.map_values(|c: Coedge| c@),
                bottom_loop@.id == EntityId(id_after(n, 3)),
                bottom_loop@.coedges == cm.take(i as int),
            decreases k - i,
        {
            bottom_loop.add_coedge(cs[i].duplicate());
            assert(cm.take(i + 1) =~= cm.take(i as int).push(cm[i as int]));
            i = i + 1;
        }
        assert(cm.take(k as int) =~= cm);
        bottom.add_loop(bottom_loop);
        let ghost bottom_m = bottom@;
        assert(bottom_m.loops =~= seq![new_loop_model(id_after(n, 3), lm.coedges)]);
        shell.add_face(bottom);
        // the profile's vertices
        let mut profile_vertices: Vec<Vertex> = Vec::new();
        let mut i: usize = 0;
        while i < k
            invariant
                i <= k,
                k == cs@.len(),
                k >= 3,
                cm == cs@.map_values(|c: Coedge| c@),
                cm == lm.coedges,
                profile_vertices@.len() == i,
                forall|j: int| 0 <= j < i ==> (#[trigger] profile_vertices@[j])@ == profile_vertex(lm, j),
            decreases k - i,
        {
            assert((i as int) % (k as int) == i as int) by (nonlinear_arith) requires i < k;
            profile_vertices.push(cs[i].start_vertex().duplicate());
            i = i + 1;
        }
        // the top vertices
        let mut top_vertices: Vec<Vertex> = Vec::new();
        let mut i: usize = 0;
        while i < k
            invariant
                i <= k,
                k >= 3,
                tops == top_positions@,
                k == tops.len(),
                top_vertices@.len() == i,
                forall|j: int| 0 <= j < i ==> (#[trigger] top_vertices@[j])@ == top_vertex(n, tops, j),
                ids.next_value() == id_after(n, (4 + i) as nat),
            decreases k - i,
        {
            proof {
                lemma_id_after_step(n, (4 + i) as nat);
            }
            assert((i as int) % (k as int) == i as int) by (nonlinear_arith) requires i < k;
            let v = Vertex::new(ids, top_positions[i]);
            assert(v@.edges =~= Seq::<EntityId>::empty());
            top_vertices.push(v);
            i = i + 1;
        }
        // the top face
        proof {
            lemma_id_after_step(n, (4 + k) as nat);
        }
        let mut top_loop = Loop::new(ids);
        let ghost want_top = Seq::new(k as nat, |i: int| top_coedge(n, tops, k as int, i));
        let mut i: usize = 0;
        assert(top_loop@.coedges =~= want_top.take(0));
        while i < k
            invariant
                i <= k,
                k >= 3,
                k == tops.len(),
                top_vertices@.len() == k,
                forall|j: int| 0 <= j < k ==> (#[trigger] top_vertices@[j])@ == top_vertex(n, tops, j),
                want_top == Seq::new(k as nat, |i: int| top_coedge(n, tops, k as int, i)),
                top_loop@.id == EntityId(id_after(n, (4 + k) as nat)),
                top_loop@.coedges == want_top.take(i as int),
                ids.next_value() == id_after(n, (5 + k + 2 * i) as nat),
            decreases k - i,
        {
            proof {
                lemma_id_after_step(n, (5 + k + 2 * i) as nat);
                lemma_id_after_step(n, (6 + k + 2 * i) as nat);
            }
            let next = if i + 1 == k { 0 } else { i + 1 };
            assert(top_vertex(n, tops, i + 1) == top_vertex(n, tops, next as int)) by {
                assert((i as int + 1) % (k as int) == next as int % (k as int)) by (nonlinear_arith)
                    requires i < k, next == (if i + 1 == k { 0 } else { i + 1 });
            }
            let edge = Edge::new(ids, top_vertices[i].duplicate(), top_vertices[next].duplicate());
            assert(edge@.coedges =~= Seq::<EntityId>::empty());
            let coedge = Coedge::new(ids, edge, Sense::Same);
            assert(coedge@ == want_top[i as int]);
            top_loop.add_coedge(coedge);
            assert(want_top.take(i + 1) =~= want_top.take(i as int).push(want_top[i as int]));
            i = i + 1;
        }
        assert(want_top.take(k as int) =~= want_top);
        proof {
            lemma_id_after_step(n, (5 + 3 * k) as nat);
        }
        let mut top = Face::new(ids);
        top.add_loop(top_loop);
        let ghost top_m = top@;
        shell.add_face(top);
        let ghost head = seq![bottom_m, top_m];
        assert(shell@.faces =~= head + Seq::new(0, |j: int| side_face(n, lm, tops, j)));
        // the side faces
        let mut i: usize = 0;
        while i < k
            invariant
                i <= k,
                k >= 3,
                k == tops.len(),
                k == lm.coedges.len(),
                profile_vertices@.len() == k,
                forall|j: int| 0 <= j < k ==> (#[trigger] profile_vertices@[j])@ == profile_vertex(lm, j),
                top_vertices@.len() == k,
                forall|j: int| 0 <= j < k ==> (#[trigger] top_vertices@[j])@ == top_vertex(n, tops, j),
                shell@.id == EntityId(id_after(n, 1)),
                shell@.is_outer,
                shell@.faces == head + Seq::new(i as nat, |j: int| side_face(n, lm, tops, j)),
                ids.next_value() == id_after(n, (6 + 3 * k + 10 * i) as nat),
            decreases k - i,
        {
            let ghost s = 6 + 3 * k + 10 * i;
            proof {
                lemma_id_after_step(n, s as nat);
                lemma_id_after_step(n, (s + 1) as nat);
                lemma_id_after_step(n, (s + 2) as nat);
                lemma_id_after_step(n, (s + 3) as nat);
                lemma_id_after_step(n, (s + 4) as nat);
                lemma_id_after_step(n, (s + 5) as nat);
                lemma_id_after_step(n, (s + 6) as nat);
                lemma_id_after_step(n, (s + 7) as nat);
                lemma_id_after_step(n, (s + 8) as nat);
                lemma_id_after_step(n, (s + 9) as nat);
            }
            let next = if i + 1 == k { 0 } else { i + 1 };
            assert(top_vertex(n, tops, i + 1) == top_vertex(n, tops, next as int)
                && profile_vertex(lm, i + 1) == profile_vertex(lm, next as int)) by {
                assert((i as int + 1) % (k as int) == next as int % (k as int)) by (nonlinear_arith)
                    requires i < k, next == (if i + 1 == k { 0 } else { i + 1 });
            }
            let b1 = &profile_vertices[i];
            let b2 = &profile_vertices[next];
            let t1 = &top_vertices[i];
            let t2 = &top_vertices[next];
            assert(b1@ == profile_vertex(lm, i as int) && b2@ == profile_vertex(lm, i + 1));
            assert(t1@ == top_vertex(n, tops, i as int) && t2@ == top_vertex(n, tops, i + 1));
            let mut side_loop = Loop::new(ids);
            let e_bottom = Edge::new(ids, b1.duplicate(), b2.duplicate());
            assert(e_bottom@.coedges =~= Seq::<EntityId>::empty());
            let c1 = Coedge::new(ids, e_bottom, Sense::Same);
            let ghost c1m = c1@;
            side_loop.add_coedge(c1);
            let e_right = Edge::new(ids, b2.duplicate(), t2.duplicate());
            assert(e_right@.coedges =~= Seq::<EntityId>::empty());
            let c2 = Coedge::new(ids, e_right, Sense::Same);
            let ghost c2m = c2@;
            side_loop.add_coedge(c2);
            let e_top = Edge::new(ids, t2.duplicate(), t1.duplicate());
            assert(e_top@.coedges =~= Seq::<EntityId>::empty());
            let c3 = Coedge::new(ids, e_top, Sense::Same);
            let ghost c3m = c3@;
            side_loop.add_coedge(c3);
            let e_left = Edge::new(ids, t1.duplicate(), b1.duplicate());
            assert(e_left@.coedges =~= Seq::<EntityId>::empty());
            let c4 = Coedge::new(ids, e_left, Sense::Same);
            let ghost c4m = c4@;
            side_loop.add_coedge(c4);
            let ghost slm = side_loop@;
            assert(slm.coedges =~= seq![c1m, c2m, c3m, c4m]);
            let mut side = Face::new(ids);
            side.add_loop(side_loop);
            assert(side@.loops =~= seq![slm]);
            assert(side@ == side_face(n, lm, tops, i as int));
            let ghost before = shell@.faces;
            shell.add_face(side);
            assert(shell@.faces =~= head + Seq::new((i + 1) as nat, |j: int| side_face(n, lm, tops, j)));
            i = i + 1;
        }
        body.add_shell(shell);
        assert(body@ =~~= extrusion(n, lm, tops));
        Ok(body)
    }

    /// Revolve a face about an axis to make a solid, given the positions of
    /// the profile's outer-loop vertices at each step of the angle (one ring
    /// per step, the first at angle zero) and whether the revolution stops
    /// short of a full turn, so that it needs end caps.
    ///
    /// A new body and shell are made first; the face must have an outer
    /// loop. Then come the vertices of every ring, one quad face per pair of
    /// consecutive rings and profile edge (ring `i` vertex `j`, its next
    /// vertex, the next vertex of ring `i + 1`, vertex `j` of ring `i + 1`),
    /// and, when asked, a cap through the first ring and one through the
    /// last.
    #[verifier::rlimit(60)]
    pub fn revolve_face(ids: &mut EntityIdGenerator, profile: &Face, rings: &[Vec<PointBits>], with_caps: bool) -> (r: TopoResult<Body>)
        requires
            profile@.loops.len() > 0 ==> rings@.len() >= 1 && forall|i: int|
                0 <= i < rings@.len() ==> (#[trigger] rings@[i])@.len() == profile@.loops[0].coedges.len(),
        ensures
            profile@.loops.len() == 0 ==> (r matches Err(TopologyError::InvalidReference(m))
                && m@ == "Face has no outer loop"@ && final(ids).next_value() == id_after(old(ids).next_value(), 2)),
            profile@.loops.len() > 0 ==> (r matches Ok(b)
                && b@ == revolution(old(ids).next_value(), ring_positions(rings@), profile@.loops[0].coedges.len() as int, with_caps)
                && final(ids).next_value() == id_after(old(ids).next_value(), revolution_ids(
                    ring_positions(rings@),
                    profile@.loops[0].coedges.len() as int,
                    with_caps,
                ) as nat)),
    {
        let ghost n = ids.next_value();
        proof {
            lemma_id_after_step(n, 0);
            lemma_id_after_step(n, 1);
        }
        let mut body = Body::new(ids);
        let mut shell = Shell::new(ids);
        let outer = match profile.outer_loop() {
            Some(l) => l,
            None => {
                return Err(TopologyError::InvalidReference(string_from_str("Face has no outer loop")));
            },
        };
        let k = outer.coedges().len();
        let r = rings.len();
        let ghost rs = ring_positions(rings@);
        let ghost kk = k as int;
        assert(kk == profile@.loops[0].coedges.len());
        assert forall|a: int| 0 <= a < rs.len() implies (#[trigger] rs[a]).len() == kk by {
            assert(rs[a] == rings@[a]@);
        }
        // the vertices, ring after ring
        let mut verts: Vec<Vec<Vertex>> = Vec::new();
        let ghost mut c: int = 0;
        let mut i: usize = 0;
        while i < r
            invariant
                i <= r,
                r == rs.len(),
                r == rings@.len(),
                rs == ring_positions(rings@),
                kk == k,
                forall|a: int| 0 <= a < rs.len() ==> (#[trigger] rs[a]).len() == kk,
                c == i * kk,
                verts@.len() == i,
                forall|a: int| 0 <= a < i ==> (#[trigger] verts@[a])@.len() == kk,
                forall|a: int, b: int|
                    0 <= a < i && 0 <= b < kk ==> (#[trigger] verts@[a]@[b])@ == ring_vertex(n, rs, kk, a, b),
                ids.next_value() == id_after(n, (2 + c) as nat),
            decreases r - i,
        {
            assert(rs[i as int] == rings@[i as int]@);
            let mut row: Vec<Vertex> = Vec::new();
            let mut j: usize = 0;
            while j < k
                invariant
                    i < r,
                    j <= k,
                    kk == k,
                    r == rs.len(),
                    r == rings@.len(),
                    rs[i as int] == rings@[i as int]@,
                    rs[i as int].len() == kk,
                    c == i * kk,
                    row@.len() == j,
                    forall|b: int| 0 <= b < j ==> (#[trigger] row@[b])@ == ring_vertex(n, rs, kk, i as int, b),
                    ids.next_value() == id_after(n, (2 + c + j) as nat),
                decreases k - j,
            {
                proof {
                    lemma_id_after_step(n, (2 + c + j) as nat);
                }
                assert((j as int) % kk == j as int) by (nonlinear_arith) requires 0 <= j < kk;
                let v = Vertex::new(ids, rings[i][j]);
                assert(v@.edges =~= Seq::<EntityId>::empty());
                row.push(v);
                j = j + 1;
            }
            verts.push(row);
            proof {
                assert((i as int + 1) * kk == i * kk + kk) by (nonlinear_arith);
                c = c + kk;
            }
            i = i + 1;
        }
        // the quads between consecutive rings
        let ghost mut f: int = 0;
        assert(shell@.faces =~= Seq::new(0, |g: int| revolution_quad(n, rs, kk, g)));
        let mut i: usize = 0;
        while i + 1 < r
            invariant
                1 <= r,
                i + 1 <= r,
                r == rs.len(),
                kk == k,
                forall|a: int| 0 <= a < rs.len() ==> (#[trigger] rs[a]).len() == kk,
                f == i * kk,
                verts@.len() == r,
                forall|a: int| 0 <= a < r ==> (#[trigger] verts@[a])@.len() == kk,
                forall|a: int, b: int|
                    0 <= a < r && 0 <= b < kk ==> (#[trigger] verts@[a]@[b])@ == ring_vertex(n, rs, kk, a, b),
                shell@.id == EntityId(id_after(n, 1)),
                shell@.is_outer,
                shell@.faces == Seq::new(f as nat, |g: int| revolution_quad(n, rs, kk, g)),
                ids.next_value() == id_after(n, (2 + r * kk + 10 * f) as nat),
            decreases r - i,
        {
            let mut j: usize = 0;
            while j < k
                invariant
                    i + 1 < r,
                    j <= k,
                    r == rs.len(),
                    kk == k,
                    f == i * kk + j,
                    verts@.len() == r,
                    forall|a: int| 0 <= a < r ==> (#[trigger] verts@[a])@.len() == kk,
                    forall|a: int, b: int|
                        0 <= a < r && 0 <= b < kk ==> (#[trigger] verts@[a]@[b])@ == ring_vertex(n, rs, kk, a, b),
                    shell@.id == EntityId(id_after(n, 1)),
                    shell@.is_outer,
                    shell@.faces == Seq::new(f as nat, |g: int| revolution_quad(n, rs, kk, g)),
                    ids.next_value() == id_after(n, (2 + r * kk + 10 * f) as nat),
                decreases k - j,
            {
                let next = if j + 1 == k { 0 } else { j + 1 };
                proof {
                    lemma_fundamental_div_mod_converse(f, kk, i as int, j as int);
                    assert((j as int + 1) % kk == next as int && (next as int) % kk == next as int) by (nonlinear_arith)
                        requires j < kk, next == (if j + 1 == kk { 0 } else { j + 1 });
                    assert(0 <= r * kk) by (nonlinear_arith) requires r >= 0, kk >= 0;
                }
                let ghost s = 2 + r * kk + 10 * f;
                assert(verts@[i as int]@[next as int]@ == ring_vertex(n, rs, kk, i as int, j + 1));
                assert(verts@[i + 1]@[next as int]@ == ring_vertex(n, rs, kk, i + 1, j + 1));
                assert(verts@[i as int]@[j as int]@ == ring_vertex(n, rs, kk, i as int, j as int));
                assert(verts@[i + 1]@[j as int]@ == ring_vertex(n, rs, kk, i + 1, j as int));
                let q = make_quad(ids, &verts[i][j], &verts[i][next], &verts[i + 1][next], &verts[i + 1][j], Ghost(n), Ghost(s));
                assert(q@ == revolution_quad(n, rs, kk, f));
                shell.add_face(q);
                assert(shell@.faces =~= Seq::new((f + 1) as nat, |g: int| revolution_quad(n, rs, kk, g)));
                proof {
                    f = f + 1;
                }
                j = j + 1;
            }
            proof {
                assert((i as int + 1) * kk == i * kk + kk) by (nonlinear_arith);
            }
            i = i + 1;
        }
        let ghost quads = shell@.faces;
        assert(f == (rs.len() - 1) * kk);
        let ghost c0 = 2 + r * kk + 10 * f;
        assert(c0 == revolution_caps_base(rs, kk));
        assert(0 <= r * kk) by (nonlinear_arith) requires r >= 0, kk >= 0;
        if with_caps {
            assert(vertex_models(verts@[0]@) =~= ring_vertices(n, rs, kk, 0));
            let first = make_cap(ids, &verts[0], Ghost(n), Ghost(c0));
            shell.add_face(first);
            assert(vertex_models(verts@[r - 1]@) =~= ring_vertices(n, rs, kk, r - 1));
            let last = make_cap(ids, &verts[r - 1], Ghost(n), Ghost(c0 + 2 + 2 * kk));
            shell.add_face(last);
            assert(shell@.faces =~= quads + seq![
                cap_face(n, c0, ring_vertices(n, rs, kk, 0)),
                cap_face(n, c0 + 2 + 2 * kk, ring_vertices(n, rs, kk, rs.len() - 1)),
            ]);
        } else {
            assert(shell@.faces =~= quads + Seq::<FaceModel>::empty());
        }
        assert(quads =~= Seq::new(((rs.len() - 1) * kk) as nat, |g: int| revolution_quad(n, rs, kk, g)));
        body.add_shell(shell);
        assert(body@ =~~= revolution(n, rs, kk, with_caps));
        Ok(body)
    }

    /// Split a face by adding an edge between two of its vertices.
    ///
    /// The edge from `v1` to `v2` is made first (one identifier). When no
    /// loop of the face touches both vertices, the result is an error;
    /// otherwise a new face is made whose single loop holds a coedge of that
    /// edge (identifiers for the face, the loop and the coedge), and the
    /// edge and the new face are returned. The given face is left as it is.
    pub fn split_face_by_edge(ids: &mut EntityIdGenerator, face: &mut Face, v1: &Vertex, v2: &Vertex) -> (r: TopoResult<(Edge, Face)>)
        ensures
            !some_loop_touches_both(old(face)@.loops, v1@.id, v2@.id) ==> (r matches Err(TopologyError::InvalidReference(m))
                && m@ == "Vertices not found on the same loop"@
                && final(ids).next_value() == id_after(old(ids).next_value(), 1)),
            some_loop_touches_both(old(face)@.loops, v1@.id, v2@.id) ==> (r matches Ok((e, f))
                && e@ == new_edge_model(old(ids).next_value(), v1@, v2@)
                && f@ == new_face_model(
                id_after(old(ids).next_value(), 1),
                seq![new_loop_model(id_after(old(ids).next_value(), 2), seq![same_coedge_model(id_after(old(ids).next_value(), 3), e@)])],
            ) && final(ids).next_value() == id_after(old(ids).next_value(), 4)),
            r is Ok ==> exists|i: int|
                0 <= i < old(face)@.loops.len() && loop_touches(#[trigger] old(face)@.loops[i], v1@.id) && loop_touches(
                    old(face)@.loops[i],
                    v2@.id,
                ),
            (exists|i: int|
                0 <= i < old(face)@.loops.len() && loop_touches(#[trigger] old(face)@.loops[i], v1@.id) && loop_touches(
                    old(face)@.loops[i],
                    v2@.id,
                )) ==> r is Ok,
            (forall|i: int| 0 <= i < old(face)@.loops.len() ==> !loop_touches(#[trigger] old(face)@.loops[i], v1@.id))
                ==> r is Err,
            (forall|i: int| 0 <= i < old(face)@.loops.len() ==> !loop_touches(#[trigger] old(face)@.loops[i], v2@.id))
                ==> r is Err,
            final(face)@ == old(face)@,
    {
        let ghost n = ids.next_value();
        proof {
            lemma_split_needs_a_loop_through_both(face@.loops, v1@.id, v2@.id);
            lemma_id_after_step(n, 0);
            lemma_id_after_step(n, 1);
            lemma_id_after_step(n, 2);
            lemma_id_after_step(n, 3);
        }
        let split_edge = Edge::new(ids, v1.duplicate(), v2.duplicate());
        assert(split_edge@.coedges =~= Seq::<EntityId>::empty());
        let ls = face.loops();
        let ghost lm = ls@.map_values(|l: Loop| l@);
        let mut found = false;
        let mut i: usize = 0;
        while i < ls.len() && !found
            invariant
                i <= ls@.len(),
                lm == ls@.map_values(|l: Loop| l@),
                lm == face@.loops,
                found ==> i < lm.len() && loop_touches(lm[i as int], v1@.id) && loop_touches(lm[i as int], v2@.id),
                !found ==> forall|j: int| 0 <= j < i ==> !(loop_touches(#[trigger] lm[j], v1@.id) && loop_touches(lm[j], v2@.id)),
            decreases ls.len() - i + (if found { 0int } else { 1int }),
        {
            if loop_touches_exec(&ls[i], v1.id()) && loop_touches_exec(&ls[i], v2.id()) {
                found = true;
            } else {
                i = i + 1;
            }
        }
        if !found {
            return Err(TopologyError::InvalidReference(string_from_str("Vertices not found on the same loop")));
        }
        let mut new_face = Face::new(ids);
        let mut new_loop = Loop::new(ids);
        new_loop.add_coedge(Coedge::new(ids, split_edge.duplicate(), Sense::Same));
        new_face.add_loop(new_loop);
        assert(new_face@.loops =~= seq![new_loop_model(id_after(n, 2), seq![same_coedge_model(id_after(n, 3), split_edge@)])]);
        Ok((split_edge, new_face))
    }

    /// Merge two faces that share an edge.
    ///
    /// The merged face is new (one identifier) and holds, in order, the
    /// loops of `face1` and then those of `face2` that do not use the shared
    /// edge.
    pub fn merge_faces(ids: &mut EntityIdGenerator, face1: &Face, face2: &Face, shared_edge: &Edge) -> (r: TopoResult<Face>)
        ensures
            r matches Ok(f) && f@ == new_face_model(
                old(ids).next_value(),
                loops_without_edge(face1@.loops, shared_edge@.id) + loops_without_edge(face2@.loops, shared_edge@.id),
            ),
            final(ids).next_value() == id_after(old(ids).next_value(), 1),
    {
        proof {
            lemma_id_after_step(ids.next_value(), 0);
        }
        let mut merged = Face::new(ids);
        let sid = shared_edge.id();
        push_loops_without_edge(&mut merged, face1.loops(), sid);
        push_loops_without_edge(&mut merged, face2.loops(), sid);
        assert(merged@.loops =~= loops_without_edge(face1@.loops, shared_edge@.id) + loops_without_edge(face2@.loops, shared_edge@.id));
        Ok(merged)
    }

    /// Create a solid body from a set of faces: a new body (first
    /// identifier) holding one new outer shell (second identifier) that
    /// holds copies of the faces, in order.
    pub fn create_solid_from_faces(ids: &mut EntityIdGenerator, faces: &[Face]) -> (r: TopoResult<Body>)
        ensures
            r matches Ok(b) && b@ == (BodyModel {
                id: EntityId(old(ids).next_value()),
                shells: seq![ShellModel {
                    id: EntityId(id_after(old(ids).next_value(), 1)),
                    faces: faces@.map_values(|f: Face| f@),
                    is_outer: true,
                }],
            }),
            final(ids).next_value() == id_after(old(ids).next_value(), 2),
    {
        let ghost n = ids.next_value();
        proof {
            lemma_id_after_step(n, 0);
            lemma_id_after_step(n, 1);
        }
        let mut body = Body::new(ids);
        let mut shell = Shell::new(ids);
        let ghost fm = faces@.map_values(|f: Face| f@);
        let mut i: usize = 0;
        assert(shell@.faces =~= fm.take(0));
        while i < faces.len()
            invariant
                i <= faces@.len(),
                fm == faces@.map_values(|f: Face| f@),
                shell@.faces == fm.take(i as int),
                shell@.id == EntityId(id_after(n, 1)),
                shell@.is_outer,
            decreases faces.len() - i,
        {
            shell.add_face(faces[i].duplicate());
            assert(fm.take(i + 1) =~= fm.take(i as int).push(fm[i as int]));
            i = i + 1;
        }
        assert(fm.take(fm.len() as int) =~= fm);
        body.add_shell(shell);
        assert(body@.shells =~= seq![ShellModel { id: EntityId(id_after(n, 1)), faces: fm, is_outer: true }]);
        Ok(body)
    }

    /// Add an inner loop (hole) through the given vertices to a face.
    ///
    /// Fails with fewer than three vertices. Otherwise a new loop (first
    /// identifier) gets, for each vertex in turn, a new edge to the next
    /// vertex (the first after the last) and a coedge of it; the loop is
    /// added to the face and returned.
    pub fn add_inner_loop(ids: &mut EntityIdGenerator, face: &mut Face, vertices: &[Vertex]) -> (r: TopoResult<Loop>)
        ensures
            vertices@.len() < 3 ==> (r matches Err(TopologyError::InvalidReference(m))
                && m@ == "Inner loop must have at least 3 vertices"@
                && final(ids).next_value() == old(ids).next_value() && final(face)@ == old(face)@),
            vertices@.len() >= 3 ==> (r matches Ok(l) && l@ == new_loop_model(
                old(ids).next_value(),
                Seq::new(vertices@.len(), |i: int| ring_coedge(old(ids).next_value(), vertex_models(vertices@), i)),
            ) && final(face)@ == (FaceModel { loops: old(face)@.loops.push(l@), ..old(face)@ })
                && final(ids).next_value() == id_after(old(ids).next_value(), (1 + 2 * vertices@.len()) as nat)),
    {
        let ghost n = ids.next_value();
        if vertices.len() < 3 {
            return Err(TopologyError::InvalidReference(string_from_str("Inner loop must have at least 3 vertices")));
        }
        proof {
            lemma_id_after_step(n, 0);
        }
        let ghost vm = vertex_models(vertices@);
        let ghost want = Seq::new(vertices@.len(), |i: int| ring_coedge(n, vm, i));
        let mut inner_loop = Loop::new(ids);
        let num = vertices.len();
        let mut i: usize = 0;
        assert(inner_loop@.coedges =~= want.take(0));
        while i < num
            invariant
                num == vertices@.len(),
                num >= 3,
                i <= num,
                vm == vertex_models(vertices@),
                want == Seq::new(vertices@.len(), |i: int| ring_coedge(n, vm, i)),
                inner_loop@.id == EntityId(n),
                inner_loop@.coedges == want.take(i as int),
                ids.next_value() == id_after(n, (1 + 2 * i) as nat),
            decreases num - i,
        {
            proof {
                lemma_id_after_step(n, (1 + 2 * i) as nat);
                lemma_id_after_step(n, (2 + 2 * i) as nat);
            }
            let next = if i + 1 == num { 0 } else { i + 1 };
            assert(next as int == (i as int + 1) % (num as int)) by (nonlinear_arith)
                requires
                    i < num,
                    next == (if i + 1 == num { 0 } else { i + 1 }),
            ;
            let edge = Edge::new(ids, vertices[i].duplicate(), vertices[next].duplicate());
            assert(edge@.coedges =~= Seq::<EntityId>::empty());
            let coedge = Coedge::new(ids, edge, Sense::Same);
            assert(coedge@ == want[i as int]);
            inner_loop.add_coedge(coedge);
            assert(want.take(i + 1) =~= want.take(i as int).push(want[i as int]));
            i = i + 1;
        }
        assert(want.take(num as int) =~= want);
        face.add_loop(inner_loop.duplicate());
        Ok(inner_loop)
    }
}

} // verus!
