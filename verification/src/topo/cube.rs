//! A cube as a closed manifold B-Rep: eight vertices, twelve edges shared
//! by the six faces, each face bounded by one loop of four coedges.
use vstd::prelude::*;
use crate::topo::entity::{EntityId, EntityIdGenerator, new_entity_id};
use crate::topo::body::{
    PointBits, Vertex, Edge, Coedge, Loop, Face, Shell, Body, VertexModel, EdgeModel, CoedgeModel,
    LoopModel, FaceModel, ShellModel, BodyModel, DEFAULT_TOLERANCE_BITS,
};
use crate::topo::body::{shells_faces, faces_loops, loops_coedges, has_edge_id, has_vertex_id};
use crate::topo::census::{
    lemma_distinct_edges, lemma_distinct_vertices, lemma_unique_ids_count, edge_id_values,
    vertex_id_values,
};
use crate::topo::validate::{
    validation_issues, counts_fit, edge_issues, face_issues, vertex_issues,
};
use crate::topo::{Orientation, Sense, TopoResult};
use vstd::set_lib::{set_int_range, lemma_int_range};

verus! {

// ---------------------------------------------------------------------------
// The cube's incidence tables
// ---------------------------------------------------------------------------
//
// Corners: 0..4 on the bottom (z = -half), 4..8 on the top, each face's
// corners counter-clockwise seen from outside:
//   bottom [0,1,2,3], top [4,7,6,5], back [0,4,5,1],
//   front [2,6,7,3], left [0,3,7,4], right [1,5,6,2].
// Edge k runs from `cube_edge_start(k)` to `cube_edge_end(k)`; side `j` of
// the faces (face j / 4, position j % 4) uses edge `cube_use_edge(j)`.
/// The corner where edge `k` starts.
pub open spec fn cube_edge_start(k: int) -> int {
    if k == 0 { 0 } else if k == 1 { 1 } else if k == 2 { 2 } else if k == 3 { 3 }
    else if k == 4 { 4 } else if k == 5 { 7 } else if k == 6 { 6 } else if k == 7 { 5 }
    else if k == 8 { 0 } else if k == 9 { 5 } else if k == 10 { 2 } else { 7 }
}

/// The corner where edge `k` ends.
pub open spec fn cube_edge_end(k: int) -> int {
    if k == 0 { 1 } else if k == 1 { 2 } else if k == 2 { 3 } else if k == 3 { 0 }
    else if k == 4 { 7 } else if k == 5 { 6 } else if k == 6 { 5 } else if k == 7 { 4 }
    else if k == 8 { 4 } else if k == 9 { 1 } else if k == 10 { 6 } else { 3 }
}

/// The edge used by side `j` of the faces.
pub open spec fn cube_use_edge(j: int) -> int {
    if j < 8 { j }
    else if j == 8 { 8 } else if j == 9 { 7 } else if j == 10 { 9 } else if j == 11 { 0 }
    else if j == 12 { 10 } else if j == 13 { 5 } else if j == 14 { 11 } else if j == 15 { 2 }
    else if j == 16 { 3 } else if j == 17 { 11 } else if j == 18 { 4 } else if j == 19 { 8 }
    else if j == 20 { 9 } else if j == 21 { 6 } else if j == 22 { 10 } else { 1 }
}

/// The sense in which side `j` of the faces runs along its edge.
pub open spec fn cube_use_sense(j: int) -> Sense {
    if j < 9 || j == 10 || j == 12 || j == 14 { Sense::Same } else { Sense::Opposite }
}

/// The side that uses edge `k` in its own direction.
pub open spec fn cube_same_use(k: int) -> int {
    if k < 9 { k } else if k == 9 { 10 } else if k == 10 { 12 } else { 14 }
}

/// The side that uses edge `k` against its direction.
pub open spec fn cube_opposite_use(k: int) -> int {
    if k == 0 { 11 } else if k == 1 { 23 } else if k == 2 { 15 } else if k == 3 { 16 }
    else if k == 4 { 18 } else if k == 5 { 13 } else if k == 6 { 21 } else if k == 7 { 9 }
    else if k == 8 { 19 } else if k == 9 { 20 } else if k == 10 { 22 } else { 17 }
}

/// The `t`-th of the three edges that meet at corner `v`.
pub open spec fn cube_vertex_edge(v: int, t: int) -> int {
    if v == 0 { if t == 0 { 0 } else if t == 1 { 3 } else { 8 } }
    else if v == 1 { if t == 0 { 0 } else if t == 1 { 1 } else { 9 } }
    else if v == 2 { if t == 0 { 1 } else if t == 1 { 2 } else { 10 } }
    else if v == 3 { if t == 0 { 2 } else if t == 1 { 3 } else { 11 } }
    else if v == 4 { if t == 0 { 4 } else if t == 1 { 7 } else { 8 } }
    else if v == 5 { if t == 0 { 6 } else if t == 1 { 7 } else { 9 } }
    else if v == 6 { if t == 0 { 5 } else if t == 1 { 6 } else { 10 } }
    else { if t == 0 { 4 } else if t == 1 { 5 } else { 11 } }
}

// ---------------------------------------------------------------------------
// The cube's model
// ---------------------------------------------------------------------------
//
// Identifiers, counted from the generator's first value: corners 0..8,
// edges 8..20, coedges 20..44, loops 44..50, faces 50..56, the shell 56 and
// the body 57.
/// The identifier numbered `k` from `first`.
pub open spec fn cube_id(first: u64, k: int) -> EntityId {
    EntityId((first + k) as u64)
}

/// Corner `v` of the cube.
pub open spec fn cube_vertex(first: u64, corners: [PointBits; 8], v: int) -> VertexModel {
    VertexModel {
        id: cube_id(first, v),
        position: corners@[v],
        tolerance: DEFAULT_TOLERANCE_BITS,
        edges: seq![
            cube_id(first, 8 + cube_vertex_edge(v, 0)),
            cube_id(first, 8 + cube_vertex_edge(v, 1)),
            cube_id(first, 8 + cube_vertex_edge(v, 2)),
        ],
    }
}

/// Edge `k` of the cube.
pub open spec fn cube_edge(first: u64, corners: [PointBits; 8], k: int) -> EdgeModel {
    EdgeModel {
        id: cube_id(first, 8 + k),
        start: cube_vertex(first, corners, cube_edge_start(k)),
        end: cube_vertex(first, corners, cube_edge_end(k)),
        tolerance: DEFAULT_TOLERANCE_BITS,
        coedges: seq![cube_id(first, 20 + cube_same_use(k)), cube_id(first, 20 + cube_opposite_use(k))],
    }
}

/// Side `j` of the faces, as a coedge.
pub open spec fn cube_coedge(first: u64, corners: [PointBits; 8], j: int) -> CoedgeModel {
    CoedgeModel {
        id: cube_id(first, 20 + j),
        edge: cube_edge(first, corners, cube_use_edge(j)),
        sense: cube_use_sense(j),
    }
}

/// The loop of face `f`.
pub open spec fn cube_loop(first: u64, corners: [PointBits; 8], f: int) -> LoopModel {
    LoopModel {
        id: cube_id(first, 44 + f),
        coedges: Seq::new(4, |i: int| cube_coedge(first, corners, 4 * f + i)),
    }
}

/// Face `f` of the cube.
pub open spec fn cube_face(first: u64, corners: [PointBits; 8], f: int) -> FaceModel {
    FaceModel {
        id: cube_id(first, 50 + f),
        loops: seq![cube_loop(first, corners, f)],
        orientation: Orientation::Forward,
    }
}

/// The cube whose identifiers are counted from `first`.
pub open spec fn cube_model(first: u64, corners: [PointBits; 8]) -> BodyModel {
    BodyModel {
        id: cube_id(first, 57),
        shells: seq![
            ShellModel {
                id: cube_id(first, 56),
                faces: Seq::new(6, |f: int| cube_face(first, corners, f)),
                is_outer: true,
            },
        ],
    }
}

// ---------------------------------------------------------------------------
// Building the cube
// ---------------------------------------------------------------------------
fn edge_start(k: usize) -> (r: usize)
    requires
        k < 12,
    ensures
        r == cube_edge_start(k as int),
        r < 8,
{
    match k {
        0 => 0, 1 => 1, 2 => 2, 3 => 3, 4 => 4, 5 => 7, 6 => 6, 7 => 5,
        8 => 0, 9 => 5, 10 => 2, _ => 7,
    }
}

fn edge_end(k: usize) -> (r: usize)
    requires
        k < 12,
    ensures
        r == cube_edge_end(k as int),
        r < 8,
{
    match k {
        0 => 1, 1 => 2, 2 => 3, 3 => 0, 4 => 7, 5 => 6, 6 => 5, 7 => 4,
        8 => 4, 9 => 1, 10 => 6, _ => 3,
    }
}

fn use_edge(j: usize) -> (r: usize)
    requires
        j < 24,
    ensures
        r == cube_use_edge(j as int),
        r < 12,
{
    if j < 8 {
        j
    } else {
        match j {
            8 => 8, 9 => 7, 10 => 9, 11 => 0, 12 => 10, 13 => 5, 14 => 11, 15 => 2,
            16 => 3, 17 => 11, 18 => 4, 19 => 8, 20 => 9, 21 => 6, 22 => 10, _ => 1,
        }
    }
}

fn use_sense(j: usize) -> (r: Sense)
    ensures
        r == cube_use_sense(j as int),
{
    if j < 9 || j == 10 || j == 12 || j == 14 {
        Sense::Same
    } else {
        Sense::Opposite
    }
}

fn same_use(k: usize) -> (r: usize)
    requires
        k < 12,
    ensures
        r == cube_same_use(k as int),
        r < 24,
{
    if k < 9 {
        k
    } else if k == 9 {
        10
    } else if k == 10 {
        12
    } else {
        14
    }
}

fn opposite_use(k: usize) -> (r: usize)
    requires
        k < 12,
    ensures
        r == cube_opposite_use(k as int),
        r < 24,
{
    match k {
        0 => 11, 1 => 23, 2 => 15, 3 => 16, 4 => 18, 5 => 13, 6 => 21, 7 => 9,
        8 => 19, 9 => 20, 10 => 22, _ => 17,
    }
}

fn vertex_edge(v: usize, t: usize) -> (r: usize)
    requires
        v < 8,
        t < 3,
    ensures
        r == cube_vertex_edge(v as int, t as int),
        r < 12,
{
    match v {
        0 => if t == 0 { 0 } else if t == 1 { 3 } else { 8 },
        1 => if t == 0 { 0 } else if t == 1 { 1 } else { 9 },
        2 => if t == 0 { 1 } else if t == 1 { 2 } else { 10 },
        3 => if t == 0 { 2 } else if t == 1 { 3 } else { 11 },
        4 => if t == 0 { 4 } else if t == 1 { 7 } else { 8 },
        5 => if t == 0 { 6 } else if t == 1 { 7 } else { 9 },
        6 => if t == 0 { 5 } else if t == 1 { 6 } else { 10 },
        _ => if t == 0 { 4 } else if t == 1 { 5 } else { 11 },
    }
}

/// Draws `n` identifiers, in order.
fn draw_ids(ids: &mut EntityIdGenerator, n: usize) -> (r: Vec<EntityId>)
    requires
        old(ids).next_value() + n <= u64::MAX,
    ensures
        r@.len() == n,
        forall|k: int| 0 <= k < n ==> #[trigger] r@[k] == cube_id(old(ids).next_value(), k),
        final(ids).next_value() == old(ids).next_value() + n,
{
    let ghost first = ids.next_value();
    let mut r: Vec<EntityId> = Vec::new();
    let mut i: usize = 0;
    while i < n
        invariant
            i <= n,
            first + n <= u64::MAX,
            ids.next_value() == first + i,
            r@.len() == i,
            forall|k: int| 0 <= k < i ==> #[trigger] r@[k] == cube_id(first, k),
        decreases n - i,
    {
        let id = new_entity_id(ids);
        r.push(id);
        i = i + 1;
    }
    r
}

/// Build a cube whose corners are the given points: corners 0..4 on the
/// bottom and 4..8 on the top, as the incidence tables above lay them out.
/// Each edge is shared by the two faces that meet along it, records both of
/// its coedges, and each corner records its three edges.
#[verifier::rlimit(40)]
pub fn build_cube(ids: &mut EntityIdGenerator, corners: [PointBits; 8]) -> (r: TopoResult<Body>)
    requires
        old(ids).next_value() + 58 <= u64::MAX,
    ensures
        r matches Ok(b) && b@ == cube_model(old(ids).next_value(), corners),
        r matches Ok(b) && b@.shells.len() == 1 && b@.faces().len() == 6 && b@.edges().len() == 12
            && b@.vertices().len() == 8,
        r matches Ok(b) && counts_fit(b@) && validation_issues(b@) == Seq::<Seq<char>>::empty(),
        final(ids).next_value() == old(ids).next_value() + 58,
{
    let ghost first = ids.next_value();
    let idv = draw_ids(ids, 58);
    // corners
    let mut verts: Vec<Vertex> = Vec::new();
    let mut v: usize = 0;
    while v < 8
        invariant
            v <= 8,
            idv@.len() == 58,
            forall|k: int| 0 <= k < 58 ==> #[trigger] idv@[k] == cube_id(first, k),
            verts@.len() == v,
            forall|t: int| 0 <= t < v ==> (#[trigger] verts@[t])@ == cube_vertex(first, corners, t),
        decreases 8 - v,
    {
        let e0 = idv[8 + vertex_edge(v, 0)];
        let e1 = idv[8 + vertex_edge(v, 1)];
        let e2 = idv[8 + vertex_edge(v, 2)];
        let es = vec![e0, e1, e2];
        let vx = Vertex::from_parts(idv[v], corners[v], es);
        assert(vx@.edges =~= cube_vertex(first, corners, v as int).edges);
        verts.push(vx);
        v = v + 1;
    }
    // edges
    let mut edges: Vec<Edge> = Vec::new();
    let mut k: usize = 0;
    while k < 12
        invariant
            k <= 12,
            idv@.len() == 58,
            forall|q: int| 0 <= q < 58 ==> #[trigger] idv@[q] == cube_id(first, q),
            verts@.len() == 8,
            forall|t: int| 0 <= t < 8 ==> (#[trigger] verts@[t])@ == cube_vertex(first, corners, t),
            edges@.len() == k,
            forall|t: int| 0 <= t < k ==> (#[trigger] edges@[t])@ == cube_edge(first, corners, t),
        decreases 12 - k,
    {
        let s = verts[edge_start(k)].duplicate();
        let e = verts[edge_end(k)].duplicate();
        let cs = vec![idv[20 + same_use(k)], idv[20 + opposite_use(k)]];
        let ed = Edge::from_parts(idv[8 + k], s, e, cs);
        assert(ed@.coedges =~= cube_edge(first, corners, k as int).coedges);
        assert(ed@ == cube_edge(first, corners, k as int));
        edges.push(ed);
        k = k + 1;
    }
    // faces, each with its loop of four coedges
    let mut faces: Vec<Face> = Vec::new();
    let mut f: usize = 0;
    while f < 6
        invariant
            f <= 6,
            idv@.len() == 58,
            forall|q: int| 0 <= q < 58 ==> #[trigger] idv@[q] == cube_id(first, q),
            edges@.len() == 12,
            forall|t: int| 0 <= t < 12 ==> (#[trigger] edges@[t])@ == cube_edge(first, corners, t),
            faces@.len() == f,
            forall|t: int| 0 <= t < f ==> (#[trigger] faces@[t])@ == cube_face(first, corners, t),
        decreases 6 - f,
    {
        let mut cs: Vec<Coedge> = Vec::new();
        let mut i: usize = 0;
        while i < 4
            invariant
                i <= 4,
                f < 6,
                idv@.len() == 58,
                forall|q: int| 0 <= q < 58 ==> #[trigger] idv@[q] == cube_id(first, q),
                edges@.len() == 12,
                forall|t: int| 0 <= t < 12 ==> (#[trigger] edges@[t])@ == cube_edge(first, corners, t),
                cs@.len() == i,
                forall|t: int| 0 <= t < i ==> (#[trigger] cs@[t])@ == cube_coedge(first, corners, 4 * f + t),
            decreases 4 - i,
        {
            let j = 4 * f + i;
            let c = Coedge::from_parts(idv[20 + j], edges[use_edge(j)].duplicate(), use_sense(j));
            cs.push(c);
            i = i + 1;
        }
        let lp = Loop::from_parts(idv[44 + f], cs);
        assert(lp@.coedges =~= cube_loop(first, corners, f as int).coedges);
        let fc = Face::from_parts(idv[50 + f], vec![lp]);
        assert(fc@.loops =~= cube_face(first, corners, f as int).loops);
        faces.push(fc);
        f = f + 1;
    }
    let shell = Shell::from_parts(idv[56], faces, true);
    assert(shell@.faces =~= Seq::new(6, |t: int| cube_face(first, corners, t)));
    let body = Body::from_parts(idv[57], vec![shell]);
    assert(body@.shells =~= cube_model(first, corners).shells);
    proof {
        lemma_cube_census(first, corners);
    }
    Ok(body)
}

} // verus!

verus! {

// ---------------------------------------------------------------------------
// What the cube holds
// ---------------------------------------------------------------------------
proof fn lemma_one_loop_each(fs: Seq<FaceModel>)
    requires
        forall|i: int| 0 <= i < fs.len() ==> (#[trigger] fs[i]).loops.len() == 1,
    ensures
        faces_loops(fs).len() == fs.len(),
        forall|i: int| 0 <= i < fs.len() ==> #[trigger] faces_loops(fs)[i] == fs[i].loops[0],
    decreases fs.len(),
{
    if fs.len() > 0 {
        let p = fs.drop_last();
        assert forall|i: int| 0 <= i < p.len() implies (#[trigger] p[i]).loops.len() == 1 by {
            assert(p[i] == fs[i]);
        }
        lemma_one_loop_each(p);
        assert forall|i: int| 0 <= i < fs.len() implies #[trigger] faces_loops(fs)[i] == fs[i].loops[0] by {
            if i < p.len() {
                assert(faces_loops(p)[i] == p[i].loops[0]);
            }
        }
    }
}

proof fn lemma_four_coedges_each(ls: Seq<LoopModel>)
    requires
        forall|i: int| 0 <= i < ls.len() ==> (#[trigger] ls[i]).coedges.len() == 4,
    ensures
        loops_coedges(ls).len() == 4 * ls.len(),
        forall|f: int, i: int|
            0 <= f < ls.len() && 0 <= i < 4 ==> #[trigger] loops_coedges(ls)[4 * f + i] == ls[f].coedges[i],
    decreases ls.len(),
{
    if ls.len() > 0 {
        let p = ls.drop_last();
        assert forall|i: int| 0 <= i < p.len() implies (#[trigger] p[i]).coedges.len() == 4 by {
            assert(p[i] == ls[i]);
        }
        lemma_four_coedges_each(p);
        assert forall|f: int, i: int| 0 <= f < ls.len() && 0 <= i < 4 implies #[trigger] loops_coedges(
            ls,
        )[4 * f + i] == ls[f].coedges[i] by {
            if f < p.len() {
                assert(loops_coedges(p)[4 * f + i] == p[f].coedges[i]);
            }
        }
    }
}

proof fn lemma_no_edge_issues(es: Seq<EdgeModel>)
    requires
        forall|i: int| 0 <= i < es.len() ==> (#[trigger] es[i]).coedges.len() == 2,
    ensures
        edge_issues(es) == Seq::<Seq<char>>::empty(),
    decreases es.len(),
{
    if es.len() > 0 {
        let p = es.drop_last();
        assert forall|i: int| 0 <= i < p.len() implies (#[trigger] p[i]).coedges.len() == 2 by {
            assert(p[i] == es[i]);
        }
        lemma_no_edge_issues(p);
    }
}

proof fn lemma_no_face_issues(fs: Seq<FaceModel>)
    requires
        forall|i: int| 0 <= i < fs.len() ==> (#[trigger] fs[i]).loops.len() > 0,
    ensures
        face_issues(fs) == Seq::<Seq<char>>::empty(),
    decreases fs.len(),
{
    if fs.len() > 0 {
        let p = fs.drop_last();
        assert forall|i: int| 0 <= i < p.len() implies (#[trigger] p[i]).loops.len() > 0 by {
            assert(p[i] == fs[i]);
        }
        lemma_no_face_issues(p);
    }
}

proof fn lemma_no_vertex_issues(vs: Seq<VertexModel>)
    requires
        forall|i: int| 0 <= i < vs.len() ==> (#[trigger] vs[i]).edges.len() > 0,
    ensures
        vertex_issues(vs) == Seq::<Seq<char>>::empty(),
    decreases vs.len(),
{
    if vs.len() > 0 {
        let p = vs.drop_last();
        assert forall|i: int| 0 <= i < p.len() implies (#[trigger] p[i]).edges.len() > 0 by {
            assert(p[i] == vs[i]);
        }
        lemma_no_vertex_issues(p);
    }
}

/// Edge `e` of the cube is among `d`.
spec fn lists_cube_edge(d: Seq<EdgeModel>, first: u64, corners: [PointBits; 8], e: int) -> bool {
    exists|k: int| 0 <= k < d.len() && (#[trigger] d[k]) == cube_edge(first, corners, e)
}

/// The coedges of the cube, face after face, are its 24 sides in order.
proof fn lemma_cube_coedges(first: u64, corners: [PointBits; 8])
    ensures
        cube_model(first, corners).faces() == Seq::new(6, |f: int| cube_face(first, corners, f)),
        cube_model(first, corners).coedges().len() == 24,
        forall|j: int| 0 <= j < 24 ==> #[trigger] cube_model(first, corners).coedges()[j]
            == cube_coedge(first, corners, j),
{
    let m = cube_model(first, corners);
    let fs = Seq::new(6, |f: int| cube_face(first, corners, f));
    assert(m.shells.drop_last() =~= Seq::<ShellModel>::empty());
    assert(shells_faces(Seq::<ShellModel>::empty()) == Seq::<FaceModel>::empty());
    assert(shells_faces(m.shells) == shells_faces(m.shells.drop_last()) + m.shells.last().faces);
    assert(m.faces() =~= fs);
    lemma_one_loop_each(fs);
    let ls = m.loops();
    assert forall|i: int| 0 <= i < ls.len() implies (#[trigger] ls[i]).coedges.len() == 4 by {
        assert(ls[i] == fs[i].loops[0]);
    }
    lemma_four_coedges_each(ls);
    assert forall|j: int| 0 <= j < 24 implies #[trigger] m.coedges()[j] == cube_coedge(first, corners, j) by {
        let f = j / 4;
        let i = j % 4;
        assert(j == 4 * f + i);
        assert(m.coedges()[4 * f + i] == ls[f].coedges[i]);
        assert(ls[f] == cube_loop(first, corners, f));
    }
}

/// `x` is one of the cube's edges.
spec fn is_cube_edge(x: EdgeModel, first: u64, corners: [PointBits; 8]) -> bool {
    exists|e: int| 0 <= e < 12 && x == #[trigger] cube_edge(first, corners, e)
}

/// `x` is one of the cube's corners.
spec fn is_cube_vertex(x: VertexModel, first: u64, corners: [PointBits; 8]) -> bool {
    exists|w: int| 0 <= w < 8 && x == #[trigger] cube_vertex(first, corners, w)
}

/// The cube's edge listing holds its twelve edges, each once.
#[verifier::rlimit(30)]
proof fn lemma_cube_edges(first: u64, corners: [PointBits; 8])
    requires
        first + 58 <= u64::MAX,
    ensures
        cube_model(first, corners).edges().len() == 12,
        forall|k: int| 0 <= k < cube_model(first, corners).edges().len()
            ==> is_cube_edge(#[trigger] cube_model(first, corners).edges()[k], first, corners),
        forall|e: int| 0 <= e < 12 ==> #[trigger] lists_cube_edge(cube_model(first, corners).edges(), first, corners, e),
{
    let m = cube_model(first, corners);
    lemma_cube_coedges(first, corners);
    let cs = m.coedges();
    let d = m.edges();
    lemma_distinct_edges(cs);
    assert forall|k: int| 0 <= k < d.len() implies is_cube_edge(#[trigger] d[k], first, corners) by {
        let i = choose|i: int| 0 <= i < cs.len() && (#[trigger] d[k]) == (#[trigger] cs[i]).edge;
        assert(cs[i] == cube_coedge(first, corners, i));
        let e = cube_use_edge(i);
        assert(0 <= e < 12);
        assert(d[k] == cube_edge(first, corners, e));
    }
    assert forall|e: int| 0 <= e < 12 implies #[trigger] lists_cube_edge(d, first, corners, e) by {
        let j = cube_same_use(e);
        assert(0 <= j < 24 && cube_use_edge(j) == e);
        assert(cs[j] == cube_coedge(first, corners, j));
        assert(has_edge_id(d, cs[j].edge.id));
        let k = choose|k: int| 0 <= k < d.len() && (#[trigger] d[k]).id == cs[j].edge.id;
        assert(is_cube_edge(d[k], first, corners));
        let e2 = choose|e2: int| 0 <= e2 < 12 && d[k] == #[trigger] cube_edge(first, corners, e2);
        assert(e2 == e);
        assert(d[k] == cube_edge(first, corners, e));
    }
    let dids = edge_id_values(d);
    assert forall|a: int, b: int| 0 <= a < dids.len() && 0 <= b < dids.len() && a != b implies dids[a]
        != dids[b] by {
        assert(d[a].id != d[b].id);
    }
    lemma_unique_ids_count(dids);
    assert(dids.to_set() =~= set_int_range(first + 8, first + 20)) by {
        assert forall|x: int| dids.to_set().contains(x) implies set_int_range(first + 8, first + 20).contains(x) by {
            let k = choose|k: int| 0 <= k < dids.len() && dids[k] == x;
            assert(is_cube_edge(d[k], first, corners));
        }
        assert forall|x: int| set_int_range(first + 8, first + 20).contains(x) implies dids.to_set().contains(x) by {
            let e = x - first - 8;
            assert(lists_cube_edge(d, first, corners, e));
            let k = choose|k: int| 0 <= k < d.len() && (#[trigger] d[k]) == cube_edge(first, corners, e);
            assert(dids[k] == x);
        }
    }
    lemma_int_range(first + 8, first + 20);
}

/// The cube's vertex listing holds its eight corners, each once.
#[verifier::rlimit(30)]
proof fn lemma_cube_vertices(first: u64, corners: [PointBits; 8])
    requires
        first + 58 <= u64::MAX,
    ensures
        cube_model(first, corners).vertices().len() == 8,
        forall|k: int| 0 <= k < cube_model(first, corners).vertices().len()
            ==> is_cube_vertex(#[trigger] cube_model(first, corners).vertices()[k], first, corners),
{
    let m = cube_model(first, corners);
    lemma_cube_edges(first, corners);
    let d = m.edges();
    let dv = m.vertices();
    lemma_distinct_vertices(d);
    assert forall|k: int| 0 <= k < dv.len() implies is_cube_vertex(#[trigger] dv[k], first, corners) by {
        let i = choose|i: int|
            0 <= i < d.len() && ((#[trigger] dv[k]) == (#[trigger] d[i]).start || dv[k] == d[i].end);
        assert(is_cube_edge(d[i], first, corners));
        let e = choose|e: int| 0 <= e < 12 && d[i] == #[trigger] cube_edge(first, corners, e);
        if dv[k] == d[i].start {
            assert(dv[k] == cube_vertex(first, corners, cube_edge_start(e)));
        } else {
            assert(dv[k] == cube_vertex(first, corners, cube_edge_end(e)));
        }
    }
    assert forall|w: int| 0 <= w < 8 implies has_vertex_id(dv, #[trigger] cube_id(first, w)) by {
        let e = cube_vertex_edge(w, 0);
        assert(0 <= e < 12);
        assert(cube_edge_start(e) == w || cube_edge_end(e) == w);
        assert(lists_cube_edge(d, first, corners, e));
        let i = choose|i: int| 0 <= i < d.len() && (#[trigger] d[i]) == cube_edge(first, corners, e);
        assert(has_vertex_id(dv, d[i].start.id) && has_vertex_id(dv, d[i].end.id));
    }
    let vids = vertex_id_values(dv);
    assert forall|a: int, b: int| 0 <= a < vids.len() && 0 <= b < vids.len() && a != b implies vids[a]
        != vids[b] by {
        assert(dv[a].id != dv[b].id);
    }
    lemma_unique_ids_count(vids);
    assert(vids.to_set() =~= set_int_range(first as int, first + 8)) by {
        assert forall|x: int| vids.to_set().contains(x) implies set_int_range(first as int, first + 8).contains(x) by {
            let k = choose|k: int| 0 <= k < vids.len() && vids[k] == x;
            assert(is_cube_vertex(dv[k], first, corners));
        }
        assert forall|x: int| set_int_range(first as int, first + 8).contains(x) implies vids.to_set().contains(x) by {
            let w = x - first;
            assert(has_vertex_id(dv, cube_id(first, w)));
            let k = choose|k: int| 0 <= k < dv.len() && (#[trigger] dv[k]).id == cube_id(first, w);
            assert(vids[k] == x);
        }
    }
    lemma_int_range(first as int, first + 8);
}

/// The cube holds one shell, six faces, twelve edges and eight vertices
/// (so V - E + F = 2), and the validity checks find no issue in it.
pub proof fn lemma_cube_census(first: u64, corners: [PointBits; 8])
    requires
        first + 58 <= u64::MAX,
    ensures
        cube_model(first, corners).shells.len() == 1,
        cube_model(first, corners).faces().len() == 6,
        cube_model(first, corners).edges().len() == 12,
        cube_model(first, corners).vertices().len() == 8,
        counts_fit(cube_model(first, corners)),
        validation_issues(cube_model(first, corners)) == Seq::<Seq<char>>::empty(),
{
    let m = cube_model(first, corners);
    lemma_cube_coedges(first, corners);
    lemma_cube_edges(first, corners);
    lemma_cube_vertices(first, corners);
    let d = m.edges();
    let dv = m.vertices();
    assert forall|k: int| 0 <= k < d.len() implies (#[trigger] d[k]).coedges.len() == 2 by {
        assert(is_cube_edge(d[k], first, corners));
    }
    lemma_no_edge_issues(d);
    let fs = m.faces();
    assert forall|i: int| 0 <= i < fs.len() implies (#[trigger] fs[i]).loops.len() > 0 by {
        assert(fs[i] == cube_face(first, corners, i));
    }
    lemma_no_face_issues(fs);
    assert forall|k: int| 0 <= k < dv.len() implies (#[trigger] dv[k]).edges.len() > 0 by {
        assert(is_cube_vertex(dv[k], first, corners));
    }
    lemma_no_vertex_issues(dv);
    assert(validation_issues(m) =~= Seq::<Seq<char>>::empty());
}

} // verus!
