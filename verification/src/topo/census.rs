//! What the listings of a body hold: each edge and each vertex once, and
//! every edge and vertex that the body uses.
use vstd::prelude::*;
use crate::topo::body::{
    BodyModel, CoedgeModel, EdgeModel, VertexModel, distinct_edges, distinct_vertices,
    has_edge_id, has_vertex_id, add_vertex_once,
};

verus! {

/// No two edges of `es` carry the same identifier.
pub open spec fn edge_ids_unique(es: Seq<EdgeModel>) -> bool {
    forall|a: int, b: int|
        0 <= a < es.len() && 0 <= b < es.len() && a != b ==> (#[trigger] es[a]).id != (
        #[trigger] es[b]).id
}

/// No two vertices of `vs` carry the same identifier.
pub open spec fn vertex_ids_unique(vs: Seq<VertexModel>) -> bool {
    forall|a: int, b: int|
        0 <= a < vs.len() && 0 <= b < vs.len() && a != b ==> (#[trigger] vs[a]).id != (
        #[trigger] vs[b]).id
}

/// The identifiers of a sequence of edges, as numbers.
pub open spec fn edge_id_values(es: Seq<EdgeModel>) -> Seq<int> {
    es.map_values(|e: EdgeModel| e.id.0 as int)
}

/// The identifiers of a sequence of vertices, as numbers.
pub open spec fn vertex_id_values(vs: Seq<VertexModel>) -> Seq<int> {
    vs.map_values(|v: VertexModel| v.id.0 as int)
}

/// The edge listing of a sequence of coedges holds each identifier once,
/// lists the edge of every coedge, and lists nothing else.
pub proof fn lemma_distinct_edges(cs: Seq<CoedgeModel>)
    ensures
        edge_ids_unique(distinct_edges(cs)),
        forall|i: int| 0 <= i < cs.len() ==> has_edge_id(distinct_edges(cs), (#[trigger] cs[i]).edge.id),
        forall|k: int|
            0 <= k < distinct_edges(cs).len() ==> exists|i: int|
                0 <= i < cs.len() && (#[trigger] distinct_edges(cs)[k]) == (#[trigger] cs[i]).edge,
    decreases cs.len(),
{
    if cs.len() > 0 {
        let p = cs.drop_last();
        lemma_distinct_edges(p);
        let dp = distinct_edges(p);
        let d = distinct_edges(cs);
        let last = cs.last();
        assert forall|k: int| 0 <= k < dp.len() implies d[k] == dp[k] by {}
        assert forall|i: int| 0 <= i < cs.len() implies has_edge_id(d, (#[trigger] cs[i]).edge.id) by {
            if i < cs.len() - 1 {
                assert(p[i] == cs[i]);
                assert(has_edge_id(dp, p[i].edge.id));
                let k = choose|k: int| 0 <= k < dp.len() && (#[trigger] dp[k]).id == p[i].edge.id;
                assert(d[k] == dp[k]);
            } else if has_edge_id(dp, last.edge.id) {
                let k = choose|k: int| 0 <= k < dp.len() && (#[trigger] dp[k]).id == last.edge.id;
                assert(d[k] == dp[k]);
            } else {
                assert(d[dp.len() as int] == last.edge);
            }
        }
        assert forall|k: int| 0 <= k < d.len() implies exists|i: int|
            0 <= i < cs.len() && (#[trigger] d[k]) == (#[trigger] cs[i]).edge by {
            if k < dp.len() {
                let i = choose|i: int| 0 <= i < p.len() && (#[trigger] dp[k]) == (#[trigger] p[i]).edge;
                assert(cs[i] == p[i]);
            } else {
                assert(d[k] == cs[cs.len() - 1].edge);
            }
        }
        if !has_edge_id(dp, last.edge.id) {
            assert forall|a: int, b: int|
                0 <= a < d.len() && 0 <= b < d.len() && a != b implies (#[trigger] d[a]).id != (
                #[trigger] d[b]).id by {
                if a < dp.len() && b < dp.len() {
                    assert(d[a] == dp[a] && d[b] == dp[b]);
                } else if a < dp.len() {
                    assert(d[a] == dp[a]);
                } else {
                    assert(d[b] == dp[b]);
                }
            }
        }
    }
}

/// Adding a vertex once keeps the identifiers unique, keeps what was there,
/// and afterwards the vertex's identifier is present.
proof fn lemma_add_vertex_once(vs: Seq<VertexModel>, v: VertexModel)
    requires
        vertex_ids_unique(vs),
    ensures
        vertex_ids_unique(add_vertex_once(vs, v)),
        has_vertex_id(add_vertex_once(vs, v), v.id),
        forall|k: int| 0 <= k < vs.len() ==> add_vertex_once(vs, v)[k] == vs[k],
        forall|k: int|
            0 <= k < add_vertex_once(vs, v).len() ==> k < vs.len() || add_vertex_once(vs, v)[k] == v,
        add_vertex_once(vs, v).len() >= vs.len(),
{
    let r = add_vertex_once(vs, v);
    if !has_vertex_id(vs, v.id) {
        assert(r[vs.len() as int] == v);
        assert forall|a: int, b: int|
            0 <= a < r.len() && 0 <= b < r.len() && a != b implies (#[trigger] r[a]).id != (
            #[trigger] r[b]).id by {
            if a < vs.len() && b < vs.len() {
                assert(r[a] == vs[a] && r[b] == vs[b]);
            } else if a < vs.len() {
                assert(r[a] == vs[a]);
            } else {
                assert(r[b] == vs[b]);
            }
        }
    }
}

/// The vertex listing of a sequence of edges holds each identifier once,
/// lists both end vertices of every edge, and lists nothing else.
pub proof fn lemma_distinct_vertices(es: Seq<EdgeModel>)
    ensures
        vertex_ids_unique(distinct_vertices(es)),
        forall|i: int|
            0 <= i < es.len() ==> has_vertex_id(distinct_vertices(es), (#[trigger] es[i]).start.id)
                && has_vertex_id(distinct_vertices(es), es[i].end.id),
        forall|k: int|
            0 <= k < distinct_vertices(es).len() ==> exists|i: int|
                0 <= i < es.len() && ((#[trigger] distinct_vertices(es)[k]) == (#[trigger] es[i]).start
                    || distinct_vertices(es)[k] == es[i].end),
    decreases es.len(),
{
    if es.len() > 0 {
        let p = es.drop_last();
        lemma_distinct_vertices(p);
        let dp = distinct_vertices(p);
        let last = es.last();
        let d1 = add_vertex_once(dp, last.start);
        lemma_add_vertex_once(dp, last.start);
        let d = add_vertex_once(d1, last.end);
        lemma_add_vertex_once(d1, last.end);
        assert(d == distinct_vertices(es));
        assert forall|i: int| 0 <= i < es.len() implies has_vertex_id(d, (#[trigger] es[i]).start.id)
            && has_vertex_id(d, es[i].end.id) by {
            if i < es.len() - 1 {
                assert(p[i] == es[i]);
                let k1 = choose|k: int| 0 <= k < dp.len() && (#[trigger] dp[k]).id == p[i].start.id;
                assert(d[k1] == dp[k1]);
                let k2 = choose|k: int| 0 <= k < dp.len() && (#[trigger] dp[k]).id == p[i].end.id;
                assert(d[k2] == dp[k2]);
            } else {
                let k1 = choose|k: int| 0 <= k < d1.len() && (#[trigger] d1[k]).id == last.start.id;
                assert(d[k1] == d1[k1]);
            }
        }
        assert forall|k: int| 0 <= k < d.len() implies exists|i: int|
            0 <= i < es.len() && ((#[trigger] d[k]) == (#[trigger] es[i]).start || d[k] == es[i].end) by {
            if k < dp.len() {
                assert(d[k] == dp[k]);
                let i = choose|i: int|
                    0 <= i < p.len() && ((#[trigger] dp[k]) == (#[trigger] p[i]).start || dp[k]
                        == p[i].end);
                assert(es[i] == p[i]);
            } else if k < d1.len() {
                assert(d[k] == d1[k]);
                assert(d1[k] == last.start);
                assert(es[es.len() - 1] == last);
            } else {
                assert(d[k] == last.end);
                assert(es[es.len() - 1] == last);
            }
        }
    }
}

/// A sequence whose identifiers are unique has as many identifiers as
/// elements in its set of identifier values.
pub proof fn lemma_unique_ids_count(ids: Seq<int>)
    requires
        forall|a: int, b: int| 0 <= a < ids.len() && 0 <= b < ids.len() && a != b ==> ids[a] != ids[b],
    ensures
        ids.to_set().len() == ids.len(),
{
    assert(ids.no_duplicates());
    ids.unique_seq_to_set();
}

/// The edges of a body: each identifier is listed once, the edge of every
/// coedge of the body is listed, and every listed edge is the edge of one of
/// its coedges.
pub proof fn lemma_body_edges(b: BodyModel)
    ensures
        edge_ids_unique(b.edges()),
        forall|i: int| 0 <= i < b.coedges().len() ==> has_edge_id(b.edges(), (#[trigger] b.coedges()[i]).edge.id),
        forall|k: int|
            0 <= k < b.edges().len() ==> exists|i: int|
                0 <= i < b.coedges().len() && (#[trigger] b.edges()[k]) == (#[trigger] b.coedges()[i]).edge,
{
    lemma_distinct_edges(b.coedges());
}

/// The vertices of a body: each identifier is listed once, both end
/// vertices of every edge of the body are listed, and every listed vertex is
/// an end vertex of one of its edges.
pub proof fn lemma_body_vertices(b: BodyModel)
    ensures
        vertex_ids_unique(b.vertices()),
        forall|i: int|
            0 <= i < b.edges().len() ==> has_vertex_id(b.vertices(), (#[trigger] b.edges()[i]).start.id)
                && has_vertex_id(b.vertices(), b.edges()[i].end.id),
        forall|k: int|
            0 <= k < b.vertices().len() ==> exists|i: int|
                0 <= i < b.edges().len() && ((#[trigger] b.vertices()[k]) == (#[trigger] b.edges()[i]).start
                    || b.vertices()[k] == b.edges()[i].end),
{
    lemma_distinct_vertices(b.edges());
}

} // verus!
