//! Validity checks on a body: the Euler-Poincaré formula, manifold edges,
//! faces with loops and vertices with edges.
use vstd::prelude::*;
use crate::numbers::{decimal, decimal_signed, push_decimal, push_decimal_signed, push_str};
use crate::text::{string_from_chars, strings_model};
use crate::topo::entity::{EntityId, Entity};
use crate::topo::body::{Body, BodyModel, EdgeModel, FaceModel, VertexModel, edge_refs, face_refs, vertex_refs};
use crate::topo::TopoResult;

verus! {

/// How an identifier is printed in messages (its `Debug` form).
pub open spec fn entity_text(id: EntityId) -> Seq<char> {
    "EntityId("@ + decimal(id.0 as nat) + ")"@
}

/// The message for a body whose Euler characteristic `x` does not match
/// its `s` shells.
pub open spec fn euler_message(x: int, s: nat) -> Seq<char> {
    "Euler characteristic mismatch: V-E+F="@ + decimal_signed(x) + ", expected "@ + decimal(
        2 * s,
    ) + " for "@ + decimal(s) + " shell(s)"@
}

/// The Euler-Poincaré check: a body with shells must have V - E + F equal
/// to twice its number of shells.
pub open spec fn euler_issues(v: nat, e: nat, f: nat, s: nat) -> Seq<Seq<char>> {
    if s > 0 && v - e + f != 2 * s {
        seq![euler_message(v - e + f, s)]
    } else {
        Seq::empty()
    }
}

/// The message for an edge that is not used by exactly two coedges.
pub open spec fn edge_message(e: EdgeModel) -> Seq<char> {
    "Edge "@ + entity_text(e.id) + " has "@ + decimal(e.coedges.len()) + " coedges (expected 2 for manifold)"@
}

/// The manifold check, edge after edge.
pub open spec fn edge_issues(es: Seq<EdgeModel>) -> Seq<Seq<char>>
    decreases es.len(),
{
    if es.len() == 0 {
        Seq::empty()
    } else if es.last().coedges.len() != 2 {
        edge_issues(es.drop_last()).push(edge_message(es.last()))
    } else {
        edge_issues(es.drop_last())
    }
}

/// The message for a face without loops.
pub open spec fn face_message(f: FaceModel) -> Seq<char> {
    "Face "@ + entity_text(f.id) + " has no loops"@
}

/// The check that every face has a loop, face after face.
pub open spec fn face_issues(fs: Seq<FaceModel>) -> Seq<Seq<char>>
    decreases fs.len(),
{
    if fs.len() == 0 {
        Seq::empty()
    } else if fs.last().loops.len() == 0 {
        face_issues(fs.drop_last()).push(face_message(fs.last()))
    } else {
        face_issues(fs.drop_last())
    }
}

/// The message for a vertex without edges.
pub open spec fn vertex_message(v: VertexModel) -> Seq<char> {
    "Vertex "@ + entity_text(v.id) + " has no edges"@
}

/// The check that every vertex has an edge, vertex after vertex.
pub open spec fn vertex_issues(vs: Seq<VertexModel>) -> Seq<Seq<char>>
    decreases vs.len(),
{
    if vs.len() == 0 {
        Seq::empty()
    } else if vs.last().edges.len() == 0 {
        vertex_issues(vs.drop_last()).push(vertex_message(vs.last()))
    } else {
        vertex_issues(vs.drop_last())
    }
}

/// Every issue found in a body, in the order the checks run.
pub open spec fn validation_issues(b: BodyModel) -> Seq<Seq<char>> {
    euler_issues(b.vertices().len(), b.edges().len(), b.faces().len(), b.shells.len()) + edge_issues(
        b.edges(),
    ) + face_issues(b.faces()) + vertex_issues(b.vertices())
}

/// The counts of a body fit the 32-bit arithmetic of the Euler check.
pub open spec fn counts_fit(b: BodyModel) -> bool {
    &&& b.vertices().len() + b.faces().len() <= i32::MAX
    &&& b.edges().len() <= i32::MAX
    &&& 2 * b.shells.len() <= i32::MAX
}

fn push_entity_text(out: &mut Vec<char>, id: EntityId)
    ensures
        final(out)@ == old(out)@ + entity_text(id),
{
    push_str(out, "EntityId(");
    push_decimal(out, id.0);
    push_str(out, ")");
    assert(final(out)@ =~= old(out)@ + entity_text(id));
}

/// Check if a body is valid (manifold, closed, consistent): the list of
/// issues found, empty for a valid body.
pub fn validate_body(body: &Body) -> (r: TopoResult<Vec<String>>)
    requires
        counts_fit(body@),
    ensures
        r matches Ok(issues) && strings_model(issues@) == validation_issues(body@),
{
    let mut issues: Vec<String> = Vec::new();
    let vertices = body.vertices();
    let edges = body.edges();
    let faces = body.faces();
    let shells = body.shells();
    let s = shells.len();
    let ghost bm = body@;
    assert(shells@.map_values(|x: crate::topo::body::Shell| x@).len() == s);
    let v = vertices.len() as i32;
    let e = edges.len() as i32;
    let f = faces.len() as i32;
    assert(vertex_refs(vertices@).len() == vertices@.len());
    assert(edge_refs(edges@).len() == edges@.len());
    assert(face_refs(faces@).len() == faces@.len());
    let euler = v - e + f;
    if s > 0 && euler != 2 * (s as i32) {
        let mut m: Vec<char> = Vec::new();
        push_str(&mut m, "Euler characteristic mismatch: V-E+F=");
        push_decimal_signed(&mut m, euler as i64);
        push_str(&mut m, ", expected ");
        push_decimal(&mut m, (2 * s) as u64);
        push_str(&mut m, " for ");
        push_decimal(&mut m, s as u64);
        push_str(&mut m, " shell(s)");
        assert(m@ =~= euler_message(euler as int, s as nat));
        issues.push(string_from_chars(m.as_slice()));
    }
    let ghost base0 = strings_model(issues@);
    assert(base0 =~= euler_issues(bm.vertices().len(), bm.edges().len(), bm.faces().len(), bm.shells.len()));
    let ghost em = edge_refs(edges@);
    let mut i: usize = 0;
    assert(em.take(0) =~= Seq::<EdgeModel>::empty());
    assert(base0 + Seq::<Seq<char>>::empty() =~= base0);
    while i < edges.len()
        invariant
            i <= edges@.len(),
            em == edge_refs(edges@),
            strings_model(issues@) == base0 + edge_issues(em.take(i as int)),
        decreases edges.len() - i,
    {
        let ed = edges[i];
        let n = ed.coedges().len();
        assert(em[i as int] == ed@);
        assert(em.take(i + 1).drop_last() =~= em.take(i as int));
        if n != 2 {
            let mut m: Vec<char> = Vec::new();
            push_str(&mut m, "Edge ");
            push_entity_text(&mut m, ed.id());
            push_str(&mut m, " has ");
            push_decimal(&mut m, n as u64);
            push_str(&mut m, " coedges (expected 2 for manifold)");
            assert(m@ =~= edge_message(ed@));
            let ghost before = issues@;
            issues.push(string_from_chars(m.as_slice()));
            assert(strings_model(issues@) =~= strings_model(before).push(m@));
        }
        i = i + 1;
    }
    assert(em.take(em.len() as int) =~= em);
    let ghost base1 = strings_model(issues@);
    let ghost fm = face_refs(faces@);
    let mut i: usize = 0;
    assert(fm.take(0) =~= Seq::<FaceModel>::empty());
    assert(base1 + Seq::<Seq<char>>::empty() =~= base1);
    while i < faces.len()
        invariant
            i <= faces@.len(),
            fm == face_refs(faces@),
            strings_model(issues@) == base1 + face_issues(fm.take(i as int)),
        decreases faces.len() - i,
    {
        let fc = faces[i];
        assert(fm[i as int] == fc@);
        assert(fm.take(i + 1).drop_last() =~= fm.take(i as int));
        if fc.loops().len() == 0 {
            let mut m: Vec<char> = Vec::new();
            push_str(&mut m, "Face ");
            push_entity_text(&mut m, fc.id());
            push_str(&mut m, " has no loops");
            assert(m@ =~= face_message(fc@));
            let ghost before = issues@;
            issues.push(string_from_chars(m.as_slice()));
            assert(strings_model(issues@) =~= strings_model(before).push(m@));
        }
        i = i + 1;
    }
    assert(fm.take(fm.len() as int) =~= fm);
    let ghost base2 = strings_model(issues@);
    let ghost vm = vertex_refs(vertices@);
    let mut i: usize = 0;
    assert(vm.take(0) =~= Seq::<VertexModel>::empty());
    assert(base2 + Seq::<Seq<char>>::empty() =~= base2);
    while i < vertices.len()
        invariant
            i <= vertices@.len(),
            vm == vertex_refs(vertices@),
            strings_model(issues@) == base2 + vertex_issues(vm.take(i as int)),
        decreases vertices.len() - i,
    {
        let vx = vertices[i];
        assert(vm[i as int] == vx@);
        assert(vm.take(i + 1).drop_last() =~= vm.take(i as int));
        if vx.edges().len() == 0 {
            let mut m: Vec<char> = Vec::new();
            push_str(&mut m, "Vertex ");
            push_entity_text(&mut m, vx.id());
            push_str(&mut m, " has no edges");
            assert(m@ =~= vertex_message(vx@));
            let ghost before = issues@;
            issues.push(string_from_chars(m.as_slice()));
            assert(strings_model(issues@) =~= strings_model(before).push(m@));
        }
        i = i + 1;
    }
    assert(vm.take(vm.len() as int) =~= vm);
    assert(strings_model(issues@) =~= validation_issues(bm));
    Ok(issues)
}

} // verus!
