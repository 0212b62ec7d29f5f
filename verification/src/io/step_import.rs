//! Building B-rep bodies from the entities of a STEP file.
//!
//! The entity graph is walked from each solid: shells, advanced faces,
//! their bounds and edge loops, oriented edges, edge curves and vertex
//! points, and the placements and directions that lines, circles and
//! surfaces are built on. A vertex or edge met again (by instance number) is
//! the one made the first time. The numbers themselves are floating-point
//! work done by the caller and handed in: the position of each point, and
//! the verdict on each line, circle or surface whose numbers do not make
//! one (a zero direction, a radius that is not positive, and the like).
use vstd::prelude::*;
use std::collections::HashMap;
use crate::numbers::{decimal, push_decimal, push_str, push_all};
use crate::text::{string_from_chars, string_from_str, chars_of};
use crate::text::prefixed;
use crate::topo::entity::{EntityId, EntityIdGenerator, counter_successor};
use crate::topo::body::{
    PointBits, Vertex, Edge, Coedge, Loop, Face, Shell, Body, VertexModel, EdgeModel, CoedgeModel, LoopModel,
    FaceModel, ShellModel, BodyModel,
};
use crate::topo::euler::{new_vertex_model, new_edge_model, new_loop_model, new_face_model};
use crate::topo::Sense;
use crate::io::step_model::{AttrModel, EntityModel, StepAttribute, StepEntity, StepFile, attrs_model, entities_model};
use crate::io::step_read::eq_literal;
use crate::io::IoResult;

verus! {

/// What the walk reads: the entities, the caller's point positions, and the
/// caller's messages for curves and surfaces whose numbers do not make one.
pub struct ImportInputs {
    pub entities: Map<u64, EntityModel>,
    pub points: Map<u64, PointBits>,
    pub geometry: Map<u64, Seq<char>>,
}

/// The caller's positions cover every `CARTESIAN_POINT` whose coordinates
/// are a list (whatever its type name, any entity so shaped).
pub open spec fn points_cover(entities: Map<u64, EntityModel>, points: Map<u64, PointBits>) -> bool {
    forall|id: u64|
        #[trigger] entities.contains_key(id) && entities[id].attributes.len() >= 2 && entities[id].attributes[1] is List
            ==> points.contains_key(id)
}

/// The walk's state: the next identifier, and the vertices and edges made
/// so far, by instance number.
pub struct ImportState {
    pub next: u64,
    pub vertices: Map<u64, VertexModel>,
    pub edges: Map<u64, EdgeModel>,
}

/// The state after one identifier is drawn.
pub open spec fn drawn(st: ImportState) -> ImportState {
    ImportState { next: counter_successor(st.next), ..st }
}

/// The reference an attribute holds.
pub open spec fn attr_ref(a: AttrModel) -> Option<u64> {
    match a {
        AttrModel::Reference(r) => Some(r as u64),
        _ => None,
    }
}

/// The items of a list attribute; nothing for any other attribute.
pub open spec fn attr_items(a: AttrModel) -> Seq<AttrModel> {
    match a {
        AttrModel::List(v) => v,
        _ => Seq::empty(),
    }
}

/// The message for an instance number without an entity.
pub open spec fn not_found(id: u64) -> Seq<char> {
    "Entity #"@ + decimal(id as nat) + " not found"@
}

/// The first outcome that is an error, else the second.
pub open spec fn and_check(first: Result<(), Seq<char>>, second: Result<(), Seq<char>>) -> Result<(), Seq<char>> {
    match first {
        Err(m) => Err(m),
        Ok(_) => second,
    }
}

/// The attribute holds a number (a real or an integer).
pub open spec fn attr_is_number(a: AttrModel) -> bool {
    a is Real || a is Integer
}

/// Whether the point `id` can be read.
pub open spec fn point_check(inp: ImportInputs, id: u64) -> Result<(), Seq<char>> {
    match point_outcome(inp, id) {
        Err(m) => Err(m),
        Ok(_) => Ok(()),
    }
}

/// Whether the `DIRECTION` `id` can be read: its ratios must be a list.
pub open spec fn direction_outcome(inp: ImportInputs, id: u64) -> Result<(), Seq<char>> {
    if !inp.entities.contains_key(id) {
        Err(not_found(id))
    } else if inp.entities[id].attributes.len() < 2 {
        Err("DIRECTION missing attributes"@)
    } else if inp.entities[id].attributes[1] is List {
        Ok(())
    } else {
        Err("Invalid DIRECTION ratios"@)
    }
}

/// Whether the `AXIS2_PLACEMENT_3D` `id` can be read: its location, its
/// axis and, when `with_ref`, its reference direction.
pub open spec fn placement_outcome(inp: ImportInputs, id: u64, with_ref: bool) -> Result<(), Seq<char>> {
    if !inp.entities.contains_key(id) {
        Err(not_found(id))
    } else {
        let a = inp.entities[id].attributes;
        if a.len() < (if with_ref { 4int } else { 3int }) {
            Err("AXIS2_PLACEMENT_3D missing attributes"@)
        } else if attr_ref(a[1]) is None {
            Err("Invalid location reference"@)
        } else if attr_ref(a[2]) is None {
            Err("Invalid axis reference"@)
        } else if with_ref && attr_ref(a[3]) is None {
            Err("Invalid ref_direction reference"@)
        } else {
            and_check(
                point_check(inp, attr_ref(a[1])->0),
                and_check(
                    direction_outcome(inp, attr_ref(a[2])->0),
                    if with_ref { direction_outcome(inp, attr_ref(a[3])->0) } else { Ok(()) },
                ),
            )
        }
    }
}

/// The caller's verdict on building the curve or surface `id` from its
/// numbers: its message, if it cannot be built.
pub open spec fn geometry_verdict(inp: ImportInputs, id: u64) -> Result<(), Seq<char>> {
    if inp.geometry.contains_key(id) {
        Err(inp.geometry[id])
    } else {
        Ok(())
    }
}

/// The outcome of building the curve `id` of an edge: the entity must exist
/// and be a line (a point and a direction) or a circle (a placement and a
/// radius); B-spline curves are not built yet; then the caller's verdict.
pub open spec fn curve_outcome(inp: ImportInputs, id: u64) -> Result<(), Seq<char>> {
    if !inp.entities.contains_key(id) {
        Err(not_found(id))
    } else {
        let t = inp.entities[id].entity_type;
        let a = inp.entities[id].attributes;
        if t == "LINE"@ {
            if a.len() < 3 {
                Err("LINE missing attributes"@)
            } else if attr_ref(a[1]) is None {
                Err("Invalid point reference"@)
            } else if attr_ref(a[2]) is None {
                Err("Invalid direction reference"@)
            } else {
                and_check(
                    point_check(inp, attr_ref(a[1])->0),
                    and_check(direction_outcome(inp, attr_ref(a[2])->0), geometry_verdict(inp, id)),
                )
            }
        } else if t == "CIRCLE"@ {
            if a.len() < 3 {
                Err("CIRCLE missing attributes"@)
            } else if attr_ref(a[1]) is None {
                Err("Invalid position reference"@)
            } else if !attr_is_number(a[2]) {
                Err("Invalid radius"@)
            } else {
                and_check(placement_outcome(inp, attr_ref(a[1])->0, false), geometry_verdict(inp, id))
            }
        } else if t == "B_SPLINE_CURVE_WITH_KNOTS"@ {
            Err("B-spline curves not yet implemented"@)
        } else {
            Err("Unsupported curve type: "@ + t)
        }
    }
}

/// The outcome of building the surface `id` of a face: the entity must
/// exist and be a plane (a placement), a cylindrical or spherical surface (a
/// placement and a radius) or a conical surface (a placement, a radius and a
/// half angle); then the caller's verdict.
pub open spec fn surface_outcome(inp: ImportInputs, id: u64) -> Result<(), Seq<char>> {
    if !inp.entities.contains_key(id) {
        Err(not_found(id))
    } else {
        let t = inp.entities[id].entity_type;
        let a = inp.entities[id].attributes;
        if t == "PLANE"@ {
            if a.len() < 2 {
                Err("PLANE missing attributes"@)
            } else if attr_ref(a[1]) is None {
                Err("Invalid position reference"@)
            } else {
                and_check(placement_outcome(inp, attr_ref(a[1])->0, true), geometry_verdict(inp, id))
            }
        } else if t == "CYLINDRICAL_SURFACE"@ || t == "SPHERICAL_SURFACE"@ {
            if a.len() < 3 {
                Err(t + " missing attributes"@)
            } else if attr_ref(a[1]) is None {
                Err("Invalid position reference"@)
            } else if !attr_is_number(a[2]) {
                Err("Invalid radius"@)
            } else {
                and_check(placement_outcome(inp, attr_ref(a[1])->0, true), geometry_verdict(inp, id))
            }
        } else if t == "CONICAL_SURFACE"@ {
            if a.len() < 4 {
                Err("CONICAL_SURFACE missing attributes"@)
            } else if attr_ref(a[1]) is None {
                Err("Invalid position reference"@)
            } else if !attr_is_number(a[2]) {
                Err("Invalid radius"@)
            } else if !attr_is_number(a[3]) {
                Err("Invalid semi_angle"@)
            } else {
                and_check(placement_outcome(inp, attr_ref(a[1])->0, true), geometry_verdict(inp, id))
            }
        } else {
            Err("Unsupported surface type: "@ + t)
        }
    }
}

/// The position of the `CARTESIAN_POINT` `id`.
pub open spec fn point_outcome(inp: ImportInputs, id: u64) -> Result<PointBits, Seq<char>> {
    if !inp.entities.contains_key(id) {
        Err(not_found(id))
    } else if inp.entities[id].attributes.len() < 2 {
        Err("CARTESIAN_POINT missing attributes"@)
    } else if inp.entities[id].attributes[1] is List {
        Ok(inp.points[id])
    } else {
        Err("Invalid CARTESIAN_POINT coordinates"@)
    }
}

/// The vertex of the `VERTEX_POINT` `id`: the one made before, or a new one
/// at its point.
pub open spec fn vertex_step(inp: ImportInputs, id: u64, st: ImportState) -> (Result<VertexModel, Seq<char>>, ImportState) {
    if st.vertices.contains_key(id) {
        (Ok(st.vertices[id]), st)
    } else if !inp.entities.contains_key(id) {
        (Err(not_found(id)), st)
    } else if inp.entities[id].attributes.len() < 2 {
        (Err("VERTEX_POINT missing attributes"@), st)
    } else {
        match attr_ref(inp.entities[id].attributes[1]) {
            None => (Err("Invalid vertex geometry reference"@), st),
            Some(g) => match point_outcome(inp, g) {
                Err(m) => (Err(m), st),
                Ok(p) => {
                    let v = new_vertex_model(st.next, p);
                    (Ok(v), ImportState { vertices: st.vertices.insert(id, v), ..drawn(st) })
                },
            },
        }
    }
}

/// The edge of the `EDGE_CURVE` `id`: the one made before, or a new one
/// between its two vertices once its curve can be built.
pub open spec fn edge_step(inp: ImportInputs, id: u64, st: ImportState) -> (Result<EdgeModel, Seq<char>>, ImportState) {
    if st.edges.contains_key(id) {
        (Ok(st.edges[id]), st)
    } else if !inp.entities.contains_key(id) {
        (Err(not_found(id)), st)
    } else {
        let a = inp.entities[id].attributes;
        if a.len() < 5 {
            (Err("EDGE_CURVE missing attributes"@), st)
        } else if attr_ref(a[1]) is None {
            (Err("Invalid start vertex reference"@), st)
        } else if attr_ref(a[2]) is None {
            (Err("Invalid end vertex reference"@), st)
        } else if attr_ref(a[3]) is None {
            (Err("Invalid curve reference"@), st)
        } else {
            let (s, st1) = vertex_step(inp, attr_ref(a[1])->0, st);
            match s {
                Err(m) => (Err(m), st1),
                Ok(sv) => {
                    let (e, st2) = vertex_step(inp, attr_ref(a[2])->0, st1);
                    match e {
                        Err(m) => (Err(m), st2),
                        Ok(ev) => match curve_outcome(inp, attr_ref(a[3])->0) {
                            Err(m) => (Err(m), st2),
                            Ok(_) => {
                                let edge = new_edge_model(st2.next, sv, ev);
                                (Ok(edge), ImportState { edges: st2.edges.insert(id, edge), ..drawn(st2) })
                            },
                        },
                    }
                },
            }
        }
    }
}

/// The edge and sense of the `ORIENTED_EDGE` `id` (the same sense when the
/// orientation is not a boolean).
pub open spec fn oriented_step(inp: ImportInputs, id: u64, st: ImportState) -> (Result<(EdgeModel, Sense), Seq<char>>, ImportState) {
    if !inp.entities.contains_key(id) {
        (Err(not_found(id)), st)
    } else {
        let a = inp.entities[id].attributes;
        if a.len() < 3 {
            (Err("ORIENTED_EDGE missing attributes"@), st)
        } else {
            match attr_ref(a[1]) {
                None => (Err("Invalid edge reference"@), st),
                Some(r) => {
                    let same = match a[2] {
                        AttrModel::Boolean(b) => b,
                        _ => true,
                    };
                    let (e, st1) = edge_step(inp, r, st);
                    match e {
                        Err(m) => (Err(m), st1),
                        Ok(edge) => (Ok((edge, if same { Sense::Same } else { Sense::Opposite })), st1),
                    }
                },
            }
        }
    }
}

/// The coedges of an edge list from item `i` on, after `acc`: each
/// reference is an oriented edge, followed by a new coedge; other items are
/// skipped.
pub open spec fn coedges_step(
    inp: ImportInputs,
    refs: Seq<AttrModel>,
    i: int,
    st: ImportState,
    acc: Seq<CoedgeModel>,
) -> (Result<Seq<CoedgeModel>, Seq<char>>, ImportState)
    decreases refs.len() - i,
{
    if i < 0 || i >= refs.len() {
        (Ok(acc), st)
    } else {
        match attr_ref(refs[i]) {
            None => coedges_step(inp, refs, i + 1, st, acc),
            Some(r) => {
                let (oe, st1) = oriented_step(inp, r, st);
                match oe {
                    Err(m) => (Err(m), st1),
                    Ok((edge, sense)) => {
                        let c = CoedgeModel { id: EntityId(st1.next), edge, sense };
                        coedges_step(inp, refs, i + 1, drawn(st1), acc.push(c))
                    },
                }
            },
        }
    }
}

/// The loop of the `EDGE_LOOP` `id`: its coedges, then the loop itself.
pub open spec fn edge_loop_step(inp: ImportInputs, id: u64, st: ImportState) -> (Result<LoopModel, Seq<char>>, ImportState) {
    if !inp.entities.contains_key(id) {
        (Err(not_found(id)), st)
    } else if inp.entities[id].attributes.len() < 2 {
        (Err("EDGE_LOOP missing attributes"@), st)
    } else {
        let (cs, st1) = coedges_step(inp, attr_items(inp.entities[id].attributes[1]), 0, st, Seq::empty());
        match cs {
            Err(m) => (Err(m), st1),
            Ok(c) => (Ok(new_loop_model(st1.next, c)), drawn(st1)),
        }
    }
}

/// The loop of the `FACE_BOUND` or `FACE_OUTER_BOUND` `id`.
pub open spec fn bound_step(inp: ImportInputs, id: u64, st: ImportState) -> (Result<LoopModel, Seq<char>>, ImportState) {
    if !inp.entities.contains_key(id) {
        (Err(not_found(id)), st)
    } else if inp.entities[id].attributes.len() < 3 {
        (Err("FACE_BOUND missing attributes"@), st)
    } else {
        match attr_ref(inp.entities[id].attributes[1]) {
            None => (Err("Invalid loop reference"@), st),
            Some(r) => edge_loop_step(inp, r, st),
        }
    }
}

/// The loops of a face's bounds from item `i` on, after `acc`.
pub open spec fn bounds_step(
    inp: ImportInputs,
    refs: Seq<AttrModel>,
    i: int,
    st: ImportState,
    acc: Seq<LoopModel>,
) -> (Result<Seq<LoopModel>, Seq<char>>, ImportState)
    decreases refs.len() - i,
{
    if i < 0 || i >= refs.len() {
        (Ok(acc), st)
    } else {
        match attr_ref(refs[i]) {
            None => bounds_step(inp, refs, i + 1, st, acc),
            Some(r) => {
                let (l, st1) = bound_step(inp, r, st);
                match l {
                    Err(m) => (Err(m), st1),
                    Ok(lp) => bounds_step(inp, refs, i + 1, st1, acc.push(lp)),
                }
            },
        }
    }
}

/// The face of the `ADVANCED_FACE` `id`: its surface must be buildable; the
/// face is made, then its bounds in order.
pub open spec fn face_step(inp: ImportInputs, id: u64, st: ImportState) -> (Result<FaceModel, Seq<char>>, ImportState) {
    if !inp.entities.contains_key(id) {
        (Err(not_found(id)), st)
    } else {
        let a = inp.entities[id].attributes;
        if a.len() < 4 {
            (Err("ADVANCED_FACE missing attributes"@), st)
        } else {
            match attr_ref(a[2]) {
                None => (Err("Invalid surface reference"@), st),
                Some(s) => match surface_outcome(inp, s) {
                    Err(m) => (Err(m), st),
                    Ok(_) => {
                        let (ls, st1) = bounds_step(inp, attr_items(a[1]), 0, drawn(st), Seq::empty());
                        match ls {
                            Err(m) => (Err(m), st1),
                            Ok(l) => (Ok(new_face_model(st.next, l)), st1),
                        }
                    },
                },
            }
        }
    }
}

/// The faces of a shell from item `i` on, after `acc`.
pub open spec fn faces_step(
    inp: ImportInputs,
    refs: Seq<AttrModel>,
    i: int,
    st: ImportState,
    acc: Seq<FaceModel>,
) -> (Result<Seq<FaceModel>, Seq<char>>, ImportState)
    decreases refs.len() - i,
{
    if i < 0 || i >= refs.len() {
        (Ok(acc), st)
    } else {
        match attr_ref(refs[i]) {
            None => faces_step(inp, refs, i + 1, st, acc),
            Some(r) => {
                let (f, st1) = face_step(inp, r, st);
                match f {
                    Err(m) => (Err(m), st1),
                    Ok(face) => faces_step(inp, refs, i + 1, st1, acc.push(face)),
                }
            },
        }
    }
}

/// The shell of the `CLOSED_SHELL` `id`: the shell is made, then its faces.
pub open spec fn shell_step(inp: ImportInputs, id: u64, st: ImportState) -> (Result<ShellModel, Seq<char>>, ImportState) {
    if !inp.entities.contains_key(id) {
        (Err(not_found(id)), st)
    } else if inp.entities[id].attributes.len() < 2 {
        (Err("CLOSED_SHELL missing attributes"@), st)
    } else {
        let (fs, st1) = faces_step(inp, attr_items(inp.entities[id].attributes[1]), 0, drawn(st), Seq::empty());
        match fs {
            Err(m) => (Err(m), st1),
            Ok(f) => (Ok(ShellModel { id: EntityId(st.next), faces: f, is_outer: true }), st1),
        }
    }
}

/// The body of the `MANIFOLD_SOLID_BREP` `id`: its outer shell, then the
/// body.
pub open spec fn solid_step(inp: ImportInputs, id: u64, st: ImportState) -> (Result<BodyModel, Seq<char>>, ImportState) {
    if !inp.entities.contains_key(id) {
        (Err(not_found(id)), st)
    } else if inp.entities[id].attributes.len() < 2 {
        (Err("MANIFOLD_SOLID_BREP missing attributes"@), st)
    } else {
        match attr_ref(inp.entities[id].attributes[1]) {
            None => (Err("Invalid outer shell reference"@), st),
            Some(r) => {
                let (sh, st1) = shell_step(inp, r, st);
                match sh {
                    Err(m) => (Err(m), st1),
                    Ok(s) => (Ok(BodyModel { id: EntityId(st1.next), shells: seq![s] }), drawn(st1)),
                }
            },
        }
    }
}

/// The void shells of a body from item `i` on, after `acc`.
pub open spec fn voids_step(
    inp: ImportInputs,
    refs: Seq<AttrModel>,
    i: int,
    st: ImportState,
    acc: Seq<ShellModel>,
) -> (Result<Seq<ShellModel>, Seq<char>>, ImportState)
    decreases refs.len() - i,
{
    if i < 0 || i >= refs.len() {
        (Ok(acc), st)
    } else {
        match attr_ref(refs[i]) {
            None => voids_step(inp, refs, i + 1, st, acc),
            Some(r) => {
                let (s, st1) = shell_step(inp, r, st);
                match s {
                    Err(m) => (Err(m), st1),
                    Ok(sh) => voids_step(inp, refs, i + 1, st1, acc.push(sh)),
                }
            },
        }
    }
}

/// The body of the `BREP_WITH_VOIDS` `id`: the body is made, then its outer
/// shell, then its void shells.
pub open spec fn voided_step(inp: ImportInputs, id: u64, st: ImportState) -> (Result<BodyModel, Seq<char>>, ImportState) {
    if !inp.entities.contains_key(id) {
        (Err(not_found(id)), st)
    } else {
        let a = inp.entities[id].attributes;
        if a.len() < 3 {
            (Err("BREP_WITH_VOIDS missing attributes"@), st)
        } else {
            match attr_ref(a[1]) {
                None => (Err("Invalid outer shell reference"@), st),
                Some(r) => {
                    let (o, st1) = shell_step(inp, r, drawn(st));
                    match o {
                        Err(m) => (Err(m), st1),
                        Ok(outer) => {
                            let (vs, st2) = voids_step(inp, attr_items(a[2]), 0, st1, seq![outer]);
                            match vs {
                                Err(m) => (Err(m), st2),
                                Ok(shells) => (Ok(BodyModel { id: EntityId(st.next), shells }), st2),
                            }
                        },
                    }
                },
            }
        }
    }
}

/// The bodies of the solids of type `solid` among `order` from `i` on,
/// after `acc`: a solid that cannot be built is skipped (what it drew and
/// made stays drawn and made).
pub open spec fn solids_step(
    inp: ImportInputs,
    order: Seq<u64>,
    voids: bool,
    i: int,
    st: ImportState,
    acc: Seq<BodyModel>,
) -> (Seq<BodyModel>, ImportState)
    decreases order.len() - i,
{
    if i < 0 || i >= order.len() {
        (acc, st)
    } else {
        let id = order[i];
        let t = if inp.entities.contains_key(id) { inp.entities[id].entity_type } else { Seq::empty() };
        if !voids && t == "MANIFOLD_SOLID_BREP"@ {
            let (b, st1) = solid_step(inp, id, st);
            match b {
                Ok(body) => solids_step(inp, order, voids, i + 1, st1, acc.push(body)),
                Err(_) => solids_step(inp, order, voids, i + 1, st1, acc),
            }
        } else if voids && t == "BREP_WITH_VOIDS"@ {
            let (b, st1) = voided_step(inp, id, st);
            match b {
                Ok(body) => solids_step(inp, order, voids, i + 1, st1, acc.push(body)),
                Err(_) => solids_step(inp, order, voids, i + 1, st1, acc),
            }
        } else {
            solids_step(inp, order, voids, i + 1, st, acc)
        }
    }
}

/// The bodies read from a STEP file whose entities are walked in `order`,
/// with identifiers drawn from `n`: every manifold solid brep that can be
/// built; when there is none, every brep with voids that can be built.
pub open spec fn import_bodies(inp: ImportInputs, order: Seq<u64>, n: u64) -> (Seq<BodyModel>, u64) {
    let st0 = ImportState { next: n, vertices: Map::empty(), edges: Map::empty() };
    let (first, st1) = solids_step(inp, order, false, 0, st0, Seq::empty());
    if first.len() > 0 {
        (first, st1.next)
    } else {
        let (second, st2) = solids_step(inp, order, true, 0, st1, Seq::empty());
        (second, st2.next)
    }
}


proof fn lemma_attrs_model_index(s: Seq<StepAttribute>)
    ensures
        attrs_model(s).len() == s.len(),
        forall|i: int| 0 <= i < s.len() ==> #[trigger] attrs_model(s)[i] == s[i]@,
    decreases s.len(),
{
    if s.len() > 0 {
        lemma_attrs_model_index(s.drop_last());
    }
}

fn attr_reference(a: &StepAttribute) -> (r: Option<u64>)
    ensures
        r == attr_ref(a@),
{
    match a {
        StepAttribute::Reference(r) => Some(*r),
        _ => None,
    }
}

fn attr_number(a: &StepAttribute) -> (r: bool)
    ensures
        r == attr_is_number(a@),
{
    match a {
        StepAttribute::Real(_) => true,
        StepAttribute::Integer(_) => true,
        _ => false,
    }
}

fn attr_item_list(a: &StepAttribute) -> (r: &[StepAttribute])
    ensures
        attrs_model(r@) == attr_items(a@),
{
    match a {
        StepAttribute::List(v) => v.as_slice(),
        _ => {
            let e: &[StepAttribute] = &[];
            assert(attrs_model(e@) =~= Seq::<AttrModel>::empty());
            e
        },
    }
}

fn not_found_message(id: u64) -> (r: String)
    ensures
        r@ == not_found(id),
{
    let mut m: Vec<char> = Vec::new();
    push_str(&mut m, "Entity #");
    push_decimal(&mut m, id);
    push_str(&mut m, " not found");
    string_from_chars(m.as_slice())
}

/// The walk from a STEP file's solids to bodies: the file, the caller's
/// point positions and curve and surface messages, and the vertices and
/// edges made so far by instance number.
pub struct StepToBreps<'a> {
    file: &'a StepFile,
    points: &'a HashMap<u64, PointBits>,
    geometry: &'a HashMap<u64, String>,
    vertices: HashMap<u64, Vertex>,
    edges: HashMap<u64, Edge>,
}

impl<'a> StepToBreps<'a> {
    /// What the walk reads.
    pub closed spec fn inputs(&self) -> ImportInputs {
        ImportInputs {
            entities: entities_model(self.file.entities@),
            points: self.points@,
            geometry: self.geometry@.map_values(|s: String| s@),
        }
    }

    /// The walk's state when the next identifier is `next`.
    pub closed spec fn state_at(&self, next: u64) -> ImportState {
        ImportState {
            next,
            vertices: self.vertices@.map_values(|v: Vertex| v@),
            edges: self.edges@.map_values(|e: Edge| e@),
        }
    }

    /// The caller's positions cover every point that can be read.
    pub closed spec fn points_cover(&self) -> bool {
        points_cover(self.inputs().entities, self.points@)
    }

    /// A walk over the given file, with nothing made yet.
    pub fn new(
        file: &'a StepFile,
        points: &'a HashMap<u64, PointBits>,
        geometry: &'a HashMap<u64, String>,
    ) -> (c: Self)
        ensures
            c.inputs() == (ImportInputs {
                entities: entities_model(file.entities@),
                points: points@,
                geometry: geometry@.map_values(|s: String| s@),
            }),
            forall|n: u64| #[trigger] c.state_at(n) == (ImportState { next: n, vertices: Map::empty(), edges: Map::empty() }),
    {
        let c = StepToBreps { file, points, geometry, vertices: HashMap::new(), edges: HashMap::new() };
        assert forall|n: u64| #[trigger] c.state_at(n) == (ImportState { next: n, vertices: Map::empty(), edges: Map::empty() }) by {
            assert(c.vertices@.map_values(|v: Vertex| v@) =~= Map::<u64, VertexModel>::empty());
            assert(c.edges@.map_values(|e: Edge| e@) =~= Map::<u64, EdgeModel>::empty());
        }
        c
    }

    fn entity(&self, id: u64) -> (r: Option<&'a StepEntity>)
        ensures
            match r {
                Some(e) => self.inputs().entities.contains_key(id) && e@ == self.inputs().entities[id]
                    && e@.attributes.len() == e.attributes@.len()
                    && forall|i: int| 0 <= i < e.attributes@.len() ==> #[trigger] e@.attributes[i] == e.attributes@[i]@,
                None => !self.inputs().entities.contains_key(id),
            },
    {
        broadcast use vstd::std_specs::hash::group_hash_axioms;
        let r = self.file.entities.get(&id);
        match r {
            Some(e) => {
                proof {
                    lemma_attrs_model_index(e.attributes@);
                }
                Some(e)
            },
            None => None,
        }
    }

    fn point(&self, id: u64) -> (r: Result<PointBits, String>)
        requires
            self.points_cover(),
        ensures
            match point_outcome(self.inputs(), id) {
                Ok(p) => r == Ok::<PointBits, String>(p),
                Err(m) => r matches Err(s) && s@ == m,
            },
    {
        broadcast use vstd::std_specs::hash::group_hash_axioms;
        let e = match self.entity(id) {
            Some(e) => e,
            None => {
                return Err(not_found_message(id));
            },
        };
        if e.attributes.len() < 2 {
            return Err(string_from_str("CARTESIAN_POINT missing attributes"));
        }
        match &e.attributes[1] {
            StepAttribute::List(_) => {
                assert(self.inputs().entities[id].attributes[1] is List);
                match self.points.get(&id) {
                    Some(p) => Ok(*p),
                    None => Err(string_from_str("Invalid CARTESIAN_POINT coordinates")),
                }
            },
            _ => Err(string_from_str("Invalid CARTESIAN_POINT coordinates")),
        }
    }

    fn geometry_message(&self, id: u64) -> (r: Option<String>)
        ensures
            match r {
                Some(m) => self.inputs().geometry.contains_key(id) && m@ == self.inputs().geometry[id],
                None => !self.inputs().geometry.contains_key(id),
            },
    {
        broadcast use vstd::std_specs::hash::group_hash_axioms;
        match self.geometry.get(&id) {
            Some(m) => Some(string_from_str(m.as_str())),
            None => None,
        }
    }

    fn point_ok(&self, id: u64) -> (r: Result<(), String>)
        requires
            self.points_cover(),
        ensures
            match point_check(self.inputs(), id) {
                Ok(_) => r is Ok,
                Err(m) => r matches Err(s) && s@ == m,
            },
    {
        match self.point(id) {
            Ok(_) => Ok(()),
            Err(m) => Err(m),
        }
    }

    fn direction(&self, id: u64) -> (r: Result<(), String>)
        ensures
            match direction_outcome(self.inputs(), id) {
                Ok(_) => r is Ok,
                Err(m) => r matches Err(s) && s@ == m,
            },
    {
        let e = match self.entity(id) {
            Some(e) => e,
            None => {
                return Err(not_found_message(id));
            },
        };
        if e.attributes.len() < 2 {
            return Err(string_from_str("DIRECTION missing attributes"));
        }
        match &e.attributes[1] {
            StepAttribute::List(_) => Ok(()),
            _ => Err(string_from_str("Invalid DIRECTION ratios")),
        }
    }

    fn placement(&self, id: u64, with_ref: bool) -> (r: Result<(), String>)
        requires
            self.points_cover(),
        ensures
            match placement_outcome(self.inputs(), id, with_ref) {
                Ok(_) => r is Ok,
                Err(m) => r matches Err(s) && s@ == m,
            },
    {
        let e = match self.entity(id) {
            Some(e) => e,
            None => {
                return Err(not_found_message(id));
            },
        };
        let needed: usize = if with_ref { 4 } else { 3 };
        if e.attributes.len() < needed {
            return Err(string_from_str("AXIS2_PLACEMENT_3D missing attributes"));
        }
        let loc = match attr_reference(&e.attributes[1]) {
            Some(r) => r,
            None => {
                return Err(string_from_str("Invalid location reference"));
            },
        };
        let axis = match attr_reference(&e.attributes[2]) {
            Some(r) => r,
            None => {
                return Err(string_from_str("Invalid axis reference"));
            },
        };
        let mut refd: u64 = 0;
        if with_ref {
            refd = match attr_reference(&e.attributes[3]) {
                Some(r) => r,
                None => {
                    return Err(string_from_str("Invalid ref_direction reference"));
                },
            };
        }
        self.point_ok(loc)?;
        self.direction(axis)?;
        if with_ref {
            self.direction(refd)?;
        }
        Ok(())
    }

    fn verdict(&self, id: u64) -> (r: Result<(), String>)
        ensures
            match geometry_verdict(self.inputs(), id) {
                Ok(_) => r is Ok,
                Err(m) => r matches Err(s) && s@ == m,
            },
    {
        match self.geometry_message(id) {
            Some(m) => Err(m),
            None => Ok(()),
        }
    }

    fn curve(&self, id: u64) -> (r: Result<(), String>)
        requires
            self.points_cover(),
        ensures
            match curve_outcome(self.inputs(), id) {
                Ok(_) => r is Ok,
                Err(m) => r matches Err(s) && s@ == m,
            },
    {
        let e = match self.entity(id) {
            Some(e) => e,
            None => {
                return Err(not_found_message(id));
            },
        };
        let t = chars_of(e.entity_type.as_str());
        if eq_literal(t.as_slice(), "LINE") {
            if e.attributes.len() < 3 {
                return Err(string_from_str("LINE missing attributes"));
            }
            let p = match attr_reference(&e.attributes[1]) {
                Some(r) => r,
                None => {
                    return Err(string_from_str("Invalid point reference"));
                },
            };
            let d = match attr_reference(&e.attributes[2]) {
                Some(r) => r,
                None => {
                    return Err(string_from_str("Invalid direction reference"));
                },
            };
            self.point_ok(p)?;
            self.direction(d)?;
            self.verdict(id)
        } else if eq_literal(t.as_slice(), "CIRCLE") {
            if e.attributes.len() < 3 {
                return Err(string_from_str("CIRCLE missing attributes"));
            }
            let p = match attr_reference(&e.attributes[1]) {
                Some(r) => r,
                None => {
                    return Err(string_from_str("Invalid position reference"));
                },
            };
            if !attr_number(&e.attributes[2]) {
                return Err(string_from_str("Invalid radius"));
            }
            self.placement(p, false)?;
            self.verdict(id)
        } else if eq_literal(t.as_slice(), "B_SPLINE_CURVE_WITH_KNOTS") {
            Err(string_from_str("B-spline curves not yet implemented"))
        } else {
            Err(prefixed("Unsupported curve type: ", &e.entity_type))
        }
    }

    fn surface(&self, id: u64) -> (r: Result<(), String>)
        requires
            self.points_cover(),
        ensures
            match surface_outcome(self.inputs(), id) {
                Ok(_) => r is Ok,
                Err(m) => r matches Err(s) && s@ == m,
            },
    {
        let e = match self.entity(id) {
            Some(e) => e,
            None => {
                return Err(not_found_message(id));
            },
        };
        let t = chars_of(e.entity_type.as_str());
        let p = if eq_literal(t.as_slice(), "PLANE") {
            if e.attributes.len() < 2 {
                return Err(string_from_str("PLANE missing attributes"));
            }
            match attr_reference(&e.attributes[1]) {
                Some(r) => r,
                None => {
                    return Err(string_from_str("Invalid position reference"));
                },
            }
        } else if eq_literal(t.as_slice(), "CYLINDRICAL_SURFACE") || eq_literal(t.as_slice(), "SPHERICAL_SURFACE") {
            if e.attributes.len() < 3 {
                let mut m = t.clone();
                push_str(&mut m, " missing attributes");
                return Err(string_from_chars(m.as_slice()));
            }
            let r = match attr_reference(&e.attributes[1]) {
                Some(r) => r,
                None => {
                    return Err(string_from_str("Invalid position reference"));
                },
            };
            if !attr_number(&e.attributes[2]) {
                return Err(string_from_str("Invalid radius"));
            }
            r
        } else if eq_literal(t.as_slice(), "CONICAL_SURFACE") {
            if e.attributes.len() < 4 {
                return Err(string_from_str("CONICAL_SURFACE missing attributes"));
            }
            let r = match attr_reference(&e.attributes[1]) {
                Some(r) => r,
                None => {
                    return Err(string_from_str("Invalid position reference"));
                },
            };
            if !attr_number(&e.attributes[2]) {
                return Err(string_from_str("Invalid radius"));
            }
            if !attr_number(&e.attributes[3]) {
                return Err(string_from_str("Invalid semi_angle"));
            }
            r
        } else {
            return Err(prefixed("Unsupported surface type: ", &e.entity_type));
        };
        self.placement(p, true)?;
        self.verdict(id)
    }

    fn vertex(&mut self, ids: &mut EntityIdGenerator, id: u64) -> (r: Result<Vertex, String>)
        requires
            old(self).points_cover(),
        ensures
            final(self).inputs() == old(self).inputs(),
            final(self).points_cover(),
            ({
                let (sr, sst) = vertex_step(old(self).inputs(), id, old(self).state_at(old(ids).next_value()));
                &&& final(self).state_at(final(ids).next_value()) == sst
                &&& match sr {
                    Ok(v) => r matches Ok(x) && x@ == v,
                    Err(m) => r matches Err(x) && x@ == m,
                }
            }),
    {
        broadcast use vstd::std_specs::hash::group_hash_axioms;
        match self.vertices.get(&id) {
            Some(v) => {
                let d = v.duplicate();
                assert(d@ == v@);
                return Ok(d);
            },
            None => {},
        }
        let e = match self.entity(id) {
            Some(e) => e,
            None => {
                return Err(not_found_message(id));
            },
        };
        if e.attributes.len() < 2 {
            return Err(string_from_str("VERTEX_POINT missing attributes"));
        }
        let g = match attr_reference(&e.attributes[1]) {
            Some(g) => g,
            None => {
                return Err(string_from_str("Invalid vertex geometry reference"));
            },
        };
        let p = match self.point(g) {
            Ok(p) => p,
            Err(m) => {
                return Err(m);
            },
        };
        let ghost before = self.vertices@;
        let v = Vertex::new(ids, p);
        let d = v.duplicate();
        assert(d@ == v@);
        assert(v@ == new_vertex_model(old(ids).next_value(), p));
        self.vertices.insert(id, d);
        assert(self.vertices@.map_values(|x: Vertex| x@) =~= before.map_values(|x: Vertex| x@).insert(id, v@));
        Ok(v)
    }

    fn edge(&mut self, ids: &mut EntityIdGenerator, id: u64) -> (r: Result<Edge, String>)
        requires
            old(self).points_cover(),
        ensures
            final(self).inputs() == old(self).inputs(),
            final(self).points_cover(),
            ({
                let (sr, sst) = edge_step(old(self).inputs(), id, old(self).state_at(old(ids).next_value()));
                &&& final(self).state_at(final(ids).next_value()) == sst
                &&& match sr {
                    Ok(v) => r matches Ok(x) && x@ == v,
                    Err(m) => r matches Err(x) && x@ == m,
                }
            }),
    {
        broadcast use vstd::std_specs::hash::group_hash_axioms;
        match self.edges.get(&id) {
            Some(ed) => {
                return Ok(ed.duplicate());
            },
            None => {},
        }
        let e = match self.entity(id) {
            Some(e) => e,
            None => {
                return Err(not_found_message(id));
            },
        };
        if e.attributes.len() < 5 {
            return Err(string_from_str("EDGE_CURVE missing attributes"));
        }
        let sref = match attr_reference(&e.attributes[1]) {
            Some(g) => g,
            None => {
                return Err(string_from_str("Invalid start vertex reference"));
            },
        };
        let eref = match attr_reference(&e.attributes[2]) {
            Some(g) => g,
            None => {
                return Err(string_from_str("Invalid end vertex reference"));
            },
        };
        let cref = match attr_reference(&e.attributes[3]) {
            Some(g) => g,
            None => {
                return Err(string_from_str("Invalid curve reference"));
            },
        };
        let start = match self.vertex(ids, sref) {
            Ok(v) => v,
            Err(m) => {
                return Err(m);
            },
        };
        let end = match self.vertex(ids, eref) {
            Ok(v) => v,
            Err(m) => {
                return Err(m);
            },
        };
        match self.curve(cref) {
            Ok(_) => {},
            Err(m) => {
                return Err(m);
            },
        }
        let ghost before = self.edges@;
        let ghost n2 = ids.next_value();
        let ed = Edge::new(ids, start, end);
        assert(ed@ == new_edge_model(n2, ed@.start, ed@.end));
        self.edges.insert(id, ed.duplicate());
        assert(self.edges@.map_values(|x: Edge| x@) =~= before.map_values(|x: Edge| x@).insert(id, ed@));
        Ok(ed)
    }

    fn oriented(&mut self, ids: &mut EntityIdGenerator, id: u64) -> (r: Result<(Edge, Sense), String>)
        requires
            old(self).points_cover(),
        ensures
            final(self).inputs() == old(self).inputs(),
            final(self).points_cover(),
            ({
                let (sr, sst) = oriented_step(old(self).inputs(), id, old(self).state_at(old(ids).next_value()));
                &&& final(self).state_at(final(ids).next_value()) == sst
                &&& match sr {
                    Ok((e, d)) => r matches Ok((x, y)) && x@ == e && y == d,
                    Err(m) => r matches Err(x) && x@ == m,
                }
            }),
    {
        let e = match self.entity(id) {
            Some(e) => e,
            None => {
                return Err(not_found_message(id));
            },
        };
        if e.attributes.len() < 3 {
            return Err(string_from_str("ORIENTED_EDGE missing attributes"));
        }
        let r = match attr_reference(&e.attributes[1]) {
            Some(g) => g,
            None => {
                return Err(string_from_str("Invalid edge reference"));
            },
        };
        let same = match &e.attributes[2] {
            StepAttribute::Boolean(b) => *b,
            _ => true,
        };
        let edge = match self.edge(ids, r) {
            Ok(x) => x,
            Err(m) => {
                return Err(m);
            },
        };
        Ok((edge, if same { Sense::Same } else { Sense::Opposite }))
    }

    fn coedges(&mut self, ids: &mut EntityIdGenerator, refs: &[StepAttribute]) -> (r: Result<Vec<Coedge>, String>)
        requires
            old(self).points_cover(),
        ensures
            final(self).inputs() == old(self).inputs(),
            final(self).points_cover(),
            ({
                let (sr, sst) = coedges_step(old(self).inputs(), attrs_model(refs@), 0, old(self).state_at(old(ids).next_value()), Seq::empty());
                &&& final(self).state_at(final(ids).next_value()) == sst
                &&& match sr {
                    Ok(cs) => r matches Ok(v) && v@.map_values(|c: Coedge| c@) == cs,
                    Err(m) => r matches Err(x) && x@ == m,
                }
            }),
    {
        let ghost inp = self.inputs();
        let ghost rm = attrs_model(refs@);
        proof {
            lemma_attrs_model_index(refs@);
        }
        let ghost whole = coedges_step(inp, rm, 0, self.state_at(ids.next_value()), Seq::empty());
        let mut out: Vec<Coedge> = Vec::new();
        assert(out@.map_values(|c: Coedge| c@) =~= Seq::<CoedgeModel>::empty());
        let mut i: usize = 0;
        while i < refs.len()
            invariant
                self.inputs() == inp,
                self.points_cover(),
                rm == attrs_model(refs@),
                rm.len() == refs@.len(),
                forall|j: int| 0 <= j < refs@.len() ==> #[trigger] rm[j] == refs@[j]@,
                i <= refs@.len(),
                inp == old(self).inputs(),
                whole == coedges_step(old(self).inputs(), rm, 0, old(self).state_at(old(ids).next_value()), Seq::empty()),
                coedges_step(inp, rm, i as int, self.state_at(ids.next_value()), out@.map_values(|c: Coedge| c@))
                    == whole,
            decreases refs.len() - i,
        {
            match attr_reference(&refs[i]) {
                None => {},
                Some(r) => {
                    let ghost before = out@;
                    match self.oriented(ids, r) {
                        Ok((e, sense)) => {
                            let c = Coedge::new(ids, e, sense);
                            out.push(c);
                            assert(out@.map_values(|c: Coedge| c@) =~= before.map_values(|c: Coedge| c@).push(c@));
                        },
                        Err(m) => {
                            return Err(m);
                        },
                    }
                },
            }
            i = i + 1;
        }
        Ok(out)
    }

    fn edge_loop(&mut self, ids: &mut EntityIdGenerator, id: u64) -> (r: Result<Loop, String>)
        requires
            old(self).points_cover(),
        ensures
            final(self).inputs() == old(self).inputs(),
            final(self).points_cover(),
            ({
                let (sr, sst) = edge_loop_step(old(self).inputs(), id, old(self).state_at(old(ids).next_value()));
                &&& final(self).state_at(final(ids).next_value()) == sst
                &&& match sr {
                    Ok(l) => r matches Ok(x) && x@ == l,
                    Err(m) => r matches Err(x) && x@ == m,
                }
            }),
    {
        let e = match self.entity(id) {
            Some(e) => e,
            None => {
                return Err(not_found_message(id));
            },
        };
        if e.attributes.len() < 2 {
            return Err(string_from_str("EDGE_LOOP missing attributes"));
        }
        let refs = attr_item_list(&e.attributes[1]);
        let cs = match self.coedges(ids, refs) {
            Ok(c) => c,
            Err(m) => {
                return Err(m);
            },
        };
        Ok(Loop::from_coedges(ids, cs))
    }

    fn bound(&mut self, ids: &mut EntityIdGenerator, id: u64) -> (r: Result<Loop, String>)
        requires
            old(self).points_cover(),
        ensures
            final(self).inputs() == old(self).inputs(),
            final(self).points_cover(),
            ({
                let (sr, sst) = bound_step(old(self).inputs(), id, old(self).state_at(old(ids).next_value()));
                &&& final(self).state_at(final(ids).next_value()) == sst
                &&& match sr {
                    Ok(l) => r matches Ok(x) && x@ == l,
                    Err(m) => r matches Err(x) && x@ == m,
                }
            }),
    {
        let e = match self.entity(id) {
            Some(e) => e,
            None => {
                return Err(not_found_message(id));
            },
        };
        if e.attributes.len() < 3 {
            return Err(string_from_str("FACE_BOUND missing attributes"));
        }
        let r = match attr_reference(&e.attributes[1]) {
            Some(g) => g,
            None => {
                return Err(string_from_str("Invalid loop reference"));
            },
        };
        self.edge_loop(ids, r)
    }

    fn bounds(&mut self, ids: &mut EntityIdGenerator, refs: &[StepAttribute], face: &mut Face) -> (r: Result<(), String>)
        requires
            old(self).points_cover(),
        ensures
            final(self).inputs() == old(self).inputs(),
            final(self).points_cover(),
            final(face)@.id == old(face)@.id,
            final(face)@.orientation == old(face)@.orientation,
            ({
                let (sr, sst) = bounds_step(old(self).inputs(), attrs_model(refs@), 0, old(self).state_at(old(ids).next_value()), old(face)@.loops);
                &&& final(self).state_at(final(ids).next_value()) == sst
                &&& match sr {
                    Ok(ls) => r is Ok && final(face)@.loops == ls,
                    Err(m) => r matches Err(x) && x@ == m,
                }
            }),
    {
        let ghost inp = self.inputs();
        let ghost rm = attrs_model(refs@);
        proof {
            lemma_attrs_model_index(refs@);
        }
        let ghost whole = bounds_step(inp, rm, 0, self.state_at(ids.next_value()), face@.loops);
        let mut i: usize = 0;
        while i < refs.len()
            invariant
                self.inputs() == inp,
                self.points_cover(),
                rm == attrs_model(refs@),
                rm.len() == refs@.len(),
                forall|j: int| 0 <= j < refs@.len() ==> #[trigger] rm[j] == refs@[j]@,
                i <= refs@.len(),
                face@.id == old(face)@.id,
                face@.orientation == old(face)@.orientation,
                inp == old(self).inputs(),
                whole == bounds_step(old(self).inputs(), rm, 0, old(self).state_at(old(ids).next_value()), old(face)@.loops),
                bounds_step(inp, rm, i as int, self.state_at(ids.next_value()), face@.loops) == whole,
            decreases refs.len() - i,
        {
            match attr_reference(&refs[i]) {
                None => {},
                Some(r) => {
                    match self.bound(ids, r) {
                        Ok(l) => {
                            face.add_loop(l);
                        },
                        Err(m) => {
                            return Err(m);
                        },
                    }
                },
            }
            i = i + 1;
        }
        Ok(())
    }

    fn face(&mut self, ids: &mut EntityIdGenerator, id: u64) -> (r: Result<Face, String>)
        requires
            old(self).points_cover(),
        ensures
            final(self).inputs() == old(self).inputs(),
            final(self).points_cover(),
            ({
                let (sr, sst) = face_step(old(self).inputs(), id, old(self).state_at(old(ids).next_value()));
                &&& final(self).state_at(final(ids).next_value()) == sst
                &&& match sr {
                    Ok(f) => r matches Ok(x) && x@ == f,
                    Err(m) => r matches Err(x) && x@ == m,
                }
            }),
    {
        let e = match self.entity(id) {
            Some(e) => e,
            None => {
                return Err(not_found_message(id));
            },
        };
        if e.attributes.len() < 4 {
            return Err(string_from_str("ADVANCED_FACE missing attributes"));
        }
        let s = match attr_reference(&e.attributes[2]) {
            Some(g) => g,
            None => {
                return Err(string_from_str("Invalid surface reference"));
            },
        };
        let refs = attr_item_list(&e.attributes[1]);
        match self.surface(s) {
            Ok(_) => {},
            Err(m) => {
                return Err(m);
            },
        }
        let mut face = Face::new(ids);
        match self.bounds(ids, refs, &mut face) {
            Ok(_) => {},
            Err(m) => {
                return Err(m);
            },
        }
        Ok(face)
    }

    fn shell(&mut self, ids: &mut EntityIdGenerator, id: u64) -> (r: Result<Shell, String>)
        requires
            old(self).points_cover(),
        ensures
            final(self).inputs() == old(self).inputs(),
            final(self).points_cover(),
            ({
                let (sr, sst) = shell_step(old(self).inputs(), id, old(self).state_at(old(ids).next_value()));
                &&& final(self).state_at(final(ids).next_value()) == sst
                &&& match sr {
                    Ok(sh) => r matches Ok(x) && x@ == sh,
                    Err(m) => r matches Err(x) && x@ == m,
                }
            }),
    {
        let e = match self.entity(id) {
            Some(e) => e,
            None => {
                return Err(not_found_message(id));
            },
        };
        if e.attributes.len() < 2 {
            return Err(string_from_str("CLOSED_SHELL missing attributes"));
        }
        let refs = attr_item_list(&e.attributes[1]);
        let ghost inp = self.inputs();
        let ghost rm = attrs_model(refs@);
        proof {
            lemma_attrs_model_index(refs@);
        }
        let mut shell = Shell::new(ids);
        assert(self.state_at(ids.next_value()) == drawn(old(self).state_at(old(ids).next_value())));
        let ghost whole = faces_step(inp, rm, 0, self.state_at(ids.next_value()), Seq::empty());
        assert(shell@.faces =~= Seq::<FaceModel>::empty());
        let mut i: usize = 0;
        while i < refs.len()
            invariant
                self.inputs() == inp,
                self.points_cover(),
                rm == attrs_model(refs@),
                rm.len() == refs@.len(),
                forall|j: int| 0 <= j < refs@.len() ==> #[trigger] rm[j] == refs@[j]@,
                i <= refs@.len(),
                shell@.id.0 == old(ids).next_value(),
                shell@.is_outer,
                inp == old(self).inputs(),
                whole == faces_step(old(self).inputs(), rm, 0, drawn(old(self).state_at(old(ids).next_value())), Seq::empty()),
                shell_step(old(self).inputs(), id, old(self).state_at(old(ids).next_value())) == (match whole.0 {
                    Ok(f) => (Ok(ShellModel { id: EntityId(old(ids).next_value()), faces: f, is_outer: true }), whole.1),
                    Err(m) => (Err(m), whole.1),
                }),
                faces_step(inp, rm, i as int, self.state_at(ids.next_value()), shell@.faces) == whole,
            decreases refs.len() - i,
        {
            match attr_reference(&refs[i]) {
                None => {},
                Some(r) => {
                    match self.face(ids, r) {
                        Ok(f) => {
                            shell.add_face(f);
                        },
                        Err(m) => {
                            return Err(m);
                        },
                    }
                },
            }
            i = i + 1;
        }
        Ok(shell)
    }

    fn solid(&mut self, ids: &mut EntityIdGenerator, id: u64) -> (r: Result<Body, String>)
        requires
            old(self).points_cover(),
        ensures
            final(self).inputs() == old(self).inputs(),
            final(self).points_cover(),
            ({
                let (sr, sst) = solid_step(old(self).inputs(), id, old(self).state_at(old(ids).next_value()));
                &&& final(self).state_at(final(ids).next_value()) == sst
                &&& match sr {
                    Ok(b) => r matches Ok(x) && x@ == b,
                    Err(m) => r matches Err(x) && x@ == m,
                }
            }),
    {
        let e = match self.entity(id) {
            Some(e) => e,
            None => {
                return Err(not_found_message(id));
            },
        };
        if e.attributes.len() < 2 {
            return Err(string_from_str("MANIFOLD_SOLID_BREP missing attributes"));
        }
        let r = match attr_reference(&e.attributes[1]) {
            Some(g) => g,
            None => {
                return Err(string_from_str("Invalid outer shell reference"));
            },
        };
        let shell = match self.shell(ids, r) {
            Ok(x) => x,
            Err(m) => {
                return Err(m);
            },
        };
        let mut body = Body::new(ids);
        body.add_shell(shell);
        assert(body@.shells =~= seq![shell@]);
        Ok(body)
    }

    fn voided(&mut self, ids: &mut EntityIdGenerator, id: u64) -> (r: Result<Body, String>)
        requires
            old(self).points_cover(),
        ensures
            final(self).inputs() == old(self).inputs(),
            final(self).points_cover(),
            ({
                let (sr, sst) = voided_step(old(self).inputs(), id, old(self).state_at(old(ids).next_value()));
                &&& final(self).state_at(final(ids).next_value()) == sst
                &&& match sr {
                    Ok(b) => r matches Ok(x) && x@ == b,
                    Err(m) => r matches Err(x) && x@ == m,
                }
            }),
    {
        let e = match self.entity(id) {
            Some(e) => e,
            None => {
                return Err(not_found_message(id));
            },
        };
        if e.attributes.len() < 3 {
            return Err(string_from_str("BREP_WITH_VOIDS missing attributes"));
        }
        let r = match attr_reference(&e.attributes[1]) {
            Some(g) => g,
            None => {
                return Err(string_from_str("Invalid outer shell reference"));
            },
        };
        let refs = attr_item_list(&e.attributes[2]);
        let mut body = Body::new(ids);
        assert(self.state_at(ids.next_value()) == drawn(old(self).state_at(old(ids).next_value())));
        let outer = match self.shell(ids, r) {
            Ok(x) => x,
            Err(m) => {
                return Err(m);
            },
        };
        body.add_shell(outer);
        assert(body@.shells =~= seq![outer@]);
        let ghost inp = self.inputs();
        let ghost rm = attrs_model(refs@);
        proof {
            lemma_attrs_model_index(refs@);
        }
        let ghost whole = voids_step(inp, rm, 0, self.state_at(ids.next_value()), body@.shells);
        let ghost target = voided_step(old(self).inputs(), id, old(self).state_at(old(ids).next_value()));
        assert(target == (match whole.0 {
            Ok(sh) => (Ok(BodyModel { id: EntityId(old(ids).next_value()), shells: sh }), whole.1),
            Err(m) => (Err(m), whole.1),
        }));
        let mut i: usize = 0;
        while i < refs.len()
            invariant
                self.inputs() == inp,
                inp == old(self).inputs(),
                self.points_cover(),
                rm == attrs_model(refs@),
                rm.len() == refs@.len(),
                forall|j: int| 0 <= j < refs@.len() ==> #[trigger] rm[j] == refs@[j]@,
                i <= refs@.len(),
                body@.id.0 == old(ids).next_value(),
                target == voided_step(old(self).inputs(), id, old(self).state_at(old(ids).next_value())),
                target == (match whole.0 {
                    Ok(sh) => (Ok(BodyModel { id: EntityId(old(ids).next_value()), shells: sh }), whole.1),
                    Err(m) => (Err(m), whole.1),
                }),
                voids_step(inp, rm, i as int, self.state_at(ids.next_value()), body@.shells) == whole,
            decreases refs.len() - i,
        {
            match attr_reference(&refs[i]) {
                None => {},
                Some(r) => {
                    match self.shell(ids, r) {
                        Ok(sh) => {
                            body.add_shell(sh);
                        },
                        Err(m) => {
                            return Err(m);
                        },
                    }
                },
            }
            i = i + 1;
        }
        Ok(body)
    }

    fn solids(&mut self, ids: &mut EntityIdGenerator, order: &[u64], voids: bool, out: &mut Vec<Body>)
        requires
            old(self).points_cover(),
        ensures
            final(self).inputs() == old(self).inputs(),
            final(self).points_cover(),
            ({
                let (bs, sst) = solids_step(
                    old(self).inputs(),
                    order@,
                    voids,
                    0,
                    old(self).state_at(old(ids).next_value()),
                    old(out)@.map_values(|b: Body| b@),
                );
                &&& final(self).state_at(final(ids).next_value()) == sst
                &&& final(out)@.map_values(|b: Body| b@) == bs
            }),
    {
        let ghost inp = self.inputs();
        let ghost whole = solids_step(inp, order@, voids, 0, self.state_at(ids.next_value()), out@.map_values(|b: Body| b@));
        proof {
            reveal_strlit("MANIFOLD_SOLID_BREP");
            reveal_strlit("BREP_WITH_VOIDS");
        }
        let mut i: usize = 0;
        while i < order.len()
            invariant
                self.inputs() == inp,
                self.points_cover(),
                i <= order@.len(),
                solids_step(inp, order@, voids, i as int, self.state_at(ids.next_value()), out@.map_values(|b: Body| b@))
                    == whole,
            decreases order.len() - i,
        {
            let id = order[i];
            let (solid, voided) = match self.entity(id) {
                Some(e) => {
                    let t = chars_of(e.entity_type.as_str());
                    (eq_literal(t.as_slice(), "MANIFOLD_SOLID_BREP"), eq_literal(t.as_slice(), "BREP_WITH_VOIDS"))
                },
                None => (false, false),
            };
            let ghost before = out@;
            if !voids && solid {
                match self.solid(ids, id) {
                    Ok(b) => {
                        out.push(b);
                        assert(out@.map_values(|b: Body| b@) =~= before.map_values(|b: Body| b@).push(b@));
                    },
                    Err(_) => {},
                }
            } else if voids && voided {
                match self.voided(ids, id) {
                    Ok(b) => {
                        out.push(b);
                        assert(out@.map_values(|b: Body| b@) =~= before.map_values(|b: Body| b@).push(b@));
                    },
                    Err(_) => {},
                }
            }
            i = i + 1;
        }
    }
}

/// What a STEP import reads: the file's entities, the caller's point
/// positions and the caller's messages for curves and surfaces that cannot
/// be built.
pub open spec fn import_inputs(file: Map<u64, EntityModel>, points: Map<u64, PointBits>, geometry: Map<u64, String>) -> ImportInputs {
    ImportInputs { entities: file, points, geometry: geometry.map_values(|s: String| s@) }
}

/// Build bodies from a STEP file whose entities are walked in `order` (the
/// order in which the file's map of entities is walked): every
/// `MANIFOLD_SOLID_BREP` that can be built, in that order, or, when there is
/// none, every `BREP_WITH_VOIDS` that can be built. A solid that cannot be
/// built is left out. `points` gives the position of each point whose
/// coordinates are a list; `geometry` the message of each line, circle or
/// surface whose numbers do not make one.
pub fn convert_step_bodies(
    ids: &mut EntityIdGenerator,
    file: &StepFile,
    order: &[u64],
    points: &HashMap<u64, PointBits>,
    geometry: &HashMap<u64, String>,
) -> (r: IoResult<Vec<Body>>)
    requires
        points_cover(file@.entities, points@),
    ensures
        r matches Ok(bs) && bs@.map_values(|b: Body| b@) == import_bodies(
            import_inputs(file@.entities, points@, geometry@),
            order@,
            old(ids).next_value(),
        ).0,
        final(ids).next_value() == import_bodies(
            import_inputs(file@.entities, points@, geometry@),
            order@,
            old(ids).next_value(),
        ).1,
{
    let mut walk = StepToBreps::new(file, points, geometry);
    let ghost n = ids.next_value();
    let ghost inp = walk.inputs();
    assert(inp == import_inputs(file@.entities, points@, geometry@));
    assert(walk.state_at(n) == (ImportState { next: n, vertices: Map::empty(), edges: Map::empty() }));
    let mut bodies: Vec<Body> = Vec::new();
    assert(bodies@.map_values(|b: Body| b@) =~= Seq::<BodyModel>::empty());
    let ghost st0 = ImportState { next: n, vertices: Map::empty(), edges: Map::empty() };
    let ghost pass1 = solids_step(inp, order@, false, 0, st0, Seq::empty());
    walk.solids(ids, order, false, &mut bodies);
    assert(bodies@.map_values(|b: Body| b@) == pass1.0);
    assert(walk.state_at(ids.next_value()) == pass1.1);
    assert(walk.state_at(ids.next_value()).next == ids.next_value());
    if bodies.len() == 0 {
        assert(bodies@.map_values(|b: Body| b@) =~= Seq::<BodyModel>::empty());
        let ghost pass2 = solids_step(inp, order@, true, 0, pass1.1, Seq::empty());
        walk.solids(ids, order, true, &mut bodies);
        assert(bodies@.map_values(|b: Body| b@) == pass2.0);
        assert(walk.state_at(ids.next_value()) == pass2.1);
        assert(walk.state_at(ids.next_value()).next == ids.next_value());
    }
    Ok(bodies)
}

/// `order` lists each instance number of `entities` exactly once.
pub open spec fn lists_each_once(order: Seq<u64>, entities: Map<u64, EntityModel>) -> bool {
    order.to_set() == entities.dom() && order.no_duplicates()
}

/// The instance numbers of a file's entities, in the order in which the
/// file's map walks them.
pub fn entity_order(file: &StepFile) -> (r: Vec<u64>)
    ensures
        lists_each_once(r@, file@.entities),
{
    broadcast use vstd::std_specs::hash::group_hash_axioms;
    let ghost keys = vstd::std_specs::iter::IteratorSpec::remaining(&vstd::std_specs::hash::spec_keys_iter(&file.entities));
    let mut order: Vec<u64> = Vec::new();
    for k in it: file.entities.keys()
        invariant
            it.seq() == keys,
            order@.len() == it.index(),
            forall|i: int| 0 <= i < it.index() ==> order@[i] == *keys[i],
    {
        order.push(*k);
    }
    assert(order@ =~= keys.unref());
    proof {
        vstd::std_specs::hash::axiom_spec_keys_iter(&file.entities);
        assert(file@.entities.dom() =~= file.entities@.dom());
    }
    order
}


/// Build bodies from a STEP file, its entities walked in the order in which
/// the file's map of entities walks them (an order that lists each instance
/// number once; which one is the map's affair): every `MANIFOLD_SOLID_BREP`
/// that can be built or, when there is none, every `BREP_WITH_VOIDS` that can
/// be built.
pub fn read_step_bodies(
    ids: &mut EntityIdGenerator,
    file: &StepFile,
    points: &HashMap<u64, PointBits>,
    geometry: &HashMap<u64, String>,
) -> (r: IoResult<Vec<Body>>)
    requires
        points_cover(file@.entities, points@),
    ensures
        exists|order: Seq<u64>|
            #[trigger] lists_each_once(order, file@.entities)
            && (r matches Ok(bs) && bs@.map_values(|b: Body| b@) == import_bodies(
                import_inputs(file@.entities, points@, geometry@),
                order,
                old(ids).next_value(),
            ).0)
            && final(ids).next_value() == import_bodies(
                import_inputs(file@.entities, points@, geometry@),
                order,
                old(ids).next_value(),
            ).1,
{
    let order = entity_order(file);
    let r = convert_step_bodies(ids, file, order.as_slice(), points, geometry);
    assert(lists_each_once(order@, file@.entities));
    r
}

} // verus!
