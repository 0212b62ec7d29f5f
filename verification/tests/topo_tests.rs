use nova_kernel::topo::body::{Body, Coedge, Edge, Face, Loop, PointBits, Shell, Vertex};
use nova_kernel::topo::cube::build_cube;
use nova_kernel::topo::entity::{new_entity_id, Entity, EntityId, EntityIdGenerator, GeometricEntity};
use nova_kernel::topo::euler::EulerOps;
use nova_kernel::topo::euler_advanced::EulerAdvanced;
use nova_kernel::topo::validate::validate_body;
use nova_kernel::topo::{Orientation, Sense, TopologyError};

fn point(x: f64, y: f64, z: f64) -> PointBits {
    PointBits { x: x.to_bits(), y: y.to_bits(), z: z.to_bits() }
}

fn cube_corners(size: f64) -> [PointBits; 8] {
    let half = size / 2.0;
    [
        point(-half, -half, -half),
        point(half, -half, -half),
        point(half, half, -half),
        point(-half, half, -half),
        point(-half, -half, half),
        point(half, -half, half),
        point(half, half, half),
        point(-half, half, half),
    ]
}

fn triangle_face(ids: &mut EntityIdGenerator, a: &Vertex, b: &Vertex, c: &Vertex) -> Face {
    let mut face = Face::new(ids);
    let mut lp = Loop::new(ids);
    let e1 = Edge::new(ids, a.duplicate(), b.duplicate());
    lp.add_coedge(Coedge::new(ids, e1, Sense::Same));
    let e2 = Edge::new(ids, b.duplicate(), c.duplicate());
    lp.add_coedge(Coedge::new(ids, e2, Sense::Same));
    let e3 = Edge::new(ids, c.duplicate(), a.duplicate());
    lp.add_coedge(Coedge::new(ids, e3, Sense::Same));
    face.add_loop(lp);
    face
}

#[test]
fn test_entity_id() {
    let mut ids = EntityIdGenerator::new();
    let id1 = new_entity_id(&mut ids);
    let id2 = new_entity_id(&mut ids);
    assert_ne!(id1, id2);
}

#[test]
fn test_sense() {
    let same = Sense::Same;
    let opp = Sense::Opposite;

    assert!(same.is_same());
    assert!(opp.is_opposite());
    assert_eq!(same.reverse(), opp);
}

#[test]
fn orientation_reverses_back() {
    let fwd = Orientation::Forward;
    let rev = Orientation::Reversed;
    assert!(fwd.is_forward());
    assert!(rev.is_reversed());
    assert_eq!(fwd.reverse(), rev);
    assert_eq!(fwd.reverse().reverse(), fwd);
    assert_eq!(Orientation::default(), Orientation::Forward);
    assert_eq!(Sense::default(), Sense::Same);
}

#[test]
fn ids_count_up_from_one() {
    let mut ids = EntityIdGenerator::new();
    assert_eq!(ids.peek(), 1);
    assert_eq!(new_entity_id(&mut ids), EntityId(1));
    assert_eq!(new_entity_id(&mut ids), EntityId(2));
    assert!(EntityId(2).is_valid());
    assert!(!EntityId::null().is_valid());
    assert_eq!(EntityId::default(), EntityId(0));
}

#[test]
fn test_vertex() {
    let mut ids = EntityIdGenerator::new();
    let v = Vertex::new(&mut ids, point(1.0, 2.0, 3.0));
    assert_eq!(f64::from_bits(v.position().x), 1.0);
    assert_eq!(f64::from_bits(v.position().y), 2.0);
    assert_eq!(f64::from_bits(v.position().z), 3.0);
}

#[test]
fn vertex_edge_references() {
    let mut ids = EntityIdGenerator::new();
    let mut v = Vertex::new(&mut ids, point(0.0, 0.0, 0.0));
    v.add_edge(EntityId(7));
    v.add_edge(EntityId(7));
    v.add_edge(EntityId(9));
    assert_eq!(v.edges(), &[EntityId(7), EntityId(9)]);
    assert_eq!(v.degree(), 2);
    v.remove_edge(EntityId(7));
    assert_eq!(v.edges(), &[EntityId(9)]);
    assert_eq!(v.entity_type(), "Vertex");
    v.set_geometry(Some(point(4.0, 5.0, 6.0)));
    assert_eq!(f64::from_bits(v.position().x), 4.0);
    v.set_geometry(None);
    assert_eq!(f64::from_bits(v.position().y), 5.0);
}

#[test]
fn test_body() {
    let mut ids = EntityIdGenerator::new();
    let mut body = Body::new(&mut ids);
    let shell = Shell::new(&mut ids);
    body.add_shell(shell);
    assert!(body.is_solid());
    assert!(!body.is_empty());
}

#[test]
fn test_mvfs() {
    let mut ids = EntityIdGenerator::new();
    let (body, shell, face, vertex) = EulerOps::mvfs(&mut ids, point(0.0, 0.0, 0.0));
    assert!(!body.is_empty());
    assert!(shell.is_outer());
    assert!(face.loops().is_empty());
    assert_eq!(f64::from_bits(vertex.position().x), 0.0);
}

#[test]
fn test_build_cube() {
    let mut ids = EntityIdGenerator::new();
    let body = build_cube(&mut ids, cube_corners(10.0)).unwrap();

    assert_eq!(body.shells().len(), 1);
    assert_eq!(body.faces().len(), 6);

    let v = body.vertices().len();
    let e = body.edges().len();
    let f = body.faces().len();

    assert_eq!(v, 8);
    assert_eq!(e, 12);
    assert_eq!(f, 6);

    let euler = v as i32 - e as i32 + f as i32;
    assert_eq!(euler, 2);
}

#[test]
fn cube_passes_validation() {
    let mut ids = EntityIdGenerator::new();
    let body = build_cube(&mut ids, cube_corners(2.0)).unwrap();
    assert_eq!(validate_body(&body).unwrap(), Vec::<String>::new());
    for edge in body.edges() {
        assert_eq!(edge.coedges().len(), 2);
    }
    for vertex in body.vertices() {
        assert_eq!(vertex.edges().len(), 3);
    }
    assert_eq!(ids.peek(), 59);
}

#[test]
fn validation_reports_each_issue() {
    let mut ids = EntityIdGenerator::new();
    let (body, _shell, face, _vertex) = EulerOps::mvfs(&mut ids, point(0.0, 0.0, 0.0));
    assert_eq!(face.id(), EntityId(2));
    let issues = validate_body(&body).unwrap();
    assert_eq!(
        issues,
        vec![
            "Euler characteristic mismatch: V-E+F=1, expected 2 for 1 shell(s)".to_string(),
            "Face EntityId(2) has no loops".to_string(),
        ]
    );
}

#[test]
fn validation_reports_open_edges_and_lonely_vertices() {
    let mut ids = EntityIdGenerator::new();
    let a = Vertex::new(&mut ids, point(0.0, 0.0, 0.0));
    let b = Vertex::new(&mut ids, point(1.0, 0.0, 0.0));
    let c = Vertex::new(&mut ids, point(0.0, 1.0, 0.0));
    let face = triangle_face(&mut ids, &a, &b, &c);
    let body = EulerAdvanced::create_solid_from_faces(&mut ids, &[face]).unwrap();
    let issues = validate_body(&body).unwrap();
    assert_eq!(issues.len(), 1 + 3 + 3);
    assert_eq!(issues[0], "Euler characteristic mismatch: V-E+F=1, expected 2 for 1 shell(s)");
    assert_eq!(issues[1], "Edge EntityId(6) has 0 coedges (expected 2 for manifold)");
    assert_eq!(issues[4], "Vertex EntityId(1) has no edges");
}

#[test]
fn empty_body_has_no_issues() {
    let mut ids = EntityIdGenerator::new();
    let body = Body::new(&mut ids);
    assert!(validate_body(&body).unwrap().is_empty());
}

#[test]
fn test_create_solid_from_faces() {
    let mut ids = EntityIdGenerator::new();
    let v0 = Vertex::new(&mut ids, point(0.0, 0.0, 0.0));
    let v1 = Vertex::new(&mut ids, point(1.0, 0.0, 0.0));
    let v2 = Vertex::new(&mut ids, point(0.5, 1.0, 0.0));
    let v3 = Vertex::new(&mut ids, point(0.5, 0.33, 1.0));

    let mut faces = Vec::new();
    faces.push(triangle_face(&mut ids, &v0, &v1, &v2));
    faces.push(triangle_face(&mut ids, &v0, &v3, &v1));
    faces.push(triangle_face(&mut ids, &v1, &v3, &v2));
    faces.push(triangle_face(&mut ids, &v2, &v3, &v0));

    let body = EulerAdvanced::create_solid_from_faces(&mut ids, &faces).unwrap();

    assert!(!body.is_empty());
    let face_count: usize = body.shells().iter().map(|s| s.faces().len()).sum();
    assert_eq!(face_count, 4);
}

#[test]
fn mev_extends_the_first_loop() {
    let mut ids = EntityIdGenerator::new();
    let mut v = Vertex::new(&mut ids, point(0.0, 0.0, 0.0));
    let mut face = Face::new(&mut ids);
    let lp = Loop::new(&mut ids);
    face.add_loop(lp);
    let (edge, nv) = EulerOps::mev(&mut ids, &mut v, point(1.0, 0.0, 0.0), &mut face).unwrap();
    assert_eq!(nv.id(), EntityId(4));
    assert_eq!(edge.id(), EntityId(5));
    assert_eq!(edge.start_vertex().id(), v.id());
    assert_eq!(edge.end_vertex().id(), nv.id());
    assert_eq!(face.loops()[0].len(), 1);
    assert_eq!(face.loops()[0].coedges()[0].id(), EntityId(6));
    assert_eq!(face.loops()[0].coedges()[0].edge().id(), edge.id());

    let mut bare = Face::new(&mut ids);
    let _ = EulerOps::mev(&mut ids, &mut v, point(2.0, 0.0, 0.0), &mut bare).unwrap();
    assert!(bare.loops().is_empty());
}

#[test]
fn mef_kemr_mekr_and_jekv() {
    let mut ids = EntityIdGenerator::new();
    let a = Vertex::new(&mut ids, point(0.0, 0.0, 0.0));
    let b = Vertex::new(&mut ids, point(1.0, 0.0, 0.0));
    let c = Vertex::new(&mut ids, point(2.0, 0.0, 0.0));
    let mut face = Face::new(&mut ids);
    let (edge, new_face) = EulerOps::mef(&mut ids, &a, &b, &mut face).unwrap();
    assert_eq!(new_face.loops().len(), 1);
    assert_eq!(new_face.loops()[0].coedges()[0].edge().id(), edge.id());
    assert!(face.loops().is_empty());

    let ring = EulerOps::kemr(&mut ids, &edge, &mut face).unwrap();
    assert_eq!(face.loops().len(), 1);
    assert_eq!(face.loops()[0].id(), ring.id());

    let bridge = EulerOps::mekr(&mut ids, &a, &c, &mut face).unwrap();
    assert_eq!(bridge.start_vertex().id(), a.id());
    assert_eq!(bridge.end_vertex().id(), c.id());

    let e1 = Edge::new(&mut ids, a.duplicate(), b.duplicate());
    let e2 = Edge::new(&mut ids, b.duplicate(), c.duplicate());
    let joined = EulerOps::jekv(&mut ids, &b, &e1, &e2).unwrap();
    assert_eq!(joined.start_vertex().id(), a.id());
    assert_eq!(joined.end_vertex().id(), c.id());
}

#[test]
fn kfmrh_needs_a_face_in_the_shell() {
    let mut ids = EntityIdGenerator::new();
    let a = Vertex::new(&mut ids, point(0.0, 0.0, 0.0));
    let b = Vertex::new(&mut ids, point(1.0, 0.0, 0.0));
    let c = Vertex::new(&mut ids, point(0.0, 1.0, 0.0));
    let tri = triangle_face(&mut ids, &a, &b, &c);
    let mut empty = Shell::new(&mut ids);
    let before = ids.peek();
    let err = EulerOps::kfmrh(&mut ids, &tri, &mut empty).unwrap_err();
    assert_eq!(err, TopologyError::InvalidReference("Shell has no faces".to_string()));
    assert_eq!(err.to_string(), "Invalid entity reference: Shell has no faces");
    assert_eq!(ids.peek(), before);

    let mut shell = Shell::new(&mut ids);
    shell.add_face(tri.duplicate());
    let hole = EulerOps::kfmrh(&mut ids, &tri, &mut shell).unwrap();
    assert_eq!(hole.len(), 3);
    assert_eq!(hole.coedges()[1].id(), tri.loops()[0].coedges()[1].id());
}

#[test]
fn split_merge_and_holes() {
    let mut ids = EntityIdGenerator::new();
    let a = Vertex::new(&mut ids, point(0.0, 0.0, 0.0));
    let b = Vertex::new(&mut ids, point(1.0, 0.0, 0.0));
    let c = Vertex::new(&mut ids, point(0.0, 1.0, 0.0));
    let far = Vertex::new(&mut ids, point(5.0, 5.0, 5.0));
    let mut tri = triangle_face(&mut ids, &a, &b, &c);

    let (split, piece) = EulerAdvanced::split_face_by_edge(&mut ids, &mut tri, &a, &c).unwrap();
    assert_eq!(piece.loops()[0].coedges()[0].edge().id(), split.id());
    let err = EulerAdvanced::split_face_by_edge(&mut ids, &mut tri, &a, &far).unwrap_err();
    assert_eq!(err, TopologyError::InvalidReference("Vertices not found on the same loop".to_string()));

    let shared = tri.loops()[0].coedges()[0].edge().duplicate();
    let other = triangle_face(&mut ids, &a, &c, &far);
    let merged = EulerAdvanced::merge_faces(&mut ids, &tri, &other, &shared).unwrap();
    assert_eq!(merged.loops().len(), 1);
    assert_eq!(merged.loops()[0].id(), other.loops()[0].id());

    let too_few = EulerAdvanced::add_inner_loop(&mut ids, &mut tri, &[a.duplicate(), b.duplicate()]).unwrap_err();
    assert_eq!(too_few, TopologyError::InvalidReference("Inner loop must have at least 3 vertices".to_string()));
    assert_eq!(tri.loops().len(), 1);
    let first = ids.peek();
    let hole = EulerAdvanced::add_inner_loop(&mut ids, &mut tri, &[a.duplicate(), b.duplicate(), c.duplicate()]).unwrap();
    assert_eq!(hole.id(), EntityId(first));
    assert_eq!(hole.len(), 3);
    assert_eq!(hole.coedges()[2].edge().start_vertex().id(), c.id());
    assert_eq!(hole.coedges()[2].edge().end_vertex().id(), a.id());
    assert_eq!(tri.loops().len(), 2);
    assert_eq!(tri.inner_loops().len(), 1);
    assert_eq!(ids.peek(), first + 7);
}

#[test]
fn body_listings_count_each_entity_once() {
    let mut ids = EntityIdGenerator::new();
    let body = build_cube(&mut ids, cube_corners(1.0)).unwrap();
    assert_eq!(body.loops().len(), 6);
    assert_eq!(body.coedges().len(), 24);
    let edges = body.edges();
    for i in 0..edges.len() {
        for j in 0..edges.len() {
            if i != j {
                assert_ne!(edges[i].id(), edges[j].id());
            }
        }
    }
}

#[test]
fn test_extrude_face() {
    let mut ids = EntityIdGenerator::new();
    let v1 = Vertex::new(&mut ids, point(0.0, 0.0, 0.0));
    let v2 = Vertex::new(&mut ids, point(1.0, 0.0, 0.0));
    let v3 = Vertex::new(&mut ids, point(0.5, 1.0, 0.0));
    let profile = triangle_face(&mut ids, &v1, &v2, &v3);
    let tops = [point(0.0, 0.0, 2.0), point(1.0, 0.0, 2.0), point(0.5, 1.0, 2.0)];

    let body = EulerAdvanced::extrude_face(&mut ids, &profile, &tops).unwrap();

    let face_count: usize = body.shells().iter().map(|s| s.faces().len()).sum();
    assert_eq!(face_count, 5);
}

#[test]
fn extrusion_layout() {
    let mut ids = EntityIdGenerator::new();
    let a = Vertex::new(&mut ids, point(0.0, 0.0, 0.0));
    let b = Vertex::new(&mut ids, point(1.0, 0.0, 0.0));
    let c = Vertex::new(&mut ids, point(0.0, 1.0, 0.0));
    let profile = triangle_face(&mut ids, &a, &b, &c);
    let tops = [point(0.0, 0.0, 1.0), point(1.0, 0.0, 1.0), point(0.0, 1.0, 1.0)];
    let first = ids.peek();
    let body = EulerAdvanced::extrude_face(&mut ids, &profile, &tops).unwrap();
    assert_eq!(ids.peek(), first + 6 + 13 * 3);
    let faces = body.faces();
    assert_eq!(faces[0].loops()[0].coedges()[0].id(), profile.loops()[0].coedges()[0].id());
    let top_loop = &faces[1].loops()[0];
    assert_eq!(top_loop.len(), 3);
    assert_eq!(f64::from_bits(top_loop.coedges()[0].start_vertex().position().z), 1.0);
    let side = &faces[2].loops()[0];
    assert_eq!(side.len(), 4);
    assert_eq!(side.coedges()[0].start_vertex().id(), a.id());
    assert_eq!(side.coedges()[3].end_vertex().id(), a.id());

    let bare = Face::new(&mut ids);
    let before = ids.peek();
    let err = EulerAdvanced::extrude_face(&mut ids, &bare, &[]).unwrap_err();
    assert_eq!(err, TopologyError::InvalidReference("Face has no outer loop".to_string()));
    assert_eq!(ids.peek(), before + 2);
}

#[test]
fn revolution_layout() {
    let mut ids = EntityIdGenerator::new();
    let a = Vertex::new(&mut ids, point(1.0, 0.0, 0.0));
    let b = Vertex::new(&mut ids, point(2.0, 0.0, 0.0));
    let c = Vertex::new(&mut ids, point(2.0, 0.0, 1.0));
    let profile = triangle_face(&mut ids, &a, &b, &c);
    // three rings: the profile at 0, 90 and 180 degrees about the z axis
    let rings = vec![
        vec![point(1.0, 0.0, 0.0), point(2.0, 0.0, 0.0), point(2.0, 0.0, 1.0)],
        vec![point(0.0, 1.0, 0.0), point(0.0, 2.0, 0.0), point(0.0, 2.0, 1.0)],
        vec![point(-1.0, 0.0, 0.0), point(-2.0, 0.0, 0.0), point(-2.0, 0.0, 1.0)],
    ];
    let first = ids.peek();
    let body = EulerAdvanced::revolve_face(&mut ids, &profile, &rings, true).unwrap();
    // body, shell, 9 ring vertices, 6 quads of 10 ids, 2 caps of 2 + 2 * 3 ids
    assert_eq!(ids.peek(), first + 2 + 9 + 60 + 16);
    assert_eq!(body.id().0, first);
    assert_eq!(body.shells().len(), 1);
    let faces = body.faces();
    assert_eq!(faces.len(), 8);
    let q = &faces[4].loops()[0];
    assert_eq!(q.len(), 4);
    // quad 4: between ring 1 and ring 2, from vertex 1 to vertex 2
    assert_eq!(q.coedges()[0].start_vertex().id().0, first + 2 + 3 + 1);
    assert_eq!(q.coedges()[0].end_vertex().id().0, first + 2 + 3 + 2);
    assert_eq!(q.coedges()[1].end_vertex().id().0, first + 2 + 6 + 2);
    assert_eq!(q.coedges()[2].end_vertex().id().0, first + 2 + 6 + 1);
    assert_eq!(q.coedges()[3].end_vertex().id().0, first + 2 + 3 + 1);
    assert_eq!(faces[4].id().0, first + 11 + 40 + 9);
    assert_eq!(f64::from_bits(q.coedges()[1].end_vertex().position().x), -2.0);
    let start_cap = &faces[6].loops()[0];
    assert_eq!(start_cap.len(), 3);
    assert_eq!(start_cap.coedges()[2].end_vertex().id().0, first + 2);
    let end_cap = &faces[7].loops()[0];
    assert_eq!(end_cap.coedges()[0].start_vertex().id().0, first + 2 + 6);

    let open = EulerAdvanced::revolve_face(&mut ids, &profile, &rings, false).unwrap();
    assert_eq!(open.faces().len(), 6);
    let single = EulerAdvanced::revolve_face(&mut ids, &profile, &rings[..1], true).unwrap();
    assert_eq!(single.faces().len(), 2);

    let bare = Face::new(&mut ids);
    let before = ids.peek();
    let err = EulerAdvanced::revolve_face(&mut ids, &bare, &[], true).unwrap_err();
    assert_eq!(err, TopologyError::InvalidReference("Face has no outer loop".to_string()));
    assert_eq!(ids.peek(), before + 2);
}

#[test]
fn ids_drawn_at_any_distance_differ_and_increase() {
    let mut ids = EntityIdGenerator::new();
    let mut seen = Vec::new();
    for _ in 0..500 {
        seen.push(new_entity_id(&mut ids));
    }
    for i in 0..seen.len() {
        assert!(seen[i].is_valid());
        for j in (i + 1)..seen.len() {
            assert!(seen[i].0 < seen[j].0);
        }
    }
}
