use std::collections::{HashMap, HashSet};

use nova_kernel::io::step_import::{entity_order, read_step_bodies};
use nova_kernel::io::step_model::{StepAttribute, StepFile};
use nova_kernel::io::step_read::StepReader;
use nova_kernel::topo::body::{Body, PointBits};
use nova_kernel::topo::entity::{Entity, EntityIdGenerator};
use nova_kernel::topo::Sense;

fn point(x: f64, y: f64, z: f64) -> PointBits {
    PointBits { x: x.to_bits(), y: y.to_bits(), z: z.to_bits() }
}

/// A triangle: points, vertices, lines, edges, oriented edges, one loop,
/// one planar face, one closed shell; `solid` is the line of the solid.
fn triangle_file(third_curve: &str, solid: &str) -> String {
    let mut s = String::from("ISO-10303-21;\nHEADER;\nFILE_NAME('t.step','',(''),(''),'','','');\nENDSEC;\nDATA;\n");
    s.push_str("#1=CARTESIAN_POINT('',(0.,0.,0.));\n");
    s.push_str("#2=CARTESIAN_POINT('',(1.,0.,0.));\n");
    s.push_str("#3=CARTESIAN_POINT('',(0.,1.,0.));\n");
    s.push_str("#11=VERTEX_POINT('',#1);\n#12=VERTEX_POINT('',#2);\n#13=VERTEX_POINT('',#3);\n");
    s.push_str("#21=LINE('',#1,#99);\n#22=LINE('',#2,#99);\n");
    s.push_str(third_curve);
    s.push_str("\n#99=DIRECTION('',(1.,0.,0.));\n#97=DIRECTION('',(0.,0.,1.));\n");
    s.push_str("#98=AXIS2_PLACEMENT_3D('',#1,#97,#99);\n#96=AXIS2_PLACEMENT_3D('',#1,#97);\n");
    s.push_str("#31=EDGE_CURVE('',#11,#12,#21,.T.);\n");
    s.push_str("#32=EDGE_CURVE('',#12,#13,#22,.T.);\n");
    s.push_str("#33=EDGE_CURVE('',#13,#11,#23,.T.);\n");
    s.push_str("#41=ORIENTED_EDGE('',#31,.T.);\n#42=ORIENTED_EDGE('',#32,.T.);\n#43=ORIENTED_EDGE('',#33,.F.);\n");
    s.push_str("#51=EDGE_LOOP('',(#41,#42,#43));\n");
    s.push_str("#61=FACE_OUTER_BOUND('',#51,.T.);\n");
    s.push_str("#71=PLANE('',#98);\n");
    s.push_str("#81=ADVANCED_FACE('',(#61),#71,.T.);\n");
    s.push_str("#91=CLOSED_SHELL('',(#81));\n");
    s.push_str(solid);
    s.push_str("\nENDSEC;\nEND-ISO-10303-21;\n");
    s
}

const LINE3: &str = "#23=LINE('',#3,#99);";

fn parsed(text: &str) -> StepFile {
    let reader = StepReader::new();
    assert!(reader.parse_readable(text));
    reader.parse(text).unwrap()
}

/// A position for every entity whose second attribute is a list, as the
/// import asks: the triangle's corners, and the origin for the others.
fn positions(file: &StepFile) -> HashMap<u64, PointBits> {
    let mut points = HashMap::new();
    for (id, e) in &file.entities {
        if e.attributes.len() >= 2 && matches!(e.attributes[1], StepAttribute::List(_)) {
            let p = match id {
                2 => point(1.0, 0.0, 0.0),
                3 => point(0.0, 1.0, 0.0),
                _ => point(0.0, 0.0, 0.0),
            };
            points.insert(*id, p);
        }
    }
    points
}

fn import(text: &str, geometry: &HashMap<u64, String>) -> (Vec<Body>, u64, u64) {
    let file = parsed(text);
    let points = positions(&file);
    let mut ids = EntityIdGenerator::new();
    let before = ids.peek();
    let bodies = read_step_bodies(&mut ids, &file, &points, geometry).unwrap();
    (bodies, before, ids.peek())
}

#[test]
fn step_import_builds_a_triangle_solid() {
    let text = triangle_file(LINE3, "#101=MANIFOLD_SOLID_BREP('solid',#91);");
    let (bodies, before, after) = import(&text, &HashMap::new());
    assert_eq!(bodies.len(), 1);
    let body = &bodies[0];
    assert_eq!(body.shells().len(), 1);
    assert!(body.shells()[0].is_outer());
    assert_eq!(body.faces().len(), 1);
    let face = body.faces()[0];
    assert_eq!(face.loops().len(), 1);
    let coedges = face.loops()[0].coedges();
    assert_eq!(coedges.len(), 3);
    assert_eq!(coedges[0].sense(), Sense::Same);
    assert_eq!(coedges[1].sense(), Sense::Same);
    // `.F.` reads as an enumeration, not a boolean, so the sense stays the same.
    assert_eq!(coedges[2].sense(), Sense::Same);
    // The vertex met twice is the one made the first time.
    assert_eq!(coedges[0].edge().end_vertex().id(), coedges[1].edge().start_vertex().id());
    assert_eq!(coedges[1].edge().end_vertex().id(), coedges[2].edge().start_vertex().id());
    assert_eq!(coedges[2].edge().end_vertex().id(), coedges[0].edge().start_vertex().id());
    assert_eq!(coedges[0].edge().start_vertex().position(), point(0.0, 0.0, 0.0));
    assert_eq!(coedges[0].edge().end_vertex().position(), point(1.0, 0.0, 0.0));
    assert_eq!(coedges[1].edge().end_vertex().position(), point(0.0, 1.0, 0.0));
    // Three vertices, three edges, three coedges, a loop, a face, a shell, a body.
    assert_eq!(after - before, 13);
}

#[test]
fn step_import_skips_a_solid_whose_curve_cannot_be_built() {
    let text = triangle_file("#23=B_SPLINE_CURVE_WITH_KNOTS('',3,(#1,#2));", "#101=MANIFOLD_SOLID_BREP('solid',#91);");
    let (bodies, _, _) = import(&text, &HashMap::new());
    assert!(bodies.is_empty());

    let text = triangle_file("#23=CIRCLE('',#96,2.5);", "#101=MANIFOLD_SOLID_BREP('solid',#91);");
    let mut geometry = HashMap::new();
    geometry.insert(23u64, "Circle radius must be positive".to_string());
    let (bodies, _, _) = import(&text, &geometry);
    assert!(bodies.is_empty());
    let (bodies, _, _) = import(&text, &HashMap::new());
    assert_eq!(bodies.len(), 1);
}

#[test]
fn step_import_skips_a_solid_with_a_missing_entity() {
    let text = triangle_file(
        LINE3,
        "#101=MANIFOLD_SOLID_BREP('solid',#91);\n#102=MANIFOLD_SOLID_BREP('broken',#999);",
    );
    let (bodies, _, _) = import(&text, &HashMap::new());
    assert_eq!(bodies.len(), 1);
    assert_eq!(bodies[0].faces().len(), 1);
}

#[test]
fn step_import_falls_back_to_breps_with_voids() {
    let text = triangle_file(LINE3, "#101=BREP_WITH_VOIDS('voided',#91,(#91));");
    let (bodies, _, _) = import(&text, &HashMap::new());
    assert_eq!(bodies.len(), 1);
    let shells = bodies[0].shells();
    assert_eq!(shells.len(), 2);
    // Both shells reach the same edges, made once.
    let e0 = shells[0].faces()[0].loops()[0].coedges()[0].edge().id();
    let e1 = shells[1].faces()[0].loops()[0].coedges()[0].edge().id();
    assert_eq!(e0, e1);
    assert_ne!(shells[0].faces()[0].id(), shells[1].faces()[0].id());
}

#[test]
fn step_import_prefers_manifold_solids() {
    let text = triangle_file(
        LINE3,
        "#101=BREP_WITH_VOIDS('voided',#91,(#91));\n#102=MANIFOLD_SOLID_BREP('solid',#91);",
    );
    let (bodies, _, _) = import(&text, &HashMap::new());
    assert_eq!(bodies.len(), 1);
    assert_eq!(bodies[0].shells().len(), 1);
}

#[test]
fn step_import_of_a_file_without_solids_is_empty() {
    let text = "ISO-10303-21;\nHEADER;\nENDSEC;\nDATA;\n#1=CARTESIAN_POINT('',(0.,0.,0.));\nENDSEC;\nEND-ISO-10303-21;\n";
    let (bodies, before, after) = import(text, &HashMap::new());
    assert!(bodies.is_empty());
    assert_eq!(before, after);
}

#[test]
fn entity_order_lists_each_entity_once() {
    let text = triangle_file(LINE3, "#101=MANIFOLD_SOLID_BREP('solid',#91);");
    let file = parsed(&text);
    let order = entity_order(&file);
    assert_eq!(order.len(), file.entities.len());
    let set: HashSet<u64> = order.iter().copied().collect();
    assert_eq!(set.len(), order.len());
    assert!(file.entities.keys().all(|k| set.contains(k)));
}

#[test]
fn step_import_skips_a_solid_whose_line_lacks_its_direction() {
    let text = triangle_file("#23=LINE('',#3,#95);", "#101=MANIFOLD_SOLID_BREP('solid',#91);");
    let (bodies, _, _) = import(&text, &HashMap::new());
    assert!(bodies.is_empty());
    let text = triangle_file("#23=CIRCLE('',#96,#1);", "#101=MANIFOLD_SOLID_BREP('solid',#91);");
    let (bodies, _, _) = import(&text, &HashMap::new());
    assert!(bodies.is_empty());
}
