use nova_kernel::tess::{tessellate_body, tessellate_body_with_options, Mesh, TessellationOptions, Tessellator, Vertex};
use nova_kernel::topo::body::{Body, PointBits};
use nova_kernel::topo::entity::EntityIdGenerator;

fn bits(x: f64, y: f64, z: f64) -> PointBits {
    PointBits { x: x.to_bits(), y: y.to_bits(), z: z.to_bits() }
}

#[test]
fn test_mesh_creation() {
    let mut mesh = Mesh::new();

    let v0 = mesh.add_vertex(Vertex {
        position: bits(0.0, 0.0, 0.0),
        normal: bits(0.0, 0.0, 1.0),
        uv: (0.0f64.to_bits(), 0.0f64.to_bits()),
    });

    let v1 = mesh.add_vertex(Vertex {
        position: bits(1.0, 0.0, 0.0),
        normal: bits(0.0, 0.0, 1.0),
        uv: (1.0f64.to_bits(), 0.0f64.to_bits()),
    });

    let v2 = mesh.add_vertex(Vertex {
        position: bits(0.5, 1.0, 0.0),
        normal: bits(0.0, 0.0, 1.0),
        uv: (0.5f64.to_bits(), 1.0f64.to_bits()),
    });

    mesh.add_triangle(v0, v1, v2, bits(0.0, 0.0, 1.0));

    assert_eq!(mesh.vertices.len(), 3);
    assert_eq!(mesh.triangles.len(), 1);
}

#[test]
fn test_tessellator_creation() {
    let tess = Tessellator::new();
    let mut ids = EntityIdGenerator::new();
    let _mesh = tess.tessellate(&Body::new(&mut ids));
}

#[test]
fn mesh_indices_and_clearing() {
    let mut mesh = Mesh::default();
    let v = Vertex { position: bits(1.0, 2.0, 3.0), normal: bits(0.0, 0.0, 1.0), uv: (0, 0) };
    assert_eq!(mesh.add_vertex(v), 0);
    assert_eq!(mesh.add_vertex(v), 1);
    assert_eq!(mesh.add_vertex(v), 2);
    mesh.add_triangle(2, 0, 1, bits(0.0, 0.0, -1.0));
    assert_eq!(mesh.triangles[0].indices, [2, 0, 1]);
    assert_eq!(mesh.vertices[1].position, bits(1.0, 2.0, 3.0));
    mesh.clear();
    assert!(mesh.vertices.is_empty() && mesh.triangles.is_empty());
    assert_eq!(mesh.add_vertex(v), 0);
}

#[test]
fn tessellation_gives_empty_meshes() {
    let defaults = TessellationOptions::default();
    assert_eq!(f64::from_bits(defaults.chord_tolerance), 0.01);
    assert_eq!(f64::from_bits(defaults.angle_tolerance), 15.0f64.to_radians());
    assert_eq!(f64::from_bits(defaults.min_facet_size), 0.001);
    assert_eq!(f64::from_bits(defaults.max_facet_size), 100.0);
    let mut ids = EntityIdGenerator::new();
    let body = Body::new(&mut ids);
    let m = tessellate_body(&body).unwrap();
    assert!(m.vertices.is_empty() && m.triangles.is_empty());
    let custom = TessellationOptions { chord_tolerance: 0.1f64.to_bits(), ..defaults };
    let m = tessellate_body_with_options(&body, custom).unwrap();
    assert!(m.triangles.is_empty());
    let t = Tessellator::with_options(custom);
    assert!(t.tessellate(&body).unwrap().vertices.is_empty());
}
