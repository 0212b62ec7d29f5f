//! Tessellation: triangle meshes, the tessellator and its options, and
//! its errors. Coordinates are kept as the IEEE-754 bit patterns of their
//! `f64` values.
use vstd::prelude::*;
use crate::text::{prefixed, string_from_str};
use crate::topo::body::{Body, PointBits};

verus! {

/// Mesh vertex for tessellation.
#[derive(Debug, Clone, Copy, PartialEq)]
pub struct Vertex {
    /// Position
    pub position: PointBits,
    /// Normal, as the bit patterns of its components
    pub normal: PointBits,
    /// UV texture coordinates, as bit patterns
    pub uv: (u64, u64),
}

/// Triangle of a tessellated mesh.
#[derive(Debug, Clone, Copy)]
pub struct Triangle {
    /// Vertex indices
    pub indices: [u32; 3],
    /// Normal, as the bit patterns of its components
    pub normal: PointBits,
}

/// Tessellated mesh.
#[derive(Debug, Clone)]
pub struct Mesh {
    /// Vertices
    pub vertices: Vec<Vertex>,
    /// Triangles
    pub triangles: Vec<Triangle>,
}

impl Mesh {
    /// Create a new empty mesh.
    pub fn new() -> (m: Self)
        ensures
            m.vertices@ == Seq::<Vertex>::empty(),
            m.triangles@ == Seq::<Triangle>::empty(),
    {
        Mesh { vertices: Vec::new(), triangles: Vec::new() }
    }

    /// Add a vertex and return its index: the number of vertices before
    /// it, cut to 32 bits.
    pub fn add_vertex(&mut self, vertex: Vertex) -> (index: u32)
        ensures
            index == old(self).vertices@.len() as u32,
            final(self).vertices@ == old(self).vertices@.push(vertex),
            final(self).triangles@ == old(self).triangles@,
    {
        let index = self.vertices.len() as u32;
        self.vertices.push(vertex);
        index
    }

    /// Add a triangle.
    pub fn add_triangle(&mut self, i0: u32, i1: u32, i2: u32, normal: PointBits)
        ensures
            final(self).triangles@.len() == old(self).triangles@.len() + 1,
            final(self).triangles@.take(old(self).triangles@.len() as int) == old(self).triangles@,
            final(self).triangles@.last().indices@ == seq![i0, i1, i2],
            final(self).triangles@.last().normal == normal,
            final(self).vertices@ == old(self).vertices@,
    {
        let ghost before = self.triangles@;
        self.triangles.push(Triangle { indices: [i0, i1, i2], normal });
        assert(self.triangles@.take(before.len() as int) =~= before);
    }

    /// Clear the mesh.
    pub fn clear(&mut self)
        ensures
            final(self).vertices@ == Seq::<Vertex>::empty(),
            final(self).triangles@ == Seq::<Triangle>::empty(),
    {
        self.vertices.clear();
        self.triangles.clear();
    }
}

impl Default for Mesh {
    fn default() -> (m: Self)
        ensures
            m.vertices@ == Seq::<Vertex>::empty(),
            m.triangles@ == Seq::<Triangle>::empty(),
    {
        Mesh::new()
    }
}

/// Tessellation options, as the bit patterns of their `f64` values.
#[derive(Debug, Clone, Copy, PartialEq, Eq, Structural)]
pub struct TessellationOptions {
    /// Chord tolerance (maximum distance from curve to facet)
    pub chord_tolerance: u64,
    /// Angle tolerance (maximum angle between adjacent facets, in radians)
    pub angle_tolerance: u64,
    /// Minimum facet size
    pub min_facet_size: u64,
    /// Maximum facet size
    pub max_facet_size: u64,
}

/// The default options: chord tolerance `0.01`, angle tolerance 15 degrees
/// in radians, facet sizes from `0.001` to `100.0`.
pub open spec fn default_options() -> TessellationOptions {
    TessellationOptions {
        chord_tolerance: 0x3f847ae147ae147bu64,
        angle_tolerance: 0x3fd0c152382d7365u64,
        min_facet_size: 0x3f50624dd2f1a9fcu64,
        max_facet_size: 0x4059000000000000u64,
    }
}

impl Default for TessellationOptions {
    fn default() -> (o: Self)
        ensures
            o == default_options(),
    {
        TessellationOptions {
            chord_tolerance: 0x3f847ae147ae147bu64,
            angle_tolerance: 0x3fd0c152382d7365u64,
            min_facet_size: 0x3f50624dd2f1a9fcu64,
            max_facet_size: 0x4059000000000000u64,
        }
    }
}

/// Tessellator for B-Rep bodies.
#[derive(Debug)]
pub struct Tessellator {
    options: TessellationOptions,
}

impl Tessellator {
    /// Create a new tessellator with default options.
    pub fn new() -> (t: Self)
        ensures
            t.options() == default_options(),
    {
        Tessellator { options: TessellationOptions::default() }
    }

    /// The options the tessellator was made with.
    pub closed spec fn options(&self) -> TessellationOptions {
        self.options
    }

    /// Create a new tessellator with custom options.
    pub fn with_options(options: TessellationOptions) -> (t: Self)
        ensures
            t.options() == options,
    {
        Tessellator { options }
    }

    /// Tessellate a body into a mesh: no faceting is done yet, so the
    /// mesh is empty.
    pub fn tessellate(&self, body: &Body) -> (r: TessResult<Mesh>)
        ensures
            r matches Ok(m) && m.vertices@.len() == 0 && m.triangles@.len() == 0,
    {
        Ok(Mesh::new())
    }

    /// Tessellate with custom options, which are not used yet.
    pub fn tessellate_with_options(&self, body: &Body, options: TessellationOptions) -> (r: TessResult<Mesh>)
        ensures
            r matches Ok(m) && m.vertices@.len() == 0 && m.triangles@.len() == 0,
    {
        self.tessellate(body)
    }
}

impl Default for Tessellator {
    fn default() -> (t: Self)
        ensures
            t.options() == default_options(),
    {
        Tessellator::new()
    }
}

/// Tessellate a body with default options.
pub fn tessellate_body(body: &Body) -> (r: TessResult<Mesh>)
    ensures
        r matches Ok(m) && m.vertices@.len() == 0 && m.triangles@.len() == 0,
{
    let tessellator = Tessellator::new();
    tessellator.tessellate(body)
}

/// Tessellate a body with custom options.
pub fn tessellate_body_with_options(body: &Body, options: TessellationOptions) -> (r: TessResult<Mesh>)
    ensures
        r matches Ok(m) && m.vertices@.len() == 0 && m.triangles@.len() == 0,
{
    let tessellator = Tessellator::new();
    tessellator.tessellate_with_options(body, options)
}

/// Tessellation errors.
#[derive(Debug, Clone, PartialEq, Eq)]
pub enum TessellationError {
    /// Invalid body
    InvalidBody,
    /// Numerical error
    NumericalError(String),
    /// Unsupported geometry
    UnsupportedGeometry,
}

/// Result type for tessellation operations.
pub type TessResult<T> = Result<T, TessellationError>;

impl TessellationError {
    /// The message of the error.
    pub open spec fn text(&self) -> Seq<char> {
        match self {
            TessellationError::InvalidBody => "Invalid body for tessellation"@,
            TessellationError::NumericalError(s) => "Numerical error: "@ + s@,
            TessellationError::UnsupportedGeometry => "Unsupported geometry type"@,
        }
    }

    /// The message of the error.
    pub fn to_string(&self) -> (r: String)
        ensures
            r@ == self.text(),
    {
        match self {
            TessellationError::InvalidBody => string_from_str("Invalid body for tessellation"),
            TessellationError::NumericalError(s) => prefixed("Numerical error: ", s),
            TessellationError::UnsupportedGeometry => string_from_str("Unsupported geometry type"),
        }
    }
}

} // verus!
