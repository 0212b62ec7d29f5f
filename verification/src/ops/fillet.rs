//! Fillet and chamfer requests: the operations, their options and the
//! engine's checks. Radii, distances and angles are kept as the IEEE-754 bit
//! patterns of their `f64` values.
use vstd::prelude::*;
use crate::text::{string_from_str, string_from_chars};
use crate::numbers::{decimal, push_decimal, push_str};
use crate::topo::body::{Body, Edge, EdgeModel};
use crate::topo::entity::{Entity, EntityId};
use crate::ops::{OpsError, OpsResult, not_supported};

verus! {

/// The bit pattern of the `f64` value `1.0`.
pub const ONE_BITS: u64 = 0x3ff0000000000000u64;

/// The bit pattern of the `f64` value `1000.0`.
pub const THOUSAND_BITS: u64 = 0x408f400000000000u64;

/// The bit pattern of the `f64` value `1e-6`.
pub const MICRO_BITS: u64 = 0x3eb0c6f7a0b5ed8du64;

/// Fillet operation.
#[derive(Debug)]
pub struct FilletOp {
    /// Edges to fillet
    pub edges: Vec<Edge>,
    /// Radius of the fillet
    pub radius: u64,
    /// Variable radius as (position, radius) pairs; overrides `radius`
    pub variable_radius: Option<Vec<(u64, u64)>>,
}

impl FilletOp {
    /// A fillet of constant radius.
    pub fn new(edges: Vec<Edge>, radius: u64) -> (op: Self)
        ensures
            op.edges@ == edges@,
            op.radius == radius,
            op.variable_radius.is_none(),
    {
        FilletOp { edges, radius, variable_radius: None }
    }

    /// A fillet of variable radius; the constant radius is `0.0`.
    pub fn with_variable_radius(edges: Vec<Edge>, radius_values: Vec<(u64, u64)>) -> (op: Self)
        ensures
            op.edges@ == edges@,
            op.radius == 0,
            op.variable_radius matches Some(v) && v@ == radius_values@,
    {
        FilletOp { edges, radius: 0, variable_radius: Some(radius_values) }
    }
}

/// Chamfer operation.
#[derive(Debug)]
pub struct ChamferOp {
    /// Edges to chamfer
    pub edges: Vec<Edge>,
    /// Distance along the first face
    pub distance1: u64,
    /// Distance along the second face (equal to the first when absent)
    pub distance2: Option<u64>,
    /// Chamfer angle in degrees (in place of a second distance)
    pub angle: Option<u64>,
}

impl ChamferOp {
    /// A chamfer with equal distances.
    pub fn new(edges: Vec<Edge>, distance: u64) -> (op: Self)
        ensures
            op.edges@ == edges@,
            op.distance1 == distance,
            op.distance2.is_none(),
            op.angle.is_none(),
    {
        ChamferOp { edges, distance1: distance, distance2: None, angle: None }
    }

    /// A chamfer with two distances.
    pub fn with_distances(edges: Vec<Edge>, d1: u64, d2: u64) -> (op: Self)
        ensures
            op.edges@ == edges@,
            op.distance1 == d1,
            op.distance2 == Some(d2),
            op.angle.is_none(),
    {
        ChamferOp { edges, distance1: d1, distance2: Some(d2), angle: None }
    }

    /// A chamfer with a distance and an angle in degrees.
    pub fn with_angle(edges: Vec<Edge>, distance: u64, angle_degrees: u64) -> (op: Self)
        ensures
            op.edges@ == edges@,
            op.distance1 == distance,
            op.distance2.is_none(),
            op.angle == Some(angle_degrees),
    {
        ChamferOp { edges, distance1: distance, distance2: None, angle: Some(angle_degrees) }
    }
}

/// Options for fillet creation.
#[derive(Debug, Clone, Copy, PartialEq, Eq, Structural)]
pub struct FilletOptions {
    /// Default radius
    pub default_radius: u64,
    /// Maximum radius allowed
    pub max_radius: u64,
    /// Minimum radius allowed
    pub min_radius: u64,
    /// Whether to propagate to tangent edges
    pub propagate_tangent: bool,
    /// Whether to trim input edges
    pub trim_edges: bool,
}

/// The default fillet options: radius `1.0`, allowed from `1e-6` to
/// `1000.0`, propagating to tangent edges and trimming the input edges.
pub open spec fn default_fillet_options() -> FilletOptions {
    FilletOptions {
        default_radius: ONE_BITS,
        max_radius: THOUSAND_BITS,
        min_radius: MICRO_BITS,
        propagate_tangent: true,
        trim_edges: true,
    }
}

impl FilletOptions {
    /// The default fillet options.
    pub fn new() -> (o: Self)
        ensures
            o == default_fillet_options(),
    {
        FilletOptions {
            default_radius: ONE_BITS,
            max_radius: THOUSAND_BITS,
            min_radius: MICRO_BITS,
            propagate_tangent: true,
            trim_edges: true,
        }
    }
}

impl Default for FilletOptions {
    fn default() -> (o: Self)
        ensures
            o == default_fillet_options(),
    {
        FilletOptions::new()
    }
}

/// Options for chamfer creation.
#[derive(Debug, Clone, Copy, PartialEq, Eq, Structural)]
pub struct ChamferOptions {
    /// Default distance
    pub default_distance: u64,
    /// Maximum distance allowed
    pub max_distance: u64,
    /// Whether to propagate to tangent edges
    pub propagate_tangent: bool,
}

/// The default chamfer options: distance `1.0`, at most `1000.0`, not
/// propagating to tangent edges.
pub open spec fn default_chamfer_options() -> ChamferOptions {
    ChamferOptions { default_distance: ONE_BITS, max_distance: THOUSAND_BITS, propagate_tangent: false }
}

impl ChamferOptions {
    /// The default chamfer options.
    pub fn new() -> (o: Self)
        ensures
            o == default_chamfer_options(),
    {
        ChamferOptions { default_distance: ONE_BITS, max_distance: THOUSAND_BITS, propagate_tangent: false }
    }
}

impl Default for ChamferOptions {
    fn default() -> (o: Self)
        ensures
            o == default_chamfer_options(),
    {
        ChamferOptions::new()
    }
}

/// Engine for fillet and chamfer operations.
#[derive(Debug, Clone, Copy)]
pub struct FilletEngine {
    /// Options for fillets
    pub fillet_options: FilletOptions,
    /// Options for chamfers
    pub chamfer_options: ChamferOptions,
}

impl FilletEngine {
    /// An engine with the default options.
    pub fn new() -> (e: Self)
        ensures
            e.fillet_options == default_fillet_options(),
            e.chamfer_options == default_chamfer_options(),
    {
        FilletEngine { fillet_options: FilletOptions::default(), chamfer_options: ChamferOptions::default() }
    }

    /// Apply a variable radius fillet along an edge: at least two radius
    /// values are needed, and the fillet itself is not available yet.
    pub fn variable_fillet(&self, body: &Body, edge: &Edge, radius_values: &[(u64, u64)]) -> (r: OpsResult<Body>)
        ensures
            radius_values@.len() < 2 ==> (r matches Err(OpsError::InvalidParameters(m))
                && m@ == "Variable fillet needs at least 2 radius values"@),
            radius_values@.len() >= 2 ==> not_supported(r, "Variable radius fillet not yet implemented"@),
    {
        if radius_values.len() < 2 {
            return Err(
                OpsError::InvalidParameters(string_from_str("Variable fillet needs at least 2 radius values")),
            );
        }
        Err(OpsError::NotSupported(string_from_str("Variable radius fillet not yet implemented")))
    }
}

impl Default for FilletEngine {
    fn default() -> (e: Self)
        ensures
            e.fillet_options == default_fillet_options(),
            e.chamfer_options == default_chamfer_options(),
    {
        FilletEngine::new()
    }
}

/// The message for an edge with `n` adjacent faces.
pub open spec fn adjacent_faces_message(n: nat) -> Seq<char> {
    "Edge has "@ + decimal(n) + " adjacent faces (expected 2)"@
}

/// The identifiers of the edges of `es` that can be filleted (exactly two
/// coedges, so two adjacent faces), in order.
pub open spec fn filletable(es: Seq<EdgeModel>) -> Seq<EntityId>
    decreases es.len(),
{
    if es.len() == 0 {
        Seq::empty()
    } else if es.last().coedges.len() == 2 {
        filletable(es.drop_last()).push(es.last().id)
    } else {
        filletable(es.drop_last())
    }
}

/// The edges of `es` that cannot be filleted, each with why, in order.
pub open spec fn not_filletable(es: Seq<EdgeModel>) -> Seq<(EntityId, Seq<char>)>
    decreases es.len(),
{
    if es.len() == 0 {
        Seq::empty()
    } else if es.last().coedges.len() == 2 {
        not_filletable(es.drop_last())
    } else {
        not_filletable(es.drop_last()).push((es.last().id, adjacent_faces_message(es.last().coedges.len())))
    }
}

/// The edges that can be filleted are exactly the edges with two coedges,
/// all of them, in order; the others are exactly the edges without two,
/// each with its count.
pub proof fn lemma_filletable_two_coedges(es: Seq<EdgeModel>)
    ensures
        filletable(es) == es.filter(|e: EdgeModel| e.coedges.len() == 2).map_values(|e: EdgeModel| e.id),
        not_filletable(es) == es.filter(|e: EdgeModel| e.coedges.len() != 2).map_values(
            |e: EdgeModel| (e.id, adjacent_faces_message(e.coedges.len())),
        ),
    decreases es.len(),
{
    reveal(Seq::filter);
    if es.len() > 0 {
        lemma_filletable_two_coedges(es.drop_last());
        let two = es.drop_last().filter(|e: EdgeModel| e.coedges.len() == 2);
        let other = es.drop_last().filter(|e: EdgeModel| e.coedges.len() != 2);
        assert(two.push(es.last()).map_values(|e: EdgeModel| e.id) =~= two.map_values(|e: EdgeModel| e.id).push(
            es.last().id,
        ));
        assert(other.push(es.last()).map_values(|e: EdgeModel| (e.id, adjacent_faces_message(e.coedges.len())))
            =~= other.map_values(|e: EdgeModel| (e.id, adjacent_faces_message(e.coedges.len()))).push(
            (es.last().id, adjacent_faces_message(es.last().coedges.len())),
        ));
    } else {
        assert(es.filter(|e: EdgeModel| e.coedges.len() == 2).map_values(|e: EdgeModel| e.id) =~= Seq::<EntityId>::empty());
        assert(es.filter(|e: EdgeModel| e.coedges.len() != 2).map_values(
            |e: EdgeModel| (e.id, adjacent_faces_message(e.coedges.len())),
        ) =~= Seq::<(EntityId, Seq<char>)>::empty());
    }
}

/// Which edges can be filleted. (The largest radius for each is measured
/// on the edges' curves, in floating point, by the caller.)
#[derive(Debug)]
pub struct FilletAnalysis {
    /// Edges that can be filleted
    pub valid_edges: Vec<EntityId>,
    /// Edges that would fail, with why
    pub invalid_edges: Vec<(EntityId, String)>,
    /// Estimated number of new faces
    pub new_face_count: usize,
}

/// Sort edges for a fillet: an edge can be filleted when it has exactly two
/// adjacent faces; every other edge is listed with the number it has. One
/// new face is expected for each edge that can be filleted.
pub fn analyze_fillet_edges(edges: &[Edge]) -> (r: FilletAnalysis)
    ensures
        r.valid_edges@ == filletable(edges@.map_values(|e: Edge| e@)),
        r.invalid_edges@.map_values(|p: (EntityId, String)| (p.0, p.1@)) == not_filletable(
            edges@.map_values(|e: Edge| e@),
        ),
        r.new_face_count == r.valid_edges@.len(),
        r.valid_edges@ == edges@.map_values(|e: Edge| e@).filter(|e: EdgeModel| e.coedges.len() == 2).map_values(
            |e: EdgeModel| e.id,
        ),
{
    proof {
        lemma_filletable_two_coedges(edges@.map_values(|e: Edge| e@));
    }
    let ghost es = edges@.map_values(|e: Edge| e@);
    let mut valid: Vec<EntityId> = Vec::new();
    let mut invalid: Vec<(EntityId, String)> = Vec::new();
    let mut i: usize = 0;
    while i < edges.len()
        invariant
            i <= edges@.len(),
            es == edges@.map_values(|e: Edge| e@),
            valid@ == filletable(es.take(i as int)),
            invalid@.map_values(|p: (EntityId, String)| (p.0, p.1@)) == not_filletable(es.take(i as int)),
            valid@.len() <= i,
        decreases edges@.len() - i,
    {
        assert(es.take(i + 1).drop_last() =~= es.take(i as int));
        assert(es.take(i + 1).last() == edges@[i as int]@);
        let e = &edges[i];
        let n = e.coedges().len();
        if n == 2 {
            valid.push(e.id());
        } else {
            let mut m: Vec<char> = Vec::new();
            push_str(&mut m, "Edge has ");
            push_decimal(&mut m, n as u64);
            push_str(&mut m, " adjacent faces (expected 2)");
            let ghost before = invalid@.map_values(|p: (EntityId, String)| (p.0, p.1@));
            invalid.push((e.id(), string_from_chars(m.as_slice())));
            assert(invalid@.map_values(|p: (EntityId, String)| (p.0, p.1@)) =~= before.push(
                (e@.id, adjacent_faces_message(n as nat)),
            ));
        }
        i = i + 1;
    }
    assert(es.take(edges@.len() as int) =~= es);
    let count = valid.len();
    FilletAnalysis { valid_edges: valid, invalid_edges: invalid, new_face_count: count }
}

} // verus!
