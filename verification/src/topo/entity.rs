//! Entity identifiers and the traits shared by topological entities.
use vstd::prelude::*;
use crate::topo::Orientation;

verus! {

/// Unique entity identifier.
#[derive(Debug, Clone, Copy, PartialEq, Eq, Structural, Hash, PartialOrd, Ord)]
pub struct EntityId(pub u64);

impl EntityId {
    /// The invalid/null entity ID.
    pub fn null() -> (r: EntityId)
        ensures
            r.0 == 0,
    {
        EntityId(0)
    }

    /// Check if valid (non-null).
    pub fn is_valid(&self) -> (b: bool)
        ensures
            b == (self.0 != 0),
    {
        self.0 != 0
    }
}

impl Default for EntityId {
    fn default() -> (r: Self)
        ensures
            r.0 == 0,
    {
        EntityId::null()
    }
}

/// The source of fresh entity identifiers: each call of [`new_entity_id`]
/// hands out the next number, starting from 1.
#[derive(Debug)]
pub struct EntityIdGenerator {
    next: u64,
}

impl EntityIdGenerator {
    /// The number that the next identifier will carry.
    pub closed spec fn next_value(&self) -> u64 {
        self.next
    }

    /// A generator whose first identifier is 1.
    pub fn new() -> (g: Self)
        ensures
            g.next_value() == 1,
    {
        EntityIdGenerator { next: 1 }
    }

    /// The number that the next identifier will carry.
    pub fn peek(&self) -> (n: u64)
        ensures
            n == self.next_value(),
    {
        self.next
    }
}

/// The successor of a counter that wraps around after `u64::MAX`.
pub open spec fn counter_successor(n: u64) -> u64 {
    if n == u64::MAX {
        0
    } else {
        (n + 1) as u64
    }
}

/// The counter's value after `k` identifiers were drawn from `n`.
pub open spec fn id_after(n: u64, k: nat) -> u64 {
    ((n + k) % 0x1_0000_0000_0000_0000int) as u64
}

/// Drawing one more identifier moves the counter one step further.
pub proof fn lemma_id_after_step(n: u64, k: nat)
    ensures
        counter_successor(id_after(n, k)) == id_after(n, k + 1),
        id_after(n, 0) == n,
{
    let m = 0x1_0000_0000_0000_0000int;
    let r = (n + k) % m;
    assert((n + k) == (n + k) / m * m + r && 0 <= r < m) by (nonlinear_arith)
        requires m > 0, r == (n + k) % m;
    if r + 1 < m {
        assert((n + k + 1) % m == r + 1) by (nonlinear_arith)
            requires (n + k) == (n + k) / m * m + r, 0 <= r, r + 1 < m, m > 0;
    } else {
        assert((n + k + 1) % m == 0) by (nonlinear_arith)
            requires (n + k) == (n + k) / m * m + r, r + 1 == m, m > 0;
    }
    assert((n as int) % m == n as int);
}

/// Generate a new unique entity ID.
pub fn new_entity_id(ids: &mut EntityIdGenerator) -> (r: EntityId)
    ensures
        r.0 == old(ids).next_value(),
        final(ids).next_value() == counter_successor(old(ids).next_value()),
{
    let id = ids.next;
    ids.next = ids.next.wrapping_add(1);
    EntityId(id)
}

/// Two identifiers handed out one after the other by a generator that has
/// not reached the end of its range are different, and valid when the
/// generator started above zero.
pub proof fn lemma_successive_ids_distinct(first: u64, second: u64)
    requires
        first != u64::MAX,
        second == counter_successor(first),
    ensures
        first != second,
        first > 0 ==> second > 0,
        second > first,
{
}

/// Any two identifiers drawn from a generator, the `i`-th and the `j`-th
/// after it stood at `n`, differ when fewer than 2^64 draws lie between
/// them; while the counter has not wrapped they are `n + i` and `n + j`, in
/// increasing order, and valid when the generator started above zero.
pub proof fn lemma_drawn_ids_distinct(n: u64, i: nat, j: nat)
    requires
        i < j,
    ensures
        j - i < 0x1_0000_0000_0000_0000int ==> id_after(n, i) != id_after(n, j),
        n + j <= u64::MAX ==> id_after(n, i) == n + i && id_after(n, j) == n + j && id_after(n, i) < id_after(
            n,
            j,
        ),
        n > 0 && n + j <= u64::MAX ==> id_after(n, i) > 0 && id_after(n, j) > 0,
{
    let m = 0x1_0000_0000_0000_0000int;
    let a = n + i;
    let b = n + j;
    if j - i < m {
        assert(a % m != b % m) by (nonlinear_arith)
            requires
                0 <= a < b,
                b - a < m,
                m > 0,
        {
            if a % m == b % m {
                assert(a == (a / m) * m + a % m);
                assert(b == (b / m) * m + b % m);
                assert((b / m - a / m) * m == b - a);
            }
        }
    }
    if n + j <= u64::MAX {
        assert(a % m == a && b % m == b) by (nonlinear_arith)
            requires
                0 <= a < b < m,
                m > 0,
        ;
    }
}

/// Base trait for all entities.
pub trait Entity {
    /// Get the entity ID.
    fn id(&self) -> EntityId;

    /// Get the entity type name.
    fn entity_type(&self) -> &'static str;
}

/// Trait for geometric entities.
pub trait GeometricEntity: Entity {
    /// Type of geometric data.
    type GeomType;

    /// Get the geometry.
    fn geometry(&self) -> Option<&Self::GeomType>;

    /// Set the geometry.
    fn set_geometry(&mut self, geometry: Option<Self::GeomType>);
}

/// Trait for topological entities.
pub trait TopologicalEntity: Entity {
    /// Get the body this entity belongs to.
    fn body_id(&self) -> EntityId;

    /// Get the orientation.
    fn orientation(&self) -> Orientation;

    /// Set the orientation.
    fn set_orientation(&mut self, orientation: Orientation);
}

} // verus!
