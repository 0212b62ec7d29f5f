//! The decisions behind the C interface: its result codes, the registry of
//! body handles, and the checks made on handles and pointers before an
//! operation runs. Pointers themselves stay with the callers; here they are
//! only known as present or missing.
use vstd::prelude::*;
use std::collections::HashMap;
use crate::topo::body::DEFAULT_TOLERANCE_BITS;

verus! {

broadcast use vstd::std_specs::hash::group_hash_axioms;

/// The handle that names no body.
pub const NOVA_NULL_HANDLE: u64 = 0;

/// Result codes of the C interface.
#[derive(Debug, Clone, Copy, PartialEq, Eq, Structural)]
pub enum NovaResult {
    /// Success
    Success,
    /// Invalid handle
    InvalidHandle,
    /// Invalid parameter
    InvalidParameter,
    /// Out of memory
    OutOfMemory,
    /// Geometry error
    GeometryError,
    /// Topology error
    TopologyError,
    /// Not implemented
    NotImplemented,
    /// Unknown error
    UnknownError,
}

impl NovaResult {
    /// The number a C caller sees for a result.
    pub open spec fn code_spec(self) -> u32 {
        match self {
            NovaResult::Success => 0,
            NovaResult::InvalidHandle => 1,
            NovaResult::InvalidParameter => 2,
            NovaResult::OutOfMemory => 3,
            NovaResult::GeometryError => 4,
            NovaResult::TopologyError => 5,
            NovaResult::NotImplemented => 6,
            NovaResult::UnknownError => 7,
        }
    }

    /// The number a C caller sees for this result.
    pub fn code(&self) -> (c: u32)
        ensures
            c == self.code_spec(),
    {
        match self {
            NovaResult::Success => 0,
            NovaResult::InvalidHandle => 1,
            NovaResult::InvalidParameter => 2,
            NovaResult::OutOfMemory => 3,
            NovaResult::GeometryError => 4,
            NovaResult::TopologyError => 5,
            NovaResult::NotImplemented => 6,
            NovaResult::UnknownError => 7,
        }
    }
}

/// The outcome of an operation on `handles` whose pointer arguments are all
/// present or not: a null handle is reported first, then a missing
/// pointer, and only then the operation's own `outcome`.
pub open spec fn checked_outcome_spec(handles: Seq<u64>, pointers_present: bool, outcome: NovaResult) -> NovaResult {
    if handles.contains(NOVA_NULL_HANDLE) {
        NovaResult::InvalidHandle
    } else if !pointers_present {
        NovaResult::InvalidParameter
    } else {
        outcome
    }
}

/// The checks every entry point makes before it acts: see
/// [`checked_outcome_spec`].
pub fn checked_outcome(handles: &[u64], pointers_present: bool, outcome: NovaResult) -> (r: NovaResult)
    ensures
        r == checked_outcome_spec(handles@, pointers_present, outcome),
{
    let mut i: usize = 0;
    while i < handles.len()
        invariant
            i <= handles@.len(),
            forall|j: int| 0 <= j < i ==> handles@[j] != NOVA_NULL_HANDLE,
        decreases handles.len() - i,
    {
        if handles[i] == NOVA_NULL_HANDLE {
            assert(handles@[i as int] == NOVA_NULL_HANDLE);
            return NovaResult::InvalidHandle;
        }
        i = i + 1;
    }
    if !pointers_present {
        NovaResult::InvalidParameter
    } else {
        outcome
    }
}

/// The state behind the C interface: the global tolerance, the next handle
/// to give out, and the bodies registered under handles.
pub struct NovaContextModel {
    /// Bits of the `f64` tolerance
    pub tolerance: u64,
    /// The handle the next allocation gives
    pub next_handle: u64,
    /// The handles with a registered body
    pub bodies: Set<u64>,
}

/// Context for kernel operations called through the C interface.
#[derive(Debug)]
pub struct NovaContext {
    tolerance: u64,
    next_handle: u64,
    bodies: HashMap<u64, ()>,
}

impl View for NovaContext {
    type V = NovaContextModel;

    closed spec fn view(&self) -> NovaContextModel {
        NovaContextModel {
            tolerance: self.tolerance,
            next_handle: self.next_handle,
            bodies: self.bodies@.dom(),
        }
    }
}

impl NovaContext {
    /// Handles are given out from 1 on, so the null handle never is.
    #[verifier::type_invariant]
    spec fn handles_start_at_one(&self) -> bool {
        self.next_handle >= 1
    }

    /// A fresh context: tolerance `1e-6`, handles from 1 on, no bodies.
    pub fn new() -> (c: Self)
        ensures
            c@.tolerance == DEFAULT_TOLERANCE_BITS,
            c@.next_handle == 1,
            c@.bodies == Set::<u64>::empty(),
    {
        let c = NovaContext { tolerance: DEFAULT_TOLERANCE_BITS, next_handle: 1, bodies: HashMap::new() };
        assert(c@.bodies =~= Set::<u64>::empty());
        c
    }

    /// The global tolerance, as the bits of its `f64` value.
    pub fn tolerance(&self) -> (t: u64)
        ensures
            t == self@.tolerance,
    {
        self.tolerance
    }

    /// Set the global tolerance, given as the bits of its `f64` value.
    pub fn set_tolerance(&mut self, tolerance: u64)
        ensures
            final(self)@ == (NovaContextModel { tolerance, ..old(self)@ }),
    {
        proof {
            use_type_invariant(&*self);
        }
        self.tolerance = tolerance;
    }

    /// The handle the next allocation gives.
    pub fn next_handle(&self) -> (h: u64)
        ensures
            h == self@.next_handle,
            h != NOVA_NULL_HANDLE,
    {
        proof {
            use_type_invariant(self);
        }
        self.next_handle
    }

    /// Give out a new handle: the next one, which is never handed out again.
    pub fn allocate_handle(&mut self) -> (h: u64)
        requires
            old(self)@.next_handle < u64::MAX,
        ensures
            h == old(self)@.next_handle,
            h != NOVA_NULL_HANDLE,
            final(self)@ == (NovaContextModel { next_handle: (h + 1) as u64, ..old(self)@ }),
    {
        proof {
            use_type_invariant(&*self);
        }
        let handle = self.next_handle;
        self.next_handle = self.next_handle + 1;
        handle
    }

    /// Release a body handle: the null handle is refused, any other is
    /// dropped from the registry.
    pub fn release_body(&mut self, handle: u64) -> (r: NovaResult)
        ensures
            handle == NOVA_NULL_HANDLE ==> r == NovaResult::InvalidHandle && final(self)@ == old(self)@,
            handle != NOVA_NULL_HANDLE ==> r == NovaResult::Success && final(self)@ == (NovaContextModel {
                bodies: old(self)@.bodies.remove(handle),
                ..old(self)@
            }),
    {
        if handle == NOVA_NULL_HANDLE {
            return NovaResult::InvalidHandle;
        }
        proof {
            use_type_invariant(&*self);
        }
        let ghost before = self.bodies@;
        let mut bodies: HashMap<u64, ()> = HashMap::new();
        std::mem::swap(&mut bodies, &mut self.bodies);
        bodies.remove(&handle);
        self.bodies = bodies;
        assert(self.bodies@.dom() =~= before.dom().remove(handle));
        NovaResult::Success
    }
}

} // verus!
