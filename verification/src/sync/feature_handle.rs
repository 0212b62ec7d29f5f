//! Feature handles: the handles a recognised feature offers, their
//! bookkeeping, and the actions of a feature's widget. Where a handle sits,
//! how it points and how large it is are `f64` values, kept as their bit
//! patterns and computed by the caller.
use vstd::prelude::*;
use crate::topo::body::PointBits;
use crate::sync::error::{SyncError, SyncResult};
use crate::text::string_from_str;

verus! {

/// Types of feature handles.
#[derive(Debug, Clone, Copy, PartialEq, Eq, Structural)]
pub enum HandleType {
    /// Position handle (move the feature)
    Position,
    /// Size handle (resize)
    Size,
    /// Direction handle (change direction)
    Direction,
    /// Rotation handle
    Rotation,
    /// Depth handle (for holes/pockets)
    Depth,
    /// Radius handle (for fillets)
    Radius,
    /// Angle handle (for drafts/chamfers)
    Angle,
    /// Pattern count handle
    PatternCount,
    /// Pattern spacing handle
    PatternSpacing,
}

/// Actions available on a feature widget.
#[derive(Debug, Clone, Copy, PartialEq, Eq, Structural)]
pub enum WidgetAction {
    /// Move the feature
    Move,
    /// Resize
    Resize,
    /// Rotate
    Rotate,
    /// Delete
    Delete,
    /// Suppress
    Suppress,
    /// Edit parameters
    EditParams,
}

/// The kind of a recognised feature, as far as its handles depend on it.
#[derive(Debug, Clone, Copy, PartialEq, Eq, Structural)]
pub enum FeatureKind {
    /// Hole
    Hole,
    /// Pad (protrusion)
    Pad,
    /// Pocket (depression)
    Pocket,
    /// Slot
    Slot,
    /// Fillet
    Fillet,
    /// Chamfer
    Chamfer,
    /// Shell
    Shell,
    /// Draft
    Draft,
    /// Mirror feature
    Mirror,
    /// Pattern feature
    Pattern,
    /// Revolution
    Revolution,
    /// Sweep
    Sweep,
    /// Loft
    Loft,
}

/// The kind of a recognised feature's parameters.
#[derive(Debug, Clone, Copy, PartialEq, Eq, Structural)]
pub enum ParameterKind {
    /// Hole parameters (centre, axis, radius, depth)
    Hole,
    /// Extrusion parameters (direction, distance)
    Extrusion,
    /// Revolution parameters
    Revolution,
    /// Fillet parameters
    Fillet,
    /// Chamfer parameters
    Chamfer,
    /// Pattern parameters
    Pattern,
    /// Shell parameters
    Shell,
}

/// The handles a feature gets, in order: a hole with hole parameters gets a
/// position, a depth and a radius handle; a pad or pocket with extrusion
/// parameters a size handle; a fillet a radius handle; a chamfer a size
/// handle; a hole or pad or pocket with other parameters none; any other
/// feature one position handle.
pub open spec fn handle_kinds_spec(f: FeatureKind, p: ParameterKind) -> Seq<HandleType> {
    match f {
        FeatureKind::Hole => if p == ParameterKind::Hole {
            seq![HandleType::Position, HandleType::Depth, HandleType::Radius]
        } else {
            Seq::empty()
        },
        FeatureKind::Pad | FeatureKind::Pocket => if p == ParameterKind::Extrusion {
            seq![HandleType::Size]
        } else {
            Seq::empty()
        },
        FeatureKind::Fillet => seq![HandleType::Radius],
        FeatureKind::Chamfer => seq![HandleType::Size],
        _ => seq![HandleType::Position],
    }
}

/// The handles a feature gets, in order.
pub fn handle_kinds(f: FeatureKind, p: ParameterKind) -> (r: Vec<HandleType>)
    ensures
        r@ == handle_kinds_spec(f, p),
{
    let r = match f {
        FeatureKind::Hole => if p == ParameterKind::Hole {
            vec![HandleType::Position, HandleType::Depth, HandleType::Radius]
        } else {
            Vec::new()
        },
        FeatureKind::Pad | FeatureKind::Pocket => if p == ParameterKind::Extrusion {
            vec![HandleType::Size]
        } else {
            Vec::new()
        },
        FeatureKind::Fillet => vec![HandleType::Radius],
        FeatureKind::Chamfer => vec![HandleType::Size],
        _ => vec![HandleType::Position],
    };
    assert(r@ =~= handle_kinds_spec(f, p));
    r
}

/// Where a new handle sits, how it points and how large it is (bit
/// patterns of `f64` values).
#[derive(Debug, Clone, Copy, PartialEq, Eq, Structural)]
pub struct HandlePlacement {
    /// Handle position
    pub position: PointBits,
    /// Handle orientation
    pub orientation: PointBits,
    /// Visual size
    pub size: u64,
}

/// A feature handle for direct manipulation.
#[derive(Debug, Clone, Copy, PartialEq, Eq, Structural)]
pub struct FeatureHandle {
    /// Handle ID
    pub id: u64,
    /// The feature being manipulated
    pub feature_id: u64,
    /// Handle position
    pub position: PointBits,
    /// Handle orientation
    pub orientation: PointBits,
    /// Handle type
    pub handle_type: HandleType,
    /// Whether the handle is active
    pub active: bool,
    /// Visual size
    pub size: u64,
}

/// A new active handle.
pub open spec fn new_handle(id: u64, feature_id: u64, kind: HandleType, place: HandlePlacement) -> FeatureHandle {
    FeatureHandle {
        id,
        feature_id,
        position: place.position,
        orientation: place.orientation,
        handle_type: kind,
        active: true,
        size: place.size,
    }
}

/// The first handle of `hs` with identifier `id`.
pub open spec fn find_handle(hs: Seq<FeatureHandle>, id: u64) -> Option<FeatureHandle>
    decreases hs.len(),
{
    if hs.len() == 0 {
        None
    } else if hs[0].id == id {
        Some(hs[0])
    } else {
        find_handle(hs.drop_first(), id)
    }
}

/// The handles of `hs` that belong to the feature `feature_id`, in order.
pub open spec fn handles_of(hs: Seq<FeatureHandle>, feature_id: u64) -> Seq<FeatureHandle>
    decreases hs.len(),
{
    if hs.len() == 0 {
        Seq::empty()
    } else if hs.last().feature_id == feature_id {
        handles_of(hs.drop_last(), feature_id).push(hs.last())
    } else {
        handles_of(hs.drop_last(), feature_id)
    }
}

/// The handles of `hs` that do not belong to the feature `feature_id`, in
/// order.
pub open spec fn handles_without(hs: Seq<FeatureHandle>, feature_id: u64) -> Seq<FeatureHandle>
    decreases hs.len(),
{
    if hs.len() == 0 {
        Seq::empty()
    } else if hs.last().feature_id != feature_id {
        handles_without(hs.drop_last(), feature_id).push(hs.last())
    } else {
        handles_without(hs.drop_last(), feature_id)
    }
}

/// The handles of a feature are exactly the handles whose feature is that
/// one, all of them, in their order.
pub proof fn lemma_handles_of_are_the_features(hs: Seq<FeatureHandle>, feature_id: u64)
    ensures
        handles_of(hs, feature_id) == hs.filter(|h: FeatureHandle| h.feature_id == feature_id),
    decreases hs.len(),
{
    reveal(Seq::filter);
    if hs.len() > 0 {
        lemma_handles_of_are_the_features(hs.drop_last(), feature_id);
    }
}

/// Removing a feature's handles keeps exactly the handles of other
/// features, all of them, in their order: the list filtered by
/// `feature_id != removed`.
pub proof fn lemma_handles_without_keeps_the_others(hs: Seq<FeatureHandle>, feature_id: u64)
    ensures
        handles_without(hs, feature_id) == hs.filter(|h: FeatureHandle| h.feature_id != feature_id),
        forall|k: int| 0 <= k < handles_without(hs, feature_id).len()
            ==> (#[trigger] handles_without(hs, feature_id)[k]).feature_id != feature_id,
        forall|k: int| 0 <= k < hs.len() && (#[trigger] hs[k]).feature_id != feature_id
            ==> handles_without(hs, feature_id).contains(hs[k]),
    decreases hs.len(),
{
    reveal(Seq::filter);
    let f = |h: FeatureHandle| h.feature_id != feature_id;
    if hs.len() > 0 {
        lemma_handles_without_keeps_the_others(hs.drop_last(), feature_id);
    }
    assert(handles_without(hs, feature_id) == hs.filter(f));
    assert forall|k: int| 0 <= k < hs.len() && (#[trigger] hs[k]).feature_id != feature_id implies handles_without(hs, feature_id).contains(hs[k]) by {
        hs.lemma_filter_contains(f, k);
    }
    assert forall|k: int| 0 <= k < handles_without(hs, feature_id).len()
        implies (#[trigger] handles_without(hs, feature_id)[k]).feature_id != feature_id by {
        hs.lemma_filter_pred(f, k);
    }
}

/// Handle `h` after its feature moved: a position handle of the feature
/// goes to the hole's new centre, when there is one.
pub open spec fn moved_handle(h: FeatureHandle, feature_id: u64, center: Option<PointBits>) -> FeatureHandle {
    if h.feature_id == feature_id && h.handle_type == HandleType::Position && center is Some {
        FeatureHandle { position: center->0, ..h }
    } else {
        h
    }
}

/// The wall-clock time in milliseconds since the Unix epoch (zero for a
/// clock set before it), cut to 64 bits.
///
/// Trusted: calls `std::time::SystemTime::now` and `duration_since`; nothing
/// is claimed of the result, which is the time.
#[verifier::external_body]
fn now_millis() -> (t: u64) {
    std::time::SystemTime::now().duration_since(std::time::UNIX_EPOCH).unwrap_or_default().as_millis() as u64
}

/// What dragging a handle does to its feature; the amounts (the move, the
/// new size, the new direction) are `f64` work of the caller.
#[derive(Debug, Clone, Copy, PartialEq, Eq, Structural)]
pub enum DragEditKind {
    /// No edit
    NoEdit,
    /// Move the feature
    Move,
    /// Resize the radius (holes, fillets)
    ResizeRadius,
    /// Resize the depth (holes)
    ResizeDepth,
    /// Resize the height (pads, pockets)
    ResizeHeight,
    /// Change the direction
    ChangeDirection,
}

/// The edit that dragging a handle of type `t` on a feature of kind `f`
/// makes: a position handle moves the feature; a size, depth or radius
/// handle resizes a hole's radius (radius handle) or depth (the others), a
/// pad's or pocket's height, a fillet's radius, and nothing else; a
/// direction handle changes the direction; other handles do nothing.
pub open spec fn drag_edit_spec(t: HandleType, f: FeatureKind) -> DragEditKind {
    match t {
        HandleType::Position => DragEditKind::Move,
        HandleType::Size | HandleType::Depth | HandleType::Radius => match f {
            FeatureKind::Hole => if t == HandleType::Radius {
                DragEditKind::ResizeRadius
            } else {
                DragEditKind::ResizeDepth
            },
            FeatureKind::Pad | FeatureKind::Pocket => DragEditKind::ResizeHeight,
            FeatureKind::Fillet => DragEditKind::ResizeRadius,
            _ => DragEditKind::NoEdit,
        },
        HandleType::Direction => DragEditKind::ChangeDirection,
        _ => DragEditKind::NoEdit,
    }
}

/// The edit that dragging a handle of type `t` on a feature of kind `f`
/// makes.
pub fn drag_edit_kind(t: HandleType, f: FeatureKind) -> (r: DragEditKind)
    ensures
        r == drag_edit_spec(t, f),
{
    match t {
        HandleType::Position => DragEditKind::Move,
        HandleType::Size | HandleType::Depth | HandleType::Radius => match f {
            FeatureKind::Hole => if t == HandleType::Radius {
                DragEditKind::ResizeRadius
            } else {
                DragEditKind::ResizeDepth
            },
            FeatureKind::Pad | FeatureKind::Pocket => DragEditKind::ResizeHeight,
            FeatureKind::Fillet => DragEditKind::ResizeRadius,
            _ => DragEditKind::NoEdit,
        },
        HandleType::Direction => DragEditKind::ChangeDirection,
        _ => DragEditKind::NoEdit,
    }
}

/// A drag of a handle: the feature it edits, the edit, and where the handle
/// was before (from which the caller measures the drag).
#[derive(Debug, Clone, Copy, PartialEq, Eq, Structural)]
pub struct DragEdit {
    /// The feature being edited
    pub feature_id: u64,
    /// The edit
    pub kind: DragEditKind,
    /// The handle's position before the drag
    pub from: PointBits,
}

/// `hs` with the first handle of identifier `id` moved to `p`.
pub open spec fn moved_first(hs: Seq<FeatureHandle>, id: u64, p: PointBits) -> Seq<FeatureHandle>
    decreases hs.len(),
{
    if hs.len() == 0 {
        hs
    } else if hs[0].id == id {
        hs.update(0, FeatureHandle { position: p, ..hs[0] })
    } else {
        seq![hs[0]] + moved_first(hs.drop_first(), id, p)
    }
}

/// The bit pattern of the `f64` value `1.0`.
pub const HANDLE_SCALE_ONE: u64 = 0x3ff0000000000000u64;

/// The handles of the recognised features, and the one selected.
#[derive(Debug)]
pub struct FeatureHandleSystem {
    /// Active handles
    pub handles: Vec<FeatureHandle>,
    /// Selected handle
    pub selected: Option<u64>,
    /// Handle size scale (bit pattern of an `f64`)
    pub scale: u64,
}

impl FeatureHandleSystem {
    /// A system without handles, nothing selected, scale `1.0`.
    pub fn new() -> (r: Self)
        ensures
            r.handles@ == Seq::<FeatureHandle>::empty(),
            r.selected is None,
            r.scale == HANDLE_SCALE_ONE,
    {
        FeatureHandleSystem { handles: Vec::new(), selected: None, scale: HANDLE_SCALE_ONE }
    }

    /// Create the handles of a feature given the clock reading taken for
    /// each: handle `i` gets the identifier `readings[i]` plus the number of
    /// handles before it, and the kind and placement `i`. Returns the new
    /// identifiers.
    pub fn create_handles_at(
        &mut self,
        readings: &[u64],
        feature_id: u64,
        kind: FeatureKind,
        params: ParameterKind,
        placements: &[HandlePlacement],
    ) -> (ids: Vec<u64>)
        requires
            readings@.len() == handle_kinds_spec(kind, params).len(),
            placements@.len() == handle_kinds_spec(kind, params).len(),
            forall|i: int|
                0 <= i < readings@.len() ==> #[trigger] readings@[i] + old(self).handles@.len() + i <= u64::MAX,
        ensures
            ids@ == Seq::new(
                readings@.len(),
                |i: int| (readings@[i] + old(self).handles@.len() + i) as u64,
            ),
            final(self).handles@ == old(self).handles@ + Seq::new(
                readings@.len(),
                |i: int|
                    new_handle(
                        (readings@[i] + old(self).handles@.len() + i) as u64,
                        feature_id,
                        handle_kinds_spec(kind, params)[i],
                        placements@[i],
                    ),
            ),
            final(self).selected == old(self).selected,
            final(self).scale == old(self).scale,
    {
        let kinds = handle_kinds(kind, params);
        let ghost base = self.handles@;
        let ghost want_ids = Seq::new(readings@.len(), |i: int| (readings@[i] + base.len() + i) as u64);
        let ghost want = Seq::new(
            readings@.len(),
            |i: int|
                new_handle(
                    (readings@[i] + base.len() + i) as u64,
                    feature_id,
                    handle_kinds_spec(kind, params)[i],
                    placements@[i],
                ),
        );
        let mut ids: Vec<u64> = Vec::new();
        let mut i: usize = 0;
        while i < kinds.len()
            invariant
                i <= kinds@.len(),
                kinds@ == handle_kinds_spec(kind, params),
                readings@.len() == kinds@.len(),
                placements@.len() == kinds@.len(),
                forall|j: int| 0 <= j < readings@.len() ==> #[trigger] readings@[j] + base.len() + j <= u64::MAX,
                want_ids == Seq::new(readings@.len(), |i: int| (readings@[i] + base.len() + i) as u64),
                want == Seq::new(
                    readings@.len(),
                    |i: int|
                        new_handle(
                            (readings@[i] + base.len() + i) as u64,
                            feature_id,
                            handle_kinds_spec(kind, params)[i],
                            placements@[i],
                        ),
                ),
                self.handles@ == base + want.take(i as int),
                ids@ == want_ids.take(i as int),
                self.selected == old(self).selected,
                self.scale == old(self).scale,
            decreases kinds.len() - i,
        {
            assert(readings@[i as int] + base.len() + i <= u64::MAX);
            let id = readings[i] + self.handles.len() as u64;
            let p = placements[i];
            self.handles.push(FeatureHandle {
                id,
                feature_id,
                position: p.position,
                orientation: p.orientation,
                handle_type: kinds[i],
                active: true,
                size: p.size,
            });
            ids.push(id);
            assert(want.take(i + 1) =~= want.take(i as int).push(want[i as int]));
            assert(want_ids.take(i + 1) =~= want_ids.take(i as int).push(want_ids[i as int]));
            assert(self.handles@ =~= base + want.take(i + 1));
            i = i + 1;
        }
        assert(want.take(kinds@.len() as int) =~= want);
        assert(want_ids.take(kinds@.len() as int) =~= want_ids);
        ids
    }

    /// Create the handles of a feature, each identified by the clock reading
    /// (in milliseconds) taken for it plus the number of handles before it.
    /// A feature without handles reads no clock and gets an empty list.
    /// Returns `None`, with nothing added, when such an identifier would not
    /// fit in 64 bits (which needs a clock reading within the number of
    /// handles of `u64::MAX`).
    pub fn create_handles(
        &mut self,
        feature_id: u64,
        kind: FeatureKind,
        params: ParameterKind,
        placements: &[HandlePlacement],
    ) -> (r: Option<Vec<u64>>)
        requires
            placements@.len() == handle_kinds_spec(kind, params).len(),
        ensures
            handle_kinds_spec(kind, params).len() == 0 ==> (r matches Some(ids) && ids@.len() == 0),
            r is None ==> final(self).handles@ == old(self).handles@ && old(self).handles@.len()
                + handle_kinds_spec(kind, params).len() >= 2,
            r matches Some(ids) ==> ids@.len() == handle_kinds_spec(kind, params).len() && final(self).handles@
                == old(self).handles@ + Seq::new(
                ids@.len(),
                |i: int| new_handle(ids@[i], feature_id, handle_kinds_spec(kind, params)[i], placements@[i]),
            ) && forall|i: int| 0 <= i < ids@.len() ==> #[trigger] ids@[i] >= old(self).handles@.len() + i,
            final(self).selected == old(self).selected,
            final(self).scale == old(self).scale,
    {
        let k = handle_kinds(kind, params).len();
        let n = self.handles.len();
        let mut readings: Vec<u64> = Vec::new();
        let mut i: usize = 0;
        while i < k
            invariant
                i <= k,
                k == handle_kinds_spec(kind, params).len(),
                n == old(self).handles@.len(),
                self.handles@ == old(self).handles@,
                readings@.len() == i,
                forall|j: int| 0 <= j < i ==> #[trigger] readings@[j] + n + j <= u64::MAX,
            decreases k - i,
        {
            let t = now_millis();
            if t as u128 + n as u128 + i as u128 > u64::MAX as u128 {
                return None;
            }
            readings.push(t);
            i = i + 1;
        }
        let ghost old_handles = self.handles@;
        let ids = self.create_handles_at(readings.as_slice(), feature_id, kind, params, placements);
        assert(self.handles@ =~= old_handles + Seq::new(
            ids@.len(),
            |i: int| new_handle(ids@[i], feature_id, handle_kinds_spec(kind, params)[i], placements@[i]),
        ));
        Some(ids)
    }

    /// Remove the handles of a feature.
    pub fn remove_feature_handles(&mut self, feature_id: u64)
        ensures
            final(self).handles@ == handles_without(old(self).handles@, feature_id),
            final(self).handles@ == old(self).handles@.filter(|h: FeatureHandle| h.feature_id != feature_id),
            final(self).selected == old(self).selected,
            final(self).scale == old(self).scale,
    {
        let ghost hs = self.handles@;
        proof {
            lemma_handles_without_keeps_the_others(hs, feature_id);
        }
        let mut kept: Vec<FeatureHandle> = Vec::new();
        let mut i: usize = 0;
        while i < self.handles.len()
            invariant
                i <= hs.len(),
                self.handles@ == hs,
                kept@ == handles_without(hs.take(i as int), feature_id),
            decreases hs.len() - i,
        {
            assert(hs.take(i + 1).drop_last() =~= hs.take(i as int));
            let h = self.handles[i];
            if h.feature_id != feature_id {
                kept.push(h);
            }
            i = i + 1;
        }
        assert(hs.take(hs.len() as int) =~= hs);
        self.handles = kept;
    }

    /// The first handle with the given identifier.
    pub fn get_handle(&self, id: u64) -> (r: Option<&FeatureHandle>)
        ensures
            match r {
                Some(h) => find_handle(self.handles@, id) == Some(*h),
                None => find_handle(self.handles@, id) is None,
            },
    {
        let hs = &self.handles;
        let mut i: usize = 0;
        assert(hs@.subrange(0, hs@.len() as int) =~= hs@);
        while i < hs.len()
            invariant
                i <= hs@.len(),
                hs@ == self.handles@,
                find_handle(hs@, id) == find_handle(hs@.subrange(i as int, hs@.len() as int), id),
            decreases hs.len() - i,
        {
            let ghost rest = hs@.subrange(i as int, hs@.len() as int);
            assert(rest[0] == hs@[i as int]);
            if hs[i].id == id {
                assert(rest.len() > 0 && find_handle(rest, id) == Some(rest[0]));
                return Some(&hs[i]);
            }
            assert(rest.drop_first() =~= hs@.subrange(i + 1, hs@.len() as int));
            i = i + 1;
        }
        None
    }

    /// Drag a handle to a new position: the handle is found (an
    /// `InvalidSelection` error, with nothing changed, when no handle has
    /// the identifier), the edit is chosen from its type and the kind of its
    /// feature, and the handle moves to the new position.
    pub fn drag_handle_to(
        &mut self,
        handle_id: u64,
        feature_kind: FeatureKind,
        new_position: PointBits,
    ) -> (r: SyncResult<DragEdit>)
        ensures
            match find_handle(old(self).handles@, handle_id) {
                None => (r matches Err(SyncError::InvalidSelection(m)) && m@ == "Handle not found"@)
                    && final(self).handles@ == old(self).handles@,
                Some(h) => (r matches Ok(e) && e == (DragEdit {
                    feature_id: h.feature_id,
                    kind: drag_edit_spec(h.handle_type, feature_kind),
                    from: h.position,
                })) && final(self).handles@ == moved_first(old(self).handles@, handle_id, new_position),
            },
            final(self).selected == old(self).selected,
            final(self).scale == old(self).scale,
    {
        let ghost hs = self.handles@;
        let mut i: usize = 0;
        assert(hs.subrange(0, hs.len() as int) =~= hs);
        assert(hs.take(0) + hs.subrange(0, hs.len() as int) =~= hs);
        while i < self.handles.len()
            invariant
                i <= hs.len(),
                self.handles@ == hs,
                hs == old(self).handles@,
                self.selected == old(self).selected,
                self.scale == old(self).scale,
                find_handle(hs, handle_id) == find_handle(hs.subrange(i as int, hs.len() as int), handle_id),
                moved_first(hs, handle_id, new_position) == hs.take(i as int) + moved_first(
                    hs.subrange(i as int, hs.len() as int),
                    handle_id,
                    new_position,
                ),
            decreases hs.len() - i,
        {
            let ghost rest = hs.subrange(i as int, hs.len() as int);
            assert(rest[0] == hs[i as int]);
            let h = self.handles[i];
            if h.id == handle_id {
                assert(rest.len() > 0 && find_handle(rest, handle_id) == Some(rest[0]));
                assert(moved_first(rest, handle_id, new_position) == rest.update(0, FeatureHandle { position: new_position, ..h }));
                assert(hs.take(i as int) + rest.update(0, FeatureHandle { position: new_position, ..h })
                    =~= hs.update(i as int, FeatureHandle { position: new_position, ..h }));
                self.handles.set(i, FeatureHandle { position: new_position, ..h });
                assert(self.handles@ == moved_first(hs, handle_id, new_position));
                assert(find_handle(hs, handle_id) == Some(h));
                let kind = drag_edit_kind(h.handle_type, feature_kind);
                return Ok(DragEdit { feature_id: h.feature_id, kind, from: h.position });
            }
            assert(rest.drop_first() =~= hs.subrange(i + 1, hs.len() as int));
            assert(hs.take(i as int) + (seq![hs[i as int]] + moved_first(rest.drop_first(), handle_id, new_position))
                =~= hs.take(i + 1) + moved_first(rest.drop_first(), handle_id, new_position));
            i = i + 1;
        }
        assert(hs.take(hs.len() as int) =~= hs);
        Err(SyncError::InvalidSelection(string_from_str("Handle not found")))
    }

    /// Select a handle: true, and it becomes the selection, when a handle
    /// has the identifier; false, with nothing changed, otherwise.
    pub fn select_handle(&mut self, id: u64) -> (b: bool)
        ensures
            b == find_handle(old(self).handles@, id) is Some,
            b ==> final(self).selected == Some(id),
            !b ==> final(self).selected == old(self).selected,
            final(self).handles@ == old(self).handles@,
            final(self).scale == old(self).scale,
    {
        if self.get_handle(id).is_some() {
            self.selected = Some(id);
            true
        } else {
            false
        }
    }

    /// Deselect the current handle.
    pub fn deselect(&mut self)
        ensures
            final(self).selected is None,
            final(self).handles@ == old(self).handles@,
            final(self).scale == old(self).scale,
    {
        self.selected = None;
    }

    /// Remove every handle and the selection.
    pub fn clear(&mut self)
        ensures
            final(self).handles@ == Seq::<FeatureHandle>::empty(),
            final(self).selected is None,
            final(self).scale == old(self).scale,
    {
        self.handles.clear();
        self.selected = None;
    }

    /// The handles of a feature, in order.
    pub fn get_feature_handles(&self, feature_id: u64) -> (r: Vec<&FeatureHandle>)
        ensures
            r@.map_values(|h: &FeatureHandle| *h) == handles_of(self.handles@, feature_id),
            r@.map_values(|h: &FeatureHandle| *h) == self.handles@.filter(|h: FeatureHandle| h.feature_id == feature_id),
    {
        proof {
            lemma_handles_of_are_the_features(self.handles@, feature_id);
        }
        let hs = &self.handles;
        let mut out: Vec<&FeatureHandle> = Vec::new();
        let mut i: usize = 0;
        while i < hs.len()
            invariant
                i <= hs@.len(),
                hs@ == self.handles@,
                out@.map_values(|h: &FeatureHandle| *h) == handles_of(hs@.take(i as int), feature_id),
            decreases hs.len() - i,
        {
            assert(hs@.take(i + 1).drop_last() =~= hs@.take(i as int));
            let ghost before = out@;
            if hs[i].feature_id == feature_id {
                out.push(&hs[i]);
                assert(out@.map_values(|h: &FeatureHandle| *h) =~= before.map_values(|h: &FeatureHandle| *h).push(
                    hs@[i as int],
                ));
            }
            i = i + 1;
        }
        assert(hs@.take(hs@.len() as int) =~= hs@);
        out
    }

    /// Update the handles after a feature changed: the feature's position
    /// handles go to the hole's new centre, when the feature has one.
    pub fn update_handle_positions(&mut self, feature_id: u64, hole_center: Option<PointBits>)
        ensures
            final(self).handles@ == Seq::new(
                old(self).handles@.len(),
                |i: int| moved_handle(old(self).handles@[i], feature_id, hole_center),
            ),
            final(self).selected == old(self).selected,
            final(self).scale == old(self).scale,
    {
        let ghost hs = self.handles@;
        let mut i: usize = 0;
        while i < self.handles.len()
            invariant
                i <= hs.len(),
                self.handles@.len() == hs.len(),
                forall|j: int| 0 <= j < i ==> self.handles@[j] == moved_handle(hs[j], feature_id, hole_center),
                forall|j: int| i <= j < hs.len() ==> self.handles@[j] == hs[j],
                self.selected == old(self).selected,
                self.scale == old(self).scale,
            decreases hs.len() - i,
        {
            let h = self.handles[i];
            if h.feature_id == feature_id && h.handle_type == HandleType::Position {
                match hole_center {
                    Some(c) => {
                        self.handles.set(i, FeatureHandle { position: c, ..h });
                    },
                    None => {},
                }
            }
            i = i + 1;
        }
        assert(self.handles@ =~= Seq::new(hs.len(), |i: int| moved_handle(hs[i], feature_id, hole_center)));
    }
}

impl Default for FeatureHandleSystem {
    fn default() -> (r: Self)
        ensures
            r.handles@ == Seq::<FeatureHandle>::empty(),
            r.selected is None,
            r.scale == HANDLE_SCALE_ONE,
    {
        FeatureHandleSystem::new()
    }
}

} // verus!
