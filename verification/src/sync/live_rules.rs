//! Live Rules: geometric relationships between faces that editing keeps,
//! and the engine that manages them.
use vstd::prelude::*;
use crate::topo::entity::{Entity, EntityId};
use crate::topo::body::{Body, Face, Loop, Coedge, FaceModel, LoopModel, CoedgeModel, loops_coedges, face_refs};

verus! {

/// Types of Live Rules; angles and distances are the bit patterns of their
/// `f64` values.
#[derive(Debug, Clone, Copy, PartialEq, Eq, Structural, Hash)]
pub enum RuleType {
    /// Faces remain parallel
    Parallel,
    /// Faces remain perpendicular
    Perpendicular,
    /// Faces remain concentric
    Concentric,
    /// Faces remain symmetric
    Symmetric,
    /// Faces remain coplanar
    Coplanar,
    /// Faces remain tangent
    Tangent,
    /// Equal radius
    EqualRadius,
    /// Equal distance
    EqualDistance,
    /// Coincident (same position)
    Coincident,
    /// Angle between faces
    Angle(u64),
    /// Distance between faces
    Distance(u64),
}

/// Rule priority levels, from lowest to highest.
#[derive(Debug, Clone, Copy, PartialEq, Eq, Structural, PartialOrd, Ord)]
pub enum RulePriority {
    /// Lowest priority
    Lowest,
    /// Low priority
    Low,
    /// Medium priority
    Medium,
    /// High priority
    High,
    /// Highest priority
    Highest,
}

/// Types of adjustments.
#[derive(Debug, Clone, Copy, PartialEq, Eq, Structural)]
pub enum AdjustmentType {
    /// Translation
    Translate,
    /// Rotation
    Rotate,
    /// Scaling
    Scale,
    /// Offset
    Offset,
}

/// The mathematical value of a [`Rule`].
pub struct RuleModel {
    pub id: u64,
    pub rule_type: RuleType,
    pub faces: Seq<EntityId>,
    pub entities: Seq<EntityId>,
    pub strength: u64,
    pub active: bool,
}

/// A geometric rule.
#[derive(Debug)]
pub struct Rule {
    /// Rule ID
    pub id: u64,
    /// Type of rule
    pub rule_type: RuleType,
    /// Faces involved
    pub faces: Vec<EntityId>,
    /// Other entities involved (edges, vertices)
    pub entities: Vec<EntityId>,
    /// Rule strength (bit pattern of an `f64` from 0.0 to 1.0)
    pub strength: u64,
    /// Whether the rule is active
    pub active: bool,
}

impl View for Rule {
    type V = RuleModel;

    open spec fn view(&self) -> RuleModel {
        RuleModel {
            id: self.id,
            rule_type: self.rule_type,
            faces: self.faces@,
            entities: self.entities@,
            strength: self.strength,
            active: self.active,
        }
    }
}

impl Rule {
    /// A copy of this rule.
    pub fn duplicate(&self) -> (r: Rule)
        ensures
            r@ == self@,
    {
        let r = Rule {
            id: self.id,
            rule_type: self.rule_type,
            faces: self.faces.clone(),
            entities: self.entities.clone(),
            strength: self.strength,
            active: self.active,
        };
        assert(r.faces@ =~= self.faces@);
        assert(r.entities@ =~= self.entities@);
        r
    }
}

/// The models of a list of rules.
pub open spec fn rule_models(v: Seq<Rule>) -> Seq<RuleModel> {
    v.map_values(|r: Rule| r@)
}

/// The rules of `rs` whose identifier is not `id`, in order.
pub open spec fn rules_without(rs: Seq<RuleModel>, id: u64) -> Seq<RuleModel>
    decreases rs.len(),
{
    if rs.len() == 0 {
        Seq::empty()
    } else if rs.last().id == id {
        rules_without(rs.drop_last(), id)
    } else {
        rules_without(rs.drop_last(), id).push(rs.last())
    }
}

/// Removing a rule keeps exactly the rules whose identifier differs from
/// the one removed, all of them, in their order: the list filtered by
/// `id != removed`. So no rule with that identifier is left, and every
/// other rule is.
pub proof fn lemma_rules_without_keeps_the_others(rs: Seq<RuleModel>, id: u64)
    ensures
        rules_without(rs, id) == rs.filter(|r: RuleModel| r.id != id),
        forall|k: int| 0 <= k < rules_without(rs, id).len() ==> (#[trigger] rules_without(rs, id)[k]).id != id,
        forall|k: int| 0 <= k < rs.len() && (#[trigger] rs[k]).id != id ==> rules_without(rs, id).contains(rs[k]),
    decreases rs.len(),
{
    reveal(Seq::filter);
    let f = |r: RuleModel| r.id != id;
    if rs.len() > 0 {
        lemma_rules_without_keeps_the_others(rs.drop_last(), id);
    }
    assert(rules_without(rs, id) == rs.filter(f));
    broadcast use vstd::seq_lib::group_filter_ensures;
    assert forall|k: int| 0 <= k < rs.len() && (#[trigger] rs[k]).id != id implies rules_without(rs, id).contains(rs[k]) by {
        rs.lemma_filter_contains(f, k);
    }
    assert forall|k: int| 0 <= k < rules_without(rs, id).len() implies (#[trigger] rules_without(rs, id)[k]).id != id by {
        rs.lemma_filter_pred(f, k);
    }
}

/// The position of the first rule of `rs` with identifier `id`.
pub open spec fn first_rule_with(rs: Seq<RuleModel>, id: u64) -> Option<int>
    decreases rs.len(),
{
    if rs.len() == 0 {
        None
    } else if rs[0].id == id {
        Some(0)
    } else {
        match first_rule_with(rs.drop_first(), id) {
            Some(k) => Some(k + 1),
            None => None,
        }
    }
}

/// The first rule with identifier `id` is at `k` exactly when `k` holds
/// one and no rule before it does; there is none when no rule has it.
pub proof fn lemma_first_rule_with(rs: Seq<RuleModel>, id: u64)
    ensures
        match first_rule_with(rs, id) {
            Some(k) => 0 <= k < rs.len() && rs[k].id == id && forall|j: int| 0 <= j < k ==> (#[trigger] rs[j]).id != id,
            None => forall|j: int| 0 <= j < rs.len() ==> (#[trigger] rs[j]).id != id,
        },
    decreases rs.len(),
{
    if rs.len() > 0 && rs[0].id != id {
        let t = rs.drop_first();
        lemma_first_rule_with(t, id);
        assert forall|j: int| 1 <= j < rs.len() implies rs[j] == #[trigger] t[j - 1] by {}
        match first_rule_with(t, id) {
            Some(k) => {
                assert forall|j: int| 0 <= j < k + 1 implies (#[trigger] rs[j]).id != id by {
                    if j > 0 {
                        assert(rs[j] == t[j - 1]);
                    }
                }
            },
            None => {
                assert forall|j: int| 0 <= j < rs.len() implies (#[trigger] rs[j]).id != id by {
                    if j > 0 {
                        assert(rs[j] == t[j - 1]);
                    }
                }
            },
        }
    }
}

/// The first position holding `id` is the one the definition finds.
pub proof fn lemma_first_rule_at(rs: Seq<RuleModel>, id: u64, k: int)
    requires
        0 <= k < rs.len(),
        rs[k].id == id,
        forall|j: int| 0 <= j < k ==> (#[trigger] rs[j]).id != id,
    ensures
        first_rule_with(rs, id) == Some(k),
{
    lemma_first_rule_with(rs, id);
    match first_rule_with(rs, id) {
        Some(c) => {
            if c < k {
                assert(rs[c].id != id);
            } else if c > k {
                assert(rs[k].id != id);
            }
        },
        None => {
            assert(rs[k].id != id);
        },
    }
}

/// `rs` with the first rule of identifier `id` (if any) set active or not.
pub open spec fn set_first_active(rs: Seq<RuleModel>, id: u64, active: bool) -> Seq<RuleModel> {
    match first_rule_with(rs, id) {
        Some(k) => rs.update(k, RuleModel { active, ..rs[k] }),
        None => rs,
    }
}

/// The active rules of `rs`, in order.
pub open spec fn active_of(rs: Seq<RuleModel>) -> Seq<RuleModel>
    decreases rs.len(),
{
    if rs.len() == 0 {
        Seq::empty()
    } else if rs.last().active {
        active_of(rs.drop_last()).push(rs.last())
    } else {
        active_of(rs.drop_last())
    }
}

/// The default priority of each rule type that has one.
pub open spec fn default_priorities() -> Seq<(RuleType, RulePriority)> {
    seq![
        (RuleType::Coincident, RulePriority::Highest),
        (RuleType::Concentric, RulePriority::High),
        (RuleType::Parallel, RulePriority::High),
        (RuleType::Perpendicular, RulePriority::High),
        (RuleType::Symmetric, RulePriority::Medium),
        (RuleType::Coplanar, RulePriority::Medium),
        (RuleType::Tangent, RulePriority::Medium),
        (RuleType::EqualRadius, RulePriority::Low),
        (RuleType::EqualDistance, RulePriority::Low),
    ]
}

/// The priority that `ps` gives the rule type `t`, if any.
pub open spec fn priority_in(ps: Seq<(RuleType, RulePriority)>, t: RuleType) -> Option<RulePriority>
    decreases ps.len(),
{
    if ps.len() == 0 {
        None
    } else if ps.last().0 == t {
        Some(ps.last().1)
    } else {
        priority_in(ps.drop_last(), t)
    }
}

/// The priority a rule type counts with: its own, or low when it has none.
pub open spec fn effective_priority(ps: Seq<(RuleType, RulePriority)>, t: RuleType) -> RulePriority {
    match priority_in(ps, t) {
        Some(p) => p,
        None => RulePriority::Low,
    }
}

/// The rules of `rs` that count with priority `p`, last first.
pub open spec fn at_priority_last_first(ps: Seq<(RuleType, RulePriority)>, rs: Seq<RuleModel>, p: RulePriority) -> Seq<RuleModel>
    decreases rs.len(),
{
    if rs.len() == 0 {
        Seq::empty()
    } else if effective_priority(ps, rs.last().rule_type) == p {
        seq![rs.last()] + at_priority_last_first(ps, rs.drop_last(), p)
    } else {
        at_priority_last_first(ps, rs.drop_last(), p)
    }
}

/// `rs` sorted by priority (stably) and then reversed: the highest
/// priority first, and rules of one priority last first.
pub open spec fn by_priority(ps: Seq<(RuleType, RulePriority)>, rs: Seq<RuleModel>) -> Seq<RuleModel> {
    at_priority_last_first(ps, rs, RulePriority::Highest) + at_priority_last_first(ps, rs, RulePriority::High)
        + at_priority_last_first(ps, rs, RulePriority::Medium) + at_priority_last_first(ps, rs, RulePriority::Low)
        + at_priority_last_first(ps, rs, RulePriority::Lowest)
}

/// Live Rules engine.
#[derive(Debug)]
pub struct LiveRulesEngine {
    /// Active rules
    pub rules: Vec<Rule>,
    /// Whether to auto-detect rules
    pub auto_detect: bool,
    /// Rule priority weights, one entry per rule type
    pub priorities: Vec<(RuleType, RulePriority)>,
}

impl LiveRulesEngine {
    /// Create a new Live Rules engine: no rules, auto-detection on, and
    /// the default priorities.
    pub fn new() -> (r: Self)
        ensures
            r.rules@.len() == 0,
            r.auto_detect,
            r.priorities@ == default_priorities(),
    {
        let priorities = vec![
            (RuleType::Coincident, RulePriority::Highest),
            (RuleType::Concentric, RulePriority::High),
            (RuleType::Parallel, RulePriority::High),
            (RuleType::Perpendicular, RulePriority::High),
            (RuleType::Symmetric, RulePriority::Medium),
            (RuleType::Coplanar, RulePriority::Medium),
            (RuleType::Tangent, RulePriority::Medium),
            (RuleType::EqualRadius, RulePriority::Low),
            (RuleType::EqualDistance, RulePriority::Low),
        ];
        assert(priorities@ =~= default_priorities());
        LiveRulesEngine { rules: Vec::new(), auto_detect: true, priorities }
    }

    /// The faces of the body, other than the face itself, that share an
    /// edge with it, shell after shell.
    pub fn find_related_faces<'b>(&self, body: &'b Body, face: &Face) -> (r: Vec<&'b Face>)
        ensures
            face_refs(r@) == related_faces(body@.faces(), face@),
            face_refs(r@) == body@.faces().filter(|g: FaceModel| g.id != face@.id && share_an_edge(face@, g)),
    {
        proof {
            lemma_related_faces_share_an_edge(body@.faces(), face@);
        }
        let mine = face_edges(face);
        let all = body.faces();
        let ghost fm = face_refs(all@);
        let mut out: Vec<&'b Face> = Vec::new();
        let mut i: usize = 0;
        assert(face_refs(out@) =~= related_faces(fm.take(0), face@));
        while i < all.len()
            invariant
                i <= all@.len(),
                fm == face_refs(all@),
                fm == body@.faces(),
                mine@ == face_edge_ids(face@),
                face_refs(out@) == related_faces(fm.take(i as int), face@),
            decreases all.len() - i,
        {
            let other = all[i];
            assert(fm.take(i + 1).drop_last() =~= fm.take(i as int));
            assert(fm.take(i + 1).last() == other@);
            if other.id().0 != face.id().0 {
                let theirs = face_edges(other);
                if any_common(mine.as_slice(), theirs.as_slice()) {
                    let ghost before = out@;
                    out.push(other);
                    assert(face_refs(out@) =~= face_refs(before).push(other@));
                }
            }
            i = i + 1;
        }
        assert(fm.take(fm.len() as int) =~= fm);
        out
    }

    /// The rules of `rules` that count with priority `level`, last first,
    /// after what `out` holds.
    fn push_at_priority(&self, rules: &[Rule], level: RulePriority, out: &mut Vec<Rule>)
        ensures
            rule_models(final(out)@) == rule_models(old(out)@) + at_priority_last_first(
                self.priorities@,
                rule_models(rules@),
                level,
            ),
    {
        let ghost rm = rule_models(rules@);
        let ghost base = rule_models(out@);
        let mut i: usize = rules.len();
        assert(rm.take(i as int) =~= rm);
        while i > 0
            invariant
                i <= rules@.len(),
                rm == rule_models(rules@),
                rule_models(out@) + at_priority_last_first(self.priorities@, rm.take(i as int), level) == base
                    + at_priority_last_first(self.priorities@, rm, level),
            decreases i,
        {
            let ghost t = rm.take(i as int);
            assert(t.drop_last() =~= rm.take(i - 1));
            assert(t.last() == rules@[i - 1]@);
            let r = &rules[i - 1];
            let p = match self.priority(r.rule_type) {
                Some(p) => p,
                None => RulePriority::Low,
            };
            if p == level {
                let ghost before = rule_models(out@);
                out.push(r.duplicate());
                assert(rule_models(out@) =~= before.push(r@));
                assert(before.push(r@) + at_priority_last_first(self.priorities@, rm.take(i - 1), level) =~= before
                    + (seq![r@] + at_priority_last_first(self.priorities@, rm.take(i - 1), level)));
            }
            i = i - 1;
        }
    }

    /// Order rules as detection leaves them: sorted by priority, then
    /// reversed, so the highest priority comes first and rules of one
    /// priority come last first.
    pub fn sort_by_priority(&self, rules: &[Rule]) -> (r: Vec<Rule>)
        ensures
            rule_models(r@) == by_priority(self.priorities@, rule_models(rules@)),
    {
        let mut out: Vec<Rule> = Vec::new();
        assert(rule_models(out@) =~= Seq::<RuleModel>::empty());
        self.push_at_priority(rules, RulePriority::Highest, &mut out);
        self.push_at_priority(rules, RulePriority::High, &mut out);
        self.push_at_priority(rules, RulePriority::Medium, &mut out);
        self.push_at_priority(rules, RulePriority::Low, &mut out);
        self.push_at_priority(rules, RulePriority::Lowest, &mut out);
        assert(rule_models(out@) =~= by_priority(self.priorities@, rule_models(rules@)));
        out
    }

    /// The priority of a rule type, if it has one.
    pub fn priority(&self, rule_type: RuleType) -> (r: Option<RulePriority>)
        ensures
            r == priority_in(self.priorities@, rule_type),
    {
        let mut i: usize = self.priorities.len();
        assert(self.priorities@.take(i as int) =~= self.priorities@);
        while i > 0
            invariant
                i <= self.priorities@.len(),
                priority_in(self.priorities@, rule_type) == priority_in(self.priorities@.take(i as int), rule_type),
            decreases i,
        {
            let (t, p) = self.priorities[i - 1];
            assert(self.priorities@.take(i as int).drop_last() =~= self.priorities@.take(i - 1));
            if t == rule_type {
                return Some(p);
            }
            i = i - 1;
        }
        None
    }

    /// Add a rule manually, after the others.
    pub fn add_rule(&mut self, rule: Rule)
        ensures
            rule_models(final(self).rules@) == rule_models(old(self).rules@).push(rule@),
            final(self).auto_detect == old(self).auto_detect,
            final(self).priorities == old(self).priorities,
    {
        let ghost before = self.rules@;
        self.rules.push(rule);
        assert(rule_models(self.rules@) =~= rule_models(before).push(rule@));
    }

    /// Remove every rule with the given identifier.
    pub fn remove_rule(&mut self, rule_id: u64)
        ensures
            rule_models(final(self).rules@) == rules_without(rule_models(old(self).rules@), rule_id),
            rule_models(final(self).rules@) == rule_models(old(self).rules@).filter(|r: RuleModel| r.id != rule_id),
            final(self).auto_detect == old(self).auto_detect,
            final(self).priorities == old(self).priorities,
    {
        let ghost rm = rule_models(self.rules@);
        proof {
            lemma_rules_without_keeps_the_others(rm, rule_id);
        }
        let mut kept: Vec<Rule> = Vec::new();
        let mut i: usize = 0;
        assert(rm.take(0) =~= Seq::<RuleModel>::empty());
        assert(rule_models(kept@) =~= Seq::<RuleModel>::empty());
        while i < self.rules.len()
            invariant
                i <= self.rules@.len(),
                rm == rule_models(self.rules@),
                rule_models(kept@) == rules_without(rm.take(i as int), rule_id),
            decreases self.rules.len() - i,
        {
            assert(rm.take(i + 1).drop_last() =~= rm.take(i as int));
            assert(rm.take(i + 1).last() == self.rules@[i as int]@);
            if self.rules[i].id != rule_id {
                let ghost before = kept@;
                kept.push(self.rules[i].duplicate());
                assert(rule_models(kept@) =~= rule_models(before).push(self.rules@[i as int]@));
            }
            i = i + 1;
        }
        assert(rm.take(rm.len() as int) =~= rm);
        self.rules = kept;
    }

    fn set_active(&mut self, rule_id: u64, active: bool)
        ensures
            rule_models(final(self).rules@) == set_first_active(rule_models(old(self).rules@), rule_id, active),
            final(self).auto_detect == old(self).auto_detect,
            final(self).priorities == old(self).priorities,
    {
        let ghost rm = rule_models(self.rules@);
        let mut i: usize = 0;
        while i < self.rules.len()
            invariant
                i <= self.rules@.len(),
                rm == rule_models(self.rules@),
                rm == rule_models(old(self).rules@),
                self.auto_detect == old(self).auto_detect,
                self.priorities == old(self).priorities,
                forall|j: int| 0 <= j < i ==> (#[trigger] rm[j]).id != rule_id,
            decreases self.rules.len() - i,
        {
            if self.rules[i].id == rule_id {
                assert(rm[i as int].id == rule_id);
                let ghost k = i as int;
                proof {
                    lemma_first_rule_at(rm, rule_id, k);
                }
                let mut r = self.rules.remove(i);
                r.active = active;
                self.rules.insert(i, r);
                assert(rule_models(self.rules@) =~= rm.update(k, RuleModel { active, ..rm[k] }));
                return;
            }
            i = i + 1;
        }
        proof {
            lemma_first_rule_with(rm, rule_id);
            if first_rule_with(rm, rule_id) is Some {
                let k = first_rule_with(rm, rule_id).unwrap();
                assert(rm[k].id == rule_id);
            }
        }
    }

    /// Enable the first rule with the given identifier, if there is one.
    pub fn enable_rule(&mut self, rule_id: u64)
        ensures
            rule_models(final(self).rules@) == set_first_active(rule_models(old(self).rules@), rule_id, true),
            final(self).auto_detect == old(self).auto_detect,
            final(self).priorities == old(self).priorities,
    {
        self.set_active(rule_id, true);
    }

    /// Disable the first rule with the given identifier, if there is one.
    pub fn disable_rule(&mut self, rule_id: u64)
        ensures
            rule_models(final(self).rules@) == set_first_active(rule_models(old(self).rules@), rule_id, false),
            final(self).auto_detect == old(self).auto_detect,
            final(self).priorities == old(self).priorities,
    {
        self.set_active(rule_id, false);
    }

    /// The active rules, in order.
    pub fn active_rules(&self) -> (r: Vec<&Rule>)
        ensures
            r@.map_values(|x: &Rule| x@) == active_of(rule_models(self.rules@)),
    {
        let ghost rm = rule_models(self.rules@);
        let mut out: Vec<&Rule> = Vec::new();
        let mut i: usize = 0;
        assert(rm.take(0) =~= Seq::<RuleModel>::empty());
        assert(out@.map_values(|x: &Rule| x@) =~= Seq::<RuleModel>::empty());
        while i < self.rules.len()
            invariant
                i <= self.rules@.len(),
                rm == rule_models(self.rules@),
                out@.map_values(|x: &Rule| x@) == active_of(rm.take(i as int)),
            decreases self.rules.len() - i,
        {
            assert(rm.take(i + 1).drop_last() =~= rm.take(i as int));
            assert(rm.take(i + 1).last() == self.rules@[i as int]@);
            if self.rules[i].active {
                let ghost before = out@;
                out.push(&self.rules[i]);
                assert(out@.map_values(|x: &Rule| x@) =~= before.map_values(|x: &Rule| x@).push(self.rules@[i as int]@));
            }
            i = i + 1;
        }
        assert(rm.take(rm.len() as int) =~= rm);
        out
    }
}

impl Default for LiveRulesEngine {
    fn default() -> (r: Self)
        ensures
            r.rules@.len() == 0,
            r.auto_detect,
            r.priorities@ == default_priorities(),
    {
        LiveRulesEngine::new()
    }
}

/// Disabling and then enabling a rule gives back a rule list in which the
/// first rule with that identifier is active and everything else is as
/// before; removing a rule leaves no rule with its identifier.
pub proof fn lemma_rule_toggles(rs: Seq<RuleModel>, id: u64)
    ensures
        set_first_active(set_first_active(rs, id, false), id, true) == set_first_active(rs, id, true),
        forall|k: int| 0 <= k < rules_without(rs, id).len() ==> (#[trigger] rules_without(rs, id)[k]).id != id,
    decreases rs.len(),
{
    let d = set_first_active(rs, id, false);
    lemma_first_rule_with(rs, id);
    match first_rule_with(rs, id) {
        Some(k) => {
            assert(d.len() == rs.len());
            assert forall|j: int| 0 <= j < k implies (#[trigger] d[j]).id != id by {
                assert(d[j] == rs[j]);
            }
            lemma_first_rule_at(d, id, k);
            assert(set_first_active(d, id, true) =~= set_first_active(rs, id, true));
        },
        None => {
            assert(d == rs);
        },
    }
    if rs.len() > 0 {
        lemma_rule_toggles(rs.drop_last(), id);
    }
}

/// The identifiers of the edges a face's loops use, loop after loop.
pub open spec fn face_edge_ids(f: FaceModel) -> Seq<EntityId> {
    loops_coedges(f.loops).map_values(|c: CoedgeModel| c.edge.id)
}

/// The faces `f` and `g` use a common edge.
pub open spec fn share_an_edge(f: FaceModel, g: FaceModel) -> bool {
    exists|e: EntityId| face_edge_ids(f).contains(e) && #[trigger] face_edge_ids(g).contains(e)
}

/// The faces of `fs`, other than `f` itself (by identifier), that share an
/// edge with `f`, in order.
pub open spec fn related_faces(fs: Seq<FaceModel>, f: FaceModel) -> Seq<FaceModel>
    decreases fs.len(),
{
    if fs.len() == 0 {
        Seq::empty()
    } else if fs.last().id != f.id && share_an_edge(f, fs.last()) {
        related_faces(fs.drop_last(), f).push(fs.last())
    } else {
        related_faces(fs.drop_last(), f)
    }
}

/// The faces related to `f` are exactly the faces other than `f` (by
/// identifier) that share an edge with it, all of them, in order; `f`
/// itself is never among them.
pub proof fn lemma_related_faces_share_an_edge(fs: Seq<FaceModel>, f: FaceModel)
    ensures
        related_faces(fs, f) == fs.filter(|g: FaceModel| g.id != f.id && share_an_edge(f, g)),
        forall|k: int| 0 <= k < related_faces(fs, f).len() ==> (#[trigger] related_faces(fs, f)[k]).id != f.id,
    decreases fs.len(),
{
    reveal(Seq::filter);
    let pred = |g: FaceModel| g.id != f.id && share_an_edge(f, g);
    if fs.len() > 0 {
        lemma_related_faces_share_an_edge(fs.drop_last(), f);
    }
    assert(related_faces(fs, f) == fs.filter(pred));
    assert forall|k: int| 0 <= k < related_faces(fs, f).len() implies (#[trigger] related_faces(fs, f)[k]).id != f.id by {
        fs.lemma_filter_pred(pred, k);
    }
}

/// The identifiers of the edges a face's loops use, loop after loop.
pub fn face_edges(face: &Face) -> (r: Vec<EntityId>)
    ensures
        r@ == face_edge_ids(face@),
{
    let ls = face.loops();
    let ghost lm = ls@.map_values(|l: Loop| l@);
    let mut out: Vec<EntityId> = Vec::new();
    let mut i: usize = 0;
    assert(lm.take(0) =~= Seq::<LoopModel>::empty());
    assert(out@ =~= loops_coedges(lm.take(0)).map_values(|c: CoedgeModel| c.edge.id));
    while i < ls.len()
        invariant
            i <= ls@.len(),
            lm == ls@.map_values(|l: Loop| l@),
            lm == face@.loops,
            out@ == loops_coedges(lm.take(i as int)).map_values(|c: CoedgeModel| c.edge.id),
        decreases ls.len() - i,
    {
        let cs = ls[i].coedges();
        let ghost cm = cs@.map_values(|c: Coedge| c@);
        let ghost base = out@;
        let mut j: usize = 0;
        assert(base + cm.take(0).map_values(|c: CoedgeModel| c.edge.id) =~= base);
        while j < cs.len()
            invariant
                j <= cs@.len(),
                cm == cs@.map_values(|c: Coedge| c@),
                out@ == base + cm.take(j as int).map_values(|c: CoedgeModel| c.edge.id),
            decreases cs.len() - j,
        {
            let id = cs[j].edge().id();
            let ghost before = out@;
            out.push(id);
            assert(cm.take(j + 1).map_values(|c: CoedgeModel| c.edge.id) =~= cm.take(j as int).map_values(
                |c: CoedgeModel| c.edge.id,
            ).push(cm[j as int].edge.id));
            j = j + 1;
        }
        assert(cm.take(cs@.len() as int) =~= cm);
        assert(lm.take(i + 1).drop_last() =~= lm.take(i as int));
        assert(lm[i as int] == ls@[i as int]@);
        assert(loops_coedges(lm.take(i + 1)).map_values(|c: CoedgeModel| c.edge.id) =~= loops_coedges(
            lm.take(i as int),
        ).map_values(|c: CoedgeModel| c.edge.id) + cm.map_values(|c: CoedgeModel| c.edge.id));
        i = i + 1;
    }
    assert(lm.take(lm.len() as int) =~= lm);
    out
}

/// Some identifier is in both lists.
fn any_common(a: &[EntityId], b: &[EntityId]) -> (r: bool)
    ensures
        r == exists|e: EntityId| a@.contains(e) && #[trigger] b@.contains(e),
{
    let mut i: usize = 0;
    while i < a.len()
        invariant
            i <= a@.len(),
            forall|k: int| 0 <= k < i ==> !b@.contains(#[trigger] a@[k]),
        decreases a.len() - i,
    {
        let mut j: usize = 0;
        while j < b.len()
            invariant
                i < a@.len(),
                j <= b@.len(),
                forall|k: int| 0 <= k < j ==> b@[k] != a@[i as int],
            decreases b.len() - j,
        {
            if b[j].0 == a[i].0 {
                assert(a@.contains(a@[i as int]) && b@.contains(a@[i as int]));
                return true;
            }
            j = j + 1;
        }
        i = i + 1;
    }
    assert forall|e: EntityId| a@.contains(e) implies !b@.contains(e) by {
        let k = choose|k: int| 0 <= k < a@.len() && a@[k] == e;
        assert(!b@.contains(a@[k]));
    }
    false
}

} // verus!
