use nova_kernel::sync::face_edit::{FaceEditEngine, SyncContext, SyncOpType, SyncOperation};
use nova_kernel::sync::face_edit_impl::{FaceEditImpl, FaceEditOptions};
use nova_kernel::sync::feature_handle::{
    drag_edit_kind, handle_kinds, DragEditKind, FeatureHandleSystem, FeatureKind, HandlePlacement, HandleType,
    ParameterKind, WidgetAction,
};
use nova_kernel::sync::live_rules::{LiveRulesEngine, Rule, RulePriority, RuleType};
use nova_kernel::sync::resolve::{
    ChangeType, ConflictSeverity, ConflictType, ResolutionStrategy, TopologyConflict, TopologyResolver,
};
use nova_kernel::sync::steering_wheel::{WheelHandle, WheelMode};
use nova_kernel::sync::{ErrorContext, SyncEngine, SyncError};
use nova_kernel::topo::body::{Body, Face, PointBits};
use nova_kernel::topo::cube::build_cube;
use nova_kernel::topo::entity::{Entity, EntityId, EntityIdGenerator};
use nova_kernel::topo::TopologyError;

fn point(x: f64, y: f64, z: f64) -> PointBits {
    PointBits { x: x.to_bits(), y: y.to_bits(), z: z.to_bits() }
}

fn cube_corners(size: f64) -> [PointBits; 8] {
    let half = size / 2.0;
    [
        point(-half, -half, -half),
        point(half, -half, -half),
        point(half, half, -half),
        point(-half, half, -half),
        point(-half, -half, half),
        point(half, -half, half),
        point(half, half, half),
        point(-half, half, half),
    ]
}

fn cube(ids: &mut EntityIdGenerator) -> Body {
    build_cube(ids, cube_corners(10.0)).unwrap()
}

fn rule(id: u64) -> Rule {
    Rule {
        id,
        rule_type: RuleType::Parallel,
        faces: vec![],
        entities: vec![],
        strength: 1.0f64.to_bits(),
        active: true,
    }
}

#[test]
fn test_face_edit_engine_creation() {
    let ctx = SyncContext::new();
    let _engine = FaceEditEngine::new(&ctx);
}

#[test]
fn test_handle_type() {
    assert!(matches!(HandleType::Position, HandleType::Position));
    assert!(matches!(HandleType::Radius, HandleType::Radius));
}

#[test]
fn test_rule_priority() {
    assert!(RulePriority::Highest > RulePriority::High);
    assert!(RulePriority::High > RulePriority::Medium);
    assert!(RulePriority::Medium > RulePriority::Low);
    assert!(RulePriority::Low > RulePriority::Lowest);
}

#[test]
fn test_rule_type() {
    assert!(matches!(RuleType::Parallel, RuleType::Parallel));
    assert!(matches!(RuleType::Perpendicular, RuleType::Perpendicular));
    assert!(matches!(RuleType::Concentric, RuleType::Concentric));
}

#[test]
fn test_resolution_strategy() {
    assert!(matches!(ResolutionStrategy::Extend, ResolutionStrategy::Extend));
    assert!(matches!(ResolutionStrategy::Trim, ResolutionStrategy::Trim));
    assert!(matches!(ResolutionStrategy::Blend, ResolutionStrategy::Blend));
}

#[test]
fn test_conflict_type() {
    assert!(matches!(ConflictType::Gap, ConflictType::Gap));
    assert!(matches!(ConflictType::Intersection, ConflictType::Intersection));
}

#[test]
fn test_conflict_severity() {
    assert!(ConflictSeverity::Critical > ConflictSeverity::High);
    assert!(ConflictSeverity::High > ConflictSeverity::Medium);
    assert!(ConflictSeverity::Medium > ConflictSeverity::Low);
}

#[test]
fn test_wheel_mode() {
    assert!(matches!(WheelMode::Free, WheelMode::Free));
    assert!(matches!(WheelMode::MovePrimary, WheelMode::MovePrimary));
    assert!(matches!(WheelMode::RotatePrimary, WheelMode::RotatePrimary));
}

#[test]
fn test_wheel_handle() {
    assert!(matches!(WheelHandle::PrimaryAxis, WheelHandle::PrimaryAxis));
    assert!(matches!(WheelHandle::Plane, WheelHandle::Plane));
}

#[test]
fn test_topology_resolver_creation() {
    let resolver = TopologyResolver::new();
    assert!(!resolver.strategies.is_empty());
    assert!(matches!(resolver.current_strategy, ResolutionStrategy::Automatic));
}

#[test]
fn test_find_adjacent_faces() {
    let mut ids = EntityIdGenerator::new();
    let body = cube(&mut ids);
    let resolver = TopologyResolver::new();

    let first_face = body.shells()[0].faces()[0].duplicate();
    let adjacent = resolver.find_adjacent_faces(&body, &first_face);

    assert_eq!(adjacent.len(), 4);
}

#[test]
fn shared_edges_of_neighbouring_cube_faces() {
    let mut ids = EntityIdGenerator::new();
    let body = cube(&mut ids);
    let resolver = TopologyResolver::new();
    let faces = body.faces();
    let bottom = faces[0];
    let back = faces[2];
    let top = faces[1];
    let shared = resolver.find_shared_edges(bottom, back);
    assert_eq!(shared.len(), 1);
    assert_eq!(shared[0].face1_coedge.edge().id(), shared[0].edge_id);
    assert_eq!(shared[0].face2_coedge.edge().id(), shared[0].edge_id);
    assert!(resolver.find_shared_edges(bottom, top).is_empty());
    assert!(resolver.faces_meet_at_edge(bottom, back, &shared[0]));
}

#[test]
fn resolver_checks_and_conflicts() {
    let mut ids = EntityIdGenerator::new();
    let mut body = cube(&mut ids);
    let resolver = TopologyResolver::new();
    let moved = vec![body.faces()[0].duplicate()];
    assert!(resolver.find_conflicts(&body, &moved).unwrap().is_empty());
    assert!(resolver.resolve_after_move(&mut body, &moved).is_ok());

    let face_id = body.faces()[3].id();
    assert_eq!(resolver.find_face_in_body(&body, face_id).unwrap().id(), face_id);
    assert!(resolver.find_face_in_body(&body, EntityId(9999)).is_none());

    let gap = TopologyConflict {
        conflict_type: ConflictType::Gap,
        face1: face_id,
        face2: EntityId(9999),
        edge: EntityId(0),
        severity: ConflictSeverity::High,
    };
    assert_eq!(resolver.resolve_conflict(&mut body, &gap), Err(SyncError::FaceNotFound(9999)));
    let mut blending = TopologyResolver::new();
    blending.current_strategy = ResolutionStrategy::Blend;
    assert_eq!(blending.resolve_conflict(&mut body, &gap), Ok(()));
    let mut merging = TopologyResolver::new();
    merging.current_strategy = ResolutionStrategy::Merge;
    assert_eq!(
        merging.resolve_conflict(&mut body, &gap),
        Err(SyncError::ResolutionFailed("Unsupported strategy for gap resolution: Merge".to_string()))
    );
    let crossing = TopologyConflict { conflict_type: ConflictType::Intersection, ..gap };
    assert_eq!(merging.resolve_conflict(&mut body, &crossing), Ok(()));
}

#[test]
fn resolver_rejects_open_bodies() {
    let mut ids = EntityIdGenerator::new();
    let mut body = Body::new(&mut ids);
    let mut shell = nova_kernel::topo::body::Shell::new(&mut ids);
    shell.add_face(Face::new(&mut ids));
    body.add_shell(shell);
    let resolver = TopologyResolver::new();
    assert_eq!(
        resolver.validate_body(&body),
        Err(SyncError::WouldInvalidateSolid("Euler characteristic mismatch: 1 != 2".to_string()))
    );
}

#[test]
fn test_validate_body() {
    let mut ids = EntityIdGenerator::new();
    let body = cube(&mut ids);
    assert!(FaceEditImpl::validate_body(&body).is_ok());
}

#[test]
fn deleting_a_cube_face_breaks_the_solid() {
    let mut ids = EntityIdGenerator::new();
    let mut body = cube(&mut ids);
    let top = body.faces()[1].id();
    let result = FaceEditImpl::delete_faces(&mut body, &[top], false);
    assert_eq!(body.faces().len(), 5);
    assert_eq!(
        result,
        Err(SyncError::WouldInvalidateSolid("Euler characteristic 1 != 2".to_string()))
    );
    let mut healed = cube(&mut ids);
    let _ = FaceEditImpl::delete_faces(&mut healed, &[top, EntityId(12345)], true);
    assert_eq!(healed.faces().len(), 6);
}

#[test]
fn test_face_edit_options() {
    let opts = FaceEditOptions::default();
    assert_eq!(f64::from_bits(opts.tolerance), 1e-6);
    assert!(opts.maintain_rules);
    assert!(opts.heal_topology);
}

#[test]
fn test_live_rules_engine_creation() {
    let engine = LiveRulesEngine::new();
    assert!(engine.auto_detect);
    assert!(engine.rules.is_empty());
}

#[test]
fn test_add_and_remove_rule() {
    let mut engine = LiveRulesEngine::new();
    engine.add_rule(rule(1));
    assert_eq!(engine.rules.len(), 1);
    engine.remove_rule(1);
    assert!(engine.rules.is_empty());
}

#[test]
fn test_enable_disable_rule() {
    let mut engine = LiveRulesEngine::new();
    engine.add_rule(rule(1));
    engine.disable_rule(1);
    assert_eq!(engine.active_rules().len(), 0);
    engine.enable_rule(1);
    assert_eq!(engine.active_rules().len(), 1);
}

#[test]
fn rules_are_toggled_by_first_match_and_removed_by_every_match() {
    let mut engine = LiveRulesEngine::new();
    engine.add_rule(rule(5));
    engine.add_rule(rule(5));
    engine.add_rule(rule(6));
    engine.disable_rule(5);
    assert!(!engine.rules[0].active);
    assert!(engine.rules[1].active);
    assert_eq!(engine.active_rules().len(), 2);
    engine.disable_rule(77);
    assert_eq!(engine.active_rules().len(), 2);
    engine.remove_rule(5);
    assert_eq!(engine.rules.len(), 1);
    assert_eq!(engine.rules[0].id, 6);
    assert_eq!(engine.priority(RuleType::Coincident), Some(RulePriority::Highest));
    assert_eq!(engine.priority(RuleType::Angle(0)), None);
}

#[test]
fn sync_engine_operations_are_not_available() {
    let mut ids = EntityIdGenerator::new();
    let body = Body::new(&mut ids);
    let engine = SyncEngine::new();
    assert_eq!(
        engine.move_faces(&body, &[]).unwrap_err(),
        SyncError::NotImplemented("Face move not yet implemented".to_string())
    );
}

#[test]
fn error_contexts_collect_details() {
    let ctx = ErrorContext::new("move").with_entity(7).with_detail("a").with_detail("b");
    assert_eq!(ctx.operation, "move");
    assert_eq!(ctx.entity_id, Some(7));
    assert_eq!(ctx.details, vec!["a".to_string(), "b".to_string()]);
    let err = SyncError::from_topology(TopologyError::Inconsistency("loop".to_string()));
    assert_eq!(err, SyncError::Topology("Topology inconsistency: loop".to_string()));
}

#[test]
fn sync_history_records_operations() {
    let mut ctx = SyncContext::new();
    ctx.record_operation(SyncOperation { id: 1, op_type: SyncOpType::FaceMove, affected_faces: vec![EntityId(3)] });
    assert_eq!(ctx.history.len(), 1);
    assert!(matches!(WidgetAction::Move, WidgetAction::Move));
    assert!(matches!(ChangeType::EdgeSplit, ChangeType::EdgeSplit));
}

#[test]
fn face_edits_record_history() {
    let mut ids = EntityIdGenerator::new();
    let mut body = cube(&mut ids);
    let ctx0 = SyncContext::new();
    let engine = FaceEditEngine::new(&ctx0);
    let mut ctx = SyncContext::new();
    assert_eq!(engine.move_faces(&mut body, &[], &mut ctx), Err(SyncError::NoSelection));
    assert!(ctx.history.is_empty());
    let top = body.faces()[1].duplicate();
    let top_id = top.id();
    assert_eq!(engine.move_faces(&mut body, &[top.duplicate()], &mut ctx), Ok(()));
    assert_eq!(engine.rotate_faces(&mut body, &[top.duplicate()], &mut ctx), Ok(()));
    assert_eq!(ctx.history.len(), 2);
    assert_eq!(ctx.history[0].id, 1);
    assert_eq!(ctx.history[1].id, 2);
    assert_eq!(ctx.history[1].op_type, SyncOpType::FaceRotate);
    assert_eq!(ctx.history[0].affected_faces, vec![top_id]);
    assert_eq!(
        engine.offset_faces(&mut body, &[top.duplicate()], &mut ctx),
        Err(SyncError::FaceEditFailed("Face has no surface".to_string()))
    );
    assert_eq!(ctx.history.len(), 2);

    let affected = engine.get_affected_faces(&body, &[top.duplicate()]).unwrap();
    assert_eq!(affected.len(), 4);
    assert!(affected.iter().all(|f| f.id() != top_id));
    assert!(engine.faces_share_edge(&affected[0], &top));
    assert!(!engine.faces_share_edge(body.faces()[0], &top));
}

fn placement(x: f64, size: f64) -> HandlePlacement {
    let p = PointBits { x: x.to_bits(), y: 0, z: 0 };
    HandlePlacement { position: p, orientation: PointBits { x: 0, y: 0, z: 1.0f64.to_bits() }, size: size.to_bits() }
}

#[test]
fn test_feature_handle_system() {
    let mut system = FeatureHandleSystem::new();
    assert!(system.handles.is_empty());

    let places = [placement(0.0, 2.5), placement(0.0, 1.5), placement(5.0, 1.5)];
    let handles = system.create_handles(1, FeatureKind::Hole, ParameterKind::Hole, &places).unwrap();
    assert_eq!(handles.len(), 3); // Position, depth, radius
}

#[test]
fn handle_bookkeeping() {
    assert_eq!(
        handle_kinds(FeatureKind::Hole, ParameterKind::Hole),
        vec![HandleType::Position, HandleType::Depth, HandleType::Radius]
    );
    assert!(handle_kinds(FeatureKind::Hole, ParameterKind::Extrusion).is_empty());
    assert_eq!(handle_kinds(FeatureKind::Pocket, ParameterKind::Extrusion), vec![HandleType::Size]);
    assert!(handle_kinds(FeatureKind::Pad, ParameterKind::Fillet).is_empty());
    assert_eq!(handle_kinds(FeatureKind::Fillet, ParameterKind::Shell), vec![HandleType::Radius]);
    assert_eq!(handle_kinds(FeatureKind::Chamfer, ParameterKind::Chamfer), vec![HandleType::Size]);
    assert_eq!(handle_kinds(FeatureKind::Loft, ParameterKind::Pattern), vec![HandleType::Position]);

    let mut system = FeatureHandleSystem::default();
    let ids = system.create_handles_at(
        &[1000, 1000, 1001],
        7,
        FeatureKind::Hole,
        ParameterKind::Hole,
        &[placement(0.0, 1.0), placement(1.0, 1.0), placement(2.0, 1.0)],
    );
    assert_eq!(ids, vec![1000, 1001, 1003]);
    let more = system.create_handles_at(&[50], 8, FeatureKind::Fillet, ParameterKind::Fillet, &[placement(3.0, 1.0)]);
    assert_eq!(more, vec![53]);
    assert_eq!(system.handles[1].handle_type, HandleType::Depth);
    assert!(system.handles.iter().all(|h| h.active));
    assert_eq!(system.get_handle(1003).unwrap().handle_type, HandleType::Radius);
    assert!(system.get_handle(9).is_none());
    assert!(system.select_handle(53));
    assert_eq!(system.selected, Some(53));
    assert!(!system.select_handle(9));
    assert_eq!(system.selected, Some(53));
    assert_eq!(system.get_feature_handles(7).len(), 3);
    let centre = PointBits { x: 9.0f64.to_bits(), y: 0, z: 0 };
    system.update_handle_positions(7, Some(centre));
    assert_eq!(system.handles[0].position, centre);
    assert_ne!(system.handles[1].position, centre);
    system.remove_feature_handles(7);
    assert_eq!(system.handles.len(), 1);
    assert_eq!(system.handles[0].id, 53);
    system.deselect();
    assert!(system.selected.is_none());
    system.clear();
    assert!(system.handles.is_empty());
}

#[test]
fn create_handles_without_kinds_gives_none_made() {
    let mut system = FeatureHandleSystem::new();
    let ids = system.create_handles(4, FeatureKind::Pad, ParameterKind::Fillet, &[]).unwrap();
    assert!(ids.is_empty());
    assert!(system.handles.is_empty());
}

#[test]
fn dragging_a_handle_chooses_the_edit_and_moves_the_handle() {
    let mut system = FeatureHandleSystem::new();
    let ids = system.create_handles_at(
        &[100, 100, 100],
        7,
        FeatureKind::Hole,
        ParameterKind::Hole,
        &[placement(0.0, 1.0), placement(1.0, 1.0), placement(2.0, 1.0)],
    );
    assert_eq!(ids, vec![100, 101, 102]);
    let to = point(5.0, 6.0, 7.0);
    let edit = system.drag_handle_to(102, FeatureKind::Hole, to).unwrap();
    assert_eq!(edit.feature_id, 7);
    assert_eq!(edit.kind, DragEditKind::ResizeRadius);
    assert_eq!(edit.from, point(2.0, 0.0, 0.0));
    assert_eq!(system.handles[2].position, to);
    assert_eq!(system.handles[0].position, point(0.0, 0.0, 0.0));
    let edit = system.drag_handle_to(101, FeatureKind::Hole, to).unwrap();
    assert_eq!(edit.kind, DragEditKind::ResizeDepth);
    let edit = system.drag_handle_to(100, FeatureKind::Hole, to).unwrap();
    assert_eq!(edit.kind, DragEditKind::Move);
    assert_eq!(edit.from, point(0.0, 0.0, 0.0));
}

#[test]
fn dragging_an_unknown_handle_is_an_invalid_selection() {
    let mut system = FeatureHandleSystem::new();
    system.create_handles_at(&[10], 1, FeatureKind::Fillet, ParameterKind::Fillet, &[placement(0.0, 1.0)]);
    let before = system.handles.clone();
    let err = system.drag_handle_to(99, FeatureKind::Fillet, point(1.0, 1.0, 1.0)).unwrap_err();
    assert_eq!(err, SyncError::InvalidSelection("Handle not found".to_string()));
    assert_eq!(system.handles, before);
}

#[test]
fn drag_edits_by_handle_and_feature() {
    assert_eq!(drag_edit_kind(HandleType::Size, FeatureKind::Pad), DragEditKind::ResizeHeight);
    assert_eq!(drag_edit_kind(HandleType::Depth, FeatureKind::Pocket), DragEditKind::ResizeHeight);
    assert_eq!(drag_edit_kind(HandleType::Radius, FeatureKind::Fillet), DragEditKind::ResizeRadius);
    assert_eq!(drag_edit_kind(HandleType::Size, FeatureKind::Chamfer), DragEditKind::NoEdit);
    assert_eq!(drag_edit_kind(HandleType::Direction, FeatureKind::Slot), DragEditKind::ChangeDirection);
    assert_eq!(drag_edit_kind(HandleType::Rotation, FeatureKind::Hole), DragEditKind::NoEdit);
}

#[test]
fn related_faces_share_an_edge() {
    let mut ids = EntityIdGenerator::new();
    let body = cube(&mut ids);
    let engine = LiveRulesEngine::new();
    let faces = body.faces();
    for f in &faces {
        let related = engine.find_related_faces(&body, f);
        // Every face of a cube touches four others; the opposite one it does not.
        assert_eq!(related.len(), 4);
        assert!(related.iter().all(|g| g.id() != f.id()));
    }
    let lone = Face::new(&mut ids);
    assert!(engine.find_related_faces(&body, &lone).is_empty());
}

#[test]
fn detected_rules_come_highest_priority_first() {
    let engine = LiveRulesEngine::new();
    let typed = |id: u64, t: RuleType| Rule { rule_type: t, ..rule(id) };
    let rules = vec![
        typed(1, RuleType::Symmetric),
        typed(2, RuleType::Parallel),
        typed(3, RuleType::Coincident),
        typed(4, RuleType::Tangent),
        typed(5, RuleType::EqualRadius),
        typed(6, RuleType::Perpendicular),
    ];
    let sorted = engine.sort_by_priority(&rules);
    let ids: Vec<u64> = sorted.iter().map(|r| r.id).collect();
    // Highest (3), then High last first (6, 2), Medium last first (4, 1), Low (5).
    assert_eq!(ids, vec![3, 6, 2, 4, 1, 5]);
    assert!(engine.sort_by_priority(&[]).is_empty());
}
