use editor_build_mode::mode::EditorBuildMode;
use editor_build_mode::mode::GizmoKind;
use editor_build_mode::mode::ModifierKey;
use editor_build_mode::mode::SelectMode;
use editor_build_mode::mode::TransformControls;
use editor_build_mode::mode::TransformMode;
use editor_build_mode::resolve::EntityUid;

#[test]
fn modifier_keys_steer_select_mode() {
    let mut context = EditorBuildMode::new();
    assert_eq!(context.select_mode, SelectMode::Replace);
    assert!(!context.handle_modifier(ModifierKey::Shift, true));
    assert_eq!(context.select_mode, SelectMode::Add);
    assert!(!context.handle_modifier(ModifierKey::Shift, false));
    assert_eq!(context.select_mode, SelectMode::Replace);
    assert!(!context.handle_modifier(ModifierKey::Control, true));
    assert_eq!(context.select_mode, SelectMode::Remove);
    assert!(!context.handle_modifier(ModifierKey::Control, false));
    assert_eq!(context.select_mode, SelectMode::Replace);
}

#[test]
fn modifier_keys_leave_transform_mode_alone() {
    let mut context = EditorBuildMode::new();
    context.set_transform_mode(Some(TransformMode::Rotate));
    context.handle_modifier(ModifierKey::Shift, true);
    assert_eq!(context.transform_mode, Some(TransformMode::Rotate));
}

#[test]
fn escape_leaves_gesture_editing() {
    let mut context = EditorBuildMode::new();
    context.set_transform_mode(Some(TransformMode::Place));
    assert_eq!(context.transform_mode, Some(TransformMode::Place));
    context.set_transform_mode(None);
    assert_eq!(context.transform_mode, None);
}

#[test]
fn gizmo_follows_mode_and_targets() {
    let with_targets = TransformControls::new(vec![EntityUid(1)]);
    assert_eq!(with_targets.gizmo(Some(TransformMode::Translate)), GizmoKind::Translation);
    assert_eq!(with_targets.gizmo(Some(TransformMode::Rotate)), GizmoKind::Rotation);
    assert_eq!(with_targets.gizmo(Some(TransformMode::Scale)), GizmoKind::Scaling);
    assert_eq!(with_targets.gizmo(Some(TransformMode::Place)), GizmoKind::Placement);
    assert_eq!(with_targets.gizmo(None), GizmoKind::Hidden);

    let empty = TransformControls::new(Vec::new());
    assert_eq!(empty.gizmo(Some(TransformMode::Translate)), GizmoKind::Hidden);
}

#[test]
fn toolbar_button_toggled_only_for_active_mode() {
    assert!(TransformControls::mode_toggled(Some(TransformMode::Scale), TransformMode::Scale));
    assert!(!TransformControls::mode_toggled(Some(TransformMode::Scale), TransformMode::Rotate));
    assert!(!TransformControls::mode_toggled(None, TransformMode::Scale));
}

#[test]
fn mode_labels() {
    assert_eq!(TransformMode::Translate.label(), "Translate");
    assert_eq!(TransformMode::Rotate.label(), "Rotate");
    assert_eq!(TransformMode::Scale.label(), "Scale");
    assert_eq!(TransformMode::Place.label(), "Place");
}
