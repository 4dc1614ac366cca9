use vstd::prelude::*;

use crate::resolve::EntityUid;

verus! {

/// How a click combines with the existing selection while the matching
/// modifier key is held.
#[derive(Clone, Copy, Debug, PartialEq, Eq, Structural)]
pub enum SelectMode {
    Replace,
    Add,
    Remove,
}

/// Which transform gesture the active tool edits.
#[derive(Clone, Copy, Debug, PartialEq, Eq, Structural)]
pub enum TransformMode {
    Translate,
    Rotate,
    Scale,
    Place,
}

/// The two modifier keys that steer multi-select accumulation.
#[derive(Clone, Copy, Debug, PartialEq, Eq, Structural)]
pub enum ModifierKey {
    Shift,
    Control,
}

/// The gizmo the transform toolbar mounts for the current mode and targets.
#[derive(Clone, Copy, Debug, PartialEq, Eq, Structural)]
pub enum GizmoKind {
    Translation,
    Rotation,
    Scaling,
    Placement,
    Hidden,
}

impl TransformMode {
    pub open spec fn spec_label(self) -> Seq<char> {
        match self {
            TransformMode::Translate => "Translate"@,
            TransformMode::Rotate => "Rotate"@,
            TransformMode::Scale => "Scale"@,
            TransformMode::Place => "Place"@,
        }
    }

    /// Tooltip text of the mode's toolbar button.
    pub fn label(&self) -> (text: &'static str)
        ensures
            text@ == self.spec_label(),
    {
        match self {
            TransformMode::Translate => "Translate",
            TransformMode::Rotate => "Rotate",
            TransformMode::Scale => "Scale",
            TransformMode::Place => "Place",
        }
    }
}

/// Mode and selection context of the build-mode overlay: which selection
/// accumulation mode the held modifiers demand, and which transform gesture
/// tool, if any, is active. A thin state holder consumed by the widgets.
#[derive(Debug, Clone)]
pub struct EditorBuildMode {
    pub select_mode: SelectMode,
    pub transform_mode: Option<TransformMode>,
}

impl EditorBuildMode {
    /// The selection mode a modifier key event demands: Shift held
    /// accumulates, Control held removes, either released returns to plain
    /// replacement.
    pub open spec fn spec_mode_for(key: ModifierKey, pressed: bool) -> SelectMode {
        if pressed {
            match key {
                ModifierKey::Shift => SelectMode::Add,
                ModifierKey::Control => SelectMode::Remove,
            }
        } else {
            SelectMode::Replace
        }
    }

    /// The context the overlay mounts with: plain replacement selection and
    /// no transform tool active.
    pub fn new() -> (context: Self)
        ensures
            context.select_mode == SelectMode::Replace,
            context.transform_mode is None,
    {
        EditorBuildMode { select_mode: SelectMode::Replace, transform_mode: None }
    }

    /// Apply one modifier key event. Returns whether the event is consumed:
    /// never, because the same keys also steer player movement.
    pub fn handle_modifier(&mut self, key: ModifierKey, pressed: bool) -> (consumed: bool)
        ensures
            final(self).select_mode == Self::spec_mode_for(key, pressed),
            final(self).transform_mode == old(self).transform_mode,
            !consumed,
    {
        self.select_mode = if pressed {
            match key {
                ModifierKey::Shift => SelectMode::Add,
                ModifierKey::Control => SelectMode::Remove,
            }
        } else {
            SelectMode::Replace
        };
        false
    }

    /// Switch the transform tool; `None` (the escape path, or a gizmo click)
    /// leaves gesture editing. Abandoning a gesture this way does not undo
    /// it: the owning dispatcher is responsible for that on its release.
    pub fn set_transform_mode(&mut self, mode: Option<TransformMode>)
        ensures
            final(self).transform_mode == mode,
            final(self).select_mode == old(self).select_mode,
    {
        self.transform_mode = mode;
    }
}

/// The transform toolbar: the resolved targets its gizmos operate on.
#[derive(Debug, Clone)]
pub struct TransformControls {
    pub targets: Vec<EntityUid>,
}

impl TransformControls {
    /// Which gizmo the toolbar mounts: none without an active mode or
    /// without targets, else the controller of the active mode.
    pub open spec fn spec_gizmo(targets: Seq<EntityUid>, mode: Option<TransformMode>) -> GizmoKind {
        match mode {
            None => GizmoKind::Hidden,
            Some(m) => if targets.len() == 0 {
                GizmoKind::Hidden
            } else {
                match m {
                    TransformMode::Translate => GizmoKind::Translation,
                    TransformMode::Rotate => GizmoKind::Rotation,
                    TransformMode::Scale => GizmoKind::Scaling,
                    TransformMode::Place => GizmoKind::Placement,
                }
            },
        }
    }

    pub fn new(targets: Vec<EntityUid>) -> (controls: Self)
        ensures
            controls.targets == targets,
    {
        TransformControls { targets }
    }

    /// The gizmo to mount for the active transform mode.
    pub fn gizmo(&self, mode: Option<TransformMode>) -> (kind: GizmoKind)
        ensures
            kind == Self::spec_gizmo(self.targets@, mode),
    {
        match mode {
            None => GizmoKind::Hidden,
            Some(m) => if self.targets.len() == 0 {
                GizmoKind::Hidden
            } else {
                match m {
                    TransformMode::Translate => GizmoKind::Translation,
                    TransformMode::Rotate => GizmoKind::Rotation,
                    TransformMode::Scale => GizmoKind::Scaling,
                    TransformMode::Place => GizmoKind::Placement,
                }
            },
        }
    }

    /// Whether the toolbar button of `mode` renders toggled: exactly when it
    /// is the active mode.
    pub fn mode_toggled(current: Option<TransformMode>, mode: TransformMode) -> (toggled: bool)
        ensures
            toggled == (current == Some(mode)),
    {
        match current {
            Some(m) => m == mode,
            None => false,
        }
    }
}

} // verus!
