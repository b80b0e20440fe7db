//! What the input services read of the window and the cameras, and how
//! their input contexts are laid out.
use vstd::prelude::*;

use crate::registry::InputContextKind;

verus! {

/// How the cursor is held by the primary window.
#[derive(Clone, Copy, Debug, PartialEq, Eq, Structural)]
pub enum CursorGrabMode {
    /// The cursor can freely leave the window.
    Free,
    /// The cursor is confined to the window area.
    Confined,
    /// The cursor is locked inside the window area.
    Locked,
}

/// The cursor options of the primary window.
#[derive(Clone, Copy, Debug, PartialEq, Eq, Structural)]
pub struct CursorOptions {
    pub visible: bool,
    pub grab_mode: CursorGrabMode,
}

impl CursorOptions {
    /// The cursor is shown and free.
    pub open spec fn is_released(self) -> bool {
        self.visible && self.grab_mode == CursorGrabMode::Free
    }

    /// The cursor is hidden and locked.
    pub open spec fn is_captured(self) -> bool {
        !self.visible && self.grab_mode == CursorGrabMode::Locked
    }

    /// Shows and frees the cursor.
    pub fn release(&mut self)
        ensures
            final(self).is_released(),
    {
        self.visible = true;
        self.grab_mode = CursorGrabMode::Free;
    }

    /// Hides and locks the cursor.
    pub fn capture(&mut self)
        ensures
            final(self).is_captured(),
    {
        self.visible = false;
        self.grab_mode = CursorGrabMode::Locked;
    }
}

/// Whether a camera renders.
#[derive(Clone, Copy, Debug, PartialEq, Eq, Structural)]
pub struct Camera {
    pub is_active: bool,
}

/// Always-active input context.
pub struct ICtxGlobal;

/// Quits the application.
pub struct PAQuit;

/// Spawns the global input context.
pub struct SpawnGlobalCtx;

/// Keys that the input contexts of this library bind.
#[derive(Clone, Copy, Debug, PartialEq, Eq, Structural)]
pub enum Key {
    Tab,
    Escape,
}

/// The input that triggers an action.
#[derive(Clone, Copy, Debug, PartialEq, Eq, Structural)]
pub enum Binding {
    Key(Key),
    MouseLeft,
}

/// The actions bound by the button-driven input contexts.
#[derive(Clone, Copy, Debug, PartialEq, Eq, Structural)]
pub enum ActionKind {
    Quit,
    CaptureCursor,
    ReleaseCursor,
    SwitchCamera,
}

/// One action of an input context, its binding and its settings.
#[derive(Clone, Copy, Debug, PartialEq, Eq, Structural)]
pub struct ActionSpec {
    pub action: ActionKind,
    pub binding: Binding,
    /// Swallows the binding so that contexts evaluated later do not see it.
    pub consume_input: bool,
    /// Waits until the binding is released before the first activation.
    pub require_reset: bool,
}

/// An input context to spawn: contexts of higher priority are evaluated earlier.
pub struct ContextSpec {
    pub context: InputContextKind,
    pub active: bool,
    pub priority: usize,
    pub actions: Vec<ActionSpec>,
}

/// The priority of a context that sets none.
pub const DEFAULT_PRIORITY: usize = 0;

} // verus!
