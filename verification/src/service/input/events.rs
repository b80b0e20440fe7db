//! Quitting, and the global input context.
use vstd::prelude::*;

use super::data::{ActionKind, ActionSpec, Binding, ContextSpec, CursorGrabMode, CursorOptions, Key, SpawnGlobalCtx};
use crate::registry::{extends, App, InputContextKind, Observer, Registration};

verus! {

/// The priority of the global context: it sees Escape before cursor capture does.
pub const GLOBAL_PRIORITY: usize = 1000;

/// Quitting is allowed only while the cursor is not grabbed.
pub open spec fn quits(cursor: CursorOptions) -> bool {
    cursor.grab_mode == CursorGrabMode::Free
}

/// Whether completing the quit action exits the application: only while the
/// cursor is not grabbed, so that a captured camera is released first.
pub fn exit_app(cursor: &CursorOptions) -> (exit: bool)
    ensures
        exit == quits(*cursor),
{
    match cursor.grab_mode {
        CursorGrabMode::Free => true,
        _ => false,
    }
}

/// The global context: quit on Escape, without swallowing Escape, and only
/// after Escape was released once the context is live.
pub open spec fn global_ctx_spec(spec: ContextSpec) -> bool {
    &&& spec.context == InputContextKind::Global
    &&& spec.active
    &&& spec.priority == GLOBAL_PRIORITY
    &&& spec.actions@ =~= seq![
        ActionSpec {
            action: ActionKind::Quit,
            binding: Binding::Key(Key::Escape),
            consume_input: false,
            require_reset: true,
        },
    ]
}

/// Spawns the always-active global input context.
pub fn spawn_global_ctx(_event: SpawnGlobalCtx) -> (spec: ContextSpec)
    ensures
        global_ctx_spec(spec),
{
    let mut actions = Vec::new();
    actions.push(
        ActionSpec {
            action: ActionKind::Quit,
            binding: Binding::Key(Key::Escape),
            consume_input: false,
            require_reset: true,
        },
    );
    ContextSpec { context: InputContextKind::Global, active: true, priority: GLOBAL_PRIORITY, actions }
}

pub open spec fn registrations() -> Seq<Registration> {
    seq![Registration::Observer(Observer::ExitApp), Registration::Observer(Observer::SpawnGlobalCtx)]
}

pub fn plugin(app: &mut App)
    ensures
        extends(*old(app), *final(app), registrations()),
        final(app).registrations@.contains(Registration::Observer(Observer::ExitApp)),
{
    let ghost n: int = app.registrations@.len() as int;
    app.add(Registration::Observer(Observer::ExitApp));
    app.add(Registration::Observer(Observer::SpawnGlobalCtx));
    assert(app.registrations@[n] == Registration::Observer(Observer::ExitApp));
}

} // verus!
