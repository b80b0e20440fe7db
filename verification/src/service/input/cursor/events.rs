//! Capturing and releasing the cursor, and keeping input contexts in step
//! with the selected camera and the window's focus.
use vstd::prelude::*;

use super::data::{ICtxCaptureCursor, SpawnCursorCapture};
use crate::registry::{
    extends, App, InputContextKind, Observer, Registration, ReleaseTrigger, Schedule, System,
};
use crate::service::input::camera::fly::data::FreeCameraParts;
use crate::service::input::camera::fly::events::{cleared, released_cursor, stopped};
use crate::service::input::data::{
    ActionKind, ActionSpec, Binding, Camera, ContextSpec, CursorGrabMode, CursorOptions, Key,
};
use crate::service::player::data::PlayerController;

verus! {

/// The priority of the capture context: after quit, before camera input.
pub const CAPTURE_PRIORITY: usize = 500;

/// Whether a completed capture click captures the cursor: the window is
/// focused, the capture context is armed, and the one tracking camera renders.
pub open spec fn captures(
    window_focused: bool,
    controls: Option<ICtxCaptureCursor>,
    tracking: Option<Camera>,
) -> bool {
    window_focused && (controls matches Some(c) && c.armed) && (tracking matches Some(t)
        && t.is_active)
}

/// Completing a capture click captures the cursor for the tracking camera:
/// only with a focused window, an armed capture context and exactly one
/// tracking camera, which is the active one. Returns whether the tracking
/// camera's input context is to be activated.
pub fn on_capture_cursor(
    window_focused: bool,
    controls: Option<ICtxCaptureCursor>,
    tracking: Option<Camera>,
    cursor: &mut CursorOptions,
) -> (activate: bool)
    ensures
        activate == captures(window_focused, controls, tracking),
        activate ==> *final(cursor) == (CursorOptions {
            visible: false,
            grab_mode: CursorGrabMode::Locked,
        }),
        !activate ==> *final(cursor) == *old(cursor),
{
    // A click held across a switch must not capture on its eventual completion.
    let armed = match controls {
        Some(c) => c.armed,
        None => false,
    };
    let selected = match tracking {
        Some(t) => t.is_active,
        None => false,
    };
    if window_focused && armed && selected {
        cursor.capture();
        true
    } else {
        false
    }
}

/// The context activity to insert for a context whose activity is `current`
/// and should be `wanted`: nothing when they agree.
pub open spec fn activity_update(current: bool, wanted: bool) -> Option<bool> {
    if current != wanted {
        Some(wanted)
    } else {
        None
    }
}

/// Releases the cursor: shows and frees it, disarms every capture context,
/// deactivates every active tracking context and resets every free camera.
/// Returns the context activity to insert for each tracking camera.
pub fn release_cursor(
    cursor: &mut CursorOptions,
    controls: &mut Vec<ICtxCaptureCursor>,
    tracking: &Vec<bool>,
    free_cameras: &mut Vec<FreeCameraParts>,
) -> (updates: Vec<Option<bool>>)
    ensures
        *final(cursor) == released_cursor(),
        final(controls).len() == old(controls).len(),
        forall|i: int| 0 <= i < final(controls).len() ==> !(#[trigger] final(controls)[i]).armed,
        updates.len() == tracking.len(),
        forall|i: int|
            0 <= i < tracking.len() ==> #[trigger] updates[i] == activity_update(tracking[i], false),
        final(free_cameras).len() == old(free_cameras).len(),
        forall|i: int|
            0 <= i < final(free_cameras).len() ==> {
                &&& (#[trigger] final(free_cameras)[i]).camera == old(free_cameras)[i].camera
                &&& final(free_cameras)[i].state == stopped()
                &&& final(free_cameras)[i].input == cleared()
            },
{
    cursor.release();
    let n = controls.len();
    let mut i: usize = 0;
    while i < n
        invariant
            n == controls.len(),
            n == old(controls).len(),
            i <= n,
            forall|j: int| 0 <= j < i ==> !(#[trigger] controls[j]).armed,
        decreases n - i,
    {
        controls.set(i, ICtxCaptureCursor { armed: false });
        i += 1;
    }
    let mut updates: Vec<Option<bool>> = Vec::new();
    let m = tracking.len();
    let mut k: usize = 0;
    while k < m
        invariant
            m == tracking.len(),
            k <= m,
            updates.len() == k,
            forall|j: int| 0 <= j < k ==> #[trigger] updates[j] == activity_update(tracking[j], false),
        decreases m - k,
    {
        if tracking[k] {
            updates.push(Some(false));
        } else {
            updates.push(None);
        }
        k += 1;
    }
    let f = free_cameras.len();
    let mut c: usize = 0;
    while c < f
        invariant
            f == free_cameras.len(),
            f == old(free_cameras).len(),
            c <= f,
            forall|j: int|
                0 <= j < c ==> {
                    &&& (#[trigger] free_cameras[j]).camera == old(free_cameras)[j].camera
                    &&& free_cameras[j].state == stopped()
                    &&& free_cameras[j].input == cleared()
                },
            forall|j: int| c <= j < f ==> #[trigger] free_cameras[j] == old(free_cameras)[j],
        decreases f - c,
    {
        let mut parts = free_cameras[c];
        parts.input.reset(&mut parts.state);
        free_cameras.set(c, parts);
        c += 1;
    }
    updates
}

/// The capture context: capture on a left click, release on Escape. Release
/// swallows Escape and waits for it to be released once the context is live.
pub open spec fn capture_ctx_spec(spec: ContextSpec) -> bool {
    &&& spec.context == InputContextKind::CaptureCursor
    &&& spec.active
    &&& spec.priority == CAPTURE_PRIORITY
    &&& spec.actions@ =~= seq![
        ActionSpec {
            action: ActionKind::CaptureCursor,
            binding: Binding::MouseLeft,
            consume_input: false,
            require_reset: false,
        },
        ActionSpec {
            action: ActionKind::ReleaseCursor,
            binding: Binding::Key(Key::Escape),
            consume_input: true,
            require_reset: true,
        },
    ]
}

/// Spawns the cursor capture context, unarmed.
pub fn spawn_cursor_capture(_event: SpawnCursorCapture) -> (r: (ICtxCaptureCursor, ContextSpec))
    ensures
        !r.0.armed,
        capture_ctx_spec(r.1),
{
    let mut actions = Vec::new();
    actions.push(
        ActionSpec {
            action: ActionKind::CaptureCursor,
            binding: Binding::MouseLeft,
            consume_input: false,
            require_reset: false,
        },
    );
    actions.push(
        ActionSpec {
            action: ActionKind::ReleaseCursor,
            binding: Binding::Key(Key::Escape),
            consume_input: true,
            require_reset: true,
        },
    );
    (
        ICtxCaptureCursor::default(),
        ContextSpec {
            context: InputContextKind::CaptureCursor,
            active: true,
            priority: CAPTURE_PRIORITY,
            actions,
        },
    )
}

/// A tracking camera: whether it renders, and whether its input context is active.
#[derive(Clone, Copy, Debug, PartialEq, Eq, Structural)]
pub struct TrackingContext {
    pub camera: Camera,
    pub active: bool,
}

/// A player: whether its input context is active, and its controller.
pub struct PlayerContext<M> {
    pub active: bool,
    pub controller: PlayerController<M>,
}

/// What the left mouse button did this frame.
#[derive(Clone, Copy, Debug, PartialEq, Eq, Structural)]
pub struct LeftButton {
    pub pressed: bool,
    pub just_released: bool,
}

/// What a frame's sync asks of the world besides the capture contexts.
pub struct SyncOutcome {
    /// The context activity to insert for each tracking camera.
    pub tracking: Vec<Option<bool>>,
    /// Whether players may receive movement.
    pub players_enabled: bool,
    /// The context activity to insert for each player.
    pub players: Vec<Option<bool>>,
    /// Whether to trigger a cursor release.
    pub release: bool,
}

/// Some tracking camera renders.
pub open spec fn tracking_selected(tracking: Seq<TrackingContext>) -> bool {
    exists|i: int| 0 <= i < tracking.len() && (#[trigger] tracking[i]).camera.is_active
}

/// The tracking context of a camera is enabled only while it renders, the
/// window is focused and the cursor is locked.
pub open spec fn tracking_enabled(camera: Camera, window_focused: bool, cursor: CursorOptions) -> bool {
    camera.is_active && window_focused && cursor.grab_mode == CursorGrabMode::Locked
}

/// The armed flag of a capture context after a sync: disarmed unless the
/// window is focused and a tracking camera is selected; armed once the left
/// button is up and was not released this frame; unchanged otherwise.
pub open spec fn sync_armed(armed: bool, window_focused: bool, selected: bool, left: LeftButton) -> bool {
    if !window_focused || !selected {
        false
    } else if !left.pressed && !left.just_released {
        true
    } else {
        armed
    }
}

/// Keeps input contexts in step with the selected camera and the window's
/// focus. Runs after input actions are applied, each frame.
pub fn sync_contexts<M>(
    window_focused: bool,
    cursor: &CursorOptions,
    left: LeftButton,
    controls: &mut Vec<ICtxCaptureCursor>,
    tracking: &Vec<TrackingContext>,
    players: &mut Vec<PlayerContext<M>>,
) -> (outcome: SyncOutcome)
    ensures
        final(controls).len() == old(controls).len(),
        forall|i: int|
            0 <= i < final(controls).len() ==> (#[trigger] final(controls)[i]).armed == sync_armed(
                old(controls)[i].armed,
                window_focused,
                tracking_selected(tracking@),
                left,
            ),
        outcome.tracking.len() == tracking.len(),
        forall|i: int|
            0 <= i < tracking.len() ==> #[trigger] outcome.tracking[i] == activity_update(
                tracking[i].active,
                tracking_enabled(tracking[i].camera, window_focused, *cursor),
            ),
        outcome.players_enabled == (tracking_selected(tracking@) && window_focused),
        outcome.players.len() == old(players).len(),
        final(players).len() == old(players).len(),
        forall|i: int|
            0 <= i < old(players).len() ==> #[trigger] outcome.players[i] == activity_update(
                old(players)[i].active,
                outcome.players_enabled,
            ),
        forall|i: int|
            0 <= i < old(players).len() ==> (#[trigger] final(players)[i]).active == old(
                players,
            )[i].active,
        forall|i: int|
            0 <= i < old(players).len() ==> (#[trigger] final(players)[i]).controller.last_move
                == if outcome.players_enabled {
                old(players)[i].controller.last_move
            } else {
                None
            },
        outcome.release == (!window_focused && cursor.grab_mode != CursorGrabMode::Free),
{
    let t = tracking.len();
    let mut selected = false;
    let mut k: usize = 0;
    while k < t
        invariant
            t == tracking.len(),
            k <= t,
            selected == exists|j: int| 0 <= j < k && (#[trigger] tracking[j]).camera.is_active,
        decreases t - k,
    {
        if tracking[k].camera.is_active {
            selected = true;
        }
        k += 1;
    }

    let n = controls.len();
    let mut i: usize = 0;
    while i < n
        invariant
            n == controls.len(),
            n == old(controls).len(),
            i <= n,
            selected == tracking_selected(tracking@),
            forall|j: int|
                0 <= j < i ==> (#[trigger] controls[j]).armed == sync_armed(
                    old(controls)[j].armed,
                    window_focused,
                    selected,
                    left,
                ),
            forall|j: int| i <= j < n ==> #[trigger] controls[j] == old(controls)[j],
        decreases n - i,
    {
        if !window_focused || !selected {
            controls.set(i, ICtxCaptureCursor { armed: false });
        } else if !left.pressed && !left.just_released {
            // Capture fires on click completion. Wait past the release frame so a
            // click begun before switching or focus loss cannot recapture the cursor.
            controls.set(i, ICtxCaptureCursor { armed: true });
        }
        i += 1;
    }

    let locked = match cursor.grab_mode {
        CursorGrabMode::Locked => true,
        _ => false,
    };
    let mut tracking_updates: Vec<Option<bool>> = Vec::new();
    let mut k: usize = 0;
    while k < t
        invariant
            t == tracking.len(),
            k <= t,
            locked == (cursor.grab_mode == CursorGrabMode::Locked),
            tracking_updates.len() == k,
            forall|j: int|
                0 <= j < k ==> #[trigger] tracking_updates[j] == activity_update(
                    tracking[j].active,
                    tracking_enabled(tracking[j].camera, window_focused, *cursor),
                ),
        decreases t - k,
    {
        let enabled = tracking[k].camera.is_active && window_focused && locked;
        if tracking[k].active != enabled {
            tracking_updates.push(Some(enabled));
        } else {
            tracking_updates.push(None);
        }
        k += 1;
    }

    let enabled = selected && window_focused;
    let p = players.len();
    let mut player_updates: Vec<Option<bool>> = Vec::new();
    let mut j: usize = 0;
    while j < p
        invariant
            p == players.len(),
            p == old(players).len(),
            j <= p,
            enabled == (tracking_selected(tracking@) && window_focused),
            player_updates.len() == j,
            forall|q: int|
                0 <= q < j ==> #[trigger] player_updates[q] == activity_update(
                    old(players)[q].active,
                    enabled,
                ),
            forall|q: int| 0 <= q < j ==> (#[trigger] players[q]).active == old(players)[q].active,
            forall|q: int|
                0 <= q < j ==> (#[trigger] players[q]).controller.last_move == if enabled {
                    old(players)[q].controller.last_move
                } else {
                    None
                },
            forall|q: int| j <= q < p ==> #[trigger] players[q] == old(players)[q],
        decreases p - j,
    {
        if players[j].active != enabled {
            player_updates.push(Some(enabled));
        } else {
            player_updates.push(None);
        }
        if !enabled {
            players[j].controller.last_move = None;
        }
        j += 1;
    }

    let release = !window_focused && match cursor.grab_mode {
        CursorGrabMode::Free => false,
        _ => true,
    };
    let outcome = SyncOutcome {
        tracking: tracking_updates,
        players_enabled: enabled,
        players: player_updates,
    release,
    };
    outcome
}

/// Removing the active tracking camera releases the cursor.
pub fn on_remove_tracking(camera: Option<Camera>) -> (release: bool)
    ensures
        release == (camera matches Some(c) && c.is_active),
{
    match camera {
        Some(c) => c.is_active,
        None => false,
    }
}

pub open spec fn registrations() -> Seq<Registration> {
    seq![
        Registration::Observer(Observer::CaptureCursor),
        Registration::Observer(Observer::ReleaseCursorAction),
        Registration::Observer(Observer::ReleaseCursor(ReleaseTrigger::ReleaseCursor)),
        Registration::Observer(Observer::SpawnCursorCapture),
        Registration::Observer(Observer::ReleaseCursor(ReleaseTrigger::ScreenChanged)),
        Registration::Observer(Observer::RemoveTracking),
        Registration::Observer(Observer::ResetSmoothing(InputContextKind::PlayerDefault)),
        Registration::Observer(Observer::ResetSmoothing(InputContextKind::SpringArm)),
        Registration::System(Schedule::PreUpdate, System::SyncContexts),
    ]
}

/// Capture, release and sync. Screen changes release the cursor too, so that
/// both camera modes share the screen manager's cleanup.
pub fn plugin(app: &mut App)
    ensures
        extends(*old(app), *final(app), registrations()),
{
    app.add(Registration::Observer(Observer::CaptureCursor));
    app.add(Registration::Observer(Observer::ReleaseCursorAction));
    app.add(Registration::Observer(Observer::ReleaseCursor(ReleaseTrigger::ReleaseCursor)));
    app.add(Registration::Observer(Observer::SpawnCursorCapture));
    app.add(Registration::Observer(Observer::ReleaseCursor(ReleaseTrigger::ScreenChanged)));
    app.add(Registration::Observer(Observer::RemoveTracking));
    app.add(Registration::Observer(Observer::ResetSmoothing(InputContextKind::PlayerDefault)));
    app.add(Registration::Observer(Observer::ResetSmoothing(InputContextKind::SpringArm)));
    app.add(Registration::System(Schedule::PreUpdate, System::SyncContexts));
}

} // verus!
