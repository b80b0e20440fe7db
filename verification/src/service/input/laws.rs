//! Properties that the input services keep across frames and events.
use vstd::prelude::*;

use super::camera::fly::data::{FreeCameraInput, FreeCameraState};
use super::camera::fly::events::{cleared, gate_step, released_cursor, stopped, FlyControls};
use super::cursor::data::ICtxCaptureCursor;
use super::cursor::events::{
    activity_update, captures, sync_armed, tracking_enabled, LeftButton, CAPTURE_PRIORITY,
};
use super::data::{Camera, CursorGrabMode, CursorOptions, DEFAULT_PRIORITY};
use super::events::{quits, GLOBAL_PRIORITY};
use crate::screen::dev::camera_test::data::CAMERA_TEST_PRIORITY;

verus! {

/// The activity that a context has once `update` is inserted, if any.
pub open spec fn apply_activity(current: bool, update: Option<bool>) -> bool {
    match update {
        Some(wanted) => wanted,
        None => current,
    }
}

/// A free camera flies only when it renders, the window is focused, its
/// capture controls were armed before the frame, and the capture toggle is on
/// or the capture button is held.
pub proof fn lemma_flight_needs_camera_focus_and_gesture(
    controls: FlyControls,
    window_focused: bool,
    camera_active: bool,
    cursor: CursorOptions,
    state: FreeCameraState,
    input: FreeCameraInput,
)
    ensures
        ({
            let (_, s, i) = gate_step(controls, window_focused, camera_active, cursor, state, input);
            s.enabled ==> camera_active && window_focused && input.armed && (i.toggled
                || controls.grab_held)
        }),
{
}

/// A free camera that does not fly in a frame is stopped in that same frame:
/// no velocity and no pending snap survive a release of the capture controls.
pub proof fn lemma_grounded_camera_is_stopped(
    controls: FlyControls,
    window_focused: bool,
    camera_active: bool,
    cursor: CursorOptions,
    state: FreeCameraState,
    input: FreeCameraInput,
)
    ensures
        ({
            let (_, s, _) = gate_step(controls, window_focused, camera_active, cursor, state, input);
            !s.enabled ==> s.is_stopped()
        }),
{
}

/// A reset or newly spawned free camera spends a frame stopped, and arms only
/// in a frame in which no capture control and no Escape is held: controls
/// held across a reset cannot capture.
pub proof fn lemma_reset_camera_waits_for_release(
    controls: FlyControls,
    window_focused: bool,
    camera_active: bool,
    cursor: CursorOptions,
    state: FreeCameraState,
    input: FreeCameraInput,
)
    ensures
        ({
            let (_, s, i) = gate_step(controls, window_focused, camera_active, cursor, state, input);
            &&& !input.armed ==> !s.enabled
            &&& (!input.armed && i.armed) ==> !controls.grab_held && !controls.toggle_held
                && !controls.escape_held
        }),
{
}

/// Holding the capture toggle never turns the toggle on: only a fresh press does.
pub proof fn lemma_held_toggle_does_not_repeat(
    controls: FlyControls,
    window_focused: bool,
    camera_active: bool,
    cursor: CursorOptions,
    state: FreeCameraState,
    input: FreeCameraInput,
)
    ensures
        ({
            let (_, _, i) = gate_step(controls, window_focused, camera_active, cursor, state, input);
            !controls.toggle_just_pressed && i.toggled ==> input.toggled
        }),
{
}

/// Gating frees the cursor only when it stops a flying camera, and never grabs it.
pub proof fn lemma_gating_only_frees_the_cursor(
    controls: FlyControls,
    window_focused: bool,
    camera_active: bool,
    cursor: CursorOptions,
    state: FreeCameraState,
    input: FreeCameraInput,
)
    ensures
        ({
            let (c, _, _) = gate_step(controls, window_focused, camera_active, cursor, state, input);
            c == cursor || (c == released_cursor() && state.enabled)
        }),
{
}

/// After a cursor release, which clears every free camera's latches and stops
/// it, no free camera flies in the next frame, whatever is held.
pub proof fn lemma_no_flight_after_release(
    controls: FlyControls,
    window_focused: bool,
    camera_active: bool,
    cursor: CursorOptions,
)
    ensures
        !gate_step(controls, window_focused, camera_active, cursor, stopped(), cleared()).1.enabled,
{
}

/// Inserting the update of a sync or a release gives a context the activity
/// that was wanted, and nothing is inserted when it already had it.
pub proof fn lemma_activity_update_reaches_wanted(current: bool, wanted: bool)
    ensures
        apply_activity(current, activity_update(current, wanted)) == wanted,
        activity_update(current, wanted) is None <==> current == wanted,
{
}

/// A capture context is disarmed by focus loss or by the tracking camera
/// losing selection, and a disarmed context stays disarmed while the left
/// button is held or is released in this frame: a click begun before a switch
/// or a focus loss cannot capture on its completion.
pub proof fn lemma_held_click_stays_disarmed(
    armed: bool,
    window_focused: bool,
    selected: bool,
    left: LeftButton,
)
    ensures
        !window_focused || !selected ==> !sync_armed(armed, window_focused, selected, left),
        left.pressed || left.just_released ==> sync_armed(false, window_focused, selected, left)
            == false,
{
}

/// A capture leaves the tracking camera's input enabled: once the cursor is
/// captured for a rendering camera in a focused window, a sync wants its
/// context active.
pub proof fn lemma_capture_enables_tracking_input(camera: Camera)
    requires
        camera.is_active,
    ensures
        tracking_enabled(
            camera,
            true,
            CursorOptions { visible: false, grab_mode: CursorGrabMode::Locked },
        ),
{
}

/// After a release, which disarms every capture context, no click captures
/// the cursor until a sync has seen the left button up past its release frame.
pub proof fn lemma_release_needs_a_fresh_click(
    window_focused: bool,
    selected: bool,
    left: LeftButton,
    tracking: Option<Camera>,
)
    ensures
        !captures(window_focused, Some(ICtxCaptureCursor { armed: false }), tracking),
        captures(
            window_focused,
            Some(ICtxCaptureCursor { armed: sync_armed(false, window_focused, selected, left) }),
            tracking,
        ) ==> !left.pressed && !left.just_released && selected,
{
}

/// A released cursor keeps every tracking camera's input off: a sync after a
/// release wants every tracking context inactive.
pub proof fn lemma_released_cursor_keeps_tracking_input_off(camera: Camera, window_focused: bool)
    ensures
        !tracking_enabled(camera, window_focused, released_cursor()),
{
}

/// Escape first releases a captured cursor, and only a second Escape quits:
/// the quit context is evaluated before the capture context, so the first
/// Escape reaches quit while the cursor is still grabbed, which does not quit;
/// the release then frees the cursor, and the next quit exits. The camera
/// test's switch is evaluated before both, and camera input after all of them.
pub proof fn lemma_escape_releases_before_quitting(cursor: CursorOptions)
    requires
        cursor.grab_mode != CursorGrabMode::Free,
    ensures
        CAMERA_TEST_PRIORITY > GLOBAL_PRIORITY,
        GLOBAL_PRIORITY > CAPTURE_PRIORITY,
        CAPTURE_PRIORITY > DEFAULT_PRIORITY,
        !quits(cursor),
        quits(released_cursor()),
{
}

} // verus!
