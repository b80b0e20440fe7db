//! Input gating of the free camera.
use vstd::prelude::*;

use super::data::{FreeCameraInput, FreeCameraParts, FreeCameraState};
use crate::registry::{extends, App, Observer, Registration, Schedule, System};
use crate::service::input::data::{Camera, CursorGrabMode, CursorOptions};

verus! {

/// What gating reads of the keyboard and mouse in a frame.
#[derive(Clone, Copy, Debug, PartialEq, Eq, Structural)]
pub struct FlyControls {
    /// The camera's capture mouse button is held.
    pub grab_held: bool,
    /// The camera's capture toggle key is held.
    pub toggle_held: bool,
    /// The capture toggle key went down this frame.
    pub toggle_just_pressed: bool,
    /// Escape is held.
    pub escape_held: bool,
}

/// A shown, free cursor.
pub open spec fn released_cursor() -> CursorOptions {
    CursorOptions { visible: true, grab_mode: CursorGrabMode::Free }
}

/// A camera that does not fly, move or snap.
pub open spec fn stopped() -> FreeCameraState {
    FreeCameraState { enabled: false, moving: false, snapping: false }
}

/// Cleared capture latches.
pub open spec fn cleared() -> FreeCameraInput {
    FreeCameraInput { armed: false, toggled: false }
}

/// One frame of gating: the cursor, flight state and latches that it leaves.
///
/// An inactive or unfocused camera is reset, freeing the cursor if it was
/// flying. A reset camera spends one frame stopped, and arms only in a frame
/// in which no capture control and no Escape is held. A flying camera whose
/// cursor was unlocked elsewhere is reset. Otherwise the toggle key flips the
/// toggle latch when it goes down, and the camera flies while the latch is on
/// or the capture button is held; a camera that does not fly is stopped in the
/// same frame.
pub open spec fn gate_step(
    controls: FlyControls,
    window_focused: bool,
    camera_active: bool,
    cursor: CursorOptions,
    state: FreeCameraState,
    input: FreeCameraInput,
) -> (CursorOptions, FreeCameraState, FreeCameraInput) {
    if !camera_active || !window_focused {
        (if state.enabled { released_cursor() } else { cursor }, stopped(), cleared())
    } else if !input.armed {
        (
            cursor,
            stopped(),
            FreeCameraInput {
                armed: !controls.grab_held && !controls.toggle_held && !controls.escape_held,
                toggled: input.toggled,
            },
        )
    } else if state.enabled && cursor.grab_mode != CursorGrabMode::Locked {
        (cursor, stopped(), cleared())
    } else {
        let toggled = input.toggled != controls.toggle_just_pressed;
        let enabled = toggled || controls.grab_held;
        (
            cursor,
            if enabled { FreeCameraState { enabled: true, ..state } } else { stopped() },
            FreeCameraInput { armed: true, toggled },
        )
    }
}

/// Gates the free camera before the engine's free camera controller runs.
pub fn gate_input(
    controls: FlyControls,
    window_focused: bool,
    camera: &Camera,
    cursor: &mut CursorOptions,
    state: &mut FreeCameraState,
    input: &mut FreeCameraInput,
)
    ensures
        (*final(cursor), *final(state), *final(input)) == gate_step(
            controls,
            window_focused,
            camera.is_active,
            *old(cursor),
            *old(state),
            *old(input),
        ),
{
    let held = controls.grab_held;
    let toggle_held = controls.toggle_held;

    if !camera.is_active || !window_focused {
        if state.enabled {
            cursor.release();
        }
        input.reset(state);
        return;
    }
    // A newly spawned or reset controller gets one disabled frame, and waits
    // for held capture controls to be released.

    if !input.armed {
        input.armed = !held && !toggle_held && !controls.escape_held;
        FreeCameraInput::stop(state);
        return;
    }
    if state.enabled && cursor.grab_mode != CursorGrabMode::Locked {
        input.reset(state);
        return;
    }
    if controls.toggle_just_pressed {
        input.toggled = !input.toggled;
    }
    state.enabled = input.toggled || held;
    if !state.enabled {
        // The engine applies movement before releasing its cursor; stopping
        // here also keeps its pending snap rotation from running.
        FreeCameraInput::stop(state);
    }
}

/// A screen change frees the cursor if an active free camera held it, and
/// resets every free camera.
pub fn on_screen_changed(cameras: &mut Vec<FreeCameraParts>, cursor: &mut CursorOptions)
    ensures
        final(cameras).len() == old(cameras).len(),
        forall|i: int|
            0 <= i < final(cameras).len() ==> {
                &&& (#[trigger] final(cameras)[i]).camera == old(cameras)[i].camera
                &&& final(cameras)[i].state == stopped()
                &&& final(cameras)[i].input == cleared()
            },
        (exists|i: int| 0 <= i < old(cameras).len() && (#[trigger] old(cameras)[i]).camera.is_active)
            ==> *final(cursor) == released_cursor(),
        (forall|i: int| 0 <= i < old(cameras).len() ==> !(#[trigger] old(cameras)[i]).camera.is_active)
            ==> *final(cursor) == *old(cursor),
{
    let n = cameras.len();
    let mut i: usize = 0;
    while i < n
        invariant
            n == cameras.len(),
            n == old(cameras).len(),
            i <= n,
            forall|j: int|
                0 <= j < i ==> {
                    &&& (#[trigger] cameras[j]).camera == old(cameras)[j].camera
                    &&& cameras[j].state == stopped()
                    &&& cameras[j].input == cleared()
                },
            forall|j: int| i <= j < n ==> #[trigger] cameras[j] == old(cameras)[j],
            (exists|j: int| 0 <= j < i && (#[trigger] old(cameras)[j]).camera.is_active)
                ==> *cursor == released_cursor(),
            (forall|j: int| 0 <= j < i ==> !(#[trigger] old(cameras)[j]).camera.is_active)
                ==> *cursor == *old(cursor),
        decreases n - i,
    {
        let mut parts = cameras[i];
        if parts.camera.is_active {
            cursor.release();
        }
        parts.input.reset(&mut parts.state);
        cameras.set(i, parts);
        i += 1;
    }
}

/// Removing an active free camera frees the cursor at once.
pub fn on_remove(camera: Option<Camera>, cursor: &mut CursorOptions)
    ensures
        (camera matches Some(c) && c.is_active) ==> *final(cursor) == released_cursor(),
        !(camera matches Some(c) && c.is_active) ==> *final(cursor) == *old(cursor),
{
    if let Some(c) = camera {
        if c.is_active {
            cursor.release();
        }
    }
}

pub open spec fn registrations() -> Seq<Registration> {
    seq![
        Registration::System(Schedule::RunFixedMainLoop, System::GateFreeCameraInput),
        Registration::Observer(Observer::FreeCameraScreenChanged),
        Registration::Observer(Observer::FreeCameraRemoved),
    ]
}

/// The gating system and the reset observers, as a plugin of their own. The
/// camera plugin does not add it: it adds the free camera input plugin.
pub fn plugin(app: &mut App)
    ensures
        extends(*old(app), *final(app), registrations()),
{
    app.add(Registration::System(Schedule::RunFixedMainLoop, System::GateFreeCameraInput));
    app.add(Registration::Observer(Observer::FreeCameraScreenChanged));
    app.add(Registration::Observer(Observer::FreeCameraRemoved));
}

} // verus!
