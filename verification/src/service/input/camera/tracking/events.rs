//! Orbit and zoom input of the tracking camera.
use vstd::prelude::*;

use crate::registry::{extends, App, Observer, Registration};
use crate::service::input::data::{Camera, CursorGrabMode, CursorOptions};

verus! {

/// Whether orbit and zoom events reach a tracking camera. Events evaluated
/// before a switch or a release are applied later, so ownership is checked
/// again here: the camera renders, its input context is active, and there is
/// one primary window, focused, with the cursor locked.
pub fn input_enabled(camera: &Camera, activity: bool, window: Option<(bool, CursorOptions)>) -> (r: bool)
    ensures
        r == (camera.is_active && activity && (window matches Some((focused, cursor)) && focused
            && cursor.grab_mode == CursorGrabMode::Locked)),
{
    camera.is_active && activity && match window {
        Some((focused, cursor)) => focused && match cursor.grab_mode {
            CursorGrabMode::Locked => true,
            _ => false,
        },
        None => false,
    }
}

pub open spec fn registrations() -> Seq<Registration> {
    seq![
        Registration::Observer(Observer::RotateTrackingCamera),
        Registration::Observer(Observer::ZoomTrackingCamera),
    ]
}

pub fn plugin(app: &mut App)
    ensures
        extends(*old(app), *final(app), registrations()),
        final(app).registrations@.contains(Registration::Observer(Observer::RotateTrackingCamera)),
        final(app).registrations@.contains(Registration::Observer(Observer::ZoomTrackingCamera)),
{
    let ghost n: int = app.registrations@.len() as int;
    app.add(Registration::Observer(Observer::RotateTrackingCamera));
    app.add(Registration::Observer(Observer::ZoomTrackingCamera));
    assert(app.registrations@[n] == Registration::Observer(Observer::RotateTrackingCamera));
    assert(app.registrations@[n + 1] == Registration::Observer(Observer::ZoomTrackingCamera));
}

} // verus!
