//! The controller's insert hook.
use vstd::prelude::*;

use super::data::CameraController;
use crate::registry::{extends, App, Registration};
use crate::service::input::data::Camera;

verus! {

/// Runs when a controller is inserted on an entity that has a camera: the
/// camera renders exactly when the controller says it is active.
pub fn insert_camera_controller(camera: &mut Camera, controller: Option<CameraController>)
    ensures
        final(camera).is_active == match controller {
            Some(c) => c.active,
            None => old(camera).is_active,
        },
{
    if let Some(controller) = controller {
        camera.is_active = controller.active;
    }
}

pub open spec fn registrations() -> Seq<Registration> {
    Seq::empty()
}

/// Registers nothing: the hook is part of the controller component.
pub fn plugin(app: &mut App)
    ensures
        extends(*old(app), *final(app), registrations()),
{
}

} // verus!
