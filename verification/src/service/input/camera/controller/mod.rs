use vstd::prelude::*;

use crate::registry::{extends, App, InputContextKind, Registration};

pub mod data;
pub mod events;

pub use data::{CameraController, CameraControllerKind, InsertCameraController};
pub use events::insert_camera_controller;

verus! {

pub open spec fn registrations() -> Seq<Registration> {
    events::registrations() + seq![Registration::InputContext(InputContextKind::CameraController)]
}

pub fn plugin(app: &mut App)
    ensures
        extends(*old(app), *final(app), registrations()),
{
    events::plugin(app);
    app.add(Registration::InputContext(InputContextKind::CameraController));
}

} // verus!
