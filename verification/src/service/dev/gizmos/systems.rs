use vstd::prelude::*;

use crate::registry::{extends, App, Registration, Schedule, System};

verus! {

pub open spec fn registrations() -> Seq<Registration> {
    seq![Registration::System(Schedule::Update, System::RenderCameraGizmos)]
}

/// Draws the camera gizmos every frame.
pub fn plugin(app: &mut App)
    ensures
        extends(*old(app), *final(app), registrations()),
{
    app.add(Registration::System(Schedule::Update, System::RenderCameraGizmos));
}

} // verus!
