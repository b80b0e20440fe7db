use vstd::prelude::*;

use crate::registry::{extends, App, InputContextKind, Registration};

pub mod bundle;
pub mod events;

pub use bundle::{tracking_cam_bundle, TrackingCamBundle};

verus! {

pub open spec fn registrations() -> Seq<Registration> {
    events::registrations() + seq![Registration::InputContext(InputContextKind::SpringArm)]
}

/// Orbit and zoom observers, and the spring arm's input context.
pub fn plugin(app: &mut App)
    ensures
        extends(*old(app), *final(app), registrations()),
{
    events::plugin(app);
    app.add(Registration::InputContext(InputContextKind::SpringArm));
}

} // verus!
