use vstd::prelude::*;

use crate::registry::{extends, App, ExternalPlugin, Registration, Resource};

pub mod controller;
pub mod data;
pub mod fly;
pub mod tracking;

verus! {

pub open spec fn registrations(dev: bool) -> Seq<Registration> {
    seq![
        Registration::Resource(Resource::SpringArmCollisionFilter),
        Registration::Plugin(ExternalPlugin::SpringArmCamera),
    ] + tracking::registrations() + if dev {
        seq![Registration::Plugin(ExternalPlugin::FreeCameraInput)]
    } else {
        Seq::empty()
    }
}

/// The spring-arm camera with its collision filter and its input, and in
/// development builds the free camera's input plugin.
pub fn plugin(app: &mut App)
    ensures
        extends(*old(app), *final(app), registrations(old(app).dev)),
{
    app.add(Registration::Resource(Resource::SpringArmCollisionFilter));
    app.add(Registration::Plugin(ExternalPlugin::SpringArmCamera));
    tracking::plugin(app);
    if app.dev {
        app.add(Registration::Plugin(ExternalPlugin::FreeCameraInput));
    }
}

} // verus!
