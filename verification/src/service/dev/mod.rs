use vstd::prelude::*;

use crate::registry::{extends, App, ExternalPlugin, Registration};

pub mod console;
pub mod gizmos;

verus! {

pub open spec fn registrations() -> Seq<Registration> {
    gizmos::registrations() + console::registrations() + seq![
        Registration::Plugin(ExternalPlugin::Egui),
        Registration::Plugin(ExternalPlugin::WorldInspector),
    ]
}

/// Development tools: gizmos, the console and the world inspector.
pub fn plugin(app: &mut App)
    ensures
        extends(*old(app), *final(app), registrations()),
{
    gizmos::plugin(app);
    console::plugin(app);
    app.add(Registration::Plugin(ExternalPlugin::Egui));
    app.add(Registration::Plugin(ExternalPlugin::WorldInspector));
}

} // verus!
