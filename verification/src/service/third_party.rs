//! Plugins of other crates.
use vstd::prelude::*;

use crate::registry::{extends, App, ExternalPlugin, Registration};

verus! {

pub open spec fn registrations(use_physics: bool) -> Seq<Registration> {
    (if use_physics {
        seq![
            Registration::Plugin(ExternalPlugin::Physics),
            Registration::Plugin(ExternalPlugin::TnuaController),
            Registration::Plugin(ExternalPlugin::TnuaPhysics),
        ]
    } else {
        Seq::empty()
    }) + seq![Registration::Plugin(ExternalPlugin::EnhancedInput), Registration::Plugin(ExternalPlugin::Text3d)]
}

/// Physics and the character controller when the settings ask for physics;
/// enhanced input and 3D text always. Needs the settings resource.
pub fn plugin(app: &mut App)
    requires
        old(app).settings is Some,
    ensures
        extends(*old(app), *final(app), registrations(old(app).settings->0.use_physics)),
{
    let use_physics = match &app.settings {
        Some(settings) => settings.use_physics,
        None => false,
    };
    if use_physics {
        app.add(Registration::Plugin(ExternalPlugin::Physics));
        app.add(Registration::Plugin(ExternalPlugin::TnuaController));
        app.add(Registration::Plugin(ExternalPlugin::TnuaPhysics));
    }
    app.add(Registration::Plugin(ExternalPlugin::EnhancedInput));
    app.add(Registration::Plugin(ExternalPlugin::Text3d));
}

} // verus!
