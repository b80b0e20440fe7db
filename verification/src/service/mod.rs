use vstd::prelude::*;

use crate::registry::{extends, App, Registration};

pub mod dev;
pub mod input;
pub mod player;
pub mod third_party;
pub mod worldgen;

verus! {

pub open spec fn registrations(dev: bool, use_physics: bool) -> Seq<Registration> {
    third_party::registrations(use_physics) + input::registrations(dev) + worldgen::registrations()
        + player::registrations() + if dev {
        dev::registrations()
    } else {
        Seq::empty()
    }
}

/// Every service: other crates' plugins, input, the world, the player, and in
/// development builds the development tools. Needs the settings resource.
pub fn plugin(app: &mut App)
    requires
        old(app).settings is Some,
    ensures
        extends(
            *old(app),
            *final(app),
            registrations(old(app).dev, old(app).settings->0.use_physics),
        ),
{
    third_party::plugin(app);
    input::plugin(app);
    worldgen::plugin(app);
    player::plugin(app);
    if app.dev {
        dev::plugin(app);
    }
}

} // verus!
