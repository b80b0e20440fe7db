//! The screens of the application.
use vstd::prelude::*;

use crate::registry::{extends, App, Registration};

pub mod dev;
pub mod splash;
pub mod util;
pub mod world;

verus! {

/// The stages of a screen that its systems are scoped to.
#[derive(Clone, Copy, Debug, PartialEq, Eq, Structural)]
pub enum ScreenSchedule {
    /// While the screen loads.
    Loading,
    /// Once, when the screen is ready.
    OnReady,
    /// Every frame while the screen is ready.
    Update,
}

/// The systems that screens scope.
#[derive(Clone, Copy, Debug, PartialEq, Eq, Structural)]
pub enum ScreenSystem {
    /// Switches to the world screen.
    SwitchToWorld,
    /// Waits for the player's model, see [`world::load_world`].
    LoadWorld,
    /// Spawns the player and the world.
    WorldInit,
    /// The player's per-frame systems.
    PlayerSystems,
    /// Spawns the camera test scene.
    CameraTestInit,
    /// Moves the camera test's cube.
    CameraTestUpdate,
    /// Keeps the camera test's help text in step, see [`dev::camera_test::screen::update_help`].
    CameraTestUpdateHelp,
}

/// The systems that a screen scopes, in the order they are added.
pub struct ScreenScopeBuilder {
    pub systems: Vec<(ScreenSchedule, ScreenSystem)>,
}

impl ScreenScopeBuilder {
    pub fn new() -> (b: Self)
        ensures
            b.systems@ == Seq::<(ScreenSchedule, ScreenSystem)>::empty(),
    {
        ScreenScopeBuilder { systems: Vec::new() }
    }

    pub fn add_systems(&mut self, schedule: ScreenSchedule, system: ScreenSystem)
        ensures
            final(self).systems@ == old(self).systems@.push((schedule, system)),
    {
        self.systems.push((schedule, system));
    }
}

pub open spec fn registrations(dev: bool) -> Seq<Registration> {
    (if dev {
        dev::registrations()
    } else {
        Seq::empty()
    }) + world::registrations() + splash::registrations()
}

/// Registers the screens: in development builds the camera test too.
pub fn plugin(app: &mut App)
    ensures
        extends(*old(app), *final(app), registrations(old(app).dev)),
{
    if app.dev {
        dev::plugin(app);
    }
    world::plugin(app);
    splash::plugin(app);
}

} // verus!
