//! The application's settings and its main plugin.
use vstd::prelude::*;

use crate::registry::{
    lemma_contains_concat, App, ExternalPlugin, Observer, Registration, ReleaseTrigger, Resource,
    Schedule, ScreenKind, System,
};

verus! {

/// Allows for configuration of the application. In development builds, it is
/// read from the command line. Otherwise, it is kept as the default value.
pub struct AppSettings {
    /// Registered screen name to start on. `None` starts on the splash screen.
    pub initial_screen: Option<String>,
    pub use_physics: bool,
}

impl Clone for AppSettings {
    fn clone(&self) -> (r: Self)
        ensures
            r == *self,
    {
        let initial_screen = match &self.initial_screen {
            Some(name) => Some(name.clone()),
            None => None,
        };
        AppSettings { initial_screen, use_physics: self.use_physics }
    }
}

impl Default for AppSettings {
    fn default() -> (r: Self)
        ensures
            r.initial_screen is None,
            r.use_physics,
    {
        AppSettings { initial_screen: None, use_physics: true }
    }
}

/// The screen that the application starts on.
pub enum InitialScreen {
    /// A screen of this application, chosen by kind.
    Screen(ScreenKind),
    /// A registered screen, chosen by its name.
    Name(String),
}

impl AppSettings {
    /// The configured start screen, looked up by name, or the splash screen.
    pub fn initial_screen(&self) -> (r: InitialScreen)
        ensures
            r == (match self.initial_screen {
                Some(name) => InitialScreen::Name(name),
                None => InitialScreen::Screen(ScreenKind::Splash),
            }),
    {
        match &self.initial_screen {
            Some(name) => InitialScreen::Name(name.clone()),
            None => InitialScreen::Screen(ScreenKind::Splash),
        }
    }
}

/// The main exported plugin for the application.
pub struct AppPlugin {
    pub settings: AppSettings,
}

impl Default for AppPlugin {
    fn default() -> (r: Self)
        ensures
            r.settings.initial_screen is None,
            r.settings.use_physics,
    {
        AppPlugin { settings: AppSettings::default() }
    }
}

impl AppPlugin {
    /// The registrations of the whole application: the settings resource, the
    /// screen manager, every service, every screen, the settings again and
    /// the start screen.
    pub open spec fn registrations(self, dev: bool) -> Seq<Registration> {
        seq![Registration::Resource(Resource::Settings), Registration::Plugin(ExternalPlugin::Screens)]
            + crate::service::registrations(dev, self.settings.use_physics)
            + crate::screen::registrations(dev)
            + seq![
                Registration::Resource(Resource::Settings),
                Registration::InitialScreen(
                    match self.settings.initial_screen {
                        Some(name) => InitialScreen::Name(name),
                        None => InitialScreen::Screen(ScreenKind::Splash),
                    },
                ),
            ]
    }

    /// Inserts the settings, then adds the screen manager, the services and
    /// the screens, and chooses the start screen.
    pub fn build(&self, app: &mut App)
        ensures
            final(app).dev == old(app).dev,
            final(app).settings == Some(self.settings),
            final(app).registrations@ == old(app).registrations@ + self.registrations(old(app).dev),
    {
        app.settings = Some(self.settings.clone());
        app.add(Registration::Resource(Resource::Settings));
        app.add(Registration::Plugin(ExternalPlugin::Screens));
        crate::service::plugin(app);
        crate::screen::plugin(app);
        app.add(Registration::Resource(Resource::Settings));
        app.add(Registration::InitialScreen(self.settings.initial_screen()));
    }
}

/// The application releases the cursor both on an explicit release and on
/// every screen change, syncs input contexts every frame, quits on the quit
/// action, moves the player on the move action, orbits and zooms the tracking
/// camera on its actions, registers the splash and world screens, and in
/// development builds registers the camera test and the free camera's input
/// plugin; all this for every build and every settings.
pub proof fn lemma_application_wiring(plugin: AppPlugin, dev: bool)
    ensures
        ({
            let plan = plugin.registrations(dev);
            &&& plan.contains(Registration::Observer(Observer::ReleaseCursor(ReleaseTrigger::ReleaseCursor)))
            &&& plan.contains(Registration::Observer(Observer::ReleaseCursor(ReleaseTrigger::ScreenChanged)))
            &&& plan.contains(Registration::System(Schedule::PreUpdate, System::SyncContexts))
            &&& plan.contains(Registration::Observer(Observer::ExitApp))
            &&& plan.contains(Registration::Observer(Observer::PlayerMove))
            &&& plan.contains(Registration::Observer(Observer::RotateTrackingCamera))
            &&& plan.contains(Registration::Observer(Observer::ZoomTrackingCamera))
            &&& plan.contains(Registration::Screen(ScreenKind::Splash))
            &&& plan.contains(Registration::Screen(ScreenKind::World))
            &&& dev ==> plan.contains(Registration::Screen(ScreenKind::CameraTest))
            &&& dev ==> plan.contains(Registration::Plugin(ExternalPlugin::FreeCameraInput))
        }),
{
    let use_physics = plugin.settings.use_physics;
    let head = seq![Registration::Resource(Resource::Settings), Registration::Plugin(ExternalPlugin::Screens)];
    let tail = seq![
        Registration::Resource(Resource::Settings),
        Registration::InitialScreen(
            match plugin.settings.initial_screen {
                Some(name) => InitialScreen::Name(name),
                None => InitialScreen::Screen(ScreenKind::Splash),
            },
        ),
    ];
    let service = crate::service::registrations(dev, use_physics);
    let screens = crate::screen::registrations(dev);

    // Services: input holds the cursor's observers and systems, and the cameras'.
    let cursor = crate::service::input::cursor::registrations();
    let camera = crate::service::input::camera::registrations(dev);
    let input_events = crate::service::input::events::registrations();
    let global = seq![Registration::InputContext(crate::registry::InputContextKind::Global)];
    let release = Registration::Observer(Observer::ReleaseCursor(ReleaseTrigger::ReleaseCursor));
    let changed = Registration::Observer(Observer::ReleaseCursor(ReleaseTrigger::ScreenChanged));
    let sync = Registration::System(Schedule::PreUpdate, System::SyncContexts);
    let gate = Registration::Plugin(ExternalPlugin::FreeCameraInput);
    assert(cursor[2] == release);
    assert(cursor[4] == changed);
    assert(cursor[8] == sync);
    assert(cursor.contains(release) && cursor.contains(changed) && cursor.contains(sync));
    let input = crate::service::input::registrations(dev);
    let third = crate::service::third_party::registrations(use_physics);
    let world_gen = crate::service::worldgen::registrations();
    let player = crate::service::player::registrations();
    let dev_tools = if dev {
        crate::service::dev::registrations()
    } else {
        Seq::empty()
    };
    let exit = Registration::Observer(Observer::ExitApp);
    let player_move = Registration::Observer(Observer::PlayerMove);
    let rotate = Registration::Observer(Observer::RotateTrackingCamera);
    let zoom = Registration::Observer(Observer::ZoomTrackingCamera);
    assert(input_events[0] == exit);
    assert(input_events.contains(exit));
    assert(player[0] == player_move);
    assert(player.contains(player_move));
    assert(camera[2] == rotate);
    assert(camera[3] == zoom);
    assert(camera.contains(rotate) && camera.contains(zoom));
    assert forall|x: Registration|
        cursor.contains(x) || camera.contains(x) || input_events.contains(x) || player.contains(
            x,
        ) implies service.contains(x) by {
        lemma_contains_concat(input_events, cursor, x);
        lemma_contains_concat(input_events + cursor, camera, x);
        lemma_contains_concat(input_events + cursor + camera, global, x);
        lemma_contains_concat(third, input, x);
        lemma_contains_concat(third + input, world_gen, x);
        lemma_contains_concat(third + input + world_gen, player, x);
        lemma_contains_concat(third + input + world_gen + player, dev_tools, x);
    }
    if dev {
        let tracking = crate::service::input::camera::tracking::registrations();
        let fly = seq![gate];
        let filter = seq![
            Registration::Resource(Resource::SpringArmCollisionFilter),
            Registration::Plugin(ExternalPlugin::SpringArmCamera),
        ];
        assert(fly[0] == gate);
        lemma_contains_concat(filter + tracking, fly, gate);
        assert(camera == filter + tracking + fly);
        assert(camera.contains(gate));
        assert(service.contains(gate));
    }
    assert(service.contains(release) && service.contains(changed) && service.contains(sync));
    assert(service.contains(exit) && service.contains(player_move));
    assert(service.contains(rotate) && service.contains(zoom));

    // Screens: the world and splash screens always, the camera test in development builds.
    let dev_screens = if dev {
        crate::screen::dev::registrations()
    } else {
        Seq::empty()
    };
    let world = crate::screen::world::registrations();
    let splash = crate::screen::splash::registrations();
    assert(world[1] == Registration::Screen(ScreenKind::World));
    assert(splash[0] == Registration::Screen(ScreenKind::Splash));
    assert(world.contains(Registration::Screen(ScreenKind::World)));
    assert(splash.contains(Registration::Screen(ScreenKind::Splash)));
    assert forall|x: Registration|
        dev_screens.contains(x) || world.contains(x) || splash.contains(x) implies screens.contains(
        x,
    ) by {
        lemma_contains_concat(dev_screens, world, x);
        lemma_contains_concat(dev_screens + world, splash, x);
    }
    if dev {
        assert(dev_screens[0] == Registration::Screen(ScreenKind::CameraTest));
        assert(dev_screens.contains(Registration::Screen(ScreenKind::CameraTest)));
        assert(screens.contains(Registration::Screen(ScreenKind::CameraTest)));
    }
    assert(screens.contains(Registration::Screen(ScreenKind::World)));
    assert(screens.contains(Registration::Screen(ScreenKind::Splash)));

    assert forall|x: Registration| service.contains(x) || screens.contains(x) implies plugin.registrations(
        dev,
    ).contains(x) by {
        lemma_contains_concat(head, service, x);
        lemma_contains_concat(head + service, screens, x);
        lemma_contains_concat(head + service + screens, tail, x);
    }
}

} // verus!
