//! The application's wiring as data.
//!
//! A plugin of this library does not touch an ECS world: it appends
//! [`Registration`]s to an [`App`] plan. The program's entry point installs
//! the plan into the engine, one registration at a time and in order.
use vstd::prelude::*;

use crate::plugin::{AppSettings, InitialScreen};
use crate::render::GizmoSettings;

verus! {

/// The engine schedules that systems of this application run in.
#[derive(Clone, Copy, Debug, PartialEq, Eq, Structural)]
pub enum Schedule {
    Startup,
    PreUpdate,
    RunFixedMainLoop,
    Update,
    PostUpdate,
}

/// Systems that run every frame of their schedule. The ordering constraint
/// that each one needs is part of its identity and is documented on it.
#[derive(Clone, Copy, Debug, PartialEq, Eq, Structural)]
pub enum System {
    /// Syncs capture and context activity; runs after input actions are applied.
    SyncContexts,
    /// Gates the free camera; runs before the engine's free camera controller.
    GateFreeCameraInput,
    /// Moves spring-arm cameras; runs after transform propagation, before frusta.
    ApplySpringArm,
    /// Draws the camera gizmos.
    RenderCameraGizmos,
    /// Toggles the dev console, then restyles it by focus (chained).
    ConsoleToggleAndFocus,
    /// Spawns the dev overlay that holds the console.
    SpawnDevOverlay,
    /// Handles the `screen` console command.
    ScreenCommand,
}

/// The events that release the cursor.
#[derive(Clone, Copy, Debug, PartialEq, Eq, Structural)]
pub enum ReleaseTrigger {
    /// An explicit [`crate::service::input::cursor::ReleaseCursor`].
    ReleaseCursor,
    /// The screen manager switched screens.
    ScreenChanged,
}

/// Input contexts whose contributions are registered with the input plugin.
#[derive(Clone, Copy, Debug, PartialEq, Eq, Structural)]
pub enum InputContextKind {
    Global,
    CaptureCursor,
    CameraController,
    SpringArm,
    PlayerDefault,
    CameraTest,
}

/// Observers: systems that run when an event is triggered.
#[derive(Clone, Copy, Debug, PartialEq, Eq, Structural)]
pub enum Observer {
    ExitApp,
    SpawnGlobalCtx,
    CaptureCursor,
    ReleaseCursorAction,
    ReleaseCursor(ReleaseTrigger),
    SpawnCursorCapture,
    RemoveTracking,
    ResetSmoothing(InputContextKind),
    RotateTrackingCamera,
    ZoomTrackingCamera,
    FreeCameraScreenChanged,
    FreeCameraRemoved,
    PlayerMove,
    SpawnPlayerRoot,
    SpawnWorldgenRoot,
}

/// Plugins of other crates that this application installs.
#[derive(Clone, Copy, Debug, PartialEq, Eq, Structural)]
pub enum ExternalPlugin {
    Screens,
    EnhancedInput,
    Physics,
    TnuaController,
    TnuaPhysics,
    Text3d,
    SpringArmCamera,
    FreeCameraInput,
    PhysicsDebug,
    Console,
    Egui,
    WorldInspector,
}

/// The screens of this application.
#[derive(Clone, Copy, Debug, PartialEq, Eq, Structural)]
pub enum ScreenKind {
    Splash,
    World,
    CameraTest,
}

/// Resources that plugins insert or initialize.
#[derive(Clone, Copy, Debug, PartialEq, Eq, Structural)]
pub enum Resource {
    /// The [`AppSettings`] of the plan.
    Settings,
    /// The spring-arm collision filter: included layer `Default`, excluded
    /// membership `Player`.
    SpringArmCollisionFilter,
    WorldgenHandles,
    /// The player's asset collection.
    PlayerAssets,
}

/// Asset collections that a loading state loads.
#[derive(Clone, Copy, Debug, PartialEq, Eq, Structural)]
pub enum AssetCollection {
    /// The collection with no assets, which finishes at once.
    NoAssets,
}

/// Gizmo configuration groups.
#[derive(Clone, Copy, Debug, PartialEq, Eq, Structural)]
pub enum GizmoGroup {
    Physics,
    Light,
    Camera,
}

/// One step of the wiring that a plugin asks for.
pub enum Registration {
    Plugin(ExternalPlugin),
    Observer(Observer),
    System(Schedule, System),
    InputContext(InputContextKind),
    Screen(ScreenKind),
    /// A loading state that loads the collection, then continues from
    /// `Loading` to `Ready` for the screen.
    LoadingState(ScreenKind, AssetCollection),
    /// Tracks [`crate::screen::util::ScreenLoadingState`] for a screen.
    ScreenLoadingState(ScreenKind),
    Resource(Resource),
    InitialScreen(InitialScreen),
    /// Inserts the configuration of a gizmo group.
    GizmoConfig(GizmoGroup, GizmoSettings),
    RegisterType(RegisteredType),
    ConsoleCommand(ConsoleCommand),
}

/// Types registered for reflection.
#[derive(Clone, Copy, Debug, PartialEq, Eq, Structural)]
pub enum RegisteredType {
    WorldgenRoot,
    WorldgenHandles,
}

/// Commands of the dev console.
#[derive(Clone, Copy, Debug, PartialEq, Eq, Structural)]
pub enum ConsoleCommand {
    Screen,
}

/// The plan that plugins fill.
pub struct App {
    /// Whether the development tools are part of this build.
    pub dev: bool,
    /// The settings resource, once inserted.
    pub settings: Option<AppSettings>,
    /// Registrations, in the order in which they are installed.
    pub registrations: Vec<Registration>,
}

/// `new` is `old` with `added` appended to its registrations, and nothing else changed.
pub open spec fn extends(old: App, new: App, added: Seq<Registration>) -> bool {
    &&& new.dev == old.dev
    &&& new.settings == old.settings
    &&& new.registrations@ =~= old.registrations@ + added
}

impl App {
    /// An empty plan for a build with or without the development tools.
    pub fn new(dev: bool) -> (app: App)
        ensures
            app.dev == dev,
            app.settings is None,
            app.registrations@ == Seq::<Registration>::empty(),
    {
        App { dev, settings: None, registrations: Vec::new() }
    }

    /// Appends one registration.
    pub fn add(&mut self, registration: Registration)
        ensures
            extends(*old(self), *final(self), seq![registration]),
    {
        self.registrations.push(registration);
    }

    /// Whether the plan holds the registration.
    pub open spec fn has(self, registration: Registration) -> bool {
        self.registrations@.contains(registration)
    }
}

/// An element of either part is an element of a concatenation.
pub proof fn lemma_contains_concat(a: Seq<Registration>, b: Seq<Registration>, x: Registration)
    ensures
        a.contains(x) ==> (a + b).contains(x),
        b.contains(x) ==> (a + b).contains(x),
{
    if a.contains(x) {
        let i = choose|i: int| 0 <= i < a.len() && a[i] == x;
        assert((a + b)[i] == x);
    }
    if b.contains(x) {
        let j = choose|j: int| 0 <= j < b.len() && b[j] == x;
        assert((a + b)[a.len() + j] == x);
    }
}

} // verus!
