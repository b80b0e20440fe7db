use vstd::prelude::*;

use crate::registry::{extends, App, Registration, Resource, ScreenKind};
use crate::screen::{ScreenSchedule, ScreenScopeBuilder, ScreenSystem};

verus! {

/// The game world.
#[derive(Clone, Copy, Debug, PartialEq, Eq, Structural)]
pub struct WorldScreen;

impl WorldScreen {
    pub fn builder(builder: ScreenScopeBuilder) -> (b: ScreenScopeBuilder)
        ensures
            b.systems@ == builder.systems@ + seq![
                (ScreenSchedule::Loading, ScreenSystem::LoadWorld),
                (ScreenSchedule::OnReady, ScreenSystem::WorldInit),
                (ScreenSchedule::Update, ScreenSystem::PlayerSystems),
            ],
    {
        let mut builder = builder;
        builder.add_systems(ScreenSchedule::Loading, ScreenSystem::LoadWorld);
        builder.add_systems(ScreenSchedule::OnReady, ScreenSystem::WorldInit);
        builder.add_systems(ScreenSchedule::Update, ScreenSystem::PlayerSystems);
        builder
    }
}

/// Where an asset, its dependencies or its recursive dependencies are in loading.
#[derive(Clone, Copy, Debug, PartialEq, Eq, Structural)]
pub enum AssetLoad {
    NotLoaded,
    Loading,
    Loaded,
    Failed,
}

/// What the world screen does in a loading frame.
#[derive(Clone, Copy, Debug, PartialEq, Eq, Structural)]
pub enum LoadWorld {
    /// The player's model and all its dependencies are loaded: finish loading.
    FinishLoading,
    /// Something failed to load: report it and exit with an error.
    Exit,
    /// Keep waiting.
    Wait,
}

/// Decides a loading frame from the load states of the player's model (the
/// asset, its dependencies, its recursive dependencies), if the asset server
/// knows the model.
pub fn load_world(states: Option<(AssetLoad, AssetLoad, AssetLoad)>) -> (r: LoadWorld)
    ensures
        r == match states {
            Some((a, d, rd)) => if a == AssetLoad::Loaded && d == AssetLoad::Loaded && rd
                == AssetLoad::Loaded {
                LoadWorld::FinishLoading
            } else if a == AssetLoad::Failed || d == AssetLoad::Failed || rd == AssetLoad::Failed {
                LoadWorld::Exit
            } else {
                LoadWorld::Wait
            },
            None => LoadWorld::Wait,
        },
{
    match states {
        Some((AssetLoad::Loaded, AssetLoad::Loaded, AssetLoad::Loaded)) => LoadWorld::FinishLoading,
        Some((AssetLoad::Failed, _, _)) | Some((_, AssetLoad::Failed, _)) | Some(
            (_, _, AssetLoad::Failed),
        ) => LoadWorld::Exit,
        _ => LoadWorld::Wait,
    }
}

pub open spec fn registrations() -> Seq<Registration> {
    seq![Registration::Resource(Resource::PlayerAssets), Registration::Screen(ScreenKind::World)]
}

/// Loads the player's assets and registers the world screen.
pub fn plugin(app: &mut App)
    ensures
        extends(*old(app), *final(app), registrations()),
{
    app.add(Registration::Resource(Resource::PlayerAssets));
    app.add(Registration::Screen(ScreenKind::World));
}

} // verus!
