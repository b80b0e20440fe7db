use vstd::prelude::*;

use crate::registry::{extends, App, AssetCollection, Registration, ScreenKind};

verus! {

pub open spec fn registrations() -> Seq<Registration> {
    seq![Registration::LoadingState(ScreenKind::Splash, AssetCollection::NoAssets)]
}

/// Controls how the splash screen goes from `Loading` to `Ready`: through a
/// loading state with no assets to load.
pub fn plugin(app: &mut App)
    ensures
        extends(*old(app), *final(app), registrations()),
{
    app.add(Registration::LoadingState(ScreenKind::Splash, AssetCollection::NoAssets));
}

} // verus!
