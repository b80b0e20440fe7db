use vstd::prelude::*;

use crate::registry::{extends, App, Registration, ScreenKind};

pub mod state;
pub mod systems;

pub use systems::SplashScreen;

verus! {

pub open spec fn registrations() -> Seq<Registration> {
    seq![Registration::Screen(ScreenKind::Splash)]
}

pub fn plugin(app: &mut App)
    ensures
        extends(*old(app), *final(app), registrations()),
{
    app.add(Registration::Screen(ScreenKind::Splash));
}

} // verus!
