use vstd::prelude::*;

use crate::registry::{extends, App, Registration, ScreenKind};

pub mod data;
pub mod screen;

pub use data::{CameraTestHelp, CameraTestInput, Cube, PASwitchCamera};
pub use screen::CameraTestScreen;

verus! {

pub open spec fn registrations() -> Seq<Registration> {
    seq![Registration::Screen(ScreenKind::CameraTest)]
}

pub fn plugin(app: &mut App)
    ensures
        extends(*old(app), *final(app), registrations()),
{
    app.add(Registration::Screen(ScreenKind::CameraTest));
}

} // verus!
