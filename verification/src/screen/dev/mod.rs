use vstd::prelude::*;

use crate::registry::{extends, App, Registration};

pub mod camera_test;

verus! {

pub open spec fn registrations() -> Seq<Registration> {
    camera_test::registrations()
}

/// Development-only screens.
pub fn plugin(app: &mut App)
    ensures
        extends(*old(app), *final(app), registrations()),
{
    camera_test::plugin(app);
}

} // verus!
