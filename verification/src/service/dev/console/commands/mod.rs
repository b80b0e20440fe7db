use vstd::prelude::*;

use crate::registry::{extends, App, Registration};

pub mod screen;

verus! {

pub open spec fn registrations() -> Seq<Registration> {
    screen::registrations()
}

pub fn plugin(app: &mut App)
    ensures
        extends(*old(app), *final(app), registrations()),
{
    screen::plugin(app);
}

} // verus!
