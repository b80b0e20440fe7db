//! The generated world.
use vstd::prelude::*;

use crate::registry::{extends, App, Observer, RegisteredType, Registration, Resource};

verus! {

/// Spawns the world's root.
#[derive(Clone, Copy, Debug, PartialEq, Eq, Structural)]
pub struct SpawnWorldgenRoot;

pub open spec fn registrations() -> Seq<Registration> {
    seq![
        Registration::RegisterType(RegisteredType::WorldgenRoot),
        Registration::Resource(Resource::WorldgenHandles),
        Registration::RegisterType(RegisteredType::WorldgenHandles),
        Registration::Observer(Observer::SpawnWorldgenRoot),
    ]
}

pub fn plugin(app: &mut App)
    ensures
        extends(*old(app), *final(app), registrations()),
{
    app.add(Registration::RegisterType(RegisteredType::WorldgenRoot));
    app.add(Registration::Resource(Resource::WorldgenHandles));
    app.add(Registration::RegisterType(RegisteredType::WorldgenHandles));
    app.add(Registration::Observer(Observer::SpawnWorldgenRoot));
}

} // verus!
