use vstd::prelude::*;

use crate::registry::{extends, App, InputContextKind, Registration};

pub mod data;
pub mod events;

verus! {

pub open spec fn registrations() -> Seq<Registration> {
    events::registrations() + seq![Registration::InputContext(InputContextKind::PlayerDefault)]
}

/// Player movement and spawning, and the player's input context.
pub fn plugin(app: &mut App)
    ensures
        extends(*old(app), *final(app), registrations()),
{
    events::plugin(app);
    app.add(Registration::InputContext(InputContextKind::PlayerDefault));
}

} // verus!
