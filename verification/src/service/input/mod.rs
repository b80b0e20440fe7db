use vstd::prelude::*;

use crate::registry::{extends, App, InputContextKind, Registration};

pub mod camera;
pub mod cursor;
pub mod data;
pub mod events;
pub mod laws;

verus! {

pub open spec fn registrations(dev: bool) -> Seq<Registration> {
    events::registrations() + cursor::registrations() + camera::registrations(dev) + seq![
        Registration::InputContext(InputContextKind::Global),
    ]
}

/// Quitting, cursor capture, the cameras' input, and the global context.
pub fn plugin(app: &mut App)
    ensures
        extends(*old(app), *final(app), registrations(old(app).dev)),
{
    events::plugin(app);
    cursor::plugin(app);
    camera::plugin(app);
    app.add(Registration::InputContext(InputContextKind::Global));
}

} // verus!
