use vstd::prelude::*;

use crate::registry::{extends, App, ExternalPlugin, Registration};

pub mod commands;
pub mod ui;

verus! {

pub open spec fn registrations() -> Seq<Registration> {
    seq![Registration::Plugin(ExternalPlugin::Console)] + ui::registrations() + commands::registrations()
}

pub fn plugin(app: &mut App)
    ensures
        extends(*old(app), *final(app), registrations()),
{
    app.add(Registration::Plugin(ExternalPlugin::Console));
    ui::plugin(app);
    commands::plugin(app);
}

} // verus!
