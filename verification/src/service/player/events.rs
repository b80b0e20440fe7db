//! Movement input of the player.
use vstd::prelude::*;

use super::data::PlayerController;
use crate::registry::{extends, App, Observer, Registration};

verus! {

/// A move action fired: the player keeps the move, already scaled by the
/// configured speed, only while the tracking camera renders and the window is
/// focused; otherwise the pending move is dropped.
pub fn on_move<M>(controller: &mut PlayerController<M>, camera_active: bool, window_focused: bool, scaled_move: M)
    ensures
        final(controller).last_move == if camera_active && window_focused {
            Some(scaled_move)
        } else {
            None
        },
{
    controller.last_move = if camera_active && window_focused {
        Some(scaled_move)
    } else {
        None
    };
}

pub open spec fn registrations() -> Seq<Registration> {
    seq![Registration::Observer(Observer::PlayerMove), Registration::Observer(Observer::SpawnPlayerRoot)]
}

pub fn plugin(app: &mut App)
    ensures
        extends(*old(app), *final(app), registrations()),
        final(app).registrations@.contains(Registration::Observer(Observer::PlayerMove)),
{
    let ghost n: int = app.registrations@.len() as int;
    app.add(Registration::Observer(Observer::PlayerMove));
    app.add(Registration::Observer(Observer::SpawnPlayerRoot));
    assert(app.registrations@[n] == Registration::Observer(Observer::PlayerMove));
}

} // verus!
