//! The player's controller and its input markers.
use vstd::prelude::*;

verus! {

/// A system set for the player's per-frame systems.
#[derive(Clone, Copy, Debug, PartialEq, Eq, Structural)]
pub struct PlayerSystems;

/// Spawns the player and its camera.
#[derive(Clone, Copy, Debug, PartialEq, Eq, Structural)]
pub struct SpawnPlayerRoot;

/// Default player input context.
pub struct ICtxDefault;

/// Moves the player.
pub struct PAMove;

/// The movement requested by input since the controller last consumed it.
/// `M` is the engine's movement vector.
pub struct PlayerController<M> {
    pub last_move: Option<M>,
}

impl<M> Default for PlayerController<M> {
    fn default() -> (r: Self)
        ensures
            r.last_move is None,
    {
        PlayerController { last_move: None }
    }
}

impl<M> PlayerController<M> {
    /// Takes the pending movement, leaving none.
    pub fn take_move(&mut self) -> (r: Option<M>)
        ensures
            r == old(self).last_move,
            final(self).last_move is None,
    {
        self.last_move.take()
    }
}

} // verus!
