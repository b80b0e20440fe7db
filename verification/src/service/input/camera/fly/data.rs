//! The free camera's flight state, as far as input gating reads and writes it.
use vstd::prelude::*;

verus! {

/// The flight state of a free camera.
#[derive(Clone, Copy, Debug, PartialEq, Eq, Structural)]
pub struct FreeCameraState {
    /// The engine's controller flies the camera only while this is set.
    pub enabled: bool,
    /// The camera has a nonzero velocity.
    pub moving: bool,
    /// A snap rotation is pending.
    pub snapping: bool,
}

impl FreeCameraState {
    /// Not flying, with no velocity and no pending snap.
    pub open spec fn is_stopped(self) -> bool {
        !self.enabled && !self.moving && !self.snapping
    }
}

/// Predicts capture before the engine's flight runs, including the release frame.
#[derive(Clone, Copy, Debug, PartialEq, Eq, Structural)]
pub struct FreeCameraInput {
    /// Capture controls were seen released since the last reset.
    pub armed: bool,
    /// The capture toggle key is latched on.
    pub toggled: bool,
}

impl Default for FreeCameraInput {
    fn default() -> (r: Self)
        ensures
            r == (FreeCameraInput { armed: false, toggled: false }),
    {
        FreeCameraInput { armed: false, toggled: false }
    }
}

impl FreeCameraInput {
    /// Clears both capture latches and stops the camera.
    pub fn reset(&mut self, state: &mut FreeCameraState)
        ensures
            *final(self) == (FreeCameraInput { armed: false, toggled: false }),
            final(state).is_stopped(),
    {
        self.armed = false;
        self.toggled = false;
        Self::stop(state);
    }

    /// Disables flight, drops the velocity and any pending snap.
    pub fn stop(state: &mut FreeCameraState)
        ensures
            final(state).is_stopped(),
    {
        state.enabled = false;
        state.moving = false;
        state.snapping = false;
    }
}

/// A free camera: whether it renders, its flight state and its capture latches.
#[derive(Clone, Copy, Debug, PartialEq, Eq, Structural)]
pub struct FreeCameraParts {
    pub camera: crate::service::input::data::Camera,
    pub state: FreeCameraState,
    pub input: FreeCameraInput,
}

} // verus!
