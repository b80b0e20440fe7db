//! The camera input actions, which the engine fires with their axis values.
use vstd::prelude::*;

verus! {

/// Rotates the tracking camera around its target.
pub struct PARotateCam;

/// Zooms the tracking camera.
pub struct PAZoomCam;

/// Moves the free camera in its horizontal plane.
pub struct PAMoveCam;

/// Moves the free camera up or down.
pub struct PAMoveCamY;

/// The actions of a camera's input context.
#[derive(Clone, Copy, Debug, PartialEq, Eq, Structural)]
pub enum CameraAction {
    /// [`PARotateCam`].
    Rotate,
    /// [`PAZoomCam`].
    Zoom,
}

} // verus!
