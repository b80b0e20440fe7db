//! Camera controllers.
use vstd::prelude::*;

verus! {

#[derive(Clone, Copy, Debug, PartialEq, Eq, Structural)]
pub enum CameraControllerKind {
    Fly,
    Tracking,
}

/// Inserting a controller sets whether its camera renders.
#[derive(Clone, Copy, Debug, PartialEq, Eq, Structural)]
pub struct CameraController {
    /// Is the controller enabled?
    pub enabled: bool,
    /// Is the camera active?
    pub active: bool,
    /// What kind of camera is this?
    pub kind: CameraControllerKind,
}

impl CameraController {
    /// An enabled controller of an active camera.
    pub fn new(kind: CameraControllerKind) -> (r: Self)
        ensures
            r == (CameraController { enabled: true, active: true, kind }),
    {
        CameraController { enabled: true, active: true, kind }
    }

    pub fn with_enabled(self, enabled: bool) -> (r: Self)
        ensures
            r == (CameraController { enabled, ..self }),
    {
        CameraController { enabled, ..self }
    }

    pub fn with_active(self, active: bool) -> (r: Self)
        ensures
            r == (CameraController { active, ..self }),
    {
        CameraController { active, ..self }
    }
}

/// Used to update the camera controller of `entity`, an entity of the engine.
pub struct InsertCameraController<E> {
    pub entity: E,
    pub new_controller: CameraController,
}

} // verus!
