//! The free camera's initial components.
use vstd::prelude::*;

use super::data::{FreeCameraInput, FreeCameraParts, FreeCameraState};
use crate::render::{CameraOrder, CameraPlacement, RenderLayers};
use crate::service::input::data::Camera;

verus! {

/// A free camera as spawned.
pub struct FlycamBundle {
    pub parts: FreeCameraParts,
    pub order: CameraOrder,
    pub placement: CameraPlacement,
    pub layers: RenderLayers,
}

/// A rendering world camera with the overview placement, seeing the default,
/// 3D gizmo and particle layers, not flying, with cleared latches.
pub fn flycam_bundle() -> (bundle: FlycamBundle)
    ensures
        bundle.parts.camera.is_active,
        bundle.parts.state.is_stopped(),
        !bundle.parts.input.armed,
        !bundle.parts.input.toggled,
        bundle.order == CameraOrder::World,
        bundle.placement == CameraPlacement::Overview,
        bundle.layers == (RenderLayers { default: true, gizmos_3d: true, particles: true }),
{
    FlycamBundle {
        parts: FreeCameraParts {
            camera: Camera { is_active: true },
            state: FreeCameraState { enabled: false, moving: false, snapping: false },
            input: FreeCameraInput::default(),
        },
        order: CameraOrder::World,
        placement: CameraPlacement::Overview,
        layers: RenderLayers::world_view(),
    }
}

} // verus!
