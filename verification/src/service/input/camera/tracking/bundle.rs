//! The tracking camera's initial components.
use vstd::prelude::*;

use crate::render::{CameraOrder, CameraPlacement, RenderLayers};
use crate::service::input::camera::data::CameraAction;
use crate::service::input::data::Camera;

verus! {

/// A tracking camera as spawned, following `target` (an entity of the engine).
/// The bindings of its actions and their float scales are the engine's.
pub struct TrackingCamBundle<E> {
    /// The spring arm's target.
    pub target: E,
    pub camera: Camera,
    pub order: CameraOrder,
    pub placement: CameraPlacement,
    pub layers: RenderLayers,
    /// Whether the spring arm's input context starts active.
    pub context_active: bool,
    /// The actions of the spring arm's input context, in the order spawned.
    pub actions: Vec<CameraAction>,
}

/// A rendering world camera on `target`, placed at the identity, seeing the
/// default, 3D gizmo and particle layers, with rotate and zoom actions whose
/// context stays off until the cursor is captured for it.
pub fn tracking_cam_bundle<E>(target: E) -> (bundle: TrackingCamBundle<E>)
    ensures
        bundle.target == target,
        bundle.camera.is_active,
        bundle.order == CameraOrder::World,
        bundle.placement == CameraPlacement::Identity,
        bundle.layers == (RenderLayers { default: true, gizmos_3d: true, particles: true }),
        !bundle.context_active,
        bundle.actions@ == seq![CameraAction::Rotate, CameraAction::Zoom],
{
    TrackingCamBundle {
        target,
        camera: Camera { is_active: true },
        order: CameraOrder::World,
        placement: CameraPlacement::Identity,
        layers: RenderLayers::world_view(),
        context_active: false,
        actions: vec![CameraAction::Rotate, CameraAction::Zoom],
    }
}

} // verus!
