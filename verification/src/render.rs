//! How cameras and gizmos are composed: the rendering order of cameras, the
//! render layers that they see or draw on, and the line style of gizmos.
use vstd::prelude::*;

verus! {

/// The slot of a camera in the rendering order.
#[derive(Clone, Copy, Debug, PartialEq, Eq, Structural)]
pub enum CameraOrder {
    /// The cameras that render the game world.
    World,
}

/// A set of render layers, one flag per layer that this application uses.
#[derive(Clone, Copy, Debug, PartialEq, Eq, Structural)]
pub struct RenderLayers {
    /// The layer that everything is on unless told otherwise.
    pub default: bool,
    /// The layer of 3D gizmos.
    pub gizmos_3d: bool,
    /// The layer of particle effects.
    pub particles: bool,
}

impl RenderLayers {
    /// The layers that a world camera sees: default, 3D gizmos and particles.
    pub fn world_view() -> (r: Self)
        ensures
            r.default,
            r.gizmos_3d,
            r.particles,
    {
        RenderLayers { default: true, gizmos_3d: true, particles: true }
    }

    /// The 3D gizmo layer alone.
    pub fn gizmos_3d() -> (r: Self)
        ensures
            !r.default,
            r.gizmos_3d,
            !r.particles,
    {
        RenderLayers { default: false, gizmos_3d: true, particles: false }
    }
}

/// Where a camera is placed when it is spawned.
#[derive(Clone, Copy, Debug, PartialEq, Eq, Structural)]
pub enum CameraPlacement {
    /// The identity transform: at the origin, unrotated, unscaled.
    Identity,
    /// Above and behind the origin, at (-2.5, 4.5, 9), looking at the origin
    /// with +Y up.
    Overview,
}

/// How the lines of a gizmo group are drawn.
#[derive(Clone, Copy, Debug, PartialEq, Eq, Structural)]
pub enum GizmoLineStyle {
    Solid,
    /// Dashed, with dashes and gaps as long as the line is wide (gap scale and
    /// line scale 1).
    UnitDashed,
}

/// The configuration of one gizmo group.
#[derive(Clone, Copy, Debug, PartialEq, Eq, Structural)]
pub struct GizmoSettings {
    pub enabled: bool,
    pub layers: RenderLayers,
    pub line_style: GizmoLineStyle,
}

} // verus!
