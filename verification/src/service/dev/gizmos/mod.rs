use vstd::prelude::*;

use crate::registry::{extends, App, ExternalPlugin, GizmoGroup, Registration};
use crate::render::{GizmoLineStyle, GizmoSettings, RenderLayers};

pub mod systems;

verus! {

/// The configuration of a gizmo group drawn on the 3D gizmo layer.
pub open spec fn on_gizmo_layer(enabled: bool, line_style: GizmoLineStyle) -> GizmoSettings {
    GizmoSettings {
        enabled,
        layers: RenderLayers { default: false, gizmos_3d: true, particles: false },
        line_style,
    }
}

pub open spec fn registrations() -> Seq<Registration> {
    systems::registrations() + seq![
        Registration::Plugin(ExternalPlugin::PhysicsDebug),
        Registration::GizmoConfig(GizmoGroup::Physics, on_gizmo_layer(true, GizmoLineStyle::Solid)),
        Registration::GizmoConfig(GizmoGroup::Light, on_gizmo_layer(false, GizmoLineStyle::Solid)),
        Registration::GizmoConfig(GizmoGroup::Camera, on_gizmo_layer(true, GizmoLineStyle::UnitDashed)),
    ]
}

/// Camera gizmos in dashed lines, and physics debug drawing; light gizmos
/// start hidden. Every group draws on the 3D gizmo layer.
pub fn plugin(app: &mut App)
    ensures
        extends(*old(app), *final(app), registrations()),
{
    systems::plugin(app);
    app.add(Registration::Plugin(ExternalPlugin::PhysicsDebug));
    let physics = GizmoSettings {
        enabled: true,
        layers: RenderLayers::gizmos_3d(),
        line_style: GizmoLineStyle::Solid,
    };
    app.add(Registration::GizmoConfig(GizmoGroup::Physics, physics));
    let light = GizmoSettings {
        enabled: false,
        layers: RenderLayers::gizmos_3d(),
        line_style: GizmoLineStyle::Solid,
    };
    app.add(Registration::GizmoConfig(GizmoGroup::Light, light));
    let camera = GizmoSettings {
        enabled: true,
        layers: RenderLayers::gizmos_3d(),
        line_style: GizmoLineStyle::UnitDashed,
    };
    app.add(Registration::GizmoConfig(GizmoGroup::Camera, camera));
}

} // verus!
