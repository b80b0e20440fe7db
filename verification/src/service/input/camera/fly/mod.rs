pub mod bundle;
pub mod data;
pub mod events;

pub use bundle::{flycam_bundle, FlycamBundle};
pub use data::{FreeCameraInput, FreeCameraParts, FreeCameraState};
