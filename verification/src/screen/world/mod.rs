pub mod screen;

pub use screen::{load_world, plugin, registrations, AssetLoad, LoadWorld, WorldScreen};
