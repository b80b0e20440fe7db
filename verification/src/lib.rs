//! # quell
//!
//! The verified core of the application template: the input gating of its
//! cameras and cursor, the layout of its input contexts, its screens' loading
//! decisions and its plugin wiring, which plugins record as a plan.
pub mod plugin;
pub mod registry;
pub mod render;
pub mod screen;
pub mod service;

pub use plugin::{AppPlugin, AppSettings};
