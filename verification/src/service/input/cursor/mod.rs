pub mod data;
pub mod events;

pub use data::{ICtxCaptureCursor, PACaptureCursor, PAReleaseCursor, ReleaseCursor, SpawnCursorCapture};
pub use events::{plugin, registrations};
