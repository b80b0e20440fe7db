//! Cursor capture: its input context, actions and events.
use vstd::prelude::*;

verus! {

/// Enables cursor capture.
#[derive(Clone, Copy, Debug, PartialEq, Eq, Structural)]
pub struct ICtxCaptureCursor {
    /// Accept a new capture click only after buttons held across a reset are released.
    pub armed: bool,
}

impl Default for ICtxCaptureCursor {
    fn default() -> (r: Self)
        ensures
            !r.armed,
    {
        ICtxCaptureCursor { armed: false }
    }
}

/// Captures the cursor for the tracking camera.
pub struct PACaptureCursor;

/// Releases the cursor.
pub struct PAReleaseCursor;

/// Spawns the cursor capture context.
pub struct SpawnCursorCapture;

/// Releases camera input on Escape, a mode switch, or a screen transition.
pub struct ReleaseCursor;

} // verus!
