use vstd::prelude::*;

use crate::screen::{ScreenSchedule, ScreenScopeBuilder, ScreenSystem};

verus! {

/// The first screen: it switches to the world as soon as it is ready.
#[derive(Clone, Copy, Debug, PartialEq, Eq, Structural)]
pub struct SplashScreen;

impl SplashScreen {
    pub fn builder(builder: ScreenScopeBuilder) -> (b: ScreenScopeBuilder)
        ensures
            b.systems@ == builder.systems@.push((ScreenSchedule::OnReady, ScreenSystem::SwitchToWorld)),
    {
        let mut builder = builder;
        builder.add_systems(ScreenSchedule::OnReady, ScreenSystem::SwitchToWorld);
        builder
    }
}

} // verus!
