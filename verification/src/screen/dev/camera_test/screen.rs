//! The camera test screen: a free and a tracking camera, switched with Tab.
use vstd::prelude::*;

use crate::screen::{ScreenSchedule, ScreenScopeBuilder, ScreenSystem};
use crate::service::input::data::Camera;

verus! {

pub const FREE_HELP: &'static str = "Camera: Free | Tab switch camera\n    RMB hold / M toggle capture\n    Esc release (again to quit)\n    WASD move | Q/E down/up\n    Shift faster | Wheel speed";

pub const TRACKING_HELP: &'static str = "Camera: Tracking | Tab switch camera\n    Left click capture\n    Mouse / right stick orbit | Wheel FOV zoom\n    Esc release (again to quit)";

/// The camera test screen.
#[derive(Clone, Copy, Debug, PartialEq, Eq, Structural)]
pub struct CameraTestScreen;

impl CameraTestScreen {
    pub fn builder(builder: ScreenScopeBuilder) -> (b: ScreenScopeBuilder)
        ensures
            b.systems@ == builder.systems@ + seq![
                (ScreenSchedule::Loading, ScreenSystem::CameraTestInit),
                (ScreenSchedule::Update, ScreenSystem::CameraTestUpdate),
                (ScreenSchedule::Update, ScreenSystem::CameraTestUpdateHelp),
            ],
    {
        let mut builder = builder;
        builder.add_systems(ScreenSchedule::Loading, ScreenSystem::CameraTestInit);
        builder.add_systems(ScreenSchedule::Update, ScreenSystem::CameraTestUpdate);
        builder.add_systems(ScreenSchedule::Update, ScreenSystem::CameraTestUpdateHelp);
        builder
    }

    /// The name that the screen is registered and chosen by.
    pub fn name() -> (name: String)
        ensures
            name@ == "camera_test"@,
    {
        "camera_test".to_owned()
    }
}

/// The free and tracking cameras after a switch from a free camera `free`:
/// the tracking camera renders exactly when the free camera did, and the free
/// camera exactly when it did not.
pub open spec fn switched(free: Camera) -> (Camera, Camera) {
    (Camera { is_active: !free.is_active }, Camera { is_active: free.is_active })
}

/// Pressing Tab switches which camera renders, when the window is focused,
/// and asks for the cursor to be released. Returns whether it did.
pub fn switch_camera(window_focused: bool, free: &mut Camera, tracking: &mut Camera) -> (release: bool)
    ensures
        release == window_focused,
        window_focused ==> (*final(free), *final(tracking)) == switched(*old(free)),
        !window_focused ==> *final(free) == *old(free) && *final(tracking) == *old(tracking),
{
    if !window_focused {
        return false;
    }
    let tracking_active = free.is_active;
    free.is_active = !tracking_active;
    tracking.is_active = tracking_active;
    true
}

/// The help text that names the selected camera.
#[derive(Clone, Copy, Debug, PartialEq, Eq, Structural)]
pub enum HelpText {
    Free,
    Tracking,
}

impl HelpText {
    pub fn text(self) -> (text: &'static str)
        ensures
            text@ == match self {
                HelpText::Free => FREE_HELP@,
                HelpText::Tracking => TRACKING_HELP@,
            },
    {
        match self {
            HelpText::Free => FREE_HELP,
            HelpText::Tracking => TRACKING_HELP,
        }
    }
}

/// The help text to show: the free camera's while it renders, else the
/// tracking camera's while that renders, else none (the text is kept).
pub open spec fn help_for(free: Camera, tracking: Camera) -> Option<HelpText> {
    if free.is_active {
        Some(HelpText::Free)
    } else if tracking.is_active {
        Some(HelpText::Tracking)
    } else {
        None
    }
}

/// Chooses the help text for the cameras' state.
pub fn update_help(free: &Camera, tracking: &Camera) -> (text: Option<HelpText>)
    ensures
        text == help_for(*free, *tracking),
{
    if free.is_active {
        Some(HelpText::Free)
    } else if tracking.is_active {
        Some(HelpText::Tracking)
    } else {
        None
    }
}

/// After a switch exactly one of the two cameras renders, the help names the
/// camera that was not selected before, and a second switch selects the free
/// camera again exactly when it was selected first.
pub proof fn lemma_switch_selects_one_camera(free: Camera)
    ensures
        switched(free).0.is_active != switched(free).1.is_active,
        help_for(switched(free).0, switched(free).1) == Some(
            if free.is_active {
                HelpText::Tracking
            } else {
                HelpText::Free
            },
        ),
        switched(switched(free).0).0 == free,
{
}

} // verus!
