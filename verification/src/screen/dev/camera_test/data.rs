//! The camera test's markers and its input context.
use vstd::prelude::*;

use crate::registry::InputContextKind;
use crate::service::input::data::{ActionKind, ActionSpec, Binding, ContextSpec, Key};

verus! {

/// The cube that the tracking camera follows.
pub struct Cube;

/// The camera test's input context.
pub struct CameraTestInput;

/// Switches between the free and the tracking camera.
pub struct PASwitchCamera;

/// The help text's node.
pub struct CameraTestHelp;

/// The priority of the camera test's context: switching (and the release it
/// asks for) precedes quit, capture and orbit.
pub const CAMERA_TEST_PRIORITY: usize = 2000;

/// The camera test's context: switch cameras on Tab, once per press.
pub open spec fn camera_test_ctx_spec(spec: ContextSpec) -> bool {
    &&& spec.context == InputContextKind::CameraTest
    &&& spec.active
    &&& spec.priority == CAMERA_TEST_PRIORITY
    &&& spec.actions@ =~= seq![
        ActionSpec {
            action: ActionKind::SwitchCamera,
            binding: Binding::Key(Key::Tab),
            consume_input: false,
            require_reset: true,
        },
    ]
}

impl CameraTestInput {
    pub fn bundle() -> (spec: ContextSpec)
        ensures
            camera_test_ctx_spec(spec),
    {
        let mut actions = Vec::new();
        actions.push(
            ActionSpec {
                action: ActionKind::SwitchCamera,
                binding: Binding::Key(Key::Tab),
                consume_input: false,
                require_reset: true,
            },
        );
        ContextSpec {
            context: InputContextKind::CameraTest,
            active: true,
            priority: CAMERA_TEST_PRIORITY,
            actions,
        }
    }
}

} // verus!
