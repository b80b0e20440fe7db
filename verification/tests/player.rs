//! Scenarios of the player's movement, driven through the library's move and
//! sync decisions. The fixture stands in for the engine: it fires the move
//! action while the player's context is active and W is held, syncs contexts,
//! and lets the character controller consume the pending move each frame.

use quell::service::input::camera::tracking::tracking_cam_bundle;
use quell::service::input::cursor::events::{sync_contexts, LeftButton, PlayerContext, TrackingContext};
use quell::service::input::cursor::ICtxCaptureCursor;
use quell::service::input::data::{Camera, CursorGrabMode, CursorOptions};
use quell::service::player::data::PlayerController;
use quell::service::player::events::on_move;

struct Fixture {
    w_held: bool,
    window_focused: bool,
    cursor: CursorOptions,
    capture: ICtxCaptureCursor,
    camera: Camera,
    camera_context: bool,
    player_context: bool,
    controller: PlayerController<[f32; 3]>,
    desired_motion: [f32; 3],
    desired_forward: Option<[f32; 3]>,
}

impl Fixture {
    fn new() -> Self {
        let bundle = tracking_cam_bundle(1u64);
        Fixture {
            w_held: false,
            window_focused: true,
            cursor: CursorOptions { visible: true, grab_mode: CursorGrabMode::Free },
            capture: ICtxCaptureCursor::default(),
            camera: bundle.camera,
            camera_context: bundle.context_active,
            player_context: true,
            controller: PlayerController::default(),
            desired_motion: [0.0; 3],
            desired_forward: None,
        }
    }

    fn tick(&mut self, frames: usize) {
        for _ in 0..frames {
            if self.player_context && self.w_held {
                on_move(&mut self.controller, self.camera.is_active, self.window_focused, [0.0, 0.0, -10.0]);
            }
            let mut controls = vec![self.capture];
            let tracking = vec![TrackingContext { camera: self.camera, active: self.camera_context }];
            let mut players = vec![PlayerContext {
                active: self.player_context,
                controller: PlayerController { last_move: self.controller.take_move() },
            }];
            let outcome = sync_contexts(
                self.window_focused,
                &self.cursor,
                LeftButton { pressed: false, just_released: false },
                &mut controls,
                &tracking,
                &mut players,
            );
            self.capture = controls[0];
            if let Some(activity) = outcome.tracking[0] {
                self.camera_context = activity;
            }
            if let Some(activity) = outcome.players[0] {
                self.player_context = activity;
            }
            let synced = players.pop().unwrap();
            self.controller = synced.controller;
            if !outcome.players_enabled {
                self.desired_motion = [0.0; 3];
                self.desired_forward = None;
            }
            // The character controller consumes the pending move.
            match self.controller.take_move() {
                Some(m) => {
                    self.desired_motion = m;
                    self.desired_forward = Some([-m[0], -m[1], -m[2]]);
                }
                None => {
                    self.desired_motion = [0.0; 3];
                    self.desired_forward = None;
                }
            }
        }
    }

    fn warm_move(&mut self) {
        self.tick(2);
        self.w_held = true;
        self.tick(8);
        assert_ne!(self.desired_motion, [0.0; 3]);
    }

    fn release_while_inactive(&mut self) {
        self.tick(2);
        assert!(!self.player_context);
        self.w_held = false;
        self.tick(8);
        self.assert_stopped();
    }

    fn assert_stopped(&self) {
        assert_eq!(self.desired_motion, [0.0; 3]);
        assert!(self.controller.last_move.is_none());
    }

    fn assert_restored_without_motion(&mut self) {
        self.tick(2);
        assert!(self.player_context);
        self.assert_stopped();
    }
}

#[test]
fn focus_restore_does_not_resume_movement_released_while_unfocused() {
    let mut f = Fixture::new();
    f.warm_move();
    f.window_focused = false;
    f.release_while_inactive();
    f.window_focused = true;
    f.assert_restored_without_motion();
}

#[test]
fn camera_reselection_does_not_resume_movement_released_while_deselected() {
    let mut f = Fixture::new();
    f.warm_move();
    f.camera.is_active = false;
    f.release_while_inactive();
    f.camera.is_active = true;
    f.assert_restored_without_motion();
}

#[test]
fn move_is_kept_only_for_a_rendering_camera_and_focused_window() {
    let mut controller = PlayerController::default();
    on_move(&mut controller, true, true, [1.0, 2.0, 3.0]);
    assert_eq!(controller.last_move, Some([1.0, 2.0, 3.0]));
    on_move(&mut controller, false, true, [1.0, 2.0, 3.0]);
    assert_eq!(controller.last_move, None);
    controller.last_move = Some([4.0, 0.0, 0.0]);
    on_move(&mut controller, true, false, [1.0, 2.0, 3.0]);
    assert_eq!(controller.last_move, None);
}

#[test]
fn taking_the_move_leaves_none() {
    let mut controller = PlayerController { last_move: Some(5u32) };
    assert_eq!(controller.take_move(), Some(5));
    assert_eq!(controller.take_move(), None);
    assert!(controller.last_move.is_none());
}
