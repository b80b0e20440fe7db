//! Scenarios of the camera test screen, driven through the library's
//! decisions: switching, capture, release, sync, gating and the tracking
//! camera's input check. The fixture stands in for the engine: it evaluates
//! the input contexts in priority order (switch, quit, capture, camera input),
//! applies orbit and zoom through the tracking camera's input check, flies the
//! free camera while gating lets it, and shows the chosen help text.

use quell::screen::dev::camera_test::data::CameraTestInput;
use quell::screen::dev::camera_test::screen::{switch_camera, update_help, FREE_HELP, TRACKING_HELP};
use quell::service::input::camera::fly::events::{gate_input, FlyControls};
use quell::service::input::camera::fly::{flycam_bundle, FreeCameraParts};
use quell::service::input::camera::tracking::events::input_enabled;
use quell::service::input::camera::tracking::tracking_cam_bundle;
use quell::service::input::cursor::events::{
    on_capture_cursor, release_cursor, spawn_cursor_capture, sync_contexts, LeftButton, PlayerContext,
    TrackingContext,
};
use quell::service::input::cursor::{ICtxCaptureCursor, SpawnCursorCapture};
use quell::service::input::data::{Camera, CursorGrabMode, CursorOptions};
use quell::service::input::events::exit_app;
use quell::service::player::data::PlayerController;
use quell::service::player::events::on_move;

#[derive(Clone, Copy, PartialEq, Eq, Debug)]
enum Button {
    Tab,
    Escape,
    W,
    MouseLeft,
    MouseRight,
}

#[derive(Clone, Copy, PartialEq, Debug)]
struct Transform {
    translation: [f32; 3],
    rotation: f32,
}

struct Player {
    active: bool,
    controller: PlayerController<[f32; 3]>,
    desired_motion: [f32; 3],
    desired_forward: Option<[f32; 3]>,
}

struct Fixture {
    pressed: Vec<Button>,
    previous: Vec<Button>,
    motion: bool,
    scroll: bool,
    window_focused: bool,
    cursor: CursorOptions,
    capture: ICtxCaptureCursor,
    switch_ready: bool,
    free: FreeCameraParts,
    free_transform: Transform,
    engine_grabbed: bool,
    tracking: Camera,
    tracking_context: bool,
    tracking_transform: Transform,
    fov: f32,
    ui: Camera,
    help: &'static str,
    player: Option<Player>,
    release_requests: usize,
    exits: usize,
}

impl Fixture {
    fn new() -> Self {
        let (capture, capture_spec) = spawn_cursor_capture(SpawnCursorCapture);
        assert!(capture_spec.active);
        assert!(CameraTestInput::bundle().active);
        let bundle = tracking_cam_bundle(7u64);
        assert!(bundle.camera.is_active);
        Fixture {
            pressed: Vec::new(),
            previous: Vec::new(),
            motion: false,
            scroll: false,
            window_focused: true,
            cursor: CursorOptions { visible: true, grab_mode: CursorGrabMode::Free },
            capture,
            switch_ready: false,
            free: flycam_bundle().parts,
            free_transform: Transform { translation: [-2.5, 4.5, 9.0], rotation: 0.0 },
            engine_grabbed: false,
            // The screen spawns the tracking camera, then turns it off.
            tracking: Camera { is_active: false },
            tracking_context: bundle.context_active,
            tracking_transform: Transform { translation: [3.0, 2.0, 1.0], rotation: 0.5 },
            fov: std::f32::consts::FRAC_PI_4,
            ui: Camera { is_active: true },
            help: FREE_HELP,
            player: None,
            release_requests: 0,
            exits: 0,
        }
    }

    fn held(&self, button: Button) -> bool {
        self.pressed.contains(&button)
    }

    fn just_pressed(&self, button: Button) -> bool {
        self.held(button) && !self.previous.contains(&button)
    }

    fn just_released(&self, button: Button) -> bool {
        !self.held(button) && self.previous.contains(&button)
    }

    fn release(&mut self) {
        self.release_requests += 1;
        let mut controls = vec![self.capture];
        let mut free = vec![self.free];
        let updates = release_cursor(&mut self.cursor, &mut controls, &vec![self.tracking_context], &mut free);
        self.capture = controls[0];
        self.free = free[0];
        if let Some(activity) = updates[0] {
            self.tracking_context = activity;
        }
    }

    fn window(&self) -> Option<(bool, CursorOptions)> {
        Some((self.window_focused, self.cursor))
    }

    fn tick(&mut self) {
        let player_context = self.player.as_ref().is_some_and(|p| p.active);

        // Camera test context (2000): switch once per fresh Tab press.
        if self.switch_ready && self.just_pressed(Button::Tab) {
            if switch_camera(self.window_focused, &mut self.free.camera, &mut self.tracking) {
                self.release();
            }
        }
        if !self.held(Button::Tab) {
            self.switch_ready = true;
        }
        // Global context (1000): quit on Escape release.
        if self.just_released(Button::Escape) && exit_app(&self.cursor) {
            self.exits += 1;
        }
        // Capture context (500): capture on click completion, release on Escape.
        if self.just_released(Button::MouseLeft) {
            let tracking = Some(self.tracking);
            if on_capture_cursor(self.window_focused, Some(self.capture), tracking, &mut self.cursor) {
                self.tracking_context = true;
            }
        }
        if self.just_released(Button::Escape) {
            self.release();
        }
        // Spring arm context: orbit and zoom, checked again when applied.
        if self.motion && input_enabled(&self.tracking, self.tracking_context, self.window()) {
            self.tracking_transform.rotation += 0.12;
        }
        if self.scroll && input_enabled(&self.tracking, self.tracking_context, self.window()) {
            self.fov += 0.1;
        }
        // Player context: movement.
        if player_context && self.held(Button::W) {
            let camera_active = self.tracking.is_active;
            let focused = self.window_focused;
            let player = self.player.as_mut().unwrap();
            on_move(&mut player.controller, camera_active, focused, [0.0, 0.0, -10.0]);
        }

        // Sync after the actions are applied.
        let mut controls = vec![self.capture];
        let tracking = vec![TrackingContext { camera: self.tracking, active: self.tracking_context }];
        let mut players: Vec<PlayerContext<[f32; 3]>> = Vec::new();
        if let Some(player) = self.player.take() {
            players.push(PlayerContext { active: player.active, controller: player.controller });
            self.player = Some(Player { controller: PlayerController::default(), ..player });
        }
        let outcome = sync_contexts(
            self.window_focused,
            &self.cursor,
            LeftButton {
                pressed: self.held(Button::MouseLeft),
                just_released: self.just_released(Button::MouseLeft),
            },
            &mut controls,
            &tracking,
            &mut players,
        );
        self.capture = controls[0];
        if let Some(activity) = outcome.tracking[0] {
            self.tracking_context = activity;
        }
        if let Some(mut player) = self.player.take() {
            let synced = players.pop().unwrap();
            player.controller = synced.controller;
            if let Some(activity) = outcome.players[0] {
                player.active = activity;
            }
            if !outcome.players_enabled {
                player.desired_motion = [0.0; 3];
                player.desired_forward = None;
            }
            self.player = Some(player);
        }
        if outcome.release {
            self.release();
        }

        // Gating, then the engine's free camera controller.
        let controls = FlyControls {
            grab_held: self.held(Button::MouseRight),
            toggle_held: false,
            toggle_just_pressed: false,
            escape_held: self.held(Button::Escape),
        };
        let camera = self.free.camera;
        gate_input(
            controls,
            self.window_focused,
            &camera,
            &mut self.cursor,
            &mut self.free.state,
            &mut self.free.input,
        );
        if self.free.camera.is_active && self.free.state.enabled {
            self.cursor.visible = false;
            self.cursor.grab_mode = CursorGrabMode::Locked;
            self.engine_grabbed = true;
            if self.motion {
                self.free_transform.rotation += 0.25;
            }
        } else if self.engine_grabbed {
            self.cursor.visible = true;
            self.cursor.grab_mode = CursorGrabMode::Free;
            self.engine_grabbed = false;
        }

        // Update: the help text.
        if let Some(text) = update_help(&self.free.camera, &self.tracking) {
            self.help = text.text();
        }

        self.previous = self.pressed.clone();
        self.motion = false;
        self.scroll = false;
    }

    fn press(&mut self, button: Button, pressed: bool) {
        if pressed {
            if !self.held(button) {
                self.pressed.push(button);
            }
        } else {
            self.pressed.retain(|b| *b != button);
        }
    }

    fn tab(&mut self, pressed: bool) {
        self.press(Button::Tab, pressed);
        self.tick();
    }

    fn left_click(&mut self) {
        self.press(Button::MouseLeft, true);
        self.tick();
        self.press(Button::MouseLeft, false);
        self.tick();
    }

    fn assert_capture(&self, captured: bool) {
        assert_eq!(self.cursor.visible, !captured);
        assert_eq!(
            self.cursor.grab_mode,
            if captured { CursorGrabMode::Locked } else { CursorGrabMode::Free }
        );
        assert_eq!(self.free.state.enabled, captured && self.free.camera.is_active);
        assert_eq!(self.tracking_context, captured && self.tracking.is_active);
    }

    fn assert_selected(&self, tracking: bool, release_requests: usize) {
        assert_eq!(self.free.camera.is_active, !tracking);
        assert_eq!(self.tracking.is_active, tracking);
        assert!(self.ui.is_active);
        assert_eq!(self.release_requests, release_requests);
        assert!(self.help.starts_with(if tracking { "Camera: Tracking" } else { "Camera: Free" }));
    }
}

#[test]
fn tab_switches_once_per_press_preserving_poses_and_ui() {
    let mut f = Fixture::new();
    let poses = (f.free_transform, f.tracking_transform);
    f.assert_selected(false, 0);
    f.tick();
    f.tab(true);
    f.assert_selected(true, 1);
    f.tick();
    f.assert_selected(true, 1);
    f.tab(false);
    f.assert_selected(true, 1);
    f.tab(true);
    f.assert_selected(false, 2);
    assert_eq!((f.free_transform, f.tracking_transform), poses);
    assert_eq!(f.help, FREE_HELP);
}

#[test]
fn tab_held_on_entry_requires_release_before_switching() {
    let mut f = Fixture::new();
    f.tab(true);
    f.tick();
    f.assert_selected(false, 0);
    f.tab(false);
    f.tab(true);
    f.assert_selected(true, 1);
    assert_eq!(f.help, TRACKING_HELP);
}

#[test]
fn unfocused_window_does_not_switch_or_request_release() {
    let mut f = Fixture::new();
    f.tick();
    f.window_focused = false;
    f.tab(true);
    f.assert_selected(false, 0);
}

#[test]
fn captured_handoffs_require_fresh_gestures_and_clear_player_movement() {
    let mut f = Fixture::new();
    f.tick();
    f.press(Button::MouseRight, true);
    f.tick();
    f.assert_capture(true);
    f.press(Button::MouseLeft, true);
    f.tick();
    f.tab(true);
    f.assert_selected(true, 1);
    f.assert_capture(false);
    f.tab(false);
    f.press(Button::MouseLeft, false);
    f.tick();
    f.assert_capture(false);
    f.tick();
    f.assert_capture(false);
    f.left_click();
    f.assert_capture(true);

    f.player = Some(Player {
        active: true,
        controller: PlayerController { last_move: Some([1.0, 0.0, 0.0]) },
        desired_motion: [1.0, 0.0, 0.0],
        desired_forward: Some([1.0, 0.0, 0.0]),
    });
    let free_pose = f.free_transform;
    let tracking_pose = f.tracking_transform;
    f.motion = true;
    f.tick();
    assert_eq!(f.free_transform, free_pose);
    assert_ne!(f.tracking_transform.rotation, tracking_pose.rotation);
    assert!(f.player.as_ref().unwrap().active);
    assert!(f.player.as_ref().unwrap().controller.last_move.is_some());

    let tracking_pose = f.tracking_transform;
    // Orbit input evaluated before the switch must not reach either camera.
    f.motion = true;
    f.tab(true);
    f.assert_selected(false, 2);
    f.assert_capture(false);
    assert_eq!(f.free_transform, free_pose);
    assert_eq!(f.tracking_transform, tracking_pose);
    let player = f.player.as_ref().unwrap();
    assert!(!player.active);
    assert!(player.controller.last_move.is_none());
    assert_eq!(player.desired_motion, [0.0; 3]);
    assert!(player.desired_forward.is_none());

    // RMB stayed held throughout both switches; it cannot recapture Free.
    f.tab(false);
    f.tick();
    f.assert_capture(false);
    f.press(Button::MouseRight, false);
    f.tick();
    f.assert_capture(false);
    f.press(Button::MouseRight, true);
    f.tick();
    f.assert_capture(true);
}

#[test]
fn tracking_escape_releases_before_a_second_escape_quits() {
    let mut f = Fixture::new();
    f.tick();
    f.tab(true);
    f.tab(false);
    f.left_click();
    f.assert_capture(true);

    f.press(Button::Escape, true);
    f.tick();
    let pose = f.tracking_transform;
    let fov = f.fov;
    f.motion = true;
    f.scroll = true;
    f.press(Button::Escape, false);
    f.tick();
    f.assert_capture(false);
    assert_eq!(f.tracking_transform, pose);
    assert_eq!(f.fov, fov);
    assert_eq!(f.exits, 0);

    f.press(Button::Escape, true);
    f.tick();
    f.press(Button::Escape, false);
    f.tick();
    assert_ne!(f.exits, 0);
}

#[test]
fn recapturing_tracking_does_not_resume_old_zoom() {
    let mut f = Fixture::new();
    f.tick();
    f.tab(true);
    f.tab(false);
    f.left_click();
    let initial_fov = f.fov;
    f.scroll = true;
    f.tick();
    assert_ne!(f.fov, initial_fov);

    f.press(Button::Escape, true);
    f.tick();
    f.press(Button::Escape, false);
    f.tick();
    f.assert_capture(false);
    let released_fov = f.fov;
    f.tick();
    f.left_click();
    f.assert_capture(true);
    f.tick();
    assert_eq!(f.fov, released_fov);
}

#[test]
fn tracking_focus_loss_disarms_a_held_click_until_a_fresh_gesture() {
    for captured in [false, true] {
        let mut f = Fixture::new();
        f.tick();
        f.tab(true);
        f.tab(false);
        if captured {
            f.left_click();
        }
        f.assert_capture(captured);
        f.press(Button::MouseLeft, true);
        f.tick();
        f.window_focused = false;
        f.tick();
        f.assert_capture(false);

        f.window_focused = true;
        f.tick();
        f.assert_capture(false);
        f.press(Button::MouseLeft, false);
        f.tick();
        f.assert_capture(false);
        f.tick();
        f.left_click();
        f.assert_capture(true);
    }
}

#[test]
fn stale_orbit_and_zoom_events_recheck_every_input_gate() {
    let locked = CursorOptions { visible: false, grab_mode: CursorGrabMode::Locked };
    for (selected, focused, grab_mode, active) in [
        (false, true, CursorGrabMode::Locked, true),
        (true, false, CursorGrabMode::Locked, true),
        (true, true, CursorGrabMode::Free, true),
        (true, true, CursorGrabMode::Confined, true),
        (true, true, CursorGrabMode::Locked, false),
    ] {
        let cursor = CursorOptions { grab_mode, ..locked };
        assert!(!input_enabled(&Camera { is_active: selected }, active, Some((focused, cursor))));
    }
    assert!(input_enabled(&Camera { is_active: true }, true, Some((true, locked))));
    // Without exactly one primary window nothing reaches the camera.
    assert!(!input_enabled(&Camera { is_active: true }, true, None));
}
