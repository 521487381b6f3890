use woodpecker::bridge::Bridge;
use woodpecker::keyboard::{target, Candidate, Edge, Keys, State, Target};

const KEY_A: u32 = 65;
const LOGICAL_A: u32 = 97;
const KEY_D: u32 = 68;
const LOGICAL_D: u32 = 100;
const SHIFT_LEFT: u32 = 160;
const SHIFT_RIGHT: u32 = 161;
const LOGICAL_SHIFT: u32 = 1000;

fn candidate_2d() -> Candidate {
    Candidate {
        marked_2d: true,
        marked_3d: false,
        camera_2d: true,
        camera_3d: false,
        image_target: true,
        valid_scale: true,
        camera_ready: false,
        valid_projection: false,
    }
}

fn candidate_3d() -> Candidate {
    Candidate {
        marked_2d: false,
        marked_3d: true,
        camera_2d: false,
        camera_3d: true,
        image_target: true,
        valid_scale: true,
        camera_ready: true,
        valid_projection: true,
    }
}

#[derive(Default)]
struct Seen {
    ticks: u64,
    position: i32,
    physical: Vec<(bool, bool, bool)>,
    logical: Vec<(bool, bool, bool)>,
}

struct Game {
    state: State,
    keys: Keys,
    bridge: Bridge,
    seen: Seen,
}

impl Game {
    fn new() -> Self {
        Game { state: State::new(), keys: Keys::new(), bridge: Bridge::new(), seen: Seen::default() }
    }

    fn tick(&mut self) {
        let edges = self.state.flush();
        self.keys.update(&edges);
        self.seen.ticks += 1;
        let physical = self.keys.physical();
        let logical = self.keys.logical();
        if physical.is_pressed(KEY_D) {
            self.seen.position += 1;
        }
        self.seen.physical.push((
            physical.is_pressed(KEY_D),
            physical.just_pressed(KEY_D),
            physical.just_released(KEY_D),
        ));
        self.seen.logical.push((
            logical.is_pressed(LOGICAL_D),
            logical.just_pressed(LOGICAL_D),
            logical.just_released(LOGICAL_D),
        ));
    }

    fn warp(&mut self, id: u64, ticks: u64) {
        self.bridge.start(id, ticks, true).unwrap();
        loop {
            self.tick();
            if let Some(finished) = self.bridge.tick() {
                assert_eq!(finished.id, id);
                assert_eq!(finished.completion.executed_ticks, ticks);
                break;
            }
        }
    }
}

fn assert_headless_keyboard_edges_and_movement(candidate: Candidate) {
    let t = target(None, false, &[candidate]).unwrap();
    assert_eq!(t, Target::Headless);
    let mut game = Game::new();
    game.state.key("D", Some((KEY_D, LOGICAL_D)), Ok(t), true).unwrap();
    assert_eq!(game.seen.ticks, 0);
    assert!(!game.keys.physical().is_pressed(KEY_D));
    assert_eq!(
        game.state.key("D", Some((KEY_D, LOGICAL_D)), Ok(t), true).unwrap_err().code,
        "key_already_pressed"
    );

    game.warp(3, 1);
    game.warp(4, 3);
    assert_eq!((game.seen.ticks, game.seen.position), (4, 4));
    assert_eq!(game.seen.physical[0], (true, true, false));
    assert_eq!(game.seen.logical[0], (true, true, false));
    assert_eq!(game.seen.physical[3], (true, false, false));
    assert_eq!(game.seen.logical[3], (true, false, false));

    game.state.key("D", Some((KEY_D, LOGICAL_D)), Ok(t), false).unwrap();
    assert_eq!(game.seen.position, 4);
    assert_eq!(
        game.state.key("D", Some((KEY_D, LOGICAL_D)), Ok(t), false).unwrap_err().code,
        "key_not_pressed"
    );
    game.warp(7, 1);
    assert_eq!((game.seen.ticks, game.seen.position), (5, 4));
    assert_eq!(game.seen.physical[4], (false, false, true));
    assert_eq!(game.seen.logical[4], (false, false, true));
}

#[test]
fn headless_2d_keyboard_edges_and_movement_are_applied_only_by_warps() {
    assert_headless_keyboard_edges_and_movement(candidate_2d());
}

#[test]
fn headless_3d_keyboard_edges_and_movement_are_applied_only_by_warps() {
    assert_headless_keyboard_edges_and_movement(candidate_3d());
}

#[test]
fn validates_tokens_windows_and_transitions_without_mutating_on_rejection() {
    let mut state = State::new();
    let no_window = || target(None, false, &[]);
    assert_eq!(
        state.key("A", None, no_window(), true).unwrap_err().code,
        "invalid_key"
    );
    assert_eq!(
        state.key("A", Some((KEY_A, LOGICAL_A)), no_window(), true).unwrap_err().code,
        "keyboard_window_unavailable"
    );
    let window = 7;
    let primary = || target(Some(window), true, &[]);
    assert_eq!(
        state.key("A", Some((KEY_A, LOGICAL_A)), primary(), false).unwrap_err().code,
        "key_not_pressed"
    );
    state.key("A", Some((KEY_A, LOGICAL_A)), primary(), true).unwrap();
    assert_eq!(
        state.key("A", Some((KEY_A, LOGICAL_A)), primary(), true).unwrap_err().code,
        "key_already_pressed"
    );
    // A wrapped token that names a valid key resolves like the typed key.
    assert_eq!(
        state.key("a", Some((KEY_A, LOGICAL_A)), primary(), true).unwrap_err().code,
        "key_already_pressed"
    );
    // Two primary windows leave no unique primary window.
    let ambiguous = target(None, true, &[]);
    assert_eq!(
        state.key("A", Some((KEY_A, LOGICAL_A)), ambiguous, false).unwrap_err().code,
        "keyboard_window_unavailable"
    );
    assert_eq!(
        state.key("A", Some((KEY_A, LOGICAL_A)), no_window(), false).unwrap_err().code,
        "keyboard_window_unavailable"
    );
    assert!(state.is_pressed(KEY_A));
    assert_eq!(state.pending().len(), 1);
    let edge = state.pending()[0];
    assert_eq!(edge.target, Target::Window(window));
    assert_eq!(edge.logical, LOGICAL_A);
    assert!(edge.pressed);
    state.key("A", Some((KEY_A, LOGICAL_A)), target(Some(9), true, &[]), false).unwrap();
    assert!(!state.is_pressed(KEY_A));
    assert_eq!(state.pending().len(), 2);
}

#[test]
fn queued_edges_and_shared_logical_modifiers_preserve_their_lifetimes() {
    let mut keys = Keys::new();
    let press = |physical| Edge { physical, logical: LOGICAL_SHIFT, target: Target::Headless, pressed: true };
    let release = |physical| Edge { physical, logical: LOGICAL_SHIFT, target: Target::Headless, pressed: false };
    keys.update(&vec![press(SHIFT_LEFT), press(SHIFT_RIGHT)]);
    assert!(keys.logical().is_pressed(LOGICAL_SHIFT));
    assert!(keys.logical().just_pressed(LOGICAL_SHIFT));
    keys.update(&vec![release(SHIFT_LEFT)]);
    assert!(!keys.physical().is_pressed(SHIFT_LEFT));
    assert!(keys.logical().is_pressed(LOGICAL_SHIFT));
    assert!(!keys.logical().just_released(LOGICAL_SHIFT));
    assert!(!keys.logical().just_pressed(LOGICAL_SHIFT));
    keys.update(&vec![release(SHIFT_RIGHT)]);
    assert!(!keys.logical().is_pressed(LOGICAL_SHIFT));
    assert!(keys.logical().just_released(LOGICAL_SHIFT));
    keys.update(&vec![]);
    assert!(!keys.logical().just_released(LOGICAL_SHIFT));
}

#[test]
fn press_and_release_within_one_tick_are_both_seen() {
    let mut keys = Keys::new();
    let edge = |pressed| Edge { physical: KEY_D, logical: LOGICAL_D, target: Target::Headless, pressed };
    keys.update(&vec![edge(true), edge(false)]);
    assert!(!keys.physical().is_pressed(KEY_D));
    assert!(keys.physical().just_pressed(KEY_D));
    assert!(keys.physical().just_released(KEY_D));
    assert!(keys.logical().just_released(LOGICAL_D));
}

fn press(state: &mut State, candidates: &[Candidate]) -> Result<(), String> {
    let t = target(None, false, candidates).map_err(|e| e.code)?;
    state.key("D", Some((KEY_D, LOGICAL_D)), Ok(t), true).map_err(|e| e.code)
}

#[test]
fn headless_2d_keyboard_requires_exactly_one_explicit_target() {
    let mut state = State::new();
    assert_eq!(press(&mut state, &[]).unwrap_err(), "keyboard_window_unavailable");
    assert_eq!(press(&mut state, &[candidate_2d(), candidate_2d()]).unwrap_err(), "keyboard_window_unavailable");
    press(&mut state, &[candidate_2d()]).unwrap();
    assert!(target(None, true, &[candidate_2d()]).is_err());
}

#[test]
fn headless_3d_keyboard_requires_one_suitable_explicit_target() {
    let mut state = State::new();
    assert_eq!(press(&mut state, &[]).unwrap_err(), "keyboard_window_unavailable");
    let unmarked = Candidate { marked_3d: false, ..candidate_3d() };
    assert_eq!(press(&mut state, &[unmarked]).unwrap_err(), "keyboard_window_unavailable");
    let inactive = Candidate { camera_ready: false, ..candidate_3d() };
    assert_eq!(press(&mut state, &[inactive]).unwrap_err(), "keyboard_window_unavailable");
    let orthographic = Candidate { valid_projection: false, ..candidate_3d() };
    let error = target(None, false, &[orthographic]).unwrap_err();
    assert_eq!(error.code, "keyboard_window_unavailable");
    assert_eq!(
        error.message,
        "expected exactly one primary window or fixed headless 2D/perspective 3D target"
    );
    assert_eq!(press(&mut state, &[candidate_3d(), candidate_3d()]).unwrap_err(), "keyboard_window_unavailable");
    press(&mut state, &[candidate_3d()]).unwrap();
    let both_kinds = Candidate { camera_2d: true, ..candidate_3d() };
    assert!(target(None, false, &[both_kinds]).is_err());
    assert_eq!(target(Some(3), true, &[candidate_3d()]).unwrap(), Target::Window(3));
}

#[test]
fn mixed_headless_2d_and_3d_keyboard_targets_fail_closed() {
    let mut state = State::new();
    assert_eq!(press(&mut state, &[candidate_2d(), candidate_3d()]).unwrap_err(), "keyboard_window_unavailable");
    let mixed = Candidate { marked_3d: true, ..candidate_2d() };
    assert_eq!(press(&mut state, &[mixed]).unwrap_err(), "keyboard_window_unavailable");
}
