use dice_sim::actions::{set_movement_actions, Actions, GameControl, KeyState};

/// Feed a run of per-tick raw samples and collect the reroll flag of
/// every tick, recomputing it once per tick as the game loop does.
fn signal_run(samples: &[bool]) -> Vec<bool> {
    let mut key = KeyState::new();
    let mut actions = Actions::default();
    let mut out: Vec<bool> = Vec::new();
    for &s in samples {
        key.advance(s);
        set_movement_actions(&mut actions, &key);
        out.push(actions.reroll);
    }
    out
}

#[test]
fn signal_fires_once_after_press_then_release() {
    let got = signal_run(&[false, true, true, false, false]);
    assert_eq!(got, vec![false, false, false, true, false]);
}

#[test]
fn signal_false_while_held() {
    let got = signal_run(&[true, true, true, true, true, true]);
    assert_eq!(got, vec![false; 6]);
}

#[test]
fn signal_false_with_no_input() {
    let got = signal_run(&[false; 8]);
    assert_eq!(got, vec![false; 8]);
}

#[test]
fn signal_fires_for_each_separate_release() {
    let got = signal_run(&[true, false, true, false, true]);
    assert_eq!(got, vec![false, true, false, true, false]);
}

#[test]
fn signal_release_on_first_tick_does_not_fire() {
    // The sampler starts with the control counted as up, so a first
    // tick with the control up is no release edge.
    let got = signal_run(&[false, true, false]);
    assert_eq!(got, vec![false, false, true]);
}

#[test]
fn key_state_edge_queries() {
    let up = KeyState { previous: false, current: false };
    let pressing = KeyState { previous: false, current: true };
    let held = KeyState { previous: true, current: true };
    let releasing = KeyState { previous: true, current: false };

    assert!(!up.pressed() && !up.just_pressed() && !up.just_released());
    assert!(pressing.pressed() && pressing.just_pressed() && !pressing.just_released());
    assert!(held.pressed() && !held.just_pressed() && !held.just_released());
    assert!(!releasing.pressed() && !releasing.just_pressed() && releasing.just_released());
}

#[test]
fn game_control_delegates_to_sampler() {
    let releasing = KeyState { previous: true, current: false };
    let held = KeyState { previous: true, current: true };
    assert!(GameControl::Reroll.just_released(&releasing));
    assert!(!GameControl::Reroll.just_released(&held));
    assert!(GameControl::Reroll.pressed(&held));
    assert!(!GameControl::Reroll.just_pressed(&held));
    assert!(GameControl::Reroll.just_pressed(&KeyState { previous: false, current: true }));
}

#[test]
fn actions_default_is_idle() {
    let a = Actions::default();
    assert!(!a.reroll);
}

#[test]
fn new_sampler_counts_control_as_up() {
    let k = KeyState::new();
    assert!(!k.previous && !k.current);
    assert!(!k.pressed());
}
