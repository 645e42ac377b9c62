use cube_spin::state::{gate_step, GameState};

#[test]
fn absent_cube_stays_loading() {
    let (next, dismiss) = gate_step(GameState::Loading, false);
    assert_eq!(next, GameState::Loading);
    assert!(!dismiss);
}

#[test]
fn present_cube_transitions_and_dismisses() {
    let (next, dismiss) = gate_step(GameState::Loading, true);
    assert_eq!(next, GameState::InGame);
    assert!(dismiss);
}

#[test]
fn gate_is_a_noop_in_game() {
    let (next, dismiss) = gate_step(GameState::InGame, true);
    assert_eq!(next, GameState::InGame);
    assert!(!dismiss);
    let (next, dismiss) = gate_step(GameState::InGame, false);
    assert_eq!(next, GameState::InGame);
    assert!(!dismiss);
}

#[test]
fn transition_fires_exactly_once_over_a_run() {
    // The cube appears on frame 3; however long the run, the transition
    // and the dismissal both fire exactly once, on that frame.
    let mut state = GameState::Loading;
    let mut transitions: u32 = 0;
    let mut dismissals: u32 = 0;
    for frame in 0..100u32 {
        let cube_present = frame >= 3;
        let (next, dismiss) = gate_step(state, cube_present);
        if state == GameState::Loading && next == GameState::InGame {
            transitions += 1;
        }
        if dismiss {
            dismissals += 1;
        }
        state = next;
        if frame < 3 {
            assert_eq!(state, GameState::Loading);
        } else {
            assert_eq!(state, GameState::InGame);
        }
    }
    assert_eq!(transitions, 1);
    assert_eq!(dismissals, 1);
}

#[test]
fn cube_never_appearing_never_transitions() {
    let mut state = GameState::Loading;
    for _ in 0..100u32 {
        let (next, dismiss) = gate_step(state, false);
        assert!(!dismiss);
        state = next;
    }
    assert_eq!(state, GameState::Loading);
}
