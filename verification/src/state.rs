//! The two-state loading machine.
//!
//! The state starts at `Loading` and moves to `InGame` the first frame
//! the cube entity is seen; it never moves back. The same per-frame step
//! decides when the host should dismiss its loading overlay.

use vstd::prelude::*;

verus! {

/// Which per-frame logic runs: watching for the cube while `Loading`,
/// the rotation controller once `InGame`.
#[derive(Clone, Copy, Debug, PartialEq, Eq, Structural)]
pub enum GameState {
    Loading,
    InGame,
}

/// One per-frame evaluation while loading: the state after it, given the
/// state before it and whether the cube entity exists this frame.
pub open spec fn gate_next(state: GameState, cube_present: bool) -> GameState {
    if state == GameState::Loading && cube_present {
        GameState::InGame
    } else {
        state
    }
}

/// Whether one per-frame evaluation asks the host to dismiss the loading
/// overlay: only while still `Loading`, and only once the cube entity
/// exists.
pub open spec fn gate_dismisses(state: GameState, cube_present: bool) -> bool {
    state == GameState::Loading && cube_present
}

/// The per-frame loading step. Returns the next state and whether the
/// host should dismiss the loading overlay this frame.
///
/// While `Loading` with the cube absent it is a no-op; the first frame the
/// cube exists it requests the transition to `InGame` and the dismissal;
/// once `InGame` it changes nothing.
pub fn gate_step(state: GameState, cube_present: bool) -> (r: (GameState, bool))
    ensures
        r.0 == gate_next(state, cube_present),
        r.1 == gate_dismisses(state, cube_present),
{
    if state == GameState::Loading && cube_present {
        (GameState::InGame, true)
    } else {
        (state, false)
    }
}

/// The state after the first `n` frames of a run whose frame-by-frame
/// cube presence is `present`.
pub open spec fn state_after(init: GameState, present: Seq<bool>, n: nat) -> GameState
    decreases n,
{
    if n == 0 {
        init
    } else {
        gate_next(state_after(init, present, (n - 1) as nat), present[n - 1])
    }
}

/// Whether frame `i` of a run asks for the overlay dismissal.
pub open spec fn dismiss_at(init: GameState, present: Seq<bool>, i: nat) -> bool {
    gate_dismisses(state_after(init, present, i), present[i as int])
}

/// Whether the `Loading` to `InGame` transition fires on frame `i` of a run.
pub open spec fn transition_at(init: GameState, present: Seq<bool>, i: nat) -> bool {
    state_after(init, present, i) == GameState::Loading
        && state_after(init, present, (i + 1) as nat) == GameState::InGame
}

/// The state is monotonic: once a run reaches `InGame`, every later frame
/// is still `InGame`; the machine never oscillates back to `Loading`.
pub proof fn lemma_state_monotone(init: GameState, present: Seq<bool>, i: nat, j: nat)
    requires
        i <= j,
        state_after(init, present, i) == GameState::InGame,
    ensures
        state_after(init, present, j) == GameState::InGame,
    decreases j,
{
    if i < j {
        lemma_state_monotone(init, present, i, (j - 1) as nat);
    }
}

/// While the cube entity is absent, the state remains `Loading`: a run
/// that starts in `Loading` and has seen no cube is still in `Loading`.
pub proof fn lemma_absent_stays_loading(present: Seq<bool>, n: nat)
    requires
        forall|k: int| 0 <= k < n ==> !present[k],
    ensures
        state_after(GameState::Loading, present, n) == GameState::Loading,
    decreases n,
{
    if n > 0 {
        lemma_absent_stays_loading(present, (n - 1) as nat);
    }
}

/// The overlay dismissal is asked for exactly on the frames where the
/// state transition fires: the two signals coincide.
pub proof fn lemma_dismiss_iff_transition(init: GameState, present: Seq<bool>, i: nat)
    ensures
        dismiss_at(init, present, i) == transition_at(init, present, i),
{
}

/// The transition fires at most once in a run: after it fires on frame
/// `i`, no later frame fires it again, and no later frame asks for the
/// overlay dismissal either.
pub proof fn lemma_transition_at_most_once(init: GameState, present: Seq<bool>, i: nat, j: nat)
    requires
        transition_at(init, present, i),
        i < j,
    ensures
        !transition_at(init, present, j),
        !dismiss_at(init, present, j),
{
    lemma_state_monotone(init, present, (i + 1) as nat, j);
}

/// However many frames elapse before the cube appears, the transition
/// fires exactly once: on the first frame where the cube is present, and
/// on no other frame.
pub proof fn lemma_transition_exactly_once(present: Seq<bool>, k: nat)
    requires
        forall|j: int| 0 <= j < k ==> !present[j],
        present[k as int],
    ensures
        transition_at(GameState::Loading, present, k),
        forall|i: nat| i != k ==> !transition_at(GameState::Loading, present, i),
{
    lemma_absent_stays_loading(present, k);
    assert forall|i: nat| i != k implies !transition_at(GameState::Loading, present, i) by {
        if i < k {
            lemma_absent_stays_loading(present, i);
            lemma_absent_stays_loading(present, (i + 1) as nat);
        } else {
            lemma_transition_at_most_once(GameState::Loading, present, k, i);
        }
    }
}

} // verus!
