//! Everything the demo owns across frames, and the one ordered per-frame
//! update: the loading step first, the rotation controller once the game
//! is running.
//!
//! The host runtime calls `frame_update` once per rendered frame with a
//! plain-value snapshot of that frame's input; when the call asks for it,
//! the host dismisses its loading overlay.

use vstd::prelude::*;
use crate::input::rotation_factor;
use crate::input::rotation_factor_spec;
use crate::input::target_speed;
use crate::input::target_speed_spec;
use crate::scene::Scene;
use crate::scene::abs_int;
use crate::scene::bootstrap_scene;
use crate::scene::initial_scene;
use crate::scene::yaw_increment;
use crate::speed::Speed;
use crate::speed::fits_i128;
use crate::speed::smoothed_den;
use crate::speed::smoothed_num;
use crate::state::GameState;
use crate::state::gate_step;

verus! {

/// The plain-value input snapshot for one frame: the two rotate keys,
/// the active touches' x-coordinates, the window width in pixels, and
/// the elapsed time since the previous frame in microseconds.
pub struct FrameInput {
    pub left_held: bool,
    pub right_held: bool,
    pub touch_xs: Vec<u32>,
    pub width: u32,
    pub delta_micros: u32,
}

/// The demo's whole state across frames: the loading flag, the smoothed
/// rotation speed, the scene, and the simulation time speed in hundredths
/// of real time.
pub struct World {
    pub state: GameState,
    pub speed: Speed,
    pub scene: Scene,
    pub time_speed_hundredths: u32,
}

/// The target angular speed one frame's input selects.
pub open spec fn frame_target(input: FrameInput) -> int {
    target_speed_spec(
        rotation_factor_spec(input.left_held, input.right_held, input.touch_xs@, input.width as int),
    )
}

/// The accumulator's numerator after one frame of smoothing.
pub open spec fn next_speed_num(w: World, input: FrameInput) -> int {
    smoothed_num(w.speed.num as int, w.speed.den as int, frame_target(input))
}

/// The accumulator's denominator after one frame of smoothing.
pub open spec fn next_speed_den(w: World) -> int {
    smoothed_den(w.speed.den as int)
}

/// The cube's orientation after one frame: the old orientation advanced
/// by the freshly smoothed speed over the frame's elapsed time.
pub open spec fn next_yaw(w: World, input: FrameInput) -> int {
    w.scene.cube.yaw_microradians + yaw_increment(
        next_speed_num(w, input),
        next_speed_den(w),
        input.delta_micros as int,
    )
}

/// The machine-size bounds under which one `InGame` frame goes through
/// exactly: the directional factor fits the gain multiplication, the
/// smoothing step fits `i128`, and the rotation increment and the new
/// orientation fit too.
pub open spec fn frame_fits(w: World, input: FrameInput) -> bool {
    &&& input.touch_xs@.len() + 1 <= 0x0ccc_cccc_cccc_cccc
    &&& fits_i128(4 * w.speed.num)
    &&& fits_i128(frame_target(input) * w.speed.den)
    &&& fits_i128(next_speed_num(w, input))
    &&& next_speed_num(w, input) > i128::MIN
    &&& next_speed_den(w) <= u128::MAX
    &&& abs_int(next_speed_num(w, input)) * input.delta_micros <= u128::MAX
    &&& abs_int(next_speed_num(w, input)) * input.delta_micros / next_speed_den(w) <= i128::MAX
    &&& fits_i128(next_yaw(w, input))
}

impl World {
    /// A world value is well formed when its accumulator is.
    pub open spec fn wf(self) -> bool {
        self.speed.wf()
    }

    /// The world as the application starts: still loading, the
    /// accumulator at zero, the scene freshly bootstrapped, time at real
    /// speed.
    pub fn new() -> (w: World)
        ensures
            w.state == GameState::Loading,
            w.speed.num == 0,
            w.speed.den == 1,
            w.scene == initial_scene(),
            w.time_speed_hundredths == 100,
            w.wf(),
    {
        World {
            state: GameState::Loading,
            speed: Speed::zero(),
            scene: bootstrap_scene(),
            time_speed_hundredths: 100,
        }
    }
}

/// One-time side effect on entering `InGame`: normalizes the simulation
/// time speed to the fixed multiplier of one times real time.
pub fn set_global_time_speed(w: &mut World)
    ensures
        final(w).time_speed_hundredths == 100,
        final(w).state == old(w).state,
        final(w).speed == old(w).speed,
        final(w).scene == old(w).scene,
{
    w.time_speed_hundredths = 100;
}

/// One frame of the demo, in the fixed order: the loading step while
/// `Loading`, the rotation controller once `InGame`; never both in the
/// same frame. Returns whether the host should dismiss its loading
/// overlay this frame.
///
/// While `Loading`, the cube the bootstrap created is already there, so
/// the frame transitions to `InGame`, asks for the dismissal, runs the
/// one-time time-speed normalization, and touches nothing else. Once
/// `InGame` the loading step no longer runs: the accumulator takes one
/// exact smoothing step toward the frame's target speed and the cube
/// turns by the new speed over the frame's elapsed time.
pub fn frame_update(w: &mut World, input: &FrameInput) -> (dismiss: bool)
    requires
        old(w).wf(),
        old(w).state == GameState::InGame ==> frame_fits(*old(w), *input),
    ensures
        final(w).wf(),
        old(w).state == GameState::Loading ==> {
            &&& final(w).state == GameState::InGame
            &&& dismiss
            &&& final(w).speed == old(w).speed
            &&& final(w).scene == old(w).scene
            &&& final(w).time_speed_hundredths == 100
        },
        old(w).state == GameState::InGame ==> {
            &&& final(w).state == GameState::InGame
            &&& !dismiss
            &&& final(w).speed.num == next_speed_num(*old(w), *input)
            &&& final(w).speed.den == next_speed_den(*old(w))
            &&& final(w).scene.cube.yaw_microradians == next_yaw(*old(w), *input)
            &&& final(w).scene.cube.material == old(w).scene.cube.material
            &&& final(w).scene.camera == old(w).scene.camera
            &&& final(w).scene.light == old(w).scene.light
            &&& final(w).time_speed_hundredths == old(w).time_speed_hundredths
        },
{
    if w.state == GameState::Loading {
        // The bootstrap created the cube, so it is present this frame.
        let (next, dismiss) = gate_step(w.state, true);
        w.state = next;
        set_global_time_speed(w);
        dismiss
    } else {
        let factor: i64 = rotation_factor(
            input.left_held,
            input.right_held,
            &input.touch_xs,
            input.width,
        );
        let target: i64 = target_speed(factor);
        w.speed.smooth_step(target);
        let speed_now = w.speed;
        w.scene.cube.rotate_y(&speed_now, input.delta_micros);
        false
    }
}

} // verus!
