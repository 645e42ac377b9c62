//! The raw directional factor for one frame, from keyboard and touch
//! input, and the target angular speed it selects.
//!
//! Holding the left-rotate key contributes `+1`, the right-rotate key
//! `-1`; every active touch contributes `+1` from the left half of the
//! window and `-1` from the right half. The contributions are purely
//! additive, and the target speed is the factor times a fixed gain of
//! 9 units per second.

use vstd::prelude::*;

verus! {

/// Fixed gain: a unit directional factor asks for 9 units per second of
/// angular speed.
pub const ROTATE_GAIN: i64 = 9;

/// The keyboard part of the directional factor: `+1` for the left-rotate
/// key, `-1` for the right-rotate key, additive, so both held cancel to 0.
pub open spec fn key_factor_spec(left_held: bool, right_held: bool) -> int {
    (if left_held { 1int } else { 0int }) + (if right_held { -1int } else { 0int })
}

/// Keyboard contribution to the directional factor.
pub fn key_factor(left_held: bool, right_held: bool) -> (f: i64)
    ensures
        f == key_factor_spec(left_held, right_held),
{
    let mut f: i64 = 0;
    if left_held {
        f = f + 1;
    }
    if right_held {
        f = f - 1;
    }
    f
}

/// What one touch contributes: `+1` if its x-coordinate lies in the left
/// half of the window (strictly left of half the width), else `-1`; the
/// midline itself counts as the right half.
pub open spec fn touch_contrib_spec(x: int, width: int) -> int {
    if 2 * x < width {
        1int
    } else {
        -1int
    }
}

/// One touch's contribution, from its screen-space x-coordinate in pixels
/// and the window width in pixels.
pub fn touch_contrib(x: u32, width: u32) -> (c: i64)
    ensures
        c == touch_contrib_spec(x as int, width as int),
{
    if 2 * (x as u64) < (width as u64) {
        1
    } else {
        -1
    }
}

/// The summed contribution of a set of touches, one term per touch, with
/// no deduplication.
pub open spec fn touch_sum(xs: Seq<u32>, width: int) -> int
    decreases xs.len(),
{
    if xs.len() == 0 {
        0int
    } else {
        touch_sum(xs.drop_last(), width) + touch_contrib_spec(xs.last() as int, width)
    }
}

/// The touch sum never exceeds the number of touches in magnitude.
pub proof fn lemma_touch_sum_bound(xs: Seq<u32>, width: int)
    ensures
        -xs.len() <= touch_sum(xs, width) <= xs.len(),
    decreases xs.len(),
{
    if xs.len() > 0 {
        lemma_touch_sum_bound(xs.drop_last(), width);
    }
}

/// The touch part of the directional factor: every active touch adds
/// `+1` or `-1` by which half of the window it is in.
pub fn touch_factor(touch_xs: &Vec<u32>, width: u32) -> (f: i64)
    requires
        touch_xs@.len() <= i64::MAX,
    ensures
        f == touch_sum(touch_xs@, width as int),
        -touch_xs@.len() <= f <= touch_xs@.len(),
{
    let mut f: i64 = 0;
    let mut i: usize = 0;
    while i < touch_xs.len()
        invariant
            0 <= i <= touch_xs@.len() <= i64::MAX,
            f == touch_sum(touch_xs@.take(i as int), width as int),
            -(i as int) <= f <= i as int,
        decreases touch_xs@.len() - i,
    {
        let c: i64 = touch_contrib(touch_xs[i], width);
        proof {
            assert(touch_xs@.take(i + 1).drop_last() =~= touch_xs@.take(i as int));
            assert(touch_xs@.take(i + 1).last() == touch_xs@[i as int]);
        }
        f = f + c;
        i = i + 1;
    }
    proof {
        assert(touch_xs@.take(touch_xs@.len() as int) =~= touch_xs@);
    }
    f
}

/// The raw directional factor for one frame: the keyboard part plus every
/// touch's part.
pub open spec fn rotation_factor_spec(
    left_held: bool,
    right_held: bool,
    touch_xs: Seq<u32>,
    width: int,
) -> int {
    key_factor_spec(left_held, right_held) + touch_sum(touch_xs, width)
}

/// The raw directional factor for one frame.
pub fn rotation_factor(
    left_held: bool,
    right_held: bool,
    touch_xs: &Vec<u32>,
    width: u32,
) -> (f: i64)
    requires
        touch_xs@.len() + 1 <= i64::MAX,
    ensures
        f == rotation_factor_spec(left_held, right_held, touch_xs@, width as int),
        -(touch_xs@.len() + 1) <= f <= touch_xs@.len() + 1,
{
    proof {
        lemma_touch_sum_bound(touch_xs@, width as int);
    }
    let k: i64 = key_factor(left_held, right_held);
    let t: i64 = touch_factor(touch_xs, width);
    k + t
}

/// The target angular speed a directional factor selects: the factor
/// times the fixed gain.
pub open spec fn target_speed_spec(factor: int) -> int {
    factor * (ROTATE_GAIN as int)
}

/// Holding only the left-rotate key, with no touches, selects the target
/// speed +9 and only the right-rotate key -9; holding both keys at once
/// cancels, leaving whatever the touches contribute.
pub proof fn lemma_key_targets(width: int)
    ensures
        target_speed_spec(rotation_factor_spec(true, false, Seq::<u32>::empty(), width)) == 9,
        target_speed_spec(rotation_factor_spec(false, true, Seq::<u32>::empty(), width)) == -9,
        forall|xs: Seq<u32>|
            rotation_factor_spec(true, true, xs, width) == touch_sum(xs, width),
{
}

/// The target angular speed for a directional factor, in units per second.
pub fn target_speed(factor: i64) -> (t: i64)
    requires
        -0x0ccc_cccc_cccc_cccc <= factor <= 0x0ccc_cccc_cccc_cccc,
    ensures
        t == target_speed_spec(factor as int),
{
    factor * ROTATE_GAIN
}

} // verus!
