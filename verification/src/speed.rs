//! The smoothed angular-speed accumulator.
//!
//! Each frame the controller closes one fifth of the gap between the
//! current speed and the target speed: `v' = v + (t - v) / 5`, i.e.
//! `v' = (4 v + t) / 5`. The accumulator keeps that value exactly, as a
//! rational `num / den` whose denominator gains a factor of five per
//! step, so the smoothing law and its closed form can be stated and
//! proved without rounding.

use vstd::prelude::*;

verus! {

/// Whether an integer lies in the range of `i128`.
pub open spec fn fits_i128(x: int) -> bool {
    i128::MIN <= x <= i128::MAX
}

/// The numerator after one smoothing step: the exact rational update
/// `v' = (4 v + t) / 5` on `v = num / den` with integer target `t`.
pub open spec fn smoothed_num(num: int, den: int, target: int) -> int {
    4 * num + target * den
}

/// The denominator after one smoothing step.
pub open spec fn smoothed_den(den: int) -> int {
    5 * den
}

/// The smoothed angular speed carried across frames, as the exact
/// rational `num / den` units per second.
#[derive(Clone, Copy, Debug, PartialEq, Eq, Structural)]
pub struct Speed {
    pub num: i128,
    pub den: u128,
}

impl Speed {
    /// A speed value is well formed when its denominator is positive.
    pub open spec fn wf(self) -> bool {
        1 <= self.den
    }

    /// The accumulator starts at zero.
    pub fn zero() -> (s: Speed)
        ensures
            s.num == 0,
            s.den == 1,
            s.wf(),
    {
        Speed { num: 0, den: 1 }
    }

    /// One frame of exponential smoothing toward `target`: afterwards the
    /// value is exactly `(4 * old + target) / 5`.
    pub fn smooth_step(&mut self, target: i64)
        requires
            old(self).wf(),
            fits_i128(4 * old(self).num),
            fits_i128(target * old(self).den),
            fits_i128(smoothed_num(old(self).num as int, old(self).den as int, target as int)),
            smoothed_den(old(self).den as int) <= u128::MAX,
        ensures
            final(self).num == smoothed_num(
                old(self).num as int,
                old(self).den as int,
                target as int,
            ),
            final(self).den == smoothed_den(old(self).den as int),
            final(self).wf(),
    {
        proof {
            assert(old(self).den <= i128::MAX as u128);
        }
        let four_num: i128 = 4 * self.num;
        let target_den: i128 = (target as i128) * (self.den as i128);
        self.num = four_num + target_den;
        self.den = 5 * self.den;
    }
}

/// Base `b` raised to the power `n`.
pub open spec fn powi(b: int, n: nat) -> int
    decreases n,
{
    if n == 0 {
        1int
    } else {
        b * powi(b, (n - 1) as nat)
    }
}

/// The numerator after `n` smoothing steps from `num / den` at constant
/// target `t`.
pub open spec fn iter_num(num: int, den: int, t: int, n: nat) -> int
    decreases n,
{
    if n == 0 {
        num
    } else {
        smoothed_num(iter_num(num, den, t, (n - 1) as nat), iter_den(den, (n - 1) as nat), t)
    }
}

/// The denominator after `n` smoothing steps from denominator `den`.
pub open spec fn iter_den(den: int, n: nat) -> int
    decreases n,
{
    if n == 0 {
        den
    } else {
        smoothed_den(iter_den(den, (n - 1) as nat))
    }
}

/// A power of a positive base is positive.
pub proof fn lemma_powi_pos(b: int, n: nat)
    requires
        b >= 1,
    ensures
        powi(b, n) >= 1,
    decreases n,
{
    if n > 0 {
        lemma_powi_pos(b, (n - 1) as nat);
        assert(b * powi(b, (n - 1) as nat) >= 1 * powi(b, (n - 1) as nat)) by (nonlinear_arith)
            requires
                b >= 1,
                powi(b, (n - 1) as nat) >= 1,
        ;
    }
}

/// From the first step on, four to the `n` stays strictly below five to
/// the `n`.
pub proof fn lemma_powi4_lt_powi5(n: nat)
    requires
        n >= 1,
    ensures
        powi(4, n) < powi(5, n),
    decreases n,
{
    if n == 1 {
        assert(powi(4, 1) == 4 * powi(4, 0));
        assert(powi(5, 1) == 5 * powi(5, 0));
    } else {
        lemma_powi4_lt_powi5((n - 1) as nat);
        lemma_powi_pos(5, (n - 1) as nat);
        assert(4 * powi(4, (n - 1) as nat) < 4 * powi(5, (n - 1) as nat));
        assert(4 * powi(5, (n - 1) as nat) < 5 * powi(5, (n - 1) as nat));
    }
}

/// The denominator after `n` steps is the starting denominator times five
/// to the `n`.
pub proof fn lemma_iter_den(den: int, n: nat)
    ensures
        iter_den(den, n) == den * powi(5, n),
    decreases n,
{
    if n == 0 {
        assert(den * 1 == den) by (nonlinear_arith);
    } else {
        lemma_iter_den(den, (n - 1) as nat);
        assert(5 * (den * powi(5, (n - 1) as nat)) == den * (5 * powi(5, (n - 1) as nat)))
            by (nonlinear_arith);
    }
}

/// Smoothing convergence, closed form: starting from zero, after `n`
/// frames at constant target `t` the accumulator holds exactly
/// `t * (5^n - 4^n) / 5^n`, that is `t * (1 - (1 - 1/5)^n)`.
pub proof fn lemma_smoothing_closed_form(t: int, n: nat)
    ensures
        iter_num(0, 1, t, n) == t * (powi(5, n) - powi(4, n)),
        iter_den(1, n) == powi(5, n),
    decreases n,
{
    lemma_iter_den(1, n);
    assert(1 * powi(5, n) == powi(5, n)) by (nonlinear_arith);
    if n == 0 {
        assert(t * (powi(5, 0) - powi(4, 0)) == 0) by (nonlinear_arith);
    } else {
        let m = (n - 1) as nat;
        lemma_smoothing_closed_form(t, m);
        let p5: int = powi(5, m);
        let p4: int = powi(4, m);
        assert(iter_num(0, 1, t, n) == 4 * (t * (p5 - p4)) + t * (1 * p5));
        assert(4 * (t * (p5 - p4)) + t * (1 * p5) == t * (5 * p5 - 4 * p4)) by (nonlinear_arith);
        assert(powi(5, n) == 5 * p5);
        assert(powi(4, n) == 4 * p4);
    }
}

/// Symmetric cancellation: with both rotate keys held the target factor
/// is zero, and smoothing toward a zero target decays the accumulator
/// geometrically toward zero from any starting value: after `n` frames it
/// holds exactly `(num / den) * (4/5)^n`, never instantaneously zero.
pub proof fn lemma_decay_toward_zero(num: int, den: int, n: nat)
    ensures
        iter_num(num, den, 0, n) == num * powi(4, n),
        iter_den(den, n) == den * powi(5, n),
        num > 0 ==> iter_num(num, den, 0, n) > 0,
        num < 0 ==> iter_num(num, den, 0, n) < 0,
    decreases n,
{
    lemma_iter_den(den, n);
    lemma_powi_pos(4, n);
    if n == 0 {
        assert(num * 1 == num) by (nonlinear_arith);
    } else {
        let m = (n - 1) as nat;
        lemma_decay_toward_zero(num, den, m);
        let p4: int = powi(4, m);
        assert(iter_num(num, den, 0, n) == 4 * (num * p4) + 0 * iter_den(den, m));
        assert(0 * iter_den(den, m) == 0) by (nonlinear_arith);
        assert(4 * (num * p4) == num * (4 * p4)) by (nonlinear_arith);
        assert(powi(4, n) == 4 * p4);
    }
    assert(num > 0 && powi(4, n) >= 1 ==> num * powi(4, n) > 0) by (nonlinear_arith);
    assert(num < 0 && powi(4, n) >= 1 ==> num * powi(4, n) < 0) by (nonlinear_arith);
}

/// Rotation direction: at the constant target `+9` of the left-rotate
/// key, a zero-started accumulator is strictly positive from the first
/// frame on and approaches 9 units per second from below, the remaining
/// gap after `n` frames being exactly `9 * (4/5)^n` of a unit.
pub proof fn lemma_left_key_approaches_gain(n: nat)
    ensures
        iter_den(1, n) == powi(5, n),
        iter_num(0, 1, 9, n) == 9 * (powi(5, n) - powi(4, n)),
        n >= 1 ==> iter_num(0, 1, 9, n) > 0,
        iter_num(0, 1, 9, n) < 9 * powi(5, n),
        9 * powi(5, n) - iter_num(0, 1, 9, n) == 9 * powi(4, n),
{
    lemma_smoothing_closed_form(9, n);
    lemma_powi_pos(4, n);
    if n >= 1 {
        lemma_powi4_lt_powi5(n);
    }
}

} // verus!
