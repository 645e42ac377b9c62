use cube_spin::input::{key_factor, rotation_factor, target_speed, touch_contrib, touch_factor};
use cube_spin::speed::Speed;

#[test]
fn left_key_is_plus_one() {
    assert_eq!(key_factor(true, false), 1);
}

#[test]
fn right_key_is_minus_one() {
    assert_eq!(key_factor(false, true), -1);
}

#[test]
fn both_keys_cancel() {
    assert_eq!(key_factor(true, true), 0);
    assert_eq!(key_factor(false, false), 0);
}

#[test]
fn touch_at_left_edge_is_plus_one() {
    assert_eq!(touch_contrib(0, 800), 1);
}

#[test]
fn touch_at_right_edge_is_minus_one() {
    assert_eq!(touch_contrib(800, 800), -1);
}

#[test]
fn touch_on_the_midline_counts_as_right_half() {
    // The comparison is strict, so exactly half the width is the right half.
    assert_eq!(touch_contrib(400, 800), -1);
    assert_eq!(touch_contrib(399, 800), 1);
    // Odd width: 400 is still strictly left of 400.5.
    assert_eq!(touch_contrib(400, 801), 1);
}

#[test]
fn touches_accumulate_without_deduplication() {
    assert_eq!(touch_factor(&vec![0, 10, 700], 800), 1);
    assert_eq!(touch_factor(&vec![100, 100], 800), 2);
    assert_eq!(touch_factor(&vec![500, 600, 700], 800), -3);
    assert_eq!(touch_factor(&vec![], 800), 0);
}

#[test]
fn keys_and_touches_add_up() {
    assert_eq!(rotation_factor(true, false, &vec![0, 0], 800), 3);
    assert_eq!(rotation_factor(false, true, &vec![799], 800), -2);
    assert_eq!(rotation_factor(true, true, &vec![0, 799], 800), 0);
}

#[test]
fn target_speed_applies_the_gain() {
    assert_eq!(target_speed(0), 0);
    assert_eq!(target_speed(1), 9);
    assert_eq!(target_speed(-1), -9);
    assert_eq!(target_speed(3), 27);
}

#[test]
fn smoothing_closes_a_fifth_of_the_gap() {
    // From 0 toward 9: one step gives 9/5 = 1.8, two give 81/25 = 3.24,
    // matching acc += (target - acc) * 0.2.
    let mut s = Speed::zero();
    s.smooth_step(9);
    assert_eq!((s.num, s.den), (9, 5));
    s.smooth_step(9);
    assert_eq!((s.num, s.den), (81, 25));
    assert!((s.num as f64 / s.den as f64 - 3.24).abs() < 1e-12);
}

#[test]
fn smoothing_matches_the_closed_form_for_fifty_frames() {
    // Constant target T from a zero start: after n frames the value is
    // T * (1 - (1 - 0.2)^n), i.e. exactly T * (5^n - 4^n) / 5^n.
    for target in [9i128, 7, -9, 1] {
        let mut s = Speed::zero();
        let mut pow5: u128 = 1;
        let mut pow4: i128 = 1;
        for n in 1..=50u32 {
            s.smooth_step(target as i64);
            pow5 *= 5;
            pow4 *= 4;
            assert_eq!(s.den, pow5, "denominator at frame {n}");
            assert_eq!(s.num, target * (pow5 as i128 - pow4), "numerator at frame {n}");
            let exact = s.num as f64 / s.den as f64;
            let float_form = target as f64 * (1.0 - 0.8f64.powi(n as i32));
            assert!((exact - float_form).abs() < 1e-6);
        }
    }
}

#[test]
fn left_key_speed_approaches_the_gain_from_below() {
    // At constant target +9 the value is positive, strictly increasing,
    // and stays below 9: num/den < 9 and each frame exceeds the last.
    let mut s = Speed::zero();
    for _ in 0..20u32 {
        let before = s;
        s.smooth_step(9);
        assert!(s.num > 0);
        assert!(s.num < 9 * s.den as i128);
        // Cross-multiplied: num/den > before.num/before.den.
        assert!(s.num * (before.den as i128) > before.num * (s.den as i128));
    }
    // After 20 frames the remaining gap is 9 * 0.8^20, about 0.104.
    let value = (s.num as f64) / (s.den as f64);
    assert!(value < 9.0);
    assert!(9.0 - value < 0.11);
}

#[test]
fn cancelled_target_decays_toward_zero() {
    // Reach some positive speed, then hold both keys: target 0 scales the
    // value by 4/5 each frame, toward 0 but never exactly 0.
    let mut s = Speed::zero();
    for _ in 0..5u32 {
        s.smooth_step(9);
    }
    for _ in 0..15u32 {
        let before = s;
        s.smooth_step(target_speed(key_factor(true, true)));
        assert_eq!(s.num, 4 * before.num);
        assert_eq!(s.den, 5 * before.den);
        assert!(s.num > 0);
        assert!(s.num * (before.den as i128) < before.num * (s.den as i128));
    }
    // Fifteen cancelled frames scale the speed by 0.8^15, about 0.035.
    assert!((s.num as f64) / (s.den as f64) < 0.25);
}
