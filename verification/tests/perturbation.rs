use bruteforcer::bruteforcer::{perturb_frame, perturb_inputs_simple, should_perturb, InputFrame};
use bruteforcer::ieee::Single;

fn s(x: f32) -> Single {
    Single::from_bits(x.to_bits())
}

fn frame(stick_x: i8, stick_y: i8, buttons: u16) -> InputFrame {
    InputFrame { stick_x, stick_y, buttons }
}

fn trajectory() -> Vec<InputFrame> {
    (0..20).map(|i| frame(i as i8 * 5 - 50, 40 - i as i8 * 3, 0x8000 | i as u16)).collect()
}

#[test]
fn sticks_saturate_at_both_ends() {
    assert_eq!(perturb_frame(frame(127, -128, 9), 5, -5), frame(127, -128, 9));
    assert_eq!(perturb_frame(frame(127, -128, 9), 1, -1), frame(127, -128, 9));
    assert_eq!(perturb_frame(frame(120, -120, 9), 100, -100), frame(127, -128, 9));
    assert_eq!(perturb_frame(frame(-128, 127, 9), -255, 254), frame(-128, 127, 9));
    assert_eq!(perturb_frame(frame(-128, 127, 9), 255, -255), frame(127, -128, 9));
    assert_eq!(perturb_frame(frame(0, 0, 9), i16::MAX, i16::MIN), frame(127, -128, 9));
}

#[test]
fn sticks_inside_the_range_move_by_the_delta() {
    assert_eq!(perturb_frame(frame(10, -10, 0xffff), 3, -4), frame(13, -14, 0xffff));
    assert_eq!(perturb_frame(frame(10, -10, 0), 0, 0), frame(10, -10, 0));
    assert_eq!(perturb_frame(frame(126, -127, 0), 1, -1), frame(127, -128, 0));
    assert_eq!(perturb_frame(frame(-1, 1, 0), 1, -1), frame(0, 0, 0));
}

#[test]
fn saturating_matches_the_standard_operation() {
    for stick in i8::MIN..=i8::MAX {
        for delta in i8::MIN..=i8::MAX {
            let r = perturb_frame(frame(stick, stick, 1), delta as i16, delta as i16);
            assert_eq!(r.stick_x, stick.saturating_add(delta));
            assert_eq!(r.stick_y, stick.saturating_add(delta));
            assert_eq!(r.buttons, 1);
        }
    }
}

#[test]
fn a_sample_above_the_frequency_spares_the_frame() {
    assert!(!should_perturb(s(0.5), s(0.1)));
    assert!(should_perturb(s(0.1), s(0.1)));
    assert!(should_perturb(s(0.05), s(0.1)));
    assert!(should_perturb(s(0.0), s(0.1)));
    assert!(should_perturb(s(0.999), s(1.0)));
}

#[test]
fn a_frequency_of_zero_spares_every_frame() {
    assert!(!should_perturb(s(0.0), s(0.0)));
    assert!(!should_perturb(s(0.0), s(-0.0)));
    assert!(!should_perturb(s(0.3), s(0.0)));
}

#[test]
fn frequency_zero_is_the_identity() {
    let mut inputs = trajectory();
    let samples = vec![s(0.0); 20];
    perturb_inputs_simple(&mut inputs, 0, 20, 100, s(0.0), &samples);
    assert_eq!(inputs, trajectory());
}

#[test]
fn magnitude_zero_is_the_identity() {
    let mut inputs = trajectory();
    let samples = vec![s(0.0); 20];
    perturb_inputs_simple(&mut inputs, 0, 20, 0, s(1.0), &samples);
    assert_eq!(inputs, trajectory());
    perturb_inputs_simple(&mut inputs, 3, 9, 0, s(0.5), &samples);
    assert_eq!(inputs, trajectory());
}

#[test]
fn nothing_is_sampled_where_nothing_can_change() {
    let none: Vec<Single> = Vec::new();
    let mut inputs = trajectory();
    perturb_inputs_simple(&mut inputs, 0, 20, 0, s(1.0), &none);
    assert_eq!(inputs, trajectory());
    perturb_inputs_simple(&mut inputs, 0, 20, 255, s(-0.0), &none);
    assert_eq!(inputs, trajectory());
}

#[test]
fn an_empty_window_is_the_identity() {
    let mut inputs = trajectory();
    let samples: Vec<Single> = Vec::new();
    perturb_inputs_simple(&mut inputs, 7, 7, 50, s(1.0), &samples);
    assert_eq!(inputs, trajectory());
    perturb_inputs_simple(&mut inputs, 9, 3, 50, s(1.0), &samples);
    assert_eq!(inputs, trajectory());
}

#[test]
fn frames_outside_the_window_and_buttons_are_kept() {
    let before = trajectory();
    for _ in 0..50 {
        let mut inputs = trajectory();
        let samples = vec![s(0.25); 6];
        perturb_inputs_simple(&mut inputs, 5, 11, 200, s(1.0), &samples);
        assert_eq!(inputs.len(), before.len());
        assert_eq!(inputs[..5], before[..5]);
        assert_eq!(inputs[11..], before[11..]);
        for i in 5..11 {
            assert_eq!(inputs[i].buttons, before[i].buttons);
        }
    }
}

#[test]
fn deltas_stay_below_the_magnitude() {
    let mut seen_minus_one = false;
    let mut seen_zero = false;
    for _ in 0..200 {
        let mut inputs = vec![frame(0, 0, 0); 4];
        let samples = vec![s(0.5); 4];
        perturb_inputs_simple(&mut inputs, 0, 4, 1, s(1.0), &samples);
        for f in &inputs {
            assert!(f.stick_x == -1 || f.stick_x == 0, "stick_x {}", f.stick_x);
            assert!(f.stick_y == -1 || f.stick_y == 0, "stick_y {}", f.stick_y);
            seen_minus_one |= f.stick_x == -1 || f.stick_y == -1;
            seen_zero |= f.stick_x == 0 || f.stick_y == 0;
        }
    }
    assert!(seen_minus_one && seen_zero);
}

#[test]
fn deltas_respect_a_large_magnitude() {
    for _ in 0..200 {
        let mut inputs = vec![frame(0, 0, 0), frame(100, -100, 0)];
        let samples = vec![s(0.0); 2];
        perturb_inputs_simple(&mut inputs, 0, 2, 20, s(0.5), &samples);
        assert!((-20..20).contains(&inputs[0].stick_x));
        assert!((-20..20).contains(&inputs[0].stick_y));
        assert!((80..120).contains(&inputs[1].stick_x));
        assert!((-120..-80).contains(&inputs[1].stick_y));
    }
    let mut inputs = vec![frame(127, -128, 0)];
    perturb_inputs_simple(&mut inputs, 0, 1, 255, s(1.0), &vec![s(0.5)]);
    assert!(inputs[0].buttons == 0);
}

#[test]
fn only_frames_whose_sample_is_low_enough_change() {
    for _ in 0..50 {
        let mut inputs = vec![frame(0, 0, 1); 6];
        let samples = vec![s(0.9), s(0.05), s(0.9), s(0.05), s(0.11), s(0.1)];
        perturb_inputs_simple(&mut inputs, 0, 6, 1, s(0.1), &samples);
        assert_eq!(inputs[0], frame(0, 0, 1));
        assert_eq!(inputs[2], frame(0, 0, 1));
        assert_eq!(inputs[4], frame(0, 0, 1));
    }
}

#[test]
fn samples_are_counted_from_the_start_of_the_window() {
    for _ in 0..50 {
        let mut inputs = vec![frame(0, 0, 1); 6];
        let samples = vec![s(0.9), s(0.9), s(0.0)];
        perturb_inputs_simple(&mut inputs, 3, 6, 1, s(0.5), &samples);
        assert_eq!(inputs[3], frame(0, 0, 1));
        assert_eq!(inputs[4], frame(0, 0, 1));
    }
}
