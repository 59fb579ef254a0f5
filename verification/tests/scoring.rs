use bruteforcer::bounds::{Bounds, CommonMarioData, IsInBounds};
use bruteforcer::bruteforce_params::{BruteforceConfig, Target, Weights};
use bruteforcer::bruteforcer::{angle_distances, calculate_score_bound_correction, scoring_weights};
use bruteforcer::ieee::{Double, Single};

fn s(x: f32) -> Single {
    Single::from_bits(x.to_bits())
}

fn d(x: f64) -> Double {
    Double::from_bits(x.to_bits())
}

fn d3(x: [f64; 3]) -> [Double; 3] {
    [d(x[0]), d(x[1]), d(x[2])]
}

fn weights(pos: [f64; 3], face: [f64; 3], vel: [f64; 3], hspd: f64) -> Weights {
    Weights::new(d3(pos), d3(face), d3(vel), d(hspd))
}

/// Each weight as a violation leaves it: one more than the weight, times the multiplier.
fn inflate(w: &Weights, multiplier: f64) -> Weights {
    let up = |x: Double| d((f64::from_bits(x.to_bits()) + 1.0) * multiplier);
    Weights::new(
        [up(w.pos_weights[0]), up(w.pos_weights[1]), up(w.pos_weights[2])],
        [up(w.face_angle_weights[0]), up(w.face_angle_weights[1]), up(w.face_angle_weights[2])],
        [up(w.angle_vel_weights[0]), up(w.angle_vel_weights[1]), up(w.angle_vel_weights[2])],
        up(w.hspd_weight),
    )
}

/// The weighted distance to the target, summed over the ten features.
fn weighted_distance(data: &CommonMarioData, w: &Weights, target: &Target) -> f64 {
    let f = |x: Single| f32::from_bits(x.to_bits());
    let g = |x: Double| f64::from_bits(x.to_bits());
    let angles = angle_distances(data, target);
    let mut result = 0.0;
    for i in 0..3 {
        result += (f(target.pos[i]) - f(data.pos[i])).abs() as f64 * g(w.pos_weights[i]);
        result += angles.angle_vel[i] as f64 * g(w.angle_vel_weights[i]);
        result += angles.face_angle[i] as f64 * g(w.face_angle_weights[i]);
    }
    result + (f(target.hspd) - f(data.forward_vel)).abs() as f64 * g(w.hspd_weight)
}

fn bounds() -> Bounds {
    let open = (s(f32::NEG_INFINITY), s(f32::INFINITY));
    Bounds::new(
        [open, open, open],
        [(-32768, 32767), (0, 65535), (-32768, 32767)],
        [(-32768, 32767), (-32768, 32767), (-32768, 32767)],
        (s(34.0), s(1000.0)),
    )
}

fn target() -> Target {
    Target::new([s(100.0), s(200.0), s(300.0)], [32, 32, 32], [32, 32, 32], s(48.0), 0)
}

fn on_target_but_for_x() -> CommonMarioData {
    CommonMarioData::new([s(90.0), s(200.0), s(300.0)], [32, 32, 32], [32, 32, 32], s(48.0))
}

#[test]
fn position_only_scenario_scores_one_hundred() {
    let w = weights([10.0, 10.0, 10.0], [0.0; 3], [0.0; 3], 0.0);
    let data = on_target_but_for_x();
    let in_bounds = IsInBounds::new_from_mario_data(&data, &bounds());
    assert!(in_bounds.check_if_all_true());
    for bound_correction in [false, true] {
        let chosen = scoring_weights(bound_correction, &w, &inflate(&w, 10000.0), &in_bounds);
        assert_eq!(chosen, Some(w));
        let distance = weighted_distance(&data, &chosen.unwrap(), &target());
        let score = calculate_score_bound_correction(bound_correction, &in_bounds, d(distance));
        assert_eq!(f64::from_bits(score.to_bits()), 100.0);
    }
}

#[test]
fn same_inputs_give_the_same_score() {
    let w = weights([10.0, 10.0, 10.0], [0.0, 10.0, 0.0], [0.0; 3], 10.0);
    let data = CommonMarioData::new([s(1.5), s(-7.25), s(3.0)], [1, -2, 3], [4, 5, 6], s(20.0));
    let in_bounds = IsInBounds::new_from_mario_data(&data, &bounds());
    let once = scoring_weights(true, &w, &inflate(&w, 10000.0), &in_bounds).unwrap();
    let again = scoring_weights(true, &w, &inflate(&w, 10000.0), &in_bounds).unwrap();
    assert_eq!(once, again);
    let a = calculate_score_bound_correction(
        true,
        &in_bounds,
        d(weighted_distance(&data, &once, &target())),
    );
    let b = calculate_score_bound_correction(
        true,
        &in_bounds,
        d(weighted_distance(&data, &again, &target())),
    );
    assert_eq!(a, b);
}

#[test]
fn hard_mode_rejects_any_violation() {
    let mut data = on_target_but_for_x();
    data.forward_vel = s(10.0);
    let in_bounds = IsInBounds::new_from_mario_data(&data, &bounds());
    assert!(!in_bounds.check_if_all_true());
    let w = weights([10.0; 3], [0.0; 3], [0.0; 3], 10.0);
    assert_eq!(scoring_weights(false, &w, &inflate(&w, 10000.0), &in_bounds), None);
    let score = calculate_score_bound_correction(false, &in_bounds, d(100.0));
    assert_eq!(f64::from_bits(score.to_bits()), f64::INFINITY);
    let score = calculate_score_bound_correction(false, &in_bounds, d(0.0));
    assert_eq!(score, Double::infinity());
}

#[test]
fn hard_mode_scores_what_is_in_bounds() {
    let data = on_target_but_for_x();
    let in_bounds = IsInBounds::new_from_mario_data(&data, &bounds());
    let score = calculate_score_bound_correction(false, &in_bounds, d(12.5));
    assert_eq!(f64::from_bits(score.to_bits()), 12.5);
}

#[test]
fn soft_mode_inflates_the_violated_feature_only() {
    let mut data = on_target_but_for_x();
    data.forward_vel = s(10.0);
    let in_bounds = IsInBounds::new_from_mario_data(&data, &bounds());
    let w = weights([10.0; 3], [0.0, 10.0, 0.0], [0.0; 3], 10.0);
    let chosen = scoring_weights(true, &w, &inflate(&w, 1000.0), &in_bounds).unwrap();
    assert_eq!(chosen.pos_weights, w.pos_weights);
    assert_eq!(chosen.face_angle_weights, w.face_angle_weights);
    assert_eq!(chosen.angle_vel_weights, w.angle_vel_weights);
    assert_eq!(f64::from_bits(chosen.hspd_weight.to_bits()), 11000.0);
    let distance = weighted_distance(&data, &chosen, &target());
    // 10 * 10 for the position, 38 * 11000 for the speed
    assert_eq!(distance, 100.0 + 38.0 * 11000.0);
    let score = calculate_score_bound_correction(true, &in_bounds, d(distance));
    assert_eq!(f64::from_bits(score.to_bits()), 418100.0);
    assert!(score.lt(Double::infinity()));
}

#[test]
fn penalising_satisfied_bounds_changes_nothing() {
    let w = weights([1.0, 2.0, 3.0], [4.0, 5.0, 6.0], [7.0, 8.0, 9.0], 10.0);
    let mut copy = w;
    copy.penalise_bounds(&IsInBounds::new(), &inflate(&w, 10000.0));
    assert_eq!(copy, w);
}

#[test]
fn penalising_touches_each_violated_feature_and_no_other() {
    let w = weights([1.0, 2.0, 3.0], [4.0, 5.0, 6.0], [7.0, 8.0, 9.0], 10.0);
    let mut flags = IsInBounds::new();
    flags.pos_limits.pos_y = false;
    flags.face_angle_limits.face_angle_z = false;
    flags.angle_vel_limits.angle_vel_x = false;
    let mut copy = w;
    copy.penalise_bounds(&flags, &inflate(&w, 100.0));
    assert_eq!(copy, weights([1.0, 300.0, 3.0], [4.0, 5.0, 700.0], [800.0, 8.0, 9.0], 10.0));

    let mut all = IsInBounds::new();
    all.pos_limits.pos_x = false;
    all.pos_limits.pos_y = false;
    all.pos_limits.pos_z = false;
    all.face_angle_limits.face_angle_x = false;
    all.face_angle_limits.face_angle_y = false;
    all.face_angle_limits.face_angle_z = false;
    all.angle_vel_limits.angle_vel_x = false;
    all.angle_vel_limits.angle_vel_y = false;
    all.angle_vel_limits.angle_vel_z = false;
    all.hspd_limits.hspd = false;
    let mut copy = w;
    copy.penalise_bounds(&all, &inflate(&w, 2.0));
    assert_eq!(copy, weights([4.0, 6.0, 8.0], [10.0, 12.0, 14.0], [16.0, 18.0, 20.0], 22.0));
    // a weight of zero is inflated, not kept at zero
    let zero = weights([0.0; 3], [0.0; 3], [0.0; 3], 0.0);
    let mut copy = zero;
    copy.penalise_bounds(&all, &inflate(&zero, 1000.0));
    assert_eq!(copy, weights([1000.0; 3], [1000.0; 3], [1000.0; 3], 1000.0));
}

#[test]
fn configured_weights_are_not_changed_by_scoring() {
    let w = weights([1.0, 2.0, 3.0], [4.0, 5.0, 6.0], [7.0, 8.0, 9.0], 10.0);
    let before = w;
    let mut flags = IsInBounds::new();
    flags.hspd_limits.hspd = false;
    let first = scoring_weights(true, &w, &inflate(&w, 10.0), &flags).unwrap();
    let second = scoring_weights(true, &w, &inflate(&w, 10.0), &flags).unwrap();
    assert_eq!(w, before);
    assert_eq!(first, second);
    assert_eq!(f64::from_bits(first.hspd_weight.to_bits()), 110.0);
}

#[test]
fn angle_distances_are_exact() {
    let data = CommonMarioData::new([s(0.0); 3], [100, -1, -100], [5, -5, 0], s(0.0));
    let t = Target::new([s(0.0); 3], [90, 32, 100], [-5, -5, 7], s(0.0), 3);
    let r = angle_distances(&data, &t);
    assert_eq!(r.face_angle, [10, 65503, 200]);
    assert_eq!(r.angle_vel, [10, 0, 7]);
}

#[test]
fn angle_distances_at_the_extremes() {
    let data = CommonMarioData::new(
        [s(0.0); 3],
        [i16::MIN, -1, i16::MAX],
        [i16::MIN, i16::MAX, 0],
        s(0.0),
    );
    let t = Target::new(
        [s(0.0); 3],
        [i32::MAX, i32::MIN, i32::MIN],
        [i16::MAX, i16::MIN, 0],
        s(0.0),
        0,
    );
    let r = angle_distances(&data, &t);
    assert_eq!(r.face_angle, [2_147_516_415, 2_147_549_183, 2_147_516_415]);
    assert_eq!(r.angle_vel, [65535, 65535, 0]);
}

#[test]
fn builders_keep_their_arguments() {
    let t = target();
    assert_eq!(t.pos, [s(100.0), s(200.0), s(300.0)]);
    assert_eq!(t.face_angle, [32, 32, 32]);
    assert_eq!(t.angle_vel, [32, 32, 32]);
    assert_eq!(t.hspd, s(48.0));
    assert_eq!(t.coins, 0);
    let c = BruteforceConfig::new(
        4801,
        4831,
        s(0.1),
        10,
        "wafel/",
        "us",
        "out.m64",
        3,
        d(10000.0),
        true,
        10000,
    );
    assert_eq!((c.start_frame, c.end_frame, c.perm_size, c.thread_num), (4801, 4831, 10, 3));
    assert_eq!(c.perm_freq, s(0.1));
    assert_eq!((c.wafel_path, c.version, c.output_name), ("wafel/", "us", "out.m64"));
    assert_eq!(c.bound_penalty, d(10000.0));
    assert!(c.bound_correction);
    assert_eq!(c.checkpoint_interval, 10000);
}
