use std::collections::VecDeque;

use ant_sim::ant::Ant;
use ant_sim::angle::{heading, norm_angle};
use ant_sim::fixed::{isqrt, pow_scaled};
use ant_sim::nest::NestNetwork;
use ant_sim::route::{compute_scores, pick_weighted, recency_score, route_ant, total_score};
use ant_sim::{DecisionWeights, PheromoneParams, FACTOR_MAX, SCALE};

fn default_weights() -> DecisionWeights {
    DecisionWeights::default()
}

fn default_params() -> PheromoneParams {
    PheromoneParams::default()
}

#[test]
fn isqrt_exact_values() {
    assert_eq!(isqrt(0), 0);
    assert_eq!(isqrt(1), 1);
    assert_eq!(isqrt(15), 3);
    assert_eq!(isqrt(16), 4);
    assert_eq!(isqrt(1_000_000), 1000);
    assert_eq!(isqrt(u64::MAX), 4_294_967_295);
}

#[test]
fn pow_scaled_exact_values() {
    // 1.0^k == 1.0
    assert_eq!(pow_scaled(SCALE, 7), SCALE);
    // 0.5^2 == 0.25
    assert_eq!(pow_scaled(SCALE / 2, 2), SCALE / 4);
    // anything^0 == 1.0
    assert_eq!(pow_scaled(123, 0), SCALE);
    // saturation at the largest factor
    assert_eq!(pow_scaled(FACTOR_MAX, 3), FACTOR_MAX);
}

#[test]
fn norm_angle_and_heading_axes() {
    assert_eq!(norm_angle(360_000), 0);
    assert_eq!(norm_angle(400_123), 40_123);
    assert_eq!(heading(5, 0), 0);
    assert_eq!(heading(0, 5), 90_000);
    assert_eq!(heading(-5, 0), 180_000);
    assert_eq!(heading(0, -5), 270_000);
    assert_eq!(heading(3, 3), 45_000);
    assert_eq!(heading(0, 0), 0);
}

#[test]
fn recency_score_weights_recent_visits_more() {
    let mut prev: VecDeque<usize> = VecDeque::new();
    prev.push_front(2);
    prev.push_front(1);
    prev.push_front(2);
    // colour 2 occurs at ranks 0 and 2: SCALE + SCALE/3, above the floor
    assert_eq!(recency_score(&prev, 2), SCALE + SCALE / 3);
    // colour 1 occurs at rank 1: SCALE/2, floored at SCALE
    assert_eq!(recency_score(&prev, 1), SCALE);
    // an unvisited colour floors at SCALE
    assert_eq!(recency_score(&prev, 0), SCALE);
}

#[test]
fn pick_weighted_follows_cumulative_brackets() {
    let scores: Vec<u64> = vec![0, 5, 3];
    for r in 0..5 {
        assert_eq!(pick_weighted(&scores, r), 1);
    }
    for r in 5..8 {
        assert_eq!(pick_weighted(&scores, r), 2);
    }
}

#[test]
fn current_nest_scores_zero() {
    let locs: Vec<(i64, i64)> = vec![(0, 0), (100, 0), (0, 100)];
    let net = NestNetwork::new(&locs);
    let mut prev: VecDeque<usize> = VecDeque::new();
    prev.push_front(0);
    let w = default_weights();
    let scores = compute_scores(0, 0, &net, 1, &prev, &w, 0);
    assert_eq!(scores.len(), 3);
    assert_eq!(scores[0], 0);
    assert!(scores[1] > 0);
    assert!(scores[2] > 0);
    let total = total_score(&scores);
    assert_eq!(total, scores[1] + scores[2]);
}

#[test]
fn route_ant_picks_a_valid_other_nest() {
    let locs: Vec<(i64, i64)> = vec![(0, 0), (100, 0), (0, 100)];
    let mut net = NestNetwork::new(&locs);
    let w = default_weights();
    let p = default_params();
    let mut ant = Ant::new(1, 0, 3);
    let chosen = route_ant(&mut ant, &mut net, 0, 0, &w, &p).expect("positive scores");
    assert!(chosen < 3);
    assert_ne!(chosen, 0);
    assert_eq!(ant.current_nest, None);
    assert_eq!(ant.steps, 1);
    assert_eq!(ant.orientation, ant.target_orientation);
    // the departed nest recorded traffic for the ant's parent resource
    assert_eq!(net.nests[0].color_weights[0], p.nest_step);
    assert_eq!(net.nests[1].color_weights[0], 0);
    assert_eq!(net.nests[2].color_weights[0], 0);
}

#[test]
fn route_ant_survives_zero_distance() {
    // the ant sits exactly on another nest's location: the degenerate
    // reciprocal distance clamps instead of poisoning the distribution,
    // and the sampled nest is always a valid id other than the current one
    let locs: Vec<(i64, i64)> = vec![(0, 0), (0, 0), (50, 50)];
    let mut net = NestNetwork::new(&locs);
    let w = default_weights();
    let p = default_params();
    for _ in 0..20 {
        let mut ant = Ant::new(2, 0, 3);
        let chosen = route_ant(&mut ant, &mut net, 0, 0, &w, &p).expect("positive scores");
        assert!(chosen == 1 || chosen == 2);
    }
}

#[test]
fn route_ant_skips_the_tick_when_all_scores_vanish() {
    // the only other nest is so distant that its reciprocal-distance
    // factor truncates to zero: the whole distribution is zero, the
    // routing is skipped for this tick, and nothing is mutated
    let locs: Vec<(i64, i64)> = vec![(0, 0), (2_000_000, 0)];
    let mut net = NestNetwork::new(&locs);
    let w = default_weights();
    let p = default_params();
    let mut ant = Ant::new(1, 0, 2);
    let steps_before = ant.steps;
    assert!(route_ant(&mut ant, &mut net, 0, 0, &w, &p).is_none());
    assert_eq!(ant.current_nest, Some(0));
    assert_eq!(ant.steps, steps_before);
    assert_eq!(net.nests[0].color_weights[0], 0);
}

#[test]
fn route_ant_turns_toward_the_chosen_nest() {
    // with only one other nest the choice is forced, so the heading is too
    let locs: Vec<(i64, i64)> = vec![(0, 0), (100, 0)];
    let mut net = NestNetwork::new(&locs);
    let w = default_weights();
    let p = default_params();
    let mut ant = Ant::new(1, 0, 2);
    let chosen = route_ant(&mut ant, &mut net, 0, 0, &w, &p).expect("positive scores");
    assert_eq!(chosen, 1);
    // nest 1 lies due east of the ant
    assert_eq!(ant.orientation, 0);
}
