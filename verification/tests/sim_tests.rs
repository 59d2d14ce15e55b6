use ant_sim::ant::Ant;
use ant_sim::food::Food;
use ant_sim::sim::{
    arrive, choose_target_color, food_request, handle_boundary, scaled_rate, within_capture,
    Bounds,
};
use ant_sim::{
    DecisionWeights, PheromoneParams, DISTANCE_POW, NEST_PHEROMONE_FADE_SPEED,
    NEST_PHEROMONE_STEP, PHEROMONE_POW, TRAIL_PHEROMONE_FADE_RATE, TRAIL_PHEROMONE_STEP,
    VISITED_POW,
};

#[test]
fn bounds_check_names_the_near_edge() {
    // world half-extent 400, padding 50
    assert!(matches!(Bounds::check((380, 0), (400, 400)), Some(Bounds::Right)));
    assert!(matches!(Bounds::check((-380, 0), (400, 400)), Some(Bounds::Left)));
    assert!(matches!(Bounds::check((0, -380), (400, 400)), Some(Bounds::Up)));
    assert!(matches!(Bounds::check((0, 380), (400, 400)), Some(Bounds::Down)));
    assert!(Bounds::check((0, 0), (400, 400)).is_none());
    assert!(Bounds::check((349, 349), (400, 400)).is_none());
}

#[test]
fn boundary_correction_reroutes_without_invariant_violation() {
    let mut ant = Ant::new(1, 0, 3);
    ant.leave_nest(3);
    ant.visit_nest(2);
    ant.leave_nest(3);
    // in transit near the right edge: memory [2, 0]
    let corrected = handle_boundary(&mut ant, (380, 0), (400, 400), 3);
    assert!(corrected);
    // history truncated and the ant is back at a nest, so routing can run
    // next tick (and visit_nest's precondition was never violated)
    assert_eq!(ant.prev_nests.len(), 1);
    assert_eq!(ant.current_nest, Some(0));
    // away from the edge nothing changes
    let mut other = Ant::new(1, 0, 3);
    other.leave_nest(3);
    let corrected = handle_boundary(&mut other, (0, 0), (400, 400), 3);
    assert!(!corrected);
    assert_eq!(other.current_nest, None);
}

#[test]
fn round_trip_restores_the_initial_pairing() {
    let mut ant = Ant::new(1, 0, 3);
    ant.leave_nest(3);
    // arriving at the sought nest picks food up and swaps the pairing
    arrive(&mut ant, 1, 3);
    assert!(ant.carrying_food);
    assert_eq!(ant.target_color, 0);
    assert_eq!(ant.parent_color, 1);
    assert_eq!(ant.steps, 0);
    assert_eq!(ant.prev_nests.len(), 1);
    // arriving back at the original parent (now the target) drops it off
    arrive(&mut ant, 0, 3);
    assert!(!ant.carrying_food);
    assert_eq!(ant.target_color, 1);
    assert_eq!(ant.parent_color, 0);
    assert_eq!(ant.steps, 0);
}

#[test]
fn stop_over_records_the_nest_and_awaits_routing() {
    let mut ant = Ant::new(1, 0, 3);
    ant.leave_nest(3);
    arrive(&mut ant, 2, 3);
    assert!(!ant.carrying_food);
    assert_eq!(ant.target_color, 1);
    assert_eq!(ant.parent_color, 0);
    assert_eq!(ant.current_nest, Some(2));
    assert_eq!(ant.prev_nests.len(), 2);
    assert_eq!(ant.prev_nests[0], 2);
}

#[test]
fn within_capture_compares_squared_distance() {
    assert!(within_capture((3, 4), (0, 0), 5));
    assert!(!within_capture((3, 4), (0, 0), 4));
    assert!(within_capture((10, 10), (10, 10), 0));
}

#[test]
fn choose_target_color_skips_the_own_color() {
    assert_eq!(choose_target_color(4, 0, 0), 1);
    assert_eq!(choose_target_color(4, 0, 2), 3);
    assert_eq!(choose_target_color(4, 2, 0), 0);
    assert_eq!(choose_target_color(4, 2, 1), 1);
    assert_eq!(choose_target_color(4, 2, 2), 3);
    assert_eq!(choose_target_color(2, 1, 0), 0);
}

#[test]
fn food_request_backs_off_at_the_ant_cap() {
    for _ in 0..50 {
        assert!(food_request(50, 50, 4, 0).is_none());
        assert!(food_request(60, 50, 4, 0).is_none());
    }
    // a lone nest has nowhere to send an ant
    for _ in 0..50 {
        assert!(food_request(0, 50, 1, 0).is_none());
    }
    // below the cap, any emitted target is another nest
    for _ in 0..2000 {
        if let Some(t) = food_request(0, 50, 4, 2) {
            assert!(t < 4);
            assert_ne!(t, 2);
        }
    }
}

#[test]
fn scaled_rate_scales_and_clamps_elapsed_time() {
    assert_eq!(scaled_rate(1_000, 0), 1_000);
    assert_eq!(scaled_rate(1_000, 100), 1_100);
    assert_eq!(scaled_rate(1_000, 200), 1_200);
    // a stalled frame is clamped to the maximum tick length
    assert_eq!(scaled_rate(1_000, 10_000), 1_200);
}

#[test]
fn default_parameters_match_the_configuration() {
    let w = DecisionWeights::default();
    assert_eq!(w.distance_pow, DISTANCE_POW);
    assert_eq!(w.pheromone_pow, PHEROMONE_POW);
    assert_eq!(w.visited_pow, VISITED_POW);
    let p = PheromoneParams::default();
    assert_eq!(p.trail_step, TRAIL_PHEROMONE_STEP);
    assert_eq!(p.nest_step, NEST_PHEROMONE_STEP);
    assert_eq!(p.trail_fade_rate, TRAIL_PHEROMONE_FADE_RATE);
    assert_eq!(p.nest_fade_rate, NEST_PHEROMONE_FADE_SPEED);
}

#[test]
fn food_keeps_its_color() {
    let f = Food::new(3);
    assert_eq!(f.color, 3);
}
