use ant_sim::nest::{Nest, NestNetwork};
use ant_sim::sim::fade_nest_network_pheremones;
use ant_sim::{PheromoneParams, SCALE};

#[test]
fn step_pheromone_adds_and_clamps() {
    let mut nest = Nest::new(0, (10, -20), 3);
    nest.step_pheromone(1, 400_000);
    assert_eq!(nest.color_weights[1], 400_000);
    nest.step_pheromone(1, 400_000);
    assert_eq!(nest.color_weights[1], 800_000);
    nest.step_pheromone(1, 400_000);
    assert_eq!(nest.color_weights[1], SCALE);
    assert_eq!(nest.color_weights[0], 0);
    assert_eq!(nest.color_weights[2], 0);
}

#[test]
fn step_pheromones_records_both_colors() {
    let mut nest = Nest::new(2, (0, 0), 4);
    nest.step_pheromones(1, 3, 250_000);
    assert_eq!(nest.color_weights[1], 250_000);
    assert_eq!(nest.color_weights[3], 250_000);
    assert_eq!(nest.color_weights[0], 0);
}

#[test]
fn fade_floors_at_zero_and_never_removes_nests() {
    let locs: Vec<(i64, i64)> = vec![(0, 0), (50, 0), (0, 50)];
    let mut net = NestNetwork::new(&locs);
    net.step_pheromone(0, 1, 100_000);
    let params = PheromoneParams {
        trail_step: 100_000,
        nest_step: 100_000,
        trail_fade_rate: 1_000,
        nest_fade_rate: 60_000,
    };
    fade_nest_network_pheremones(&mut net, &params);
    assert_eq!(net.nests.len(), 3);
    assert_eq!(net.nests[0].color_weights[1], 40_000);
    fade_nest_network_pheremones(&mut net, &params);
    assert_eq!(net.nests.len(), 3);
    assert_eq!(net.nests[0].color_weights[1], 0);
    // an already-zero weight stays at zero
    fade_nest_network_pheremones(&mut net, &params);
    assert_eq!(net.nests[0].color_weights[1], 0);
    assert_eq!(net.nests[2].color_weights[0], 0);
}

#[test]
fn network_indexes_nests_by_color() {
    let locs: Vec<(i64, i64)> = vec![(1, 2), (3, 4), (5, 6), (7, 8)];
    let net = NestNetwork::new(&locs);
    assert_eq!(net.len(), 4);
    for i in 0..4 {
        assert_eq!(net.nests[i].color, i);
        assert_eq!(net.nests[i].loc, locs[i]);
        assert_eq!(net.nests[i].color_weights.len(), 4);
        for c in 0..4 {
            assert_eq!(net.nests[i].color_weights[c], 0);
        }
    }
}
