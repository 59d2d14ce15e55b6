use ant_sim::grid::PheromoneManager;
use ant_sim::pheromone::Pheromone;
use ant_sim::SCALE;

#[test]
fn cell_containing_is_stable_within_granularity() {
    // granularity 4, world 16 by 16: (0,0) and (3,3) share a cell,
    // (4,0) lies one cell further along x.
    let m = PheromoneManager::new(16, 16, 4, 3);
    let a = m.cell_containing(0, 0);
    let b = m.cell_containing(3, 3);
    let c = m.cell_containing(4, 0);
    assert_eq!(a, b);
    assert_eq!(a, (2, 2));
    assert_eq!(c, (3, 2));
    assert_ne!(a.0, c.0);
    // repeated calls agree
    assert_eq!(m.cell_containing(3, 3), b);
}

#[test]
fn grid_dims_divide_window_by_granularity() {
    let d = PheromoneManager::get_grid_dims_from_window_size((800, 600), 8);
    assert_eq!(d, (100, 75));
}

#[test]
fn deposit_creates_cell_lazily() {
    let mut m = PheromoneManager::new(800, 800, 8, 3);
    assert!(m.id_of_pheromone_at(10, 10).is_none());
    m.deposit(10, 10, 1, 100_000);
    let id = m.id_of_pheromone_at(10, 10).expect("cell should exist after deposit");
    assert_eq!(m.cells[id].weights[1], 100_000);
    assert_eq!(m.cells[id].weights[0], 0);
    assert_eq!(m.cells[id].weights[2], 0);
    assert_eq!(m.cells.len(), 1);
}

#[test]
fn deposit_of_half_never_exceeds_one() {
    let mut m = PheromoneManager::new(800, 800, 8, 2);
    for _ in 0..5 {
        m.deposit(0, 0, 0, SCALE / 2);
    }
    let id = m.id_of_pheromone_at(0, 0).unwrap();
    assert_eq!(m.cells[id].weights[0], SCALE);
}

#[test]
fn deposit_of_tenth_raises_exactly_by_tenth() {
    let mut m = PheromoneManager::new(800, 800, 8, 2);
    m.deposit(-5, 7, 0, SCALE / 10);
    let id = m.id_of_pheromone_at(-5, 7).unwrap();
    assert_eq!(m.cells[id].weights[0], SCALE / 10);
}

#[test]
fn decayed_cell_is_evicted() {
    let mut m = PheromoneManager::new(800, 800, 8, 2);
    m.deposit(10, 10, 0, 50_000);
    assert!(m.id_of_pheromone_at(10, 10).is_some());
    m.fade_pheromones(60_000);
    assert!(m.id_of_pheromone_at(10, 10).is_none());
    assert_eq!(m.cells.len(), 0);
}

#[test]
fn decay_floors_at_zero_and_keeps_live_cells() {
    let mut m = PheromoneManager::new(800, 800, 8, 2);
    m.deposit(10, 10, 0, 100_000);
    m.deposit(10, 10, 1, 30_000);
    m.fade_pheromones(40_000);
    let id = m.id_of_pheromone_at(10, 10).expect("cell still carries trail");
    assert_eq!(m.cells[id].weights[0], 60_000);
    assert_eq!(m.cells[id].weights[1], 0);
    // decaying a weight already at the zero floor leaves it at zero
    m.fade_pheromones(10_000);
    let id = m.id_of_pheromone_at(10, 10).unwrap();
    assert_eq!(m.cells[id].weights[1], 0);
}

#[test]
fn separate_coordinates_hold_separate_cells() {
    let mut m = PheromoneManager::new(800, 800, 8, 2);
    m.deposit(0, 0, 0, 100_000);
    m.deposit(100, 100, 1, 200_000);
    assert_eq!(m.cells.len(), 2);
    let a = m.id_of_pheromone_at(0, 0).unwrap();
    let b = m.id_of_pheromone_at(100, 100).unwrap();
    assert_eq!(m.cells[a].weights[0], 100_000);
    assert_eq!(m.cells[b].weights[1], 200_000);
}

#[test]
fn deposits_merge_in_any_order() {
    // clamped deposits commute, so merge order does not matter
    let mut m1 = PheromoneManager::new(800, 800, 8, 2);
    m1.deposit(0, 0, 0, 700_000);
    m1.deposit(0, 0, 0, 500_000);
    let mut m2 = PheromoneManager::new(800, 800, 8, 2);
    m2.deposit(0, 0, 0, 500_000);
    m2.deposit(0, 0, 0, 700_000);
    let a = m1.id_of_pheromone_at(0, 0).unwrap();
    let b = m2.id_of_pheromone_at(0, 0).unwrap();
    assert_eq!(m1.cells[a].weights, m2.cells[b].weights);
    assert_eq!(m1.cells[a].weights[0], SCALE);
}

#[test]
fn most_prominent_breaks_ties_toward_lowest_index() {
    let mut p = Pheromone::new(4, (0, 0));
    p.add_trail(1, 300_000);
    p.add_trail(3, 300_000);
    assert_eq!(p.most_prominent(), 1);
    p.add_trail(2, 400_000);
    assert_eq!(p.most_prominent(), 2);
}

#[test]
fn cell_is_empty_only_when_all_weights_are_zero() {
    let mut p = Pheromone::new(3, (1, 1));
    assert!(p.is_empty());
    p.add_trail(2, 1);
    assert!(!p.is_empty());
    p.fade(1);
    assert!(p.is_empty());
}
