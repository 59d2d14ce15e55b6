use ant_sim::ant::Ant;
use ant_sim::TURN;

#[test]
fn new_ant_starts_at_parent_nest() {
    let a = Ant::new(2, 0, 5);
    assert_eq!(a.target_color, 2);
    assert_eq!(a.parent_color, 0);
    assert!(!a.carrying_food);
    assert_eq!(a.current_nest, Some(0));
    assert_eq!(a.prev_nests.len(), 1);
    assert_eq!(a.prev_nests[0], 0);
    assert_eq!(a.steps, 0);
    // the randomized orientation is normalized
    assert!(a.orientation < TURN);
    assert_eq!(a.orientation, a.target_orientation);
}

#[test]
fn orientation_setters_normalize() {
    let mut a = Ant::new(1, 0, 3);
    a.set_orientation(400_000);
    assert_eq!(a.orientation, 40_000);
    a.set_target_orientation(720_001);
    assert_eq!(a.target_orientation, 1);
    a.rotate_hard(359_999);
    assert_eq!(a.orientation, 359_999);
    assert_eq!(a.target_orientation, 359_999);
}

#[test]
fn leave_visit_and_prev_track_memory() {
    let mut a = Ant::new(1, 0, 3);
    a.leave_nest(3);
    assert_eq!(a.current_nest, None);
    assert_eq!(a.steps, 1);
    a.visit_nest(2);
    assert_eq!(a.current_nest, Some(2));
    assert_eq!(a.prev_nests.len(), 2);
    assert_eq!(a.prev_nest(), 2);
    assert_eq!(a.prev_nests[1], 0);
    a.leave_nest(3);
    assert_eq!(a.steps, 2);
    a.visit_nest(1);
    assert_eq!(a.prev_nest(), 1);
}

#[test]
fn leave_nest_truncates_memory_to_network_size() {
    let mut a = Ant::new(1, 0, 2);
    a.leave_nest(2);
    a.visit_nest(1);
    a.leave_nest(2);
    a.visit_nest(0);
    // memory holds [0, 1, 0] before leaving; network size 2 keeps [0, 1]
    assert_eq!(a.prev_nests.len(), 3);
    a.leave_nest(2);
    assert_eq!(a.prev_nests.len(), 2);
    assert_eq!(a.prev_nests[0], 0);
    assert_eq!(a.prev_nests[1], 1);
}

#[test]
fn pop_prev_nest_discards_most_recent_entry() {
    let mut a = Ant::new(1, 0, 3);
    a.leave_nest(3);
    a.visit_nest(2);
    a.leave_nest(3);
    // memory is [2, 0], in transit
    a.pop_prev_nest();
    assert_eq!(a.prev_nests.len(), 1);
    assert_eq!(a.prev_nests[0], 0);
    assert_eq!(a.current_nest, Some(0));
}

#[test]
fn pop_prev_nest_keeps_the_last_entry() {
    let mut a = Ant::new(1, 0, 3);
    a.leave_nest(3);
    // memory is [0] alone: it stays, and the ant re-routes from there
    a.pop_prev_nest();
    assert_eq!(a.prev_nests.len(), 1);
    assert_eq!(a.prev_nests[0], 0);
    assert_eq!(a.current_nest, Some(0));
}

#[test]
fn wipe_mem_resets_steps_and_history() {
    let mut a = Ant::new(1, 0, 3);
    a.leave_nest(3);
    a.visit_nest(2);
    a.leave_nest(3);
    a.visit_nest(1);
    assert!(a.steps > 0);
    a.wipe_mem();
    assert_eq!(a.steps, 0);
    assert_eq!(a.prev_nests.len(), 1);
    assert_eq!(a.prev_nests[0], 1);
}
