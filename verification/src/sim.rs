//! Simulation-level rules around the routing core: world-boundary
//! correction, nest arrival (the round-trip state machine), stochastic ant
//! emission with backpressure, and the time-scaled decay cadence.

use vstd::prelude::*;
use crate::ant::Ant;
use crate::grid::PheromoneManager;
use crate::nest::NestNetwork;
use crate::pheromone::fade_seq;
use crate::rng::random_below;
use crate::{
    PheromoneParams, BORDER_PADDING, MAX_COORD, MAX_NESTS, NEST_FOOD_REQUEST_PROB_MILLIS, SCALE,
};

verus! {

/// Which world edge a position is about to leave through.
pub enum Bounds {
    /// Past the left edge.
    Left,
    /// Past the right edge.
    Right,
    /// Past the lower edge.
    Up,
    /// Past the upper edge.
    Down,
}

/// The boundary test: a position within `BORDER_PADDING` of a half-extent
/// names the edge it is closest to leaving through, x before y.
pub open spec fn spec_bounds_check(px: int, py: int, half_w: int, half_h: int) -> Option<Bounds> {
    let ax = if px < 0 { -px } else { px };
    let ay = if py < 0 { -py } else { py };
    if half_w - ax < BORDER_PADDING {
        if px < 0 {
            Some(Bounds::Left)
        } else {
            Some(Bounds::Right)
        }
    } else if half_h - ay < BORDER_PADDING {
        if py < 0 {
            Some(Bounds::Up)
        } else {
            Some(Bounds::Down)
        }
    } else {
        None
    }
}

impl Bounds {
    /// Test whether a position is about to leave the world: `(half_w,
    /// half_h)` are the half-extents of the world, and a position within
    /// `BORDER_PADDING` of an edge counts as a boundary collision.
    pub fn check(pos: (i64, i64), logical_bounds: (i64, i64)) -> (r: Option<Bounds>)
        requires
            -MAX_COORD <= pos.0 <= MAX_COORD,
            -MAX_COORD <= pos.1 <= MAX_COORD,
            0 <= logical_bounds.0 <= MAX_COORD,
            0 <= logical_bounds.1 <= MAX_COORD,
        ensures
            r == spec_bounds_check(
                pos.0 as int,
                pos.1 as int,
                logical_bounds.0 as int,
                logical_bounds.1 as int,
            ),
    {
        let ax: i64 = if pos.0 < 0 {
            -pos.0
        } else {
            pos.0
        };
        let ay: i64 = if pos.1 < 0 {
            -pos.1
        } else {
            pos.1
        };
        if logical_bounds.0 - ax < BORDER_PADDING {
            if pos.0 < 0 {
                Some(Bounds::Left)
            } else {
                Some(Bounds::Right)
            }
        } else if logical_bounds.1 - ay < BORDER_PADDING {
            if pos.1 < 0 {
                Some(Bounds::Up)
            } else {
                Some(Bounds::Down)
            }
        } else {
            None
        }
    }
}

/// Boundary correction: an ant at the world edge discards its most recent
/// memory entry (when more than one remains) and is treated as freshly
/// arrived at its previous nest, so routing re-routes it within one tick.
/// The agent invariant is preserved, never violated — afterwards the ant is
/// at a nest awaiting a routing decision.
pub fn handle_boundary(
    ant: &mut Ant,
    pos: (i64, i64),
    logical_bounds: (i64, i64),
    num_nests: usize,
) -> (corrected: bool)
    requires
        old(ant).wf(num_nests as int),
        -MAX_COORD <= pos.0 <= MAX_COORD,
        -MAX_COORD <= pos.1 <= MAX_COORD,
        0 <= logical_bounds.0 <= MAX_COORD,
        0 <= logical_bounds.1 <= MAX_COORD,
    ensures
        final(ant).wf(num_nests as int),
        corrected == (spec_bounds_check(
            pos.0 as int,
            pos.1 as int,
            logical_bounds.0 as int,
            logical_bounds.1 as int,
        ) is Some),
        !corrected ==> *final(ant) == *old(ant),
        corrected ==> {
            &&& final(ant).current_nest is Some
            &&& (old(ant).prev_nests@.len() >= 2 ==> final(ant).prev_nests@ == old(
                ant,
            ).prev_nests@.subrange(1, old(ant).prev_nests@.len() as int))
            &&& (old(ant).prev_nests@.len() == 1 ==> final(ant).prev_nests@ == old(
                ant,
            ).prev_nests@)
        },
{
    let hit = Bounds::check(pos, logical_bounds);
    match hit {
        Some(_) => {
            ant.pop_prev_nest();
            true
        },
        None => false,
    }
}

/// What arriving at nest `nest` does to the round-trip bookkeeping
/// `(target, parent, carrying)` when `nest` is the sought resource: the
/// sought and departed resources swap and the carrying flag flips.
pub open spec fn arrival_swap(
    target: usize,
    parent: usize,
    carrying: bool,
    nest: usize,
) -> (usize, usize, bool) {
    (parent, nest, !carrying)
}

/// Round-trip law: an agent seeking `target` from `parent` that reaches
/// `target` (picking food up) and then reaches `parent` (dropping it off)
/// is back at its exact initial pairing, not carrying.
pub proof fn lemma_round_trip(target: usize, parent: usize)
    ensures
        ({
            let first = arrival_swap(target, parent, false, target);
            let second = arrival_swap(first.0, first.1, first.2, parent);
            &&& first.2 == true
            &&& second == (target, parent, false)
        }),
{
}

/// Arrival of an in-transit ant at the nest of colour `nest_color`.
///
/// Reaching the sought resource swaps the sought and departed resources
/// (per `arrival_swap`), flips the carrying flag, and resets the round-trip
/// memory; reaching any other nest is a stop-over recorded in memory, and
/// the ant awaits a routing decision there.
pub fn arrive(ant: &mut Ant, nest_color: usize, num_nests: usize)
    requires
        old(ant).wf(num_nests as int),
        num_nests <= MAX_NESTS,
        nest_color < num_nests,
        old(ant).current_nest is None,
        old(ant).prev_nests@.len() <= num_nests,
    ensures
        final(ant).wf(num_nests as int),
        final(ant).orientation == old(ant).orientation,
        final(ant).target_orientation == old(ant).target_orientation,
        nest_color == old(ant).target_color ==> {
            &&& (final(ant).target_color, final(ant).parent_color, final(ant).carrying_food)
                == arrival_swap(
                old(ant).target_color,
                old(ant).parent_color,
                old(ant).carrying_food,
                nest_color,
            )
            &&& final(ant).steps == 0
            &&& final(ant).prev_nests@ == old(ant).prev_nests@.subrange(0, 1)
            &&& final(ant).current_nest is None
        },
        nest_color != old(ant).target_color ==> {
            &&& final(ant).target_color == old(ant).target_color
            &&& final(ant).parent_color == old(ant).parent_color
            &&& final(ant).carrying_food == old(ant).carrying_food
            &&& final(ant).steps == old(ant).steps
            &&& final(ant).prev_nests@ == seq![nest_color] + old(ant).prev_nests@
            &&& final(ant).current_nest == Some(nest_color)
        },
{
    if nest_color == ant.target_color {
        let old_parent: usize = ant.parent_color;
        ant.target_color = old_parent;
        ant.parent_color = nest_color;
        ant.carrying_food = !ant.carrying_food;
        ant.wipe_mem();
    } else {
        ant.visit_nest(nest_color);
    }
}

/// Whether a position lies within a nest's capture radius.
pub fn within_capture(pos: (i64, i64), nest_loc: (i64, i64), radius: i64) -> (r: bool)
    requires
        -MAX_COORD <= pos.0 <= MAX_COORD,
        -MAX_COORD <= pos.1 <= MAX_COORD,
        -MAX_COORD <= nest_loc.0 <= MAX_COORD,
        -MAX_COORD <= nest_loc.1 <= MAX_COORD,
        0 <= radius <= MAX_COORD,
    ensures
        r <==> (pos.0 - nest_loc.0) * (pos.0 - nest_loc.0) + (pos.1 - nest_loc.1) * (pos.1
            - nest_loc.1) <= radius * radius,
{
    let dx: i64 = pos.0 - nest_loc.0;
    let dy: i64 = pos.1 - nest_loc.1;
    let ax: u64 = if dx < 0 {
        (-dx) as u64
    } else {
        dx as u64
    };
    let ay: u64 = if dy < 0 {
        (-dy) as u64
    } else {
        dy as u64
    };
    proof {
        assert(ax as int * ax as int == dx as int * dx as int) by (nonlinear_arith)
            requires
                ax as int == dx as int || ax as int == -(dx as int),
        ;
        assert(ay as int * ay as int == dy as int * dy as int) by (nonlinear_arith)
            requires
                ay as int == dy as int || ay as int == -(dy as int),
        ;
        assert(ax as int * ax as int <= (2 * MAX_COORD) * (2 * MAX_COORD)) by (nonlinear_arith)
            requires
                0 <= ax as int <= 2 * MAX_COORD,
        ;
        assert(ay as int * ay as int <= (2 * MAX_COORD) * (2 * MAX_COORD)) by (nonlinear_arith)
            requires
                0 <= ay as int <= 2 * MAX_COORD,
        ;
        assert(radius as int * radius as int <= MAX_COORD * MAX_COORD) by (nonlinear_arith)
            requires
                0 <= radius as int <= MAX_COORD,
        ;
    }
    let d2: u64 = ax * ax + ay * ay;
    let r2: u64 = (radius as u64) * (radius as u64);
    d2 <= r2
}

/// Map a uniform pick in `0 .. num_nests - 1` to a resource colour other
/// than the emitting nest's own: picks below the own colour stand for
/// themselves, the rest shift up by one.
pub fn choose_target_color(num_nests: usize, own_color: usize, pick: u64) -> (t: usize)
    requires
        num_nests >= 2,
        own_color < num_nests,
        pick < num_nests - 1,
    ensures
        t < num_nests,
        t != own_color,
        t == (if pick < own_color {
            pick as int
        } else {
            pick as int + 1
        }),
{
    let p: usize = pick as usize;
    if p < own_color {
        p
    } else {
        p + 1
    }
}

/// One nest's stochastic decision to emit a new ant this tick. Emission is
/// suppressed while the ant cap is reached (backpressure, not an error) or
/// while the network has no other nest to send an ant to; an emitted ant's
/// target is never the emitting nest itself.
pub fn food_request(num_ants: u32, max_ants: u32, num_nests: usize, own_color: usize) -> (r:
    Option<usize>)
    requires
        own_color < num_nests,
        num_nests <= MAX_NESTS,
    ensures
        match r {
            Some(t) => {
                &&& num_ants < max_ants
                &&& num_nests >= 2
                &&& (t as int) < num_nests
                &&& t != own_color
            },
            None => true,
        },
{
    if num_ants >= max_ants || num_nests < 2 {
        return None;
    }
    let roll: u64 = random_below(1000);
    if roll < NEST_FOOD_REQUEST_PROB_MILLIS {
        let pick: u64 = random_below((num_nests - 1) as u64);
        Some(choose_target_color(num_nests, own_color, pick))
    } else {
        None
    }
}

/// The elapsed-time clamp of the decay scheduler, in milliseconds: a
/// stalled frame decays at most as much as one of this length.
pub const MAX_TICK_MILLIS: u64 = 200;

/// The frame-rate-independent trail decay rate: the base rate scaled by
/// `1 + elapsed seconds`, with the elapsed time clamped to
/// `MAX_TICK_MILLIS` so a stall cannot cause a decay spike.
pub open spec fn spec_scaled_rate(base: u64, elapsed_ms: u64) -> int {
    base * (1000 + (if elapsed_ms > MAX_TICK_MILLIS {
        MAX_TICK_MILLIS as int
    } else {
        elapsed_ms as int
    })) / 1000
}

/// Compute the time-scaled trail decay rate.
pub fn scaled_rate(base: u64, elapsed_ms: u64) -> (r: u64)
    requires
        base <= SCALE,
    ensures
        r == spec_scaled_rate(base, elapsed_ms),
        r <= 2 * SCALE,
{
    let clamped: u64 = if elapsed_ms > MAX_TICK_MILLIS {
        MAX_TICK_MILLIS
    } else {
        elapsed_ms
    };
    proof {
        assert(base as int * (1000 + clamped as int) <= SCALE as int * 1200) by (nonlinear_arith)
            requires
                0 <= base as int <= SCALE as int,
                0 <= clamped as int <= 200,
        ;
        vstd::arithmetic::div_mod::lemma_div_is_ordered(
            base as int * (1000 + clamped as int),
            SCALE as int * 1200,
            1000,
        );
    }
    base * (1000 + clamped) / 1000
}

/// One decay step of the spatial trail grid, scaled by the elapsed time.
/// Decay uses the state from before this tick's deposits: run it before the
/// tick's routing deposits are applied.
pub fn fade_pheromones(manager: &mut PheromoneManager, params: &PheromoneParams, elapsed_ms: u64)
    requires
        old(manager).wf(),
        params.trail_fade_rate <= SCALE,
    ensures
        final(manager).wf(),
        final(manager).grid_dims == old(manager).grid_dims,
        final(manager).win == old(manager).win,
        final(manager).granularity == old(manager).granularity,
        final(manager).num_colors == old(manager).num_colors,
        forall|c: (u32, u32)|
            crate::grid::has_cell(old(manager).cells@, c) && crate::pheromone::total_weight(
                fade_seq(
                    crate::grid::cell_weights(old(manager).cells@, c),
                    (spec_scaled_rate(params.trail_fade_rate, elapsed_ms) as u64),
                ),
            ) > 0 ==> crate::grid::has_cell(final(manager).cells@, c) && crate::grid::cell_weights(
                final(manager).cells@,
                c,
            ) == fade_seq(
                crate::grid::cell_weights(old(manager).cells@, c),
                (spec_scaled_rate(params.trail_fade_rate, elapsed_ms) as u64),
            ),
        forall|c: (u32, u32)|
            crate::grid::has_cell(old(manager).cells@, c) && crate::pheromone::total_weight(
                fade_seq(
                    crate::grid::cell_weights(old(manager).cells@, c),
                    (spec_scaled_rate(params.trail_fade_rate, elapsed_ms) as u64),
                ),
            ) == 0 ==> !crate::grid::has_cell(final(manager).cells@, c),
        forall|c: (u32, u32)|
            !crate::grid::has_cell(old(manager).cells@, c) ==> !crate::grid::has_cell(
                final(manager).cells@,
                c,
            ),
{
    let rate: u64 = scaled_rate(params.trail_fade_rate, elapsed_ms);
    manager.fade_pheromones(rate);
}

/// One decay step of every nest's traffic memory. Runs on its own, coarser
/// cadence than the grid decay.
pub fn fade_nest_network_pheremones(nests: &mut NestNetwork, params: &PheromoneParams)
    requires
        old(nests).wf(),
    ensures
        final(nests).wf(),
        final(nests).spec_len() == old(nests).spec_len(),
        forall|j: int|
            0 <= j < old(nests).spec_len() ==> {
                &&& (#[trigger] final(nests).nests@[j]).color == old(nests).nests@[j].color
                &&& final(nests).nests@[j].loc == old(nests).nests@[j].loc
                &&& final(nests).nests@[j].color_weights@ == fade_seq(
                    old(nests).nests@[j].color_weights@,
                    params.nest_fade_rate,
                )
            },
{
    nests.fade(params.nest_fade_rate);
}

} // verus!
