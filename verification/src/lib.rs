//! Core of an ant-colony transport simulation: agents ("ants") travel between
//! a fixed network of resource nests, deposit decaying pheromone signals in a
//! sparse spatial grid and in per-nest memory, and pick their next destination
//! by a weighted-random multi-criteria routing rule.
//!
//! All simulation quantities are fixed-point integers: a weight or factor of
//! 1.0 is `SCALE` units, angles are stored in `TURN`ths of a full turn, and
//! world coordinates are plain integers. Saturating the arithmetic at fixed
//! bounds takes the place of the non-finite clamping a floating-point
//! implementation would need.

use vstd::prelude::*;

pub mod angle;
pub mod ant;
pub mod fixed;
pub mod food;
pub mod grid;
pub mod nest;
pub mod pheromone;
pub mod rng;
pub mod route;
pub mod sim;

verus! {

/// Fixed-point scale: the integer representation of the real number 1.0,
/// used both for pheromone weights (clamped to `[0, SCALE]`) and for the
/// routing factors.
pub const SCALE: u64 = 1_000_000;

/// Upper clamp for routing factors, standing in for the largest finite value
/// (a non-finite factor in the real-valued description is clamped here).
pub const FACTOR_MAX: u64 = 1_000_000_000_000;

/// One full turn of orientation, in angle units (an angle is in `[0, TURN)`).
pub const TURN: u32 = 360_000;

/// Largest world coordinate magnitude the simulation accepts.
pub const MAX_COORD: i64 = 1_000_000_000;

/// Largest number of nests (resource types) a network may be configured with.
pub const MAX_NESTS: usize = 1000;

/// Default number of nests in a simulation.
pub const NUM_NESTS: usize = 15;

/// Cap on concurrently live ants; further spawn requests are suppressed
/// until the count drops (backpressure, not an error).
pub const MAX_ANTS: u32 = 50;

/// Default world extent (width and height), in world units.
pub const WINDOW_SIZE: u32 = 800;

/// How close to the world edge an ant may get before boundary handling
/// corrects its route, in world units.
pub const BORDER_PADDING: i64 = 50;

/// Probability, in thousandths, that a nest emits a new ant on one tick.
pub const NEST_FOOD_REQUEST_PROB_MILLIS: u64 = 10;

/// Default exponent of the distance factor in routing scores.
pub const DISTANCE_POW: u32 = 1;

/// Default exponent of the pheromone factor in routing scores.
pub const PHEROMONE_POW: u32 = 4;

/// Default exponent of the visited-recency factor in routing scores.
pub const VISITED_POW: u32 = 2;

/// Default trail deposited into a grid cell per visit, in `SCALE` units.
pub const TRAIL_PHEROMONE_STEP: u64 = 100_000;

/// Default traffic recorded at a nest per departure, in `SCALE` units.
pub const NEST_PHEROMONE_STEP: u64 = 100_000;

/// Default base decay of grid trail per tick, in `SCALE` units.
pub const TRAIL_PHEROMONE_FADE_RATE: u64 = 1_000;

/// Default decay of nest-local traffic memory per fade step, in `SCALE`
/// units.
pub const NEST_PHEROMONE_FADE_SPEED: u64 = 30_000;

/// The tunable exponents of the three routing factors.
pub struct DecisionWeights {
    /// Exponent applied to the reciprocal distance factor.
    pub distance_pow: u32,
    /// Exponent applied to the pheromone factor.
    pub pheromone_pow: u32,
    /// Exponent applied to the reciprocal visited-recency factor.
    pub visited_pow: u32,
}

impl Default for DecisionWeights {
    /// The default routing exponents.
    fn default() -> (d: DecisionWeights)
        ensures
            d.distance_pow == DISTANCE_POW,
            d.pheromone_pow == PHEROMONE_POW,
            d.visited_pow == VISITED_POW,
    {
        DecisionWeights {
            distance_pow: DISTANCE_POW,
            pheromone_pow: PHEROMONE_POW,
            visited_pow: VISITED_POW,
        }
    }
}

/// The tunable deposit sizes and decay rates, all in `SCALE` units.
pub struct PheromoneParams {
    /// Trail deposited into a grid cell per visit.
    pub trail_step: u64,
    /// Traffic recorded at a nest per departure.
    pub nest_step: u64,
    /// Base decay of grid trail per tick.
    pub trail_fade_rate: u64,
    /// Decay of nest-local memory per fade step.
    pub nest_fade_rate: u64,
}

impl Default for PheromoneParams {
    /// The default deposit and decay parameters.
    fn default() -> (p: PheromoneParams)
        ensures
            p.trail_step == TRAIL_PHEROMONE_STEP,
            p.nest_step == NEST_PHEROMONE_STEP,
            p.trail_fade_rate == TRAIL_PHEROMONE_FADE_RATE,
            p.nest_fade_rate == NEST_PHEROMONE_FADE_SPEED,
    {
        PheromoneParams {
            trail_step: TRAIL_PHEROMONE_STEP,
            nest_step: NEST_PHEROMONE_STEP,
            trail_fade_rate: TRAIL_PHEROMONE_FADE_RATE,
            nest_fade_rate: NEST_PHEROMONE_FADE_SPEED,
        }
    }
}

} // verus!
