//! The decision engine: score every other nest by distance, accumulated
//! pheromone for the sought resource, and how recently it was visited, then
//! sample the next destination from the scores by weighted random choice.
//!
//! Scores are saturating fixed-point values, so every factor is finite by
//! construction; the weighted choice is a cumulative-distribution scan over
//! the integer scores and is deterministic for a given draw.

use std::collections::VecDeque;
use vstd::prelude::*;
use crate::ant::Ant;
use crate::angle::{heading, spec_heading};
use crate::fixed::{clamp_factor, isqrt, pow_scaled, spec_isqrt, spec_pow_scaled};
use crate::nest::{Nest, NestNetwork};
use crate::pheromone::{add_clamped, sum_weights};
use crate::rng::random_below;
use crate::{DecisionWeights, PheromoneParams, FACTOR_MAX, MAX_COORD, MAX_NESTS, SCALE};

verus! {

/// The recency contribution of the first `k` entries of the visited memory:
/// an occurrence of `color` at rank `r` (most recent first) contributes
/// `SCALE / (r + 1)`.
pub open spec fn recency_sum(s: Seq<usize>, color: int, k: int) -> int
    decreases k,
{
    if k <= 0 {
        0
    } else {
        recency_sum(s, color, k - 1) + if s[k - 1] == color {
            SCALE as int / k
        } else {
            0
        }
    }
}

/// The recency score of `color`: the summed contributions, floored at
/// `SCALE` (1.0) so that the reciprocal never exceeds one.
pub open spec fn spec_recency(s: Seq<usize>, color: int) -> int {
    let total = recency_sum(s, color, s.len() as int);
    if total < SCALE as int {
        SCALE as int
    } else {
        total
    }
}

/// The distance factor: the reciprocal distance in fixed point, raised to
/// `p`; a zero distance (degenerate) clamps to the largest factor instead
/// of diverging.
pub open spec fn spec_dist_factor(d: int, p: nat) -> int {
    spec_pow_scaled(
        if d == 0 {
            FACTOR_MAX as int
        } else {
            SCALE as int / d
        },
        p,
    )
}

/// The pheromone factor: the nest's weight for the sought resource, floored
/// at 1.0 so that an untouched nest is not penalized, raised to `p`.
pub open spec fn spec_pher_factor(w: int, p: nat) -> int {
    spec_pow_scaled(
        if w < SCALE as int {
            SCALE as int
        } else {
            w
        },
        p,
    )
}

/// The visited factor: the reciprocal recency score in fixed point, raised
/// to `p`; recent visits shrink it.
pub open spec fn spec_visit_factor(s: Seq<usize>, color: int, p: nat) -> int {
    spec_pow_scaled(SCALE as int * SCALE as int / spec_recency(s, color), p)
}

/// The routing score of one candidate nest for an ant at `(ax, ay)` seeking
/// `target`: the product of the three factors, saturated at `FACTOR_MAX`.
pub open spec fn spec_nest_score(
    ax: int,
    ay: int,
    nest: Nest,
    target: int,
    prev: Seq<usize>,
    w: DecisionWeights,
) -> int {
    let dx = nest.loc.0 - ax;
    let dy = nest.loc.1 - ay;
    let d = spec_isqrt(dx * dx + dy * dy);
    let df = spec_dist_factor(d, w.distance_pow as nat);
    let pf = spec_pher_factor(nest.color_weights@[target] as int, w.pheromone_pow as nat);
    let vf = spec_visit_factor(prev, nest.color as int, w.visited_pow as nat);
    clamp_factor(clamp_factor(df * pf / (SCALE as int)) * vf / (SCALE as int))
}

/// The total routing mass of the first `k` nests, the current nest counting
/// zero.
pub open spec fn spec_total_score(
    ax: int,
    ay: int,
    nests: Seq<Nest>,
    target: int,
    prev: Seq<usize>,
    w: DecisionWeights,
    cur: int,
    k: int,
) -> int
    decreases k,
{
    if k <= 0 {
        0
    } else {
        spec_total_score(ax, ay, nests, target, prev, w, cur, k - 1) + if k - 1 == cur {
            0
        } else {
            spec_nest_score(ax, ay, nests[k - 1], target, prev, w)
        }
    }
}

/// The sum of scores leaving out index `ex`.
pub open spec fn sum_weights_except(s: Seq<u64>, ex: int, k: int) -> int
    decreases k,
{
    if k <= 0 {
        0
    } else {
        sum_weights_except(s, ex, k - 1) + if k - 1 == ex {
            0
        } else {
            s[k - 1]
        }
    }
}

/// Routing-distribution mass: with the current nest scored zero, the mass of
/// the remaining nests is the whole distribution, so their selection
/// probabilities (each score over the total) sum to exactly one.
pub proof fn lemma_distribution_covers(s: Seq<u64>, ex: int)
    requires
        0 <= ex < s.len(),
        s[ex] == 0,
    ensures
        sum_weights_except(s, ex, s.len() as int) == sum_weights(s, s.len() as int),
{
    lemma_distribution_covers_rec(s, ex, s.len() as int);
}

proof fn lemma_distribution_covers_rec(s: Seq<u64>, ex: int, k: int)
    requires
        0 <= ex < s.len(),
        s[ex] == 0,
        k <= s.len(),
    ensures
        sum_weights_except(s, ex, k) == sum_weights(s, k),
    decreases k,
{
    if k > 0 {
        lemma_distribution_covers_rec(s, ex, k - 1);
    }
}

/// A sequence of bounded scores has bounded sum.
pub proof fn lemma_sum_bounded(s: Seq<u64>, k: int)
    requires
        0 <= k <= s.len(),
        forall|i: int| 0 <= i < s.len() ==> s[i] <= FACTOR_MAX,
    ensures
        0 <= sum_weights(s, k) <= k * FACTOR_MAX,
    decreases k,
{
    if k > 0 {
        lemma_sum_bounded(s, k - 1);
        assert((k - 1) * FACTOR_MAX + FACTOR_MAX == k * FACTOR_MAX) by (nonlinear_arith);
    }
}

/// A scores vector that matches the per-nest spec pointwise sums to the spec
/// total.
pub proof fn lemma_scores_sum(
    scores: Seq<u64>,
    ax: int,
    ay: int,
    nests: Seq<Nest>,
    target: int,
    prev: Seq<usize>,
    w: DecisionWeights,
    cur: int,
    k: int,
)
    requires
        scores.len() == nests.len(),
        0 <= cur < scores.len(),
        scores[cur] == 0,
        forall|i: int|
            0 <= i < scores.len() && i != cur ==> scores[i] == spec_nest_score(
                ax,
                ay,
                nests[i],
                target,
                prev,
                w,
            ),
        0 <= k <= scores.len(),
    ensures
        sum_weights(scores, k) == spec_total_score(ax, ay, nests, target, prev, w, cur, k),
    decreases k,
{
    if k > 0 {
        lemma_scores_sum(scores, ax, ay, nests, target, prev, w, cur, k - 1);
    }
}

/// The recency score of `color` in the visited memory `prev`.
pub fn recency_score(prev: &VecDeque<usize>, color: usize) -> (r: u64)
    requires
        prev@.len() <= MAX_NESTS + 1,
    ensures
        r == spec_recency(prev@, color as int),
        SCALE <= r,
        r <= (MAX_NESTS + 1) * SCALE,
{
    let mut sum: u64 = 0;
    let n: usize = prev.len();
    let mut k: usize = 0;
    while k < n
        invariant
            k <= n,
            n == prev@.len(),
            n <= MAX_NESTS + 1,
            sum == recency_sum(prev@, color as int, k as int),
            sum <= k * SCALE,
        decreases n - k,
    {
        if prev[k] == color {
            sum = sum + SCALE / ((k as u64) + 1);
        }
        k = k + 1;
    }
    if sum < SCALE {
        SCALE
    } else {
        sum
    }
}

/// The routing score of candidate `nest` for an ant at `(ant_x, ant_y)`.
pub fn nest_score(
    ant_x: i64,
    ant_y: i64,
    nest: &Nest,
    target_color: usize,
    prev: &VecDeque<usize>,
    weights: &DecisionWeights,
) -> (s: u64)
    requires
        nest.wf(),
        target_color < nest.color_weights@.len(),
        prev@.len() <= MAX_NESTS + 1,
        -MAX_COORD <= ant_x <= MAX_COORD,
        -MAX_COORD <= ant_y <= MAX_COORD,
    ensures
        s == spec_nest_score(
            ant_x as int,
            ant_y as int,
            *nest,
            target_color as int,
            prev@,
            *weights,
        ),
        s <= FACTOR_MAX,
{
    let dx: i64 = nest.loc.0 - ant_x;
    let dy: i64 = nest.loc.1 - ant_y;
    let dx_abs: u64 = if dx < 0 {
        (-dx) as u64
    } else {
        dx as u64
    };
    let dy_abs: u64 = if dy < 0 {
        (-dy) as u64
    } else {
        dy as u64
    };
    proof {
        assert(dx_abs as int * dx_abs as int == dx as int * dx as int) by (nonlinear_arith)
            requires
                dx_abs as int == dx as int || dx_abs as int == -(dx as int),
        ;
        assert(dy_abs as int * dy_abs as int == dy as int * dy as int) by (nonlinear_arith)
            requires
                dy_abs as int == dy as int || dy_abs as int == -(dy as int),
        ;
        assert(dx_abs as int * dx_abs as int <= (2 * MAX_COORD) * (2 * MAX_COORD))
            by (nonlinear_arith)
            requires
                0 <= dx_abs as int <= 2 * MAX_COORD,
        ;
        assert(dy_abs as int * dy_abs as int <= (2 * MAX_COORD) * (2 * MAX_COORD))
            by (nonlinear_arith)
            requires
                0 <= dy_abs as int <= 2 * MAX_COORD,
        ;
    }
    let d2: u64 = dx_abs * dx_abs + dy_abs * dy_abs;
    let d: u64 = isqrt(d2);
    let dist_base: u64 = if d == 0 {
        FACTOR_MAX
    } else {
        SCALE / d
    };
    let df: u64 = pow_scaled(dist_base, weights.distance_pow);
    let w: u64 = nest.color_weights[target_color];
    let pher_base: u64 = if w < SCALE {
        SCALE
    } else {
        w
    };
    let pf: u64 = pow_scaled(pher_base, weights.pheromone_pow);
    let rec: u64 = recency_score(prev, nest.color);
    let visit_base: u64 = SCALE * SCALE / rec;
    proof {
        vstd::arithmetic::div_mod::lemma_div_is_ordered_by_denominator(
            (SCALE * SCALE) as int,
            SCALE as int,
            rec as int,
        );
    }
    let vf: u64 = pow_scaled(visit_base, weights.visited_pow);
    proof {
        assert(df as int * pf as int <= FACTOR_MAX as int * FACTOR_MAX as int)
            by (nonlinear_arith)
            requires
                0 <= df as int <= FACTOR_MAX as int,
                0 <= pf as int <= FACTOR_MAX as int,
        ;
    }
    let s1: u128 = (df as u128) * (pf as u128) / (SCALE as u128);
    let s1c: u64 = if s1 > FACTOR_MAX as u128 {
        FACTOR_MAX
    } else {
        s1 as u64
    };
    proof {
        assert(s1c as int * vf as int <= FACTOR_MAX as int * FACTOR_MAX as int)
            by (nonlinear_arith)
            requires
                0 <= s1c as int <= FACTOR_MAX as int,
                0 <= vf as int <= FACTOR_MAX as int,
        ;
    }
    let s2: u128 = (s1c as u128) * (vf as u128) / (SCALE as u128);
    let s2c: u64 = if s2 > FACTOR_MAX as u128 {
        FACTOR_MAX
    } else {
        s2 as u64
    };
    s2c
}

/// The score of every nest for the routing decision: the current nest
/// scores zero, every other nest its three-factor score.
pub fn compute_scores(
    ant_x: i64,
    ant_y: i64,
    nests: &NestNetwork,
    target_color: usize,
    prev: &VecDeque<usize>,
    weights: &DecisionWeights,
    current: usize,
) -> (scores: Vec<u64>)
    requires
        nests.wf(),
        target_color < nests.spec_len(),
        current < nests.spec_len(),
        prev@.len() <= MAX_NESTS + 1,
        -MAX_COORD <= ant_x <= MAX_COORD,
        -MAX_COORD <= ant_y <= MAX_COORD,
    ensures
        scores@.len() == nests.spec_len(),
        scores@[current as int] == 0,
        forall|i: int|
            0 <= i < scores@.len() && i != current ==> scores@[i] == spec_nest_score(
                ant_x as int,
                ant_y as int,
                nests.nests@[i],
                target_color as int,
                prev@,
                *weights,
            ),
        forall|i: int| 0 <= i < scores@.len() ==> scores@[i] <= FACTOR_MAX,
{
    let n: usize = nests.len();
    let mut scores: Vec<u64> = Vec::new();
    let mut i: usize = 0;
    while i < n
        invariant
            i <= n,
            n == nests.spec_len(),
            nests.wf(),
            target_color < n,
            current < n,
            prev@.len() <= MAX_NESTS + 1,
            -MAX_COORD <= ant_x <= MAX_COORD,
            -MAX_COORD <= ant_y <= MAX_COORD,
            scores@.len() == i,
            forall|j: int| 0 <= j < i && j == current ==> scores@[j] == 0,
            forall|j: int|
                0 <= j < i && j != current ==> scores@[j] == spec_nest_score(
                    ant_x as int,
                    ant_y as int,
                    nests.nests@[j],
                    target_color as int,
                    prev@,
                    *weights,
                ),
            forall|j: int| 0 <= j < i ==> scores@[j] <= FACTOR_MAX,
        decreases n - i,
    {
        if i == current {
            scores.push(0);
        } else {
            let s = nest_score(ant_x, ant_y, &nests.nests[i], target_color, prev, weights);
            scores.push(s);
        }
        i = i + 1;
    }
    scores
}

/// The total routing mass of a scores vector.
pub fn total_score(scores: &Vec<u64>) -> (t: u64)
    requires
        scores@.len() <= MAX_NESTS,
        forall|i: int| 0 <= i < scores@.len() ==> scores@[i] <= FACTOR_MAX,
    ensures
        t == sum_weights(scores@, scores@.len() as int),
{
    let mut t: u64 = 0;
    let n: usize = scores.len();
    let mut i: usize = 0;
    while i < n
        invariant
            i <= n,
            n == scores@.len(),
            n <= MAX_NESTS,
            forall|j: int| 0 <= j < n ==> scores@[j] <= FACTOR_MAX,
            t == sum_weights(scores@, i as int),
            t <= i * FACTOR_MAX,
        decreases n - i,
    {
        proof {
            assert(i * FACTOR_MAX + FACTOR_MAX == (i + 1) * FACTOR_MAX) by (nonlinear_arith);
            assert((i + 1) * FACTOR_MAX <= MAX_NESTS * FACTOR_MAX) by (nonlinear_arith)
                requires
                    i + 1 <= MAX_NESTS as int,
            ;
        }
        t = t + scores[i];
        i = i + 1;
    }
    t
}

/// Weighted random choice: given a draw `r` below the total mass, the
/// picked index is the one whose cumulative bracket contains `r`; its score
/// is necessarily positive, so a zero-scored index is never picked.
pub fn pick_weighted(scores: &Vec<u64>, r: u64) -> (i: usize)
    requires
        scores@.len() <= MAX_NESTS,
        forall|j: int| 0 <= j < scores@.len() ==> scores@[j] <= FACTOR_MAX,
        r < sum_weights(scores@, scores@.len() as int),
    ensures
        i < scores@.len(),
        scores@[i as int] > 0,
        sum_weights(scores@, i as int) <= r < sum_weights(scores@, i as int + 1),
{
    let mut acc: u64 = 0;
    let n: usize = scores.len();
    let mut i: usize = 0;
    proof {
        lemma_sum_bounded(scores@, n as int);
        assert(MAX_NESTS * FACTOR_MAX < u64::MAX - FACTOR_MAX) by (nonlinear_arith);
        assert(n as int * FACTOR_MAX <= MAX_NESTS * FACTOR_MAX) by (nonlinear_arith)
            requires
                n as int <= MAX_NESTS as int,
        ;
    }
    while i < n
        invariant
            i <= n,
            n == scores@.len(),
            n <= MAX_NESTS,
            forall|j: int| 0 <= j < n ==> scores@[j] <= FACTOR_MAX,
            r < sum_weights(scores@, n as int),
            sum_weights(scores@, n as int) <= n as int * FACTOR_MAX,
            n as int * FACTOR_MAX <= MAX_NESTS * FACTOR_MAX,
            MAX_NESTS * FACTOR_MAX < u64::MAX - FACTOR_MAX,
            acc == sum_weights(scores@, i as int),
            acc <= r,
        decreases n - i,
    {
        let sc: u64 = scores[i];
        if r < acc + sc {
            return i;
        }
        acc = acc + sc;
        i = i + 1;
    }
    proof {
        assert(false);
    }
    0
}

/// One routing decision for an ant sitting at a nest.
///
/// Every other nest is scored; the current nest scores zero; a destination
/// is sampled by weighted random choice. When all scores are zero
/// (numerically degenerate), nothing is mutated and `None` comes back, so
/// the ant simply retries next tick. Otherwise the chosen nest is a valid
/// id different from the current nest, the ant turns hard toward it, the
/// departed nest records traffic for the ant's parent resource, and the ant
/// goes into transit.
pub fn route_ant(
    ant: &mut Ant,
    nests: &mut NestNetwork,
    ant_x: i64,
    ant_y: i64,
    weights: &DecisionWeights,
    params: &PheromoneParams,
) -> (chosen: Option<usize>)
    requires
        old(nests).wf(),
        old(ant).wf(old(nests).spec_len()),
        old(ant).current_nest is Some,
        old(ant).steps < usize::MAX,
        -MAX_COORD <= ant_x <= MAX_COORD,
        -MAX_COORD <= ant_y <= MAX_COORD,
    ensures
        final(nests).wf(),
        final(nests).spec_len() == old(nests).spec_len(),
        final(ant).wf(final(nests).spec_len()),
        match chosen {
            None => {
                &&& *final(ant) == *old(ant)
                &&& *final(nests) == *old(nests)
                &&& spec_total_score(
                    ant_x as int,
                    ant_y as int,
                    old(nests).nests@,
                    old(ant).target_color as int,
                    old(ant).prev_nests@,
                    *weights,
                    old(ant).current_nest.unwrap() as int,
                    old(nests).spec_len(),
                ) == 0
            },
            Some(next) => {
                &&& (next as int) < old(nests).spec_len()
                &&& next != old(ant).current_nest.unwrap()
                &&& spec_total_score(
                    ant_x as int,
                    ant_y as int,
                    old(nests).nests@,
                    old(ant).target_color as int,
                    old(ant).prev_nests@,
                    *weights,
                    old(ant).current_nest.unwrap() as int,
                    old(nests).spec_len(),
                ) > 0
                &&& spec_nest_score(
                    ant_x as int,
                    ant_y as int,
                    old(nests).nests@[next as int],
                    old(ant).target_color as int,
                    old(ant).prev_nests@,
                    *weights,
                ) > 0
                &&& final(ant).current_nest is None
                &&& final(ant).target_color == old(ant).target_color
                &&& final(ant).parent_color == old(ant).parent_color
                &&& final(ant).carrying_food == old(ant).carrying_food
                &&& final(ant).steps == old(ant).steps + 1
                &&& final(ant).orientation == final(ant).target_orientation
                &&& final(ant).orientation == spec_heading(
                    old(nests).nests@[next as int].loc.0 - ant_x,
                    old(nests).nests@[next as int].loc.1 - ant_y,
                )
                &&& final(ant).prev_nests@ == (if old(nests).spec_len() <= old(
                    ant,
                ).prev_nests@.len() {
                    old(ant).prev_nests@.subrange(0, old(nests).spec_len())
                } else {
                    old(ant).prev_nests@
                })
                &&& forall|j: int|
                    0 <= j < old(nests).spec_len() && j != old(ant).current_nest.unwrap()
                        ==> final(nests).nests@[j] == old(nests).nests@[j]
                &&& final(nests).nests@[old(ant).current_nest.unwrap() as int].color_weights@
                    == old(nests).nests@[old(ant).current_nest.unwrap() as int].color_weights@.update(
                    old(ant).parent_color as int,
                    add_clamped(
                        old(nests).nests@[old(ant).current_nest.unwrap() as int].color_weights@[
                            old(ant).parent_color as int
                        ],
                        params.nest_step,
                    ),
                )
            },
        },
{
    let n: usize = nests.len();
    let current: usize = ant.current_nest.unwrap();
    let scores = compute_scores(
        ant_x,
        ant_y,
        nests,
        ant.target_color,
        &ant.prev_nests,
        weights,
        current,
    );
    let total: u64 = total_score(&scores);
    proof {
        lemma_scores_sum(
            scores@,
            ant_x as int,
            ant_y as int,
            nests.nests@,
            ant.target_color as int,
            ant.prev_nests@,
            *weights,
            current as int,
            n as int,
        );
    }
    if total == 0 {
        return None;
    }
    let r: u64 = random_below(total);
    let next: usize = pick_weighted(&scores, r);
    let next_loc: (i64, i64) = nests.nests[next].loc;
    let h: u32 = heading(next_loc.0 - ant_x, next_loc.1 - ant_y);
    ant.rotate_hard(h);
    let parent: usize = ant.parent_color;
    nests.step_pheromone(current, parent, params.nest_step);
    ant.leave_nest(n);
    Some(next)
}

} // verus!
