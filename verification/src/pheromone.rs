//! A single pheromone cell: one clamped weight accumulator per resource
//! colour, local to one grid coordinate.

use vstd::prelude::*;
use crate::{MAX_NESTS, SCALE};

verus! {

/// Sum of the first `k` weights of a cell.
pub open spec fn sum_weights(s: Seq<u64>, k: int) -> int
    decreases k,
{
    if k <= 0 {
        0
    } else {
        sum_weights(s, k - 1) + s[k - 1]
    }
}

/// Total weight held in a cell; a cell is empty exactly when this is zero.
pub open spec fn total_weight(s: Seq<u64>) -> int {
    sum_weights(s, s.len() as int)
}

/// One weight after a deposit of `step`: addition clamped at `SCALE` (1.0).
pub open spec fn add_clamped(w: u64, step: u64) -> u64 {
    if w + step > SCALE {
        SCALE
    } else {
        (w + step) as u64
    }
}

/// One weight after a decay of `rate`: subtraction floored at zero.
pub open spec fn fade_weight(w: u64, rate: u64) -> u64 {
    if w > rate {
        (w - rate) as u64
    } else {
        0
    }
}

/// A whole weight vector after a decay of `rate`.
pub open spec fn fade_seq(s: Seq<u64>, rate: u64) -> Seq<u64> {
    Seq::new(s.len(), |i: int| fade_weight(s[i], rate))
}

/// Deposits keep every weight at or below `SCALE`, however many are made:
/// one step from a clamped weight stays clamped.
pub proof fn lemma_deposit_clamped(w: u64, step: u64)
    requires
        w <= SCALE,
    ensures
        add_clamped(w, step) <= SCALE,
{
}

/// A single deposit of `step` into an untouched (zero) weight yields exactly
/// `step`.
pub proof fn lemma_deposit_exact_from_zero(step: u64)
    requires
        step <= SCALE,
    ensures
        add_clamped(0, step) == step,
{
}

/// Two deposits into one weight land on the same value in either order:
/// clamped addition is commutative (and associative in the same way), so
/// per-tick deposits may be merged in any order — a single mutable pass and
/// an accumulation buffer agree.
pub proof fn lemma_deposit_commutes(w: u64, a: u64, b: u64)
    ensures
        add_clamped(add_clamped(w, a), b) == add_clamped(add_clamped(w, b), a),
{
}

/// Decay never drives a weight negative, and a weight already at the zero
/// floor stays there under any further decay.
pub proof fn lemma_decay_floor(s: Seq<u64>, rate: u64)
    ensures
        forall|i: int| 0 <= i < s.len() ==> fade_seq(s, rate)[i] >= 0,
        forall|i: int| 0 <= i < s.len() && s[i] == 0 ==> fade_seq(s, rate)[i] == 0,
{
}

/// Pheromone state at one grid cell: a weight in `[0, SCALE]` for each
/// resource colour.
pub struct Pheromone {
    /// Accumulated trail weight per resource colour.
    pub weights: Vec<u64>,
    /// Grid coordinate of the cell that holds this state.
    pub loc: (u32, u32),
}

impl Pheromone {
    /// Every weight is clamped and the vector is small enough to sum without
    /// overflow.
    pub open spec fn wf(&self) -> bool {
        &&& self.weights@.len() <= MAX_NESTS
        &&& forall|i: int| 0 <= i < self.weights@.len() ==> self.weights@[i] <= SCALE
    }

    /// A fresh, all-zero cell at `loc`.
    pub fn new(num_colors: usize, loc: (u32, u32)) -> (p: Pheromone)
        requires
            num_colors <= MAX_NESTS,
        ensures
            p.wf(),
            p.loc == loc,
            p.weights@.len() == num_colors,
            forall|i: int| 0 <= i < num_colors ==> p.weights@[i] == 0,
            total_weight(p.weights@) == 0,
    {
        let mut weights: Vec<u64> = Vec::new();
        let mut i: usize = 0;
        while i < num_colors
            invariant
                i <= num_colors,
                weights@.len() == i,
                forall|j: int| 0 <= j < i ==> weights@[j] == 0,
            decreases num_colors - i,
        {
            weights.push(0);
            i = i + 1;
        }
        proof {
            lemma_sum_zero(weights@, weights@.len() as int);
        }
        Pheromone { weights, loc }
    }

    /// Deposit `step` units of trail for `color`, clamped at `SCALE`.
    pub fn add_trail(&mut self, color: usize, step: u64)
        requires
            old(self).wf(),
            color < old(self).weights@.len(),
        ensures
            final(self).wf(),
            final(self).loc == old(self).loc,
            final(self).weights@ == old(self).weights@.update(
                color as int,
                add_clamped(old(self).weights@[color as int], step),
            ),
    {
        let w: u64 = self.weights[color];
        let stepped: u64 = if step > SCALE || w + step > SCALE {
            SCALE
        } else {
            w + step
        };
        self.weights.set(color, stepped);
    }

    /// True exactly when every weight is zero (the cell carries no trail).
    pub fn is_empty(&self) -> (r: bool)
        requires
            self.wf(),
        ensures
            r <==> total_weight(self.weights@) == 0,
    {
        let mut total: u64 = 0;
        let mut i: usize = 0;
        let n: usize = self.weights.len();
        while i < n
            invariant
                i <= n,
                n == self.weights@.len(),
                self.wf(),
                total == sum_weights(self.weights@, i as int),
                total <= i * SCALE,
            decreases n - i,
        {
            assert(self.weights@[i as int] <= SCALE);
            assert(i * SCALE + SCALE == (i + 1) * SCALE) by (nonlinear_arith);
            assert((i + 1) * SCALE <= MAX_NESTS * SCALE) by (nonlinear_arith)
                requires i + 1 <= MAX_NESTS as int && SCALE as int > 0,
            ;
            total = total + self.weights[i];
            i = i + 1;
        }
        total == 0
    }

    /// The colour with the greatest weight; ties go to the lowest index, so
    /// the answer is deterministic.
    pub fn most_prominent(&self) -> (r: usize)
        requires
            self.weights@.len() > 0,
        ensures
            r < self.weights@.len(),
            forall|i: int|
                0 <= i < self.weights@.len() ==> self.weights@[i] <= self.weights@[r as int],
            forall|i: int| 0 <= i < r ==> self.weights@[i] < self.weights@[r as int],
    {
        let mut best: usize = 0;
        let mut i: usize = 1;
        let n: usize = self.weights.len();
        while i < n
            invariant
                best < i <= n,
                n == self.weights@.len(),
                forall|j: int| 0 <= j < i ==> self.weights@[j] <= self.weights@[best as int],
                forall|j: int| 0 <= j < best ==> self.weights@[j] < self.weights@[best as int],
            decreases n - i,
        {
            if self.weights[i] > self.weights[best] {
                best = i;
            }
            i = i + 1;
        }
        best
    }

    /// Decay every weight by `rate`, floored at zero.
    pub fn fade(&mut self, rate: u64)
        requires
            old(self).wf(),
        ensures
            final(self).wf(),
            final(self).loc == old(self).loc,
            final(self).weights@ == fade_seq(old(self).weights@, rate),
    {
        let mut i: usize = 0;
        let n: usize = self.weights.len();
        while i < n
            invariant
                i <= n,
                n == self.weights@.len(),
                self.loc == old(self).loc,
                self.weights@.len() == old(self).weights@.len(),
                forall|j: int| 0 <= j < i ==> self.weights@[j] == fade_weight(old(self).weights@[j], rate),
                forall|j: int| i <= j < n ==> self.weights@[j] == old(self).weights@[j],
            decreases n - i,
    {
            let w: u64 = self.weights[i];
            let faded: u64 = if w > rate {
                w - rate
            } else {
                0
            };
            self.weights.set(i, faded);
            i = i + 1;
        }
        proof {
            assert(self.weights@ =~= fade_seq(old(self).weights@, rate));
            assert(forall|j: int|
                0 <= j < self.weights@.len() ==> self.weights@[j] <= old(self).weights@[j]);
        }
    }
}

/// An all-zero prefix sums to zero.
pub proof fn lemma_sum_zero(s: Seq<u64>, k: int)
    requires
        0 <= k <= s.len(),
        forall|i: int| 0 <= i < k ==> s[i] == 0,
    ensures
        sum_weights(s, k) == 0,
    decreases k,
{
    if k > 0 {
        lemma_sum_zero(s, k - 1);
    }
}

} // verus!
