//! Nests: the fixed network of resource nodes. Each nest owns a world
//! location and one clamped pheromone-weight accumulator per resource colour
//! ("local memory" of recent traffic).

use vstd::prelude::*;
use crate::pheromone::{add_clamped, fade_seq};
use crate::{MAX_COORD, MAX_NESTS, SCALE};

verus! {

/// One resource node of the network.
pub struct Nest {
    /// The resource colour this nest provides; doubles as its index in the
    /// network.
    pub color: usize,
    /// Accumulated pheromone weight per resource colour, each in
    /// `[0, SCALE]`.
    pub color_weights: Vec<u64>,
    /// World location of the nest.
    pub loc: (i64, i64),
}

impl Nest {
    /// Structural invariant: clamped weights, a location the world covers.
    pub open spec fn wf(&self) -> bool {
        &&& self.color_weights@.len() <= MAX_NESTS
        &&& forall|i: int| 0 <= i < self.color_weights@.len() ==> self.color_weights@[i] <= SCALE
        &&& -MAX_COORD <= self.loc.0 <= MAX_COORD
        &&& -MAX_COORD <= self.loc.1 <= MAX_COORD
    }

    /// A fresh nest with all-zero traffic memory.
    pub fn new(color: usize, loc: (i64, i64), num_colors: usize) -> (n: Nest)
        requires
            num_colors <= MAX_NESTS,
            -MAX_COORD <= loc.0 <= MAX_COORD,
            -MAX_COORD <= loc.1 <= MAX_COORD,
        ensures
            n.wf(),
            n.color == color,
            n.loc == loc,
            n.color_weights@.len() == num_colors,
            forall|i: int| 0 <= i < num_colors ==> n.color_weights@[i] == 0,
    {
        let mut color_weights: Vec<u64> = Vec::new();
        let mut i: usize = 0;
        while i < num_colors
            invariant
                i <= num_colors,
                color_weights@.len() == i,
                forall|j: int| 0 <= j < i ==> color_weights@[j] == 0,
            decreases num_colors - i,
        {
            color_weights.push(0);
            i = i + 1;
        }
        Nest { color, color_weights, loc }
    }

    /// Add `step` to this nest's weight for `color`, clamped at `SCALE`.
    pub fn step_pheromone(&mut self, color: usize, step: u64)
        requires
            old(self).wf(),
            color < old(self).color_weights@.len(),
        ensures
            final(self).wf(),
            final(self).color == old(self).color,
            final(self).loc == old(self).loc,
            final(self).color_weights@ == old(self).color_weights@.update(
                color as int,
                add_clamped(old(self).color_weights@[color as int], step),
            ),
    {
        let w: u64 = self.color_weights[color];
        let stepped: u64 = if step > SCALE || w + step > SCALE {
            SCALE
        } else {
            w + step
        };
        self.color_weights.set(color, stepped);
    }

    /// Record traffic for both the sought and the departed resource colour.
    pub fn step_pheromones(&mut self, target_color: usize, parent_color: usize, step: u64)
        requires
            old(self).wf(),
            target_color < old(self).color_weights@.len(),
            parent_color < old(self).color_weights@.len(),
        ensures
            final(self).wf(),
            final(self).color == old(self).color,
            final(self).loc == old(self).loc,
            final(self).color_weights@ == old(self).color_weights@.update(
                target_color as int,
                add_clamped(old(self).color_weights@[target_color as int], step),
            ).update(
                parent_color as int,
                add_clamped(
                    old(self).color_weights@.update(
                        target_color as int,
                        add_clamped(old(self).color_weights@[target_color as int], step),
                    )[parent_color as int],
                    step,
                ),
            ),
    {
        self.step_pheromone(target_color, step);
        self.step_pheromone(parent_color, step);
    }

    /// Decay every weight of this nest by `rate`, floored at zero. Nests are
    /// never removed, however far their memory fades.
    pub fn fade(&mut self, rate: u64)
        requires
            old(self).wf(),
        ensures
            final(self).wf(),
            final(self).color == old(self).color,
            final(self).loc == old(self).loc,
            final(self).color_weights@ == fade_seq(old(self).color_weights@, rate),
    {
        let mut i: usize = 0;
        let n: usize = self.color_weights.len();
        while i < n
            invariant
                i <= n,
                n == self.color_weights@.len(),
                self.color == old(self).color,
                self.loc == old(self).loc,
                self.color_weights@.len() == old(self).color_weights@.len(),
                forall|j: int|
                    0 <= j < i ==> self.color_weights@[j] == fade_seq(
                        old(self).color_weights@,
                        rate,
                    )[j],
                forall|j: int| i <= j < n ==> self.color_weights@[j] == old(self).color_weights@[j],
            decreases n - i,
        {
            let w: u64 = self.color_weights[i];
            let faded: u64 = if w > rate {
                w - rate
            } else {
                0
            };
            self.color_weights.set(i, faded);
            i = i + 1;
        }
        proof {
            assert(self.color_weights@ =~= fade_seq(old(self).color_weights@, rate));
            assert(forall|j: int|
                0 <= j < self.color_weights@.len() ==> self.color_weights@[j] <= old(
                    self,
                ).color_weights@[j]);
        }
    }
}

/// The fixed network of nests: nest `i` provides resource colour `i`, so a
/// resource colour is looked up in constant time by indexing.
pub struct NestNetwork {
    /// The nests, indexed by their resource colour.
    pub nests: Vec<Nest>,
}

impl NestNetwork {
    /// Structural invariant: at least one nest, each at its colour's index,
    /// each with one weight per colour of the network.
    pub open spec fn wf(&self) -> bool {
        &&& 1 <= self.nests@.len() <= MAX_NESTS
        &&& forall|i: int| 0 <= i < self.nests@.len() ==> (#[trigger] self.nests@[i]).wf()
        &&& forall|i: int| 0 <= i < self.nests@.len() ==> (#[trigger] self.nests@[i]).color == i
        &&& forall|i: int|
            0 <= i < self.nests@.len() ==> (#[trigger] self.nests@[i]).color_weights@.len()
                == self.nests@.len()
    }

    /// Number of nests (and of resource colours).
    pub open spec fn spec_len(&self) -> int {
        self.nests@.len() as int
    }

    /// Build the network from the configured nest locations, one per
    /// resource colour, with all traffic memory zero. A network of zero
    /// nests is a configuration error and is ruled out.
    pub fn new(locs: &Vec<(i64, i64)>) -> (net: NestNetwork)
        requires
            1 <= locs@.len() <= MAX_NESTS,
            forall|i: int|
                0 <= i < locs@.len() ==> -MAX_COORD <= (#[trigger] locs@[i]).0 <= MAX_COORD
                    && -MAX_COORD <= locs@[i].1 <= MAX_COORD,
        ensures
            net.wf(),
            net.nests@.len() == locs@.len(),
            forall|i: int| 0 <= i < locs@.len() ==> (#[trigger] net.nests@[i]).loc == locs@[i],
            forall|i: int, c: int|
                0 <= i < locs@.len() && 0 <= c < locs@.len() ==> (#[trigger] net.nests@[i]
                    .color_weights@[c]) == 0,
    {
        let n: usize = locs.len();
        let mut nests: Vec<Nest> = Vec::new();
        let mut i: usize = 0;
        while i < n
            invariant
                i <= n,
                n == locs@.len(),
                1 <= n <= MAX_NESTS,
                forall|k: int|
                    0 <= k < n ==> -MAX_COORD <= (#[trigger] locs@[k]).0 <= MAX_COORD && -MAX_COORD
                        <= locs@[k].1 <= MAX_COORD,
                nests@.len() == i,
                forall|k: int| 0 <= k < i ==> (#[trigger] nests@[k]).wf(),
                forall|k: int| 0 <= k < i ==> (#[trigger] nests@[k]).color == k,
                forall|k: int|
                    0 <= k < i ==> (#[trigger] nests@[k]).color_weights@.len() == n,
                forall|k: int| 0 <= k < i ==> (#[trigger] nests@[k]).loc == locs@[k],
                forall|k: int, c: int|
                    0 <= k < i && 0 <= c < n ==> (#[trigger] nests@[k].color_weights@[c]) == 0,
            decreases n - i,
        {
            let nest = Nest::new(i, locs[i], n);
            nests.push(nest);
            i = i + 1;
        }
        NestNetwork { nests }
    }

    /// Number of nests in the network.
    pub fn len(&self) -> (n: usize)
        ensures
            n == self.spec_len(),
    {
        self.nests.len()
    }

    /// Add `step` traffic for `color` to nest `nest_id`, clamped at `SCALE`;
    /// every other nest is untouched.
    pub fn step_pheromone(&mut self, nest_id: usize, color: usize, step: u64)
        requires
            old(self).wf(),
            nest_id < old(self).spec_len(),
            color < old(self).spec_len(),
        ensures
            final(self).wf(),
            final(self).spec_len() == old(self).spec_len(),
            forall|j: int|
                0 <= j < old(self).spec_len() && j != nest_id ==> final(self).nests@[j] == old(
                    self,
                ).nests@[j],
            final(self).nests@[nest_id as int].color == nest_id,
            final(self).nests@[nest_id as int].loc == old(self).nests@[nest_id as int].loc,
            final(self).nests@[nest_id as int].color_weights@ == old(self).nests@[
                nest_id as int
            ].color_weights@.update(
                color as int,
                add_clamped(
                    old(self).nests@[nest_id as int].color_weights@[color as int],
                    step,
                ),
            ),
    {
        let mut nest = self.nests.remove(nest_id);
        nest.step_pheromone(color, step);
        self.nests.insert(nest_id, nest);
        proof {
            assert(self.nests@ =~= old(self).nests@.update(nest_id as int, nest));
        }
    }

    /// Decay every nest's every weight by `rate`, floored at zero.
    #[verifier::loop_isolation(false)]
    pub fn fade(&mut self, rate: u64)
        requires
            old(self).wf(),
        ensures
            final(self).wf(),
            final(self).spec_len() == old(self).spec_len(),
            forall|j: int|
                0 <= j < old(self).spec_len() ==> {
                    &&& (#[trigger] final(self).nests@[j]).color == old(self).nests@[j].color
                    &&& final(self).nests@[j].loc == old(self).nests@[j].loc
                    &&& final(self).nests@[j].color_weights@ == fade_seq(
                        old(self).nests@[j].color_weights@,
                        rate,
                    )
                },
    {
        let n: usize = self.nests.len();
        let mut i: usize = 0;
        while i < n
            invariant
                i <= n,
                self.nests@.len() == n,
                forall|j: int|
                    0 <= j < i ==> (#[trigger] self.nests@[j]).color == old(self).nests@[j].color
                        && self.nests@[j].loc == old(self).nests@[j].loc && self.nests@[j].wf()
                        && self.nests@[j].color_weights@ == fade_seq(
                        old(self).nests@[j].color_weights@,
                        rate,
                    ),
                forall|j: int| i <= j < n ==> self.nests@[j] == old(self).nests@[j],
            decreases n - i,
        {
            let ghost pre = self.nests@;
            let mut nest = self.nests.remove(i);
            nest.fade(rate);
            self.nests.insert(i, nest);
            proof {
                assert(self.nests@ =~= pre.update(i as int, nest));
            }
            i = i + 1;
        }
    }
}

} // verus!
