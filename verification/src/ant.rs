//! The per-agent state machine: which resource an ant seeks, which it last
//! departed from, whether it carries food, its orientation, and its bounded
//! most-recent-first memory of visited nests.

use std::collections::VecDeque;
use vstd::prelude::*;
use crate::angle::spec_norm;
use crate::rng::random_below;
use crate::{MAX_NESTS, TURN};

verus! {

/// One simulated ant.
pub struct Ant {
    /// The resource colour currently sought.
    pub target_color: usize,
    /// The resource colour last departed from.
    pub parent_color: usize,
    /// Whether the ant carries food back toward its parent nest.
    pub carrying_food: bool,
    /// Current orientation, in angle units in `[0, TURN)`.
    pub orientation: u32,
    /// Orientation the ant is turning toward, in `[0, TURN)`.
    pub target_orientation: u32,
    /// `Some(nest)` while at a nest awaiting a routing decision, `None`
    /// while in transit between nests.
    pub current_nest: Option<usize>,
    /// Visited nests, most recent first; never empty, bounded by the network
    /// size plus the nest the ant currently sits at.
    pub prev_nests: VecDeque<usize>,
    /// Hops since the last completed resource cycle.
    pub steps: usize,
}

impl Ant {
    /// Structural invariant with respect to a network of `n` nests.
    pub open spec fn wf(&self, n: int) -> bool {
        &&& (self.target_color as int) < n
        &&& (self.parent_color as int) < n
        &&& self.orientation < TURN
        &&& self.target_orientation < TURN
        &&& 1 <= self.prev_nests@.len() <= n + 1
        &&& forall|i: int| 0 <= i < self.prev_nests@.len() ==> (self.prev_nests@[i] as int) < n
        &&& match self.current_nest {
            Some(c) => (c as int) < n,
            None => true,
        }
    }

    /// A freshly emitted ant at its parent nest, seeking `target_color`,
    /// with a randomized initial orientation.
    pub fn new(target_color: usize, parent_color: usize, num_nests: usize) -> (a: Ant)
        requires
            1 <= num_nests <= MAX_NESTS,
            target_color < num_nests,
            parent_color < num_nests,
        ensures
            a.wf(num_nests as int),
            a.target_color == target_color,
            a.parent_color == parent_color,
            !a.carrying_food,
            a.orientation == a.target_orientation,
            a.current_nest == Some(parent_color),
            a.prev_nests@ == seq![parent_color],
            a.steps == 0,
    {
        let angle: u32 = random_below(TURN as u64) as u32;
        let mut prev_nests: VecDeque<usize> = VecDeque::new();
        prev_nests.push_front(parent_color);
        proof {
            assert(prev_nests@ =~= seq![parent_color]);
        }
        Ant {
            target_color,
            parent_color,
            carrying_food: false,
            orientation: angle,
            target_orientation: angle,
            current_nest: Some(parent_color),
            prev_nests,
            steps: 0,
        }
    }

    /// Set the orientation the ant turns toward, reduced to `[0, TURN)`.
    pub fn set_target_orientation(&mut self, angle: u32)
        ensures
            *final(self) == (Ant {
                target_orientation: (spec_norm(angle as int) as u32),
                ..*old(self)
            }),
            final(self).target_orientation < TURN,
    {
        self.target_orientation = angle % TURN;
    }

    /// Set the current orientation, reduced to `[0, TURN)`.
    pub fn set_orientation(&mut self, angle: u32)
        ensures
            *final(self) == (Ant { orientation: (spec_norm(angle as int) as u32), ..*old(self) }),
            final(self).orientation < TURN,
    {
        self.orientation = angle % TURN;
    }

    /// Turn on the spot: current and target orientation both jump to
    /// `angle`, reduced to `[0, TURN)`.
    pub fn rotate_hard(&mut self, angle: u32)
        ensures
            *final(self) == (Ant {
                orientation: (spec_norm(angle as int) as u32),
                target_orientation: (spec_norm(angle as int) as u32),
                ..*old(self)
            }),
            final(self).orientation < TURN,
    {
        self.set_orientation(angle);
        self.set_target_orientation(angle);
    }

    /// Arrive at nest `color` while in transit: the nest goes to the front
    /// of the visited memory and becomes the current nest. Arriving while
    /// already at a nest would be an invariant violation, so it is ruled
    /// out.
    pub fn visit_nest(&mut self, color: usize)
        requires
            old(self).current_nest is None,
            old(self).prev_nests@.len() < usize::MAX,
        ensures
            *final(self) == (Ant {
                current_nest: Some(color),
                prev_nests: final(self).prev_nests,
                ..*old(self)
            }),
            final(self).prev_nests@ == seq![color] + old(self).prev_nests@,
    {
        self.prev_nests.push_front(color);
        self.current_nest = Some(color);
    }

    /// Depart the current nest: the visited memory is truncated to the
    /// network size, the ant goes into transit, and the hop count rises by
    /// one.
    pub fn leave_nest(&mut self, num_nests: usize)
        requires
            old(self).steps < usize::MAX,
        ensures
            *final(self) == (Ant {
                current_nest: None,
                prev_nests: final(self).prev_nests,
                steps: (old(self).steps + 1) as usize,
                ..*old(self)
            }),
            final(self).prev_nests@ == (if num_nests <= old(self).prev_nests@.len() {
                old(self).prev_nests@.subrange(0, num_nests as int)
            } else {
                old(self).prev_nests@
            }),
    {
        self.prev_nests.truncate(num_nests);
        self.current_nest = None;
        self.steps = self.steps + 1;
    }

    /// The most recently visited nest.
    pub fn prev_nest(&self) -> (r: usize)
        requires
            self.prev_nests@.len() >= 1,
        ensures
            r == self.prev_nests@[0],
    {
        self.prev_nests[0]
    }

    /// Boundary correction: discard the most recent memory entry (when more
    /// than one remains) and treat the ant as freshly arrived at its
    /// previous nest, so that routing picks a fresh destination next tick.
    pub fn pop_prev_nest(&mut self)
        requires
            old(self).prev_nests@.len() >= 1,
        ensures
            *final(self) == (Ant {
                current_nest: final(self).current_nest,
                prev_nests: final(self).prev_nests,
                ..*old(self)
            }),
            old(self).prev_nests@.len() >= 2 ==> {
                &&& final(self).prev_nests@ == old(self).prev_nests@.subrange(
                    1,
                    old(self).prev_nests@.len() as int,
                )
                &&& final(self).current_nest == Some(old(self).prev_nests@[1])
            },
            old(self).prev_nests@.len() == 1 ==> {
                &&& final(self).prev_nests@ == old(self).prev_nests@
                &&& final(self).current_nest == Some(old(self).prev_nests@[0])
            },
    {
        if self.prev_nests.len() >= 2 {
            self.prev_nests.pop_front();
        }
        let front = self.prev_nests[0];
        self.current_nest = Some(front);
    }

    /// Reset the round-trip memory: the hop count drops to zero and only the
    /// most recent visited nest is remembered.
    pub fn wipe_mem(&mut self)
        requires
            old(self).prev_nests@.len() >= 1,
        ensures
            *final(self) == (Ant {
                steps: 0,
                prev_nests: final(self).prev_nests,
                ..*old(self)
            }),
            final(self).prev_nests@ == old(self).prev_nests@.subrange(0, 1),
    {
        self.steps = 0;
        self.prev_nests.truncate(1);
    }
}

} // verus!
