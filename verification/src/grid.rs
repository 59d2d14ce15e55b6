//! The sparse pheromone grid: a mapping from grid-cell coordinates to
//! pheromone cells. Cells are created lazily on the first deposit at a
//! coordinate and evicted once decay empties them; an absent coordinate means
//! an all-zero cell.

use vstd::prelude::*;
use crate::pheromone::{
    add_clamped, fade_seq, total_weight, Pheromone,
};
use crate::{MAX_COORD, MAX_NESTS};

verus! {

/// No two stored cells share a grid coordinate.
pub open spec fn unique_locs(s: Seq<Pheromone>) -> bool {
    forall|i: int, j: int| 0 <= i < j < s.len() ==> s[i].loc != s[j].loc
}

/// Some stored cell sits at coordinate `c`.
pub open spec fn has_cell(s: Seq<Pheromone>, c: (u32, u32)) -> bool {
    exists|i: int| 0 <= i < s.len() && s[i].loc == c
}

/// The weight vector of the stored cell at `c` (meaningful when `has_cell`
/// holds and the coordinates are unique).
pub open spec fn cell_weights(s: Seq<Pheromone>, c: (u32, u32)) -> Seq<u64> {
    let i = choose|i: int| 0 <= i < s.len() && s[i].loc == c;
    s[i].weights@
}

/// The all-zero weight vector an absent coordinate stands for.
pub open spec fn zero_weights(n: int) -> Seq<u64> {
    Seq::new(n as nat, |i: int| 0u64)
}

/// What a coordinate holds: its cell's weights, or all zeros when absent.
pub open spec fn cell_or_zero(s: Seq<Pheromone>, c: (u32, u32), n: int) -> Seq<u64> {
    if has_cell(s, c) {
        cell_weights(s, c)
    } else {
        zero_weights(n)
    }
}

/// A weight vector after depositing `step` for `color`.
pub open spec fn deposited(w: Seq<u64>, color: int, step: u64) -> Seq<u64> {
    w.update(color, add_clamped(w[color], step))
}

/// The grid-axis coordinate of the cell containing world coordinate `p`:
/// offset by half the world extent, then divided by the granularity.
pub open spec fn spec_cell_of(p: int, half: int, g: int) -> int {
    (p + half) / g
}

/// Grid-coordinate stability: the cell mapping is a pure function of the
/// world point, so the same point always yields the same coordinate, and
/// any two points inside the same granularity-aligned block along an axis
/// map to the same coordinate on that axis — `k`th block, `k`th coordinate.
pub proof fn lemma_cell_of_stable(p1: int, p2: int, half: int, g: int, k: int)
    requires
        g >= 1,
        k * g <= p1 + half < (k + 1) * g,
        k * g <= p2 + half < (k + 1) * g,
    ensures
        spec_cell_of(p1, half, g) == k,
        spec_cell_of(p1, half, g) == spec_cell_of(p2, half, g),
{
    let r1 = p1 + half - k * g;
    assert(p1 + half == k * g + r1);
    assert(r1 < g) by (nonlinear_arith)
        requires p1 + half < (k + 1) * g && r1 == p1 + half - k * g,
    ;
    vstd::arithmetic::div_mod::lemma_fundamental_div_mod_converse_div(p1 + half, g, k, r1);
    let r2 = p2 + half - k * g;
    assert(r2 < g) by (nonlinear_arith)
        requires p2 + half < (k + 1) * g && r2 == p2 + half - k * g,
    ;
    vstd::arithmetic::div_mod::lemma_fundamental_div_mod_converse_div(p2 + half, g, k, r2);
}

/// With unique coordinates, the cell found at index `i` is the one that
/// `cell_weights` speaks of.
pub proof fn lemma_cell_weights_at(s: Seq<Pheromone>, i: int)
    requires
        unique_locs(s),
        0 <= i < s.len(),
    ensures
        has_cell(s, s[i].loc),
        cell_weights(s, s[i].loc) == s[i].weights@,
{
    assert(has_cell(s, s[i].loc));
    let j = choose|j: int| 0 <= j < s.len() && s[j].loc == s[i].loc;
    if j != i {
        if j < i {
            assert(s[j].loc != s[i].loc);
        } else {
            assert(s[i].loc != s[j].loc);
        }
    }
}

/// Pushing a cell at a fresh coordinate adds exactly that coordinate and
/// leaves every other coordinate as it was.
pub proof fn lemma_push_cell(s: Seq<Pheromone>, cell: Pheromone)
    requires
        unique_locs(s),
        !has_cell(s, cell.loc),
    ensures
        unique_locs(s.push(cell)),
        has_cell(s.push(cell), cell.loc),
        cell_weights(s.push(cell), cell.loc) == cell.weights@,
        forall|d: (u32, u32)| d != cell.loc ==> has_cell(s.push(cell), d) == has_cell(s, d),
        forall|d: (u32, u32)|
            d != cell.loc && has_cell(s, d) ==> cell_weights(s.push(cell), d) == cell_weights(
                s,
                d,
            ),
{
    let s2 = s.push(cell);
    assert(forall|j: int| 0 <= j < s.len() ==> s2[j] == s[j]);
    assert(s2[s.len() as int] == cell);
    assert forall|i: int, j: int| 0 <= i < j < s2.len() implies s2[i].loc != s2[j].loc by {
        if j < s.len() {
        } else {
            assert(s2[j] == cell);
            if s2[i].loc == cell.loc {
                assert(has_cell(s, cell.loc));
            }
        }
    }
    lemma_cell_weights_at(s2, s.len() as int);
    assert forall|d: (u32, u32)| d != cell.loc implies has_cell(s2, d) == has_cell(s, d) by {
        if has_cell(s2, d) {
            let i = choose|i: int| 0 <= i < s2.len() && s2[i].loc == d;
            assert(i < s.len());
            assert(has_cell(s, d));
        }
        if has_cell(s, d) {
            let i = choose|i: int| 0 <= i < s.len() && s[i].loc == d;
            assert(s2[i].loc == d);
            assert(has_cell(s2, d));
        }
    }
    assert forall|d: (u32, u32)| d != cell.loc && has_cell(s, d) implies cell_weights(s2, d)
        == cell_weights(s, d) by {
        let i = choose|i: int| 0 <= i < s.len() && s[i].loc == d;
        lemma_cell_weights_at(s, i);
        assert(s2[i].loc == d);
        lemma_cell_weights_at(s2, i);
    }
}

/// Replacing the cell at index `i` by one with the same coordinate (through a
/// swap-remove followed by a push) rewrites that coordinate's weights and
/// leaves every other coordinate as it was.
pub proof fn lemma_replace_cell(s: Seq<Pheromone>, i: int, cell: Pheromone)
    requires
        unique_locs(s),
        0 <= i < s.len(),
        cell.loc == s[i].loc,
    ensures
        unique_locs(s.update(i, s.last()).drop_last().push(cell)),
        has_cell(s.update(i, s.last()).drop_last().push(cell), cell.loc),
        cell_weights(s.update(i, s.last()).drop_last().push(cell), cell.loc) == cell.weights@,
        forall|d: (u32, u32)|
            d != cell.loc ==> has_cell(s.update(i, s.last()).drop_last().push(cell), d)
                == has_cell(s, d),
        forall|d: (u32, u32)|
            d != cell.loc && has_cell(s, d) ==> cell_weights(
                s.update(i, s.last()).drop_last().push(cell),
                d,
            ) == cell_weights(s, d),
        s.update(i, s.last()).drop_last().push(cell).len() == s.len(),
        forall|j: int|
            0 <= j < s.len() ==> (#[trigger] s.update(i, s.last()).drop_last().push(cell)[j]
                == cell || exists|k: int|
                0 <= k < s.len() && s.update(i, s.last()).drop_last().push(cell)[j] == s[k]),
{
    let last = s.len() - 1;
    let s1 = s.update(i, s.last()).drop_last();
    let s2 = s1.push(cell);
    assert(s1.len() == last);
    assert(forall|j: int|
        0 <= j < last ==> s1[j] == (if j == i {
            s[last]
        } else {
            s[j]
        }));
    // s1 keeps coordinates distinct: its members are members of s at distinct
    // positions, none of them position i when i < last.
    assert forall|p: int, q: int| 0 <= p < q < s1.len() implies s1[p].loc != s1[q].loc by {
        if p == i {
            assert(s1[p] == s[last] && s1[q] == s[q] && q != last);
        } else if q == i {
            assert(s1[q] == s[last] && s1[p] == s[p] && p != last);
        } else {
            assert(s1[p] == s[p] && s1[q] == s[q]);
        }
    }
    // the replaced coordinate is gone from s1
    assert forall|j: int| 0 <= j < s1.len() implies s1[j].loc != cell.loc by {
        if j == i {
            assert(s1[j] == s[last]);
            assert(i < last ==> s[i].loc != s[last].loc);
        } else {
            assert(s1[j] == s[j]);
        }
    }
    assert(!has_cell(s1, cell.loc));
    lemma_push_cell(s1, cell);
    // coordinates other than the replaced one keep their presence and weights
    assert forall|d: (u32, u32)| d != cell.loc implies has_cell(s1, d) == has_cell(s, d) by {
        if has_cell(s1, d) {
            let j = choose|j: int| 0 <= j < s1.len() && s1[j].loc == d;
            if j == i {
                assert(s[last].loc == d);
            } else {
                assert(s[j].loc == d);
            }
            assert(has_cell(s, d));
        }
        if has_cell(s, d) {
            let j = choose|j: int| 0 <= j < s.len() && s[j].loc == d;
            assert(j != i);
            if j == last {
                assert(i < last);
                assert(s1[i].loc == d);
            } else {
                assert(s1[j].loc == d);
            }
            assert(has_cell(s1, d));
        }
    }
    assert forall|d: (u32, u32)| d != cell.loc && has_cell(s, d) implies cell_weights(s1, d)
        == cell_weights(s, d) by {
        let j = choose|j: int| 0 <= j < s.len() && s[j].loc == d;
        lemma_cell_weights_at(s, j);
        assert(j != i);
        if j == last {
            assert(i < last);
            assert(s1[i] == s[last]);
            lemma_cell_weights_at(s1, i);
        } else {
            assert(s1[j] == s[j]);
            lemma_cell_weights_at(s1, j);
        }
    }
    assert forall|j: int| 0 <= j < s.len() implies (#[trigger] s2[j] == cell || exists|k: int|
        0 <= k < s.len() && s2[j] == s[k]) by {
        if j < last {
            if j == i {
                assert(s2[j] == s[last]);
            } else {
                assert(s2[j] == s[j]);
            }
        } else {
            assert(s2[j] == cell);
        }
    }
}

/// The sparse spatial pheromone store.
///
/// World coordinates map to grid coordinates by offsetting with half the
/// world extent (so the world origin sits at the grid centre) and dividing by
/// the cell granularity.
pub struct PheromoneManager {
    /// Number of grid cells along x and y.
    pub grid_dims: (u32, u32),
    /// World extent (width, height) covered by the grid, in world units.
    pub win: (u32, u32),
    /// Side length of one grid cell, in world units.
    pub granularity: u32,
    /// Number of resource colours each cell accumulates.
    pub num_colors: usize,
    /// The stored cells; coordinates are unique, absent ones are all-zero.
    pub cells: Vec<Pheromone>,
}

impl PheromoneManager {
    /// Structural invariant of the store.
    pub open spec fn wf(&self) -> bool {
        &&& self.granularity >= 1
        &&& 1 <= self.num_colors <= MAX_NESTS
        &&& self.grid_dims.0 == self.win.0 as int / self.granularity as int
        &&& self.grid_dims.1 == self.win.1 as int / self.granularity as int
        &&& unique_locs(self.cells@)
        &&& forall|i: int| 0 <= i < self.cells@.len() ==> (#[trigger] self.cells@[i]).wf()
        &&& forall|i: int|
            0 <= i < self.cells@.len() ==> (#[trigger] self.cells@[i]).weights@.len()
                == self.num_colors
        &&& forall|i: int|
            0 <= i < self.cells@.len() ==> (#[trigger] self.cells@[i]).loc.0 < self.grid_dims.0
                && self.cells@[i].loc.1 < self.grid_dims.1
    }

    /// A world point the grid covers: after the half-extent offset both
    /// coordinates fall inside the covered region.
    pub open spec fn in_bounds(&self, x: int, y: int) -> bool {
        &&& 0 <= x + self.win.0 as int / 2 < self.grid_dims.0 as int * self.granularity as int
        &&& 0 <= y + self.win.1 as int / 2 < self.grid_dims.1 as int * self.granularity as int
    }

    /// The grid coordinate of the cell containing world point `(x, y)`.
    pub open spec fn spec_cell_containing(&self, x: int, y: int) -> (u32, u32) {
        (
            spec_cell_of(x, self.win.0 as int / 2, self.granularity as int) as u32,
            spec_cell_of(y, self.win.1 as int / 2, self.granularity as int) as u32,
        )
    }

    /// How many cells a world extent yields along each axis.
    pub fn get_grid_dims_from_window_size(win: (u32, u32), granularity: u32) -> (d: (u32, u32))
        requires
            granularity >= 1,
        ensures
            d.0 == win.0 as int / granularity as int,
            d.1 == win.1 as int / granularity as int,
    {
        (win.0 / granularity, win.1 / granularity)
    }

    /// An empty store covering a `width` by `height` world.
    pub fn new(width: u32, height: u32, granularity: u32, num_colors: usize) -> (m:
        PheromoneManager)
        requires
            granularity >= 1,
            1 <= num_colors <= MAX_NESTS,
        ensures
            m.wf(),
            m.win == (width, height),
            m.granularity == granularity,
            m.num_colors == num_colors,
            m.grid_dims.0 == width as int / granularity as int,
            m.grid_dims.1 == height as int / granularity as int,
            forall|c: (u32, u32)| !has_cell(m.cells@, c),
    {
        let grid_dims = Self::get_grid_dims_from_window_size((width, height), granularity);
        PheromoneManager {
            grid_dims,
            win: (width, height),
            granularity,
            num_colors,
            cells: Vec::new(),
        }
    }

    /// The grid coordinate of the cell containing world point `(x, y)`.
    /// The same point always yields the same coordinate.
    pub fn cell_containing(&self, x: i64, y: i64) -> (c: (u32, u32))
        requires
            self.wf(),
            -MAX_COORD <= x <= MAX_COORD,
            -MAX_COORD <= y <= MAX_COORD,
            self.in_bounds(x as int, y as int),
        ensures
            c == self.spec_cell_containing(x as int, y as int),
            c.0 < self.grid_dims.0,
            c.1 < self.grid_dims.1,
    {
        let g: u64 = self.granularity as u64;
        let rel_x: i64 = x + (self.win.0 / 2) as i64;
        let rel_y: i64 = y + (self.win.1 / 2) as i64;
        let cx: u64 = (rel_x as u64) / g;
        let cy: u64 = (rel_y as u64) / g;
        proof {
            let gi = self.granularity as int;
            let dims0 = self.grid_dims.0 as int;
            let dims1 = self.grid_dims.1 as int;
            let rx = rel_x as int;
            let ry = rel_y as int;
            assert(rx / gi < dims0) by (nonlinear_arith)
                requires
                    0 <= rx,
                    rx < dims0 * gi,
                    gi >= 1,
            ;
            assert(ry / gi < dims1) by (nonlinear_arith)
                requires
                    0 <= ry,
                    ry < dims1 * gi,
                    gi >= 1,
            ;
        }
        (cx as u32, cy as u32)
    }

    /// Index of the stored cell at coordinate `c`, if one exists.
    fn find_cell(&self, c: (u32, u32)) -> (r: Option<usize>)
        ensures
            match r {
                Some(i) => i < self.cells@.len() && self.cells@[i as int].loc == c,
                None => !has_cell(self.cells@, c),
            },
    {
        let mut i: usize = 0;
        let n: usize = self.cells.len();
        while i < n
            invariant
                i <= n,
                n == self.cells@.len(),
                forall|j: int| 0 <= j < i ==> (#[trigger] self.cells@[j]).loc != c,
            decreases n - i,
        {
            let loc = self.cells[i].loc;
            if loc.0 == c.0 && loc.1 == c.1 {
                return Some(i);
            }
            i = i + 1;
        }
        None
    }

    /// Index into `cells` of the pheromone cell covering world point
    /// `(x, y)`, or `None` when that coordinate holds no cell.
    pub fn id_of_pheromone_at(&self, x: i64, y: i64) -> (r: Option<usize>)
        requires
            self.wf(),
            -MAX_COORD <= x <= MAX_COORD,
            -MAX_COORD <= y <= MAX_COORD,
            self.in_bounds(x as int, y as int),
        ensures
            match r {
                Some(i) => i < self.cells@.len() && self.cells@[i as int].loc
                    == self.spec_cell_containing(x as int, y as int),
                None => !has_cell(self.cells@, self.spec_cell_containing(x as int, y as int)),
            },
    {
        let c = self.cell_containing(x, y);
        self.find_cell(c)
    }

    /// Deposit `step` units of trail for `color` at the cell containing world
    /// point `(x, y)`, creating the cell first when the coordinate is empty.
    /// Every other coordinate is untouched.
    pub fn deposit(&mut self, x: i64, y: i64, color: usize, step: u64)
        requires
            old(self).wf(),
            color < old(self).num_colors,
            -MAX_COORD <= x <= MAX_COORD,
            -MAX_COORD <= y <= MAX_COORD,
            old(self).in_bounds(x as int, y as int),
        ensures
            final(self).wf(),
            final(self).grid_dims == old(self).grid_dims,
            final(self).win == old(self).win,
            final(self).granularity == old(self).granularity,
            final(self).num_colors == old(self).num_colors,
            has_cell(
                final(self).cells@,
                old(self).spec_cell_containing(x as int, y as int),
            ),
            cell_weights(
                final(self).cells@,
                old(self).spec_cell_containing(x as int, y as int),
            ) == deposited(
                cell_or_zero(
                    old(self).cells@,
                    old(self).spec_cell_containing(x as int, y as int),
                    old(self).num_colors as int,
                ),
                color as int,
                step,
            ),
            forall|d: (u32, u32)|
                d != old(self).spec_cell_containing(x as int, y as int) ==> has_cell(
                    final(self).cells@,
                    d,
                ) == has_cell(old(self).cells@, d),
            forall|d: (u32, u32)|
                d != old(self).spec_cell_containing(x as int, y as int) && has_cell(
                    old(self).cells@,
                    d,
                ) ==> cell_weights(final(self).cells@, d) == cell_weights(old(self).cells@, d),
    {
        let c = self.cell_containing(x, y);
        let ghost s0 = self.cells@;
        match self.find_cell(c) {
            Some(i) => {
                proof {
                    lemma_cell_weights_at(s0, i as int);
                }
                let mut cell = self.cells.swap_remove(i);
                cell.add_trail(color, step);
                proof {
                    lemma_replace_cell(s0, i as int, cell);
                }
                self.cells.push(cell);
            },
            None => {
                let mut cell = Pheromone::new(self.num_colors, c);
                cell.add_trail(color, step);
                proof {
                    assert(cell.weights@ =~= deposited(
                        zero_weights(self.num_colors as int),
                        color as int,
                        step,
                    ));
                    lemma_push_cell(s0, cell);
                }
                self.cells.push(cell);
            },
        }
    }

    /// Decay every stored cell by `rate` and evict the cells that become
    /// empty: a coordinate decayed to zero total weight is absent afterwards,
    /// the rest keep exactly their decayed weights, and no coordinate
    /// appears.
    #[verifier::loop_isolation(false)]
    pub fn fade_pheromones(&mut self, rate: u64)
        requires
            old(self).wf(),
        ensures
            final(self).wf(),
            final(self).grid_dims == old(self).grid_dims,
            final(self).win == old(self).win,
            final(self).granularity == old(self).granularity,
            final(self).num_colors == old(self).num_colors,
            forall|c: (u32, u32)|
                has_cell(old(self).cells@, c) && total_weight(
                    fade_seq(cell_weights(old(self).cells@, c), rate),
                ) > 0 ==> has_cell(final(self).cells@, c) && cell_weights(final(self).cells@, c)
                    == fade_seq(cell_weights(old(self).cells@, c), rate),
            forall|c: (u32, u32)|
                has_cell(old(self).cells@, c) && total_weight(
                    fade_seq(cell_weights(old(self).cells@, c), rate),
                ) == 0 ==> !has_cell(final(self).cells@, c),
            forall|c: (u32, u32)| !has_cell(old(self).cells@, c) ==> !has_cell(final(self).cells@, c),
    {
        let ghost s0 = self.cells@;
        let ghost n0: int = self.cells@.len() as int;
        let mut kept: Vec<Pheromone> = Vec::new();
        while self.cells.len() > 0
            invariant
                self.wf(),
                self.grid_dims == old(self).grid_dims,
                self.win == old(self).win,
                self.granularity == old(self).granularity,
                self.num_colors == old(self).num_colors,
                self.cells@.len() <= n0,
                self.cells@ == s0.subrange(0, self.cells@.len() as int),
                unique_locs(kept@),
                forall|j: int| 0 <= j < kept@.len() ==> (#[trigger] kept@[j]).wf(),
                forall|j: int|
                    0 <= j < kept@.len() ==> (#[trigger] kept@[j]).weights@.len()
                        == self.num_colors,
                forall|j: int|
                    0 <= j < kept@.len() ==> (#[trigger] kept@[j]).loc.0 < self.grid_dims.0
                        && kept@[j].loc.1 < self.grid_dims.1,
                forall|j: int|
                    0 <= j < kept@.len() ==> exists|i: int|
                        self.cells@.len() <= i < n0 && (#[trigger] kept@[j]).loc == s0[i].loc,
                forall|i: int|
                    self.cells@.len() <= i < n0 && total_weight(
                        fade_seq((#[trigger] s0[i]).weights@, rate),
                    ) > 0 ==> has_cell(kept@, s0[i].loc) && cell_weights(kept@, s0[i].loc)
                        == fade_seq(s0[i].weights@, rate),
                forall|i: int|
                    self.cells@.len() <= i < n0 && total_weight(
                        fade_seq((#[trigger] s0[i]).weights@, rate),
                    ) == 0 ==> !has_cell(kept@, s0[i].loc),
            decreases self.cells@.len(),
        {
            let ghost k_pre: int = self.cells@.len() as int;
            let mut cell = self.cells.pop().unwrap();
            proof {
                assert(self.cells@ =~= s0.subrange(0, k_pre - 1));
                assert(cell == s0[k_pre - 1]);
            }
            cell.fade(rate);
            let empty = cell.is_empty();
            proof {
                // the popped coordinate is not among the kept cells: those
                // all come from later positions of s0
                assert forall|j: int| 0 <= j < kept@.len() implies (#[trigger] kept@[j]).loc
                    != cell.loc by {
                    let i = choose|i: int| k_pre <= i < n0 && kept@[j].loc == s0[i].loc;
                    assert(s0[k_pre - 1].loc != s0[i].loc);
                }
                assert(!has_cell(kept@, cell.loc));
            }
            if !empty {
                proof {
                    lemma_push_cell(kept@, cell);
                }
                kept.push(cell);
            }
        }
        self.cells = kept;
        proof {
            assert forall|c: (u32, u32)|
                has_cell(s0, c) && total_weight(fade_seq(cell_weights(s0, c), rate))
                    > 0 implies has_cell(self.cells@, c) && cell_weights(self.cells@, c)
                == fade_seq(cell_weights(s0, c), rate) by {
                let i = choose|i: int| 0 <= i < s0.len() && s0[i].loc == c;
                lemma_cell_weights_at(s0, i);
            }
            assert forall|c: (u32, u32)|
                has_cell(s0, c) && total_weight(fade_seq(cell_weights(s0, c), rate))
                    == 0 implies !has_cell(self.cells@, c) by {
                let i = choose|i: int| 0 <= i < s0.len() && s0[i].loc == c;
                lemma_cell_weights_at(s0, i);
            }
            assert forall|c: (u32, u32)| !has_cell(s0, c) implies !has_cell(self.cells@, c) by {
                if has_cell(self.cells@, c) {
                    let j = choose|j: int|
                        0 <= j < self.cells@.len() && self.cells@[j].loc == c;
                    let i = choose|i: int| 0 <= i < n0 && self.cells@[j].loc == s0[i].loc;
                    assert(has_cell(s0, c));
                }
            }
        }
    }
}

} // verus!
