//! Integer angles. An orientation is a number of angle units in
//! `[0, TURN)`, counter-clockwise from the positive x axis, and the heading
//! toward a displacement is computed per octant from the ratio of the
//! displacement's components.

use vstd::prelude::*;
use crate::{MAX_COORD, TURN};

verus! {

/// One eighth of a turn, the span of one octant.
pub const OCTANT: u32 = 45_000;

/// A quarter turn.
pub const QUARTER: u32 = 90_000;

/// A half turn.
pub const HALF: u32 = 180_000;

/// An arbitrary angle reduced to `[0, TURN)`.
pub open spec fn spec_norm(a: int) -> int {
    a % (TURN as int)
}

/// The first-quadrant heading of a displacement with component magnitudes
/// `ax`, `ay` (not both zero): in `[0, 2 * OCTANT]`, interpolated linearly in
/// the component ratio within each octant.
pub open spec fn spec_quadrant_heading(ax: int, ay: int) -> int {
    if ax >= ay {
        ay * (OCTANT as int) / ax
    } else {
        2 * (OCTANT as int) - ax * (OCTANT as int) / ay
    }
}

/// The heading toward displacement `(dx, dy)`, in angle units; the zero
/// displacement points along the positive x axis.
pub open spec fn spec_heading(dx: int, dy: int) -> int {
    let ax = if dx < 0 { -dx } else { dx };
    let ay = if dy < 0 { -dy } else { dy };
    if ax == 0 && ay == 0 {
        0
    } else {
        let q = spec_quadrant_heading(ax, ay);
        if dx >= 0 && dy >= 0 {
            q
        } else if dx < 0 && dy >= 0 {
            HALF as int - q
        } else if dx < 0 {
            HALF as int + q
        } else if q == 0 {
            0
        } else {
            TURN as int - q
        }
    }
}

/// The first-quadrant heading lies in `[0, 2 * OCTANT]`, with the octant
/// decided by which component is larger.
pub proof fn lemma_quadrant_heading_bounds(ax: int, ay: int)
    requires
        ax >= 0,
        ay >= 0,
        ax > 0 || ay > 0,
    ensures
        0 <= spec_quadrant_heading(ax, ay) <= 2 * OCTANT,
        ax >= ay ==> spec_quadrant_heading(ax, ay) <= OCTANT,
        ax < ay ==> spec_quadrant_heading(ax, ay) >= OCTANT,
{
    if ax >= ay {
        assert(ax > 0);
        assert(0 <= ay * (OCTANT as int) / ax <= OCTANT as int) by (nonlinear_arith)
            requires
                0 <= ay <= ax,
                ax > 0,
        ;
    } else {
        assert(ay > 0);
        assert(0 <= ax * (OCTANT as int) / ay <= OCTANT as int) by (nonlinear_arith)
            requires
                0 <= ax < ay,
                ay > 0,
        ;
    }
}

/// A heading always lies in `[0, TURN)`, and each quadrant of displacements
/// maps into its quarter of the circle.
pub proof fn lemma_heading_quadrants(dx: int, dy: int)
    ensures
        0 <= spec_heading(dx, dy) < TURN,
        dx >= 0 && dy >= 0 ==> spec_heading(dx, dy) <= QUARTER,
        dx < 0 && dy >= 0 ==> QUARTER <= spec_heading(dx, dy) <= HALF,
        dx < 0 && dy < 0 ==> HALF <= spec_heading(dx, dy) <= HALF + QUARTER,
        dx >= 0 && dy < 0 ==> spec_heading(dx, dy) == 0 || HALF + QUARTER <= spec_heading(
            dx,
            dy,
        ) < TURN,
{
    let ax = if dx < 0 { -dx } else { dx };
    let ay = if dy < 0 { -dy } else { dy };
    if ax == 0 && ay == 0 {
    } else {
        lemma_quadrant_heading_bounds(ax, ay);
    }
}

/// Reduce an angle to `[0, TURN)`.
pub fn norm_angle(a: u32) -> (r: u32)
    ensures
        r == spec_norm(a as int),
        r < TURN,
{
    a % TURN
}

/// The heading toward displacement `(dx, dy)`: the exec mirror of
/// `spec_heading`.
pub fn heading(dx: i64, dy: i64) -> (r: u32)
    requires
        -2 * MAX_COORD <= dx <= 2 * MAX_COORD,
        -2 * MAX_COORD <= dy <= 2 * MAX_COORD,
    ensures
        r == spec_heading(dx as int, dy as int),
        r < TURN,
{
    proof {
        lemma_heading_quadrants(dx as int, dy as int);
    }
    let ax: u64 = if dx < 0 {
        (-dx) as u64
    } else {
        dx as u64
    };
    let ay: u64 = if dy < 0 {
        (-dy) as u64
    } else {
        dy as u64
    };
    if ax == 0 && ay == 0 {
        return 0;
    }
    let q: u64 = if ax >= ay {
        proof {
            assert(ay as int * OCTANT as int <= 2 * MAX_COORD * OCTANT as int)
                by (nonlinear_arith)
                requires
                    0 <= ay as int <= 2 * MAX_COORD,
            ;
        }
        ay * (OCTANT as u64) / ax
    } else {
        proof {
            assert(ax as int * OCTANT as int <= 2 * MAX_COORD * OCTANT as int)
                by (nonlinear_arith)
                requires
                    0 <= ax as int <= 2 * MAX_COORD,
            ;
        }
        2 * (OCTANT as u64) - ax * (OCTANT as u64) / ay
    };
    proof {
        lemma_quadrant_heading_bounds(ax as int, ay as int);
    }
    if dx >= 0 && dy >= 0 {
        q as u32
    } else if dx < 0 && dy >= 0 {
        (HALF as u64 - q) as u32
    } else if dx < 0 {
        (HALF as u64 + q) as u32
    } else if q == 0 {
        0
    } else {
        (TURN as u64 - q) as u32
    }
}

} // verus!
