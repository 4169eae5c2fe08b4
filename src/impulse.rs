//! The integer side of force injection: when a pointer sample is spread as
//! a point and when as a line from the previous sample, which cells the
//! smoothing stencil touches and with which weights, and how many cells a
//! line crosses.
//!
//! Coordinates are generic: the trace keeps the previous sample as it came,
//! and decides from the grid cells that the caller computed for it.
use vstd::prelude::*;

use crate::wave::{lower, upper};

verus! {

/// How a new pointer sample is to be spread over the force field.
pub enum Injection<T> {
    /// Spread around the sample alone.
    Point,
    /// Spread along the segment from the previous sample `(from_x, from_y)`.
    Line { from_x: T, from_y: T },
}

/// The last accepted pointer sample, the cell it fell in, and whether the
/// next sample starts a fresh touch.
pub struct CursorTrace<T> {
    pub x_old: T,
    pub y_old: T,
    pub cell_x: usize,
    pub cell_y: usize,
    pub discontinuous: bool,
}

/// How a sample in cell `(cell_x, cell_y)` is spread after `t`: as a point
/// on a fresh touch or inside the previous cell, else as a line from the
/// previous sample.
pub open spec fn injection_for<T>(t: CursorTrace<T>, cell_x: usize, cell_y: usize) -> Injection<
    T,
> {
    if t.discontinuous || (cell_x == t.cell_x && cell_y == t.cell_y) {
        Injection::Point
    } else {
        Injection::Line { from_x: t.x_old, from_y: t.y_old }
    }
}

/// The trace after accepting sample `(x, y)` in cell `(cell_x, cell_y)`.
pub open spec fn accepted<T>(x: T, y: T, cell_x: usize, cell_y: usize) -> CursorTrace<T> {
    CursorTrace { x_old: x, y_old: y, cell_x, cell_y, discontinuous: false }
}

impl<T: Copy> CursorTrace<T> {
    /// A trace with no sample yet: the first one starts a fresh touch.
    pub fn new(x: T, y: T) -> (r: Self)
        ensures
            r.discontinuous,
            r.x_old == x,
            r.y_old == y,
            r.cell_x == 0,
            r.cell_y == 0,
    {
        CursorTrace { x_old: x, y_old: y, cell_x: 0, cell_y: 0, discontinuous: true }
    }

    /// Accepts sample `(x, y)`, which lies in cell `(cell_x, cell_y)`:
    /// returns how to spread it, and records it as the previous sample.
    pub fn accept(&mut self, x: T, y: T, cell_x: usize, cell_y: usize) -> (r: Injection<T>)
        ensures
            r == injection_for(*old(self), cell_x, cell_y),
            *final(self) == accepted(x, y, cell_x, cell_y),
    {
        let r = if self.discontinuous || (cell_x == self.cell_x && cell_y == self.cell_y) {
            Injection::Point
        } else {
            Injection::Line { from_x: self.x_old, from_y: self.y_old }
        };
        self.x_old = x;
        self.y_old = y;
        self.cell_x = cell_x;
        self.cell_y = cell_y;
        self.discontinuous = false;
        r
    }

    /// Marks the trace discontinuous, on pointer release or cancel, or
    /// when a sample falls outside the grid: the next sample starts a
    /// fresh touch.
    pub fn interrupt(&mut self)
        ensures
            final(self).discontinuous,
            final(self).x_old == old(self).x_old,
            final(self).y_old == old(self).y_old,
            final(self).cell_x == old(self).cell_x,
            final(self).cell_y == old(self).cell_y,
    {
        self.discontinuous = true;
    }
}

/// A sample accepted twice in a row, at the same place, is spread as a
/// point the second time, whatever the trace was before the first: a
/// segment of length zero is no line.
pub proof fn lemma_repeat_is_point<T>(x: T, y: T, cell_x: usize, cell_y: usize)
    ensures
        injection_for(accepted(x, y, cell_x, cell_y), cell_x, cell_y) == Injection::<T>::Point,
{
}

/// The weight of entry `k` of the 3 x 3 smoothing stencil, in sixteenths:
/// 1 2 1 / 2 4 2 / 1 2 1, row by row.
pub open spec fn stencil_weight(k: int) -> u32 {
    if k == 4 {
        4
    } else if k == 1 || k == 3 || k == 5 || k == 7 {
        2
    } else {
        1
    }
}

/// The index at offset `d` (0, 1 or 2 for -1, 0, +1) from `i` in `0..n`,
/// replicating the edge.
pub open spec fn offset_index(i: int, d: int, n: int) -> int {
    if d == 0 {
        lower(i)
    } else if d == 1 {
        i
    } else {
        upper(i, n)
    }
}

/// Entry `k` of the stencil around `(row, col)`: its clamped cell and its
/// weight.
pub open spec fn stencil_entry(row: int, col: int, rows: int, cols: int, k: int) -> (
    usize,
    usize,
    u32,
) {
    (
        offset_index(row, k / 3, rows) as usize,
        offset_index(col, k % 3, cols) as usize,
        stencil_weight(k),
    )
}

/// The sum of the first `k` stencil weights.
pub open spec fn weight_sum(k: int) -> int
    decreases k,
{
    if k <= 0 {
        0
    } else {
        weight_sum(k - 1) + stencil_weight(k - 1)
    }
}

/// The stencil's weights add up to 16: smoothing spreads a force without
/// adding to it or taking from it.
pub proof fn lemma_stencil_conserves()
    ensures
        weight_sum(9) == 16,
{
    reveal_with_fuel(weight_sum, 10);
}

/// The cells and weights (in sixteenths) over which a force at
/// `(row, col)` is smoothed: the 3 x 3 block around it, row by row, with a
/// neighbour outside the grid replaced by the nearest cell inside it.
pub fn smoothing_targets(row: usize, col: usize, rows: usize, cols: usize) -> (r: Vec<
    (usize, usize, u32),
>)
    requires
        row < rows,
        col < cols,
    ensures
        r@.len() == 9,
        forall|k: int|
            0 <= k < 9 ==> #[trigger] r@[k] == stencil_entry(
                row as int,
                col as int,
                rows as int,
                cols as int,
                k,
            ),
        forall|k: int| 0 <= k < 9 ==> #[trigger] r@[k].0 < rows && r@[k].1 < cols,
{
    let up: usize = if row == 0 {
        row
    } else {
        row - 1
    };
    let down: usize = if row + 1 < rows {
        row + 1
    } else {
        rows - 1
    };
    let left: usize = if col == 0 {
        col
    } else {
        col - 1
    };
    let right: usize = if col + 1 < cols {
        col + 1
    } else {
        cols - 1
    };
    let r = vec![
        (up, left, 1u32),
        (up, col, 2u32),
        (up, right, 1u32),
        (row, left, 2u32),
        (row, col, 4u32),
        (row, right, 2u32),
        (down, left, 1u32),
        (down, col, 2u32),
        (down, right, 1u32),
    ];
    proof {
        assert forall|k: int| 0 <= k < 9 implies #[trigger] r@[k] == stencil_entry(
            row as int,
            col as int,
            rows as int,
            cols as int,
            k,
        ) by {
            if k == 0 {
            } else if k == 1 {
            } else if k == 2 {
            } else if k == 3 {
            } else if k == 4 {
            } else if k == 5 {
            } else if k == 6 {
            } else if k == 7 {
            } else {
            }
        }
    }
    r
}

/// The number of cell borders a straight line crosses between cells
/// `(x0, y0)` and `(x1, y1)`: the distance in columns plus the distance in
/// rows.
pub open spec fn cell_distance_spec(x0: int, y0: int, x1: int, y1: int) -> int {
    (if x1 >= x0 {
        x1 - x0
    } else {
        x0 - x1
    }) + (if y1 >= y0 {
        y1 - y0
    } else {
        y0 - y1
    })
}

/// How many cell-to-cell steps a line walk takes from cell `(x0, y0)` to
/// cell `(x1, y1)`; the walk then covers one final partial cell.
pub fn cell_distance(x0: usize, y0: usize, x1: usize, y1: usize) -> (r: usize)
    requires
        cell_distance_spec(x0 as int, y0 as int, x1 as int, y1 as int) <= usize::MAX,
    ensures
        r == cell_distance_spec(x0 as int, y0 as int, x1 as int, y1 as int),
{
    let dx: usize = if x1 >= x0 {
        x1 - x0
    } else {
        x0 - x1
    };
    let dy: usize = if y1 >= y0 {
        y1 - y0
    } else {
        y0 - y1
    };
    dx + dy
}

/// The unit square a line walk enters when it leaves square `(x, y)`
/// (whose corners are the nodes `x..=x + 1` by `y..=y + 1`): through its
/// right edge, or else through its top edge when the line rises and its
/// bottom edge when it falls. `None` when that square would reach past the
/// grid of `cols` x `rows` nodes.
pub open spec fn next_square_spec(
    x: int,
    y: int,
    cols: int,
    rows: int,
    exits_right: bool,
    rising: bool,
) -> Option<(usize, usize)> {
    if exits_right {
        if x + 2 < cols {
            Some(((x + 1) as usize, y as usize))
        } else {
            None
        }
    } else if rising {
        if y + 2 < rows {
            Some((x as usize, (y + 1) as usize))
        } else {
            None
        }
    } else if y > 0 {
        Some((x as usize, (y - 1) as usize))
    } else {
        None
    }
}

/// One move of a line walk from square `(x, y)`; every square it returns
/// has all four corners in the grid.
pub fn next_square(
    x: usize,
    y: usize,
    cols: usize,
    rows: usize,
    exits_right: bool,
    rising: bool,
) -> (r: Option<(usize, usize)>)
    requires
        x + 1 < cols,
        y + 1 < rows,
    ensures
        r == next_square_spec(x as int, y as int, cols as int, rows as int, exits_right, rising),
        r matches Some(q) ==> q.0 + 1 < cols && q.1 + 1 < rows,
{
    if exits_right {
        if x + 2 < cols {
            Some((x + 1, y))
        } else {
            None
        }
    } else if rising {
        if y + 2 < rows {
            Some((x, y + 1))
        } else {
            None
        }
    } else if y > 0 {
        Some((x, y - 1))
    } else {
        None
    }
}

} // verus!
