//! Triangulation of a grid of `rows` x `cols` vertices, stored row-major:
//! each quad between four neighbouring vertices becomes two triangles.
use vstd::prelude::*;

verus! {

/// The vertex index of entry `k` (0 to 5) of the quad whose lower corner
/// is vertex `(y, x)`: triangles A, B, C and C, D, A, where A = (y, x),
/// B = (y, x + 1), C = (y + 1, x + 1) and D = (y + 1, x).
pub open spec fn quad_corner(cols: int, y: int, x: int, k: int) -> int {
    if k == 0 || k == 5 {
        y * cols + x
    } else if k == 1 {
        y * cols + x + 1
    } else if k == 2 || k == 3 {
        (y + 1) * cols + x + 1
    } else {
        (y + 1) * cols + x
    }
}

/// The position of the first index of quad `(y, x)` in the index list.
pub open spec fn quad_start(cols: int, y: int, x: int) -> int {
    (y * (cols - 1) + x) * 6
}

/// A triangulated grid: the vertex indices of its triangles, three per
/// triangle, two triangles per quad, quads row by row.
pub struct Grid {
    pub rows: usize,
    pub cols: usize,
    pub indices: Vec<u32>,
}

impl Grid {
    /// Every vertex index of the grid fits in `u32`, and the index list in
    /// memory.
    pub open spec fn dims_fit(rows: int, cols: int) -> bool {
        &&& rows >= 1
        &&& cols >= 1
        &&& rows * cols <= u32::MAX + 1
        &&& (rows - 1) * (cols - 1) * 6 <= usize::MAX
    }

    /// Triangulates a grid of `rows` x `cols` vertices.
    pub fn new(rows: usize, cols: usize) -> (r: Self)
        requires
            Self::dims_fit(rows as int, cols as int),
        ensures
            r.rows == rows,
            r.cols == cols,
            r.indices@.len() == (rows - 1) * (cols - 1) * 6,
            forall|y: int, x: int, k: int|
                0 <= y < rows - 1 && 0 <= x < cols - 1 && 0 <= k < 6 ==> #[trigger] r.indices@[quad_start(
                    cols as int,
                    y,
                    x,
                ) + k] == quad_corner(cols as int, y, x, k),
    {
        let w: usize = cols - 1;
        let ghost wi = w as int;
        let mut indices: Vec<u32> = Vec::new();
        let mut y: usize = 0;
        while y + 1 < rows
            invariant
                Self::dims_fit(rows as int, cols as int),
                w == cols - 1,
                wi == w,
                y + 1 <= rows,
                indices@.len() == y * w * 6,
                forall|yy: int, xx: int, k: int|
                    0 <= yy < y && 0 <= xx < w && 0 <= k < 6 ==> #[trigger] indices@[quad_start(
                        cols as int,
                        yy,
                        xx,
                    ) + k] == quad_corner(cols as int, yy, xx, k),
            decreases rows - y,
        {
            proof {
                lemma_row_bounds(rows as int, cols as int, y as int);
            }
            let row: usize = y * cols;
            let mut x: usize = 0;
            while x < w
                invariant
                    Self::dims_fit(rows as int, cols as int),
                    w == cols - 1,
                    wi == w,
                    y + 1 < rows,
                    row == y * cols,
                    row + 2 * cols <= rows * cols,
                    x <= w,
                    indices@.len() == (y * w + x) * 6,
                    forall|yy: int, xx: int, k: int|
                        0 <= yy < y && 0 <= xx < w && 0 <= k < 6 ==> #[trigger] indices@[quad_start(
                            cols as int,
                            yy,
                            xx,
                        ) + k] == quad_corner(cols as int, yy, xx, k),
                    forall|xx: int, k: int|
                        0 <= xx < x && 0 <= k < 6 ==> #[trigger] indices@[quad_start(
                            cols as int,
                            y as int,
                            xx,
                        ) + k] == quad_corner(cols as int, y as int, xx, k),
                decreases w - x,
            {
                let a = (row + x) as u32;
                let b = (row + x + 1) as u32;
                let c = (row + cols + x + 1) as u32;
                let d = (row + cols + x) as u32;
                let ghost before = indices@;
                indices.push(a);
                indices.push(b);
                indices.push(c);
                indices.push(c);
                indices.push(d);
                indices.push(a);
                proof {
                    let start = quad_start(cols as int, y as int, x as int);
                    assert(start == before.len());
                    assert((y + 1) * cols == y * cols + cols) by (nonlinear_arith);
                    assert forall|yy: int, xx: int, k: int|
                        0 <= yy < y && 0 <= xx < w && 0 <= k < 6 implies #[trigger] indices@[quad_start(
                        cols as int,
                        yy,
                        xx,
                    ) + k] == quad_corner(cols as int, yy, xx, k) by {
                        lemma_earlier_quad(wi, yy, xx, y as int, x as int);
                        assert(indices@[quad_start(cols as int, yy, xx) + k] == before[quad_start(
                            cols as int,
                            yy,
                            xx,
                        ) + k]);
                    }
                    assert forall|xx: int, k: int|
                        0 <= xx < x + 1 && 0 <= k < 6 implies #[trigger] indices@[quad_start(
                        cols as int,
                        y as int,
                        xx,
                    ) + k] == quad_corner(cols as int, y as int, xx, k) by {
                        if xx < x {
                            assert(indices@[quad_start(cols as int, y as int, xx) + k] == before[quad_start(
                                cols as int,
                                y as int,
                                xx,
                            ) + k]);
                        }
                    }
                }
                x += 1;
            }
            proof {
                assert((y + 1) * w == y * w + w) by (nonlinear_arith);
                assert forall|yy: int, xx: int, k: int|
                    0 <= yy < y + 1 && 0 <= xx < w && 0 <= k < 6 implies #[trigger] indices@[quad_start(
                    cols as int,
                    yy,
                    xx,
                ) + k] == quad_corner(cols as int, yy, xx, k) by {
                    if yy == y {
                    }
                }
            }
            y += 1;
        }
        proof {
            assert(y + 1 == rows);
        }
        Grid { rows, cols, indices }
    }

    pub fn indices_slice(&self) -> (r: &[u32])
        ensures
            r@ == self.indices@,
    {
        self.indices.as_slice()
    }
}

/// Row `y + 1` of the grid exists, so the vertices of the quads of row `y`
/// have indices below `rows * cols`, and the index list so far fits.
proof fn lemma_row_bounds(rows: int, cols: int, y: int)
    requires
        0 <= y,
        y + 1 < rows,
        cols >= 1,
    ensures
        y * cols + 2 * cols <= rows * cols,
        0 <= y * cols,
        (y + 1) * (cols - 1) * 6 <= (rows - 1) * (cols - 1) * 6,
{
    assert(y * cols + 2 * cols <= rows * cols) by (nonlinear_arith)
        requires
            y + 2 <= rows,
            cols >= 1,
    ;
    assert(0 <= y * cols) by (nonlinear_arith)
        requires
            0 <= y,
            cols >= 1,
    ;
    assert((y + 1) * (cols - 1) * 6 <= (rows - 1) * (cols - 1) * 6) by (nonlinear_arith)
        requires
            y + 1 <= rows - 1,
            cols >= 1,
    ;
}

/// A quad of an earlier row, or earlier in the same row, starts earlier in
/// the index list.
proof fn lemma_earlier_quad(w: int, yy: int, xx: int, y: int, x: int)
    requires
        0 <= yy < y,
        0 <= xx < w,
        0 <= x,
    ensures
        (yy * w + xx) * 6 + 6 <= (y * w + x) * 6,
{
    assert(yy * w + xx + 1 <= y * w + x) by (nonlinear_arith)
        requires
            0 <= yy < y,
            0 <= xx < w,
            0 <= x,
    ;
}

} // verus!
