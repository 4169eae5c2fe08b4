//! The grid state of the wave-equation integrator: three same-shaped fields
//! whose roles (previous, current, next) rotate each step without copying,
//! and a force accumulator. The fields are stored row-major.
//!
//! The grid is generic in its cell type: the arithmetic of one cell update
//! is handed in as a closure, while the traversal, the clamping of
//! neighbours at the edges and the rotation of roles are fixed here.
use vstd::arithmetic::div_mod::{lemma_fundamental_div_mod, lemma_mod_pos_bound};
use vstd::prelude::*;

verus! {

/// The neighbour index below `i`, replicating the edge: 0 stays 0.
pub open spec fn lower(i: int) -> int {
    if i == 0 {
        0
    } else {
        i - 1
    }
}

/// The neighbour index above `i` in `0..n`, replicating the edge.
pub open spec fn upper(i: int, n: int) -> int {
    if i + 1 < n {
        i + 1
    } else {
        n - 1
    }
}

/// The cell at row `r` and column `c` of a row-major field.
pub open spec fn at<T>(s: Seq<T>, cols: int, r: int, c: int) -> T {
    s[r * cols + c]
}

/// What one cell update reads: the cell in the previous and current field,
/// its four clamped neighbours in the current field, and its force.
#[derive(Clone, Copy)]
pub struct Neighborhood<T> {
    pub previous: T,
    pub center: T,
    pub left: T,
    pub right: T,
    pub up: T,
    pub down: T,
    pub force: T,
}

/// The neighbourhood of cell `(r, c)`; a neighbour that would lie outside
/// the grid is replaced by the nearest cell inside it.
pub open spec fn neighborhood<T>(
    prev: Seq<T>,
    cur: Seq<T>,
    forces: Seq<T>,
    rows: int,
    cols: int,
    r: int,
    c: int,
) -> Neighborhood<T> {
    Neighborhood {
        previous: at(prev, cols, r, c),
        center: at(cur, cols, r, c),
        left: at(cur, cols, r, lower(c)),
        right: at(cur, cols, r, upper(c, cols)),
        up: at(cur, cols, lower(r), c),
        down: at(cur, cols, upper(r, rows), c),
        force: at(forces, cols, r, c),
    }
}

/// `next` is what `update` gives on every cell of the grid.
pub open spec fn swept<T, F: Fn(Neighborhood<T>) -> T>(
    update: F,
    rows: int,
    cols: int,
    forces: Seq<T>,
    prev: Seq<T>,
    cur: Seq<T>,
    next: Seq<T>,
) -> bool {
    &&& next.len() == rows * cols
    &&& forall|r: int, c: int|
        0 <= r < rows && 0 <= c < cols ==> update.ensures(
            (neighborhood(prev, cur, forces, rows, cols, r, c),),
            #[trigger] at(next, cols, r, c),
        )
}

/// Cell `(r, c)` lies in a grid of `rows` x `cols`, at a row-major index
/// below `rows * cols`.
pub proof fn lemma_cell_in_grid(rows: int, cols: int, r: int, c: int)
    requires
        0 <= r < rows,
        0 <= c < cols,
    ensures
        0 <= r * cols + c < rows * cols,
        0 <= r * cols,
{
    assert(0 <= r * cols + c < rows * cols) by (nonlinear_arith)
        requires
            0 <= r < rows,
            0 <= c < cols,
    ;
    assert(0 <= r * cols) by (nonlinear_arith)
        requires
            0 <= r,
            0 <= c < cols,
    ;
}

/// Every cell that an update reads lies inside the grid, also at the
/// corners and edges: the clamped neighbour indices stay in range.
pub proof fn lemma_neighbors_in_grid(rows: int, cols: int, r: int, c: int)
    requires
        0 <= r < rows,
        0 <= c < cols,
    ensures
        0 <= lower(r) < rows,
        0 <= upper(r, rows) < rows,
        0 <= lower(c) < cols,
        0 <= upper(c, cols) < cols,
        0 <= lower(r) * cols + c < rows * cols,
        0 <= upper(r, rows) * cols + c < rows * cols,
        0 <= r * cols + lower(c) < rows * cols,
        0 <= r * cols + upper(c, cols) < rows * cols,
{
    lemma_cell_in_grid(rows, cols, lower(r), c);
    lemma_cell_in_grid(rows, cols, upper(r, rows), c);
    lemma_cell_in_grid(rows, cols, r, lower(c));
    lemma_cell_in_grid(rows, cols, r, upper(c, cols));
}

/// Writes into `next` the update of every cell of the grid.
fn sweep_into<T: Copy, F: Fn(Neighborhood<T>) -> T>(
    prev: &Vec<T>,
    cur: &Vec<T>,
    next: &mut Vec<T>,
    forces: &Vec<T>,
    rows: usize,
    cols: usize,
    update: &F,
)
    requires
        rows >= 1,
        cols >= 1,
        rows * cols <= usize::MAX,
        prev@.len() == rows * cols,
        cur@.len() == rows * cols,
        old(next)@.len() == rows * cols,
        forces@.len() == rows * cols,
        forall|nb: Neighborhood<T>| update.requires((nb,)),
    ensures
        swept(*update, rows as int, cols as int, forces@, prev@, cur@, final(next)@),
{
    let ghost n = rows as int;
    let ghost m = cols as int;
    let mut r: usize = 0;
    let mut base: usize = 0;
    while r < rows
        invariant
            r <= rows,
            n >= 1,
            m >= 1,
            n == rows,
            m == cols,
            base == r * cols,
            rows * cols <= usize::MAX,
            prev@.len() == n * m,
            cur@.len() == n * m,
            next@.len() == n * m,
            forces@.len() == n * m,
            forall|nb: Neighborhood<T>| update.requires((nb,)),
            forall|i: int, j: int|
                0 <= i < r && 0 <= j < m ==> update.ensures(
                    (neighborhood(prev@, cur@, forces@, n, m, i, j),),
                    #[trigger] at(next@, m, i, j),
                ),
        decreases rows - r,
    {
        proof {
            lemma_cell_in_grid(n, m, r as int, 0);
            assert((r + 1) * m == r * m + m) by (nonlinear_arith);
            if r > 0 {
                assert((r - 1) * m == r * m - m) by (nonlinear_arith);
                assert(r * m >= m) by (nonlinear_arith)
                    requires
                        r > 0,
                        m >= 0,
                ;
            }
            if r + 1 < n {
                lemma_cell_in_grid(n, m, r + 1, 0);
            }
        }
        let up_base: usize = if r == 0 {
            base
        } else {
            base - cols
        };
        let down_base: usize = if r + 1 < rows {
            base + cols
        } else {
            base
        };
        proof {
            assert(up_base == lower(r as int) * m);
            assert(down_base == upper(r as int, n) * m);
        }
        let mut c: usize = 0;
        while c < cols
            invariant
                r < rows,
                c <= cols,
                n >= 1,
                m >= 1,
                n == rows,
                m == cols,
                base == r * cols,
                up_base == lower(r as int) * m,
                down_base == upper(r as int, n) * m,
                rows * cols <= usize::MAX,
                prev@.len() == n * m,
                cur@.len() == n * m,
                next@.len() == n * m,
                forces@.len() == n * m,
                forall|nb: Neighborhood<T>| update.requires((nb,)),
                forall|i: int, j: int|
                    0 <= i < r && 0 <= j < m ==> update.ensures(
                        (neighborhood(prev@, cur@, forces@, n, m, i, j),),
                        #[trigger] at(next@, m, i, j),
                    ),
                forall|j: int|
                    0 <= j < c ==> update.ensures(
                        (neighborhood(prev@, cur@, forces@, n, m, r as int, j),),
                        #[trigger] at(next@, m, r as int, j),
                    ),
            decreases cols - c,
        {
            proof {
                lemma_neighbors_in_grid(n, m, r as int, c as int);
                lemma_cell_in_grid(n, m, r as int, c as int);
            }
            let left: usize = if c == 0 {
                c
            } else {
                c - 1
            };
            let right: usize = if c + 1 < cols {
                c + 1
            } else {
                cols - 1
            };
            let i = base + c;
            let nb = Neighborhood {
                previous: prev[i],
                center: cur[i],
                left: cur[base + left],
                right: cur[base + right],
                up: cur[up_base + c],
                down: cur[down_base + c],
                force: forces[i],
            };
            assert(nb == neighborhood(prev@, cur@, forces@, n, m, r as int, c as int));
            let v = update(nb);
            let ghost old_next = next@;
            next.set(i, v);
            proof {
                assert forall|a: int, b: int|
                    0 <= a < n && 0 <= b < m && (a != r || b != c) implies at(next@, m, a, b)
                    == at(old_next, m, a, b) by {
                    lemma_cell_in_grid(n, m, a, b);
                    if a < r {
                        assert(a * m + b < r * m) by (nonlinear_arith)
                            requires
                                a < r,
                                0 <= b < m,
                        ;
                    } else if a > r {
                        assert(a * m + b > r * m + c) by (nonlinear_arith)
                            requires
                                a > r,
                                0 <= b,
                                0 <= c < m,
                        ;
                    }
                }
                assert(at(next@, m, r as int, c as int) == v);
                assert forall|a: int, b: int|
                    0 <= a < r && 0 <= b < m implies update.ensures(
                    (neighborhood(prev@, cur@, forces@, n, m, a, b),),
                    #[trigger] at(next@, m, a, b),
                ) by {
                    assert(at(next@, m, a, b) == at(old_next, m, a, b));
                }
                assert forall|b: int|
                    0 <= b < c + 1 implies update.ensures(
                    (neighborhood(prev@, cur@, forces@, n, m, r as int, b),),
                    #[trigger] at(next@, m, r as int, b),
                ) by {
                    if b < c {
                        assert(at(next@, m, r as int, b) == at(old_next, m, r as int, b));
                    }
                }
            }
            c += 1;
        }
        proof {
            assert((r + 1) * m == r * m + m) by (nonlinear_arith);
        }
        r += 1;
        base = base + cols;
    }
}

/// The role index after one rotation: it advances by one, modulo three.
pub open spec fn rotated(role: int) -> int {
    (role + 1) % 3
}

/// A field of `len` cells that all hold `z`.
pub open spec fn uniform<T>(len: int, z: T) -> Seq<T> {
    Seq::new(len as nat, |_i: int| z)
}

/// Entry `i + 1` of `trace` follows from entry `i` by one sweep: the
/// current field becomes the previous one, and the new current field is
/// what `update` gives on every cell.
pub open spec fn linked<T, F: Fn(Neighborhood<T>) -> T>(
    update: F,
    rows: int,
    cols: int,
    forces: Seq<T>,
    trace: Seq<(Seq<T>, Seq<T>)>,
    i: int,
) -> bool {
    &&& trace[i + 1].0 == trace[i].1
    &&& swept(update, rows, cols, forces, trace[i].0, trace[i].1, trace[i + 1].1)
}

/// The forces that sweep `i` of a step reads: those gathered before the
/// step for the first sweep, a field of `zero` for the others.
pub open spec fn sweep_forces<T>(forces: Seq<T>, zero: T, len: int, i: int) -> Seq<T> {
    if i == 0 {
        forces
    } else {
        uniform(len, zero)
    }
}

/// Each entry of `trace`, a pair (previous, current), follows from the one
/// before it by one sweep; the first sweep reads `forces`, the later ones a
/// field of `zero`.
pub open spec fn is_run<T, F: Fn(Neighborhood<T>) -> T>(
    update: F,
    rows: int,
    cols: int,
    forces: Seq<T>,
    zero: T,
    trace: Seq<(Seq<T>, Seq<T>)>,
) -> bool {
    forall|i: int|
        0 <= i < trace.len() - 1 ==> #[trigger] linked(
            update,
            rows,
            cols,
            sweep_forces(forces, zero, rows * cols, i),
            trace,
            i,
        )
}

/// From fields `(prev0, cur0)`, `n` sweeps of `update` lead to
/// `(prev1, cur1)`: the first sweep under `forces`, the other `n - 1` under
/// a field of `zero`.
pub open spec fn steps_to<T, F: Fn(Neighborhood<T>) -> T>(
    update: F,
    rows: int,
    cols: int,
    forces: Seq<T>,
    zero: T,
    prev0: Seq<T>,
    cur0: Seq<T>,
    prev1: Seq<T>,
    cur1: Seq<T>,
    n: nat,
) -> bool {
    exists|trace: Seq<(Seq<T>, Seq<T>)>|
        #[trigger] is_run(update, rows, cols, forces, zero, trace) && trace.len() == n + 1 && trace[0]
            == (prev0, cur0) && trace[n as int] == (prev1, cur1)
}

/// Three same-shaped fields that play the roles previous, current and next
/// in turn, and the force accumulator that the next step reads.
pub struct WaveGrid<T> {
    rows: usize,
    cols: usize,
    role: usize,
    a: Vec<T>,
    b: Vec<T>,
    c: Vec<T>,
    forces: Vec<T>,
}

impl<T: Copy> WaveGrid<T> {
    pub closed spec fn rows_spec(&self) -> int {
        self.rows as int
    }

    pub closed spec fn cols_spec(&self) -> int {
        self.cols as int
    }

    /// Which buffer plays `previous`; `current` and `next` follow it.
    pub closed spec fn role_spec(&self) -> int {
        self.role as int
    }

    pub closed spec fn buffer(&self, k: int) -> Seq<T> {
        if k == 0 {
            self.a@
        } else if k == 1 {
            self.b@
        } else {
            self.c@
        }
    }

    pub open spec fn len_spec(&self) -> int {
        self.rows_spec() * self.cols_spec()
    }

    pub open spec fn previous_view(&self) -> Seq<T> {
        self.buffer(self.role_spec())
    }

    pub open spec fn current_view(&self) -> Seq<T> {
        self.buffer((self.role_spec() + 1) % 3)
    }

    /// The scratch field, which the next sweep overwrites.
    pub open spec fn next_view(&self) -> Seq<T> {
        self.buffer((self.role_spec() + 2) % 3)
    }

    pub closed spec fn forces_view(&self) -> Seq<T> {
        self.forces@
    }

    pub closed spec fn wf(&self) -> bool {
        &&& self.rows >= 1
        &&& self.cols >= 1
        &&& self.rows * self.cols <= usize::MAX
        &&& self.role < 3
        &&& self.a@.len() == self.rows * self.cols
        &&& self.b@.len() == self.rows * self.cols
        &&& self.c@.len() == self.rows * self.cols
        &&& self.forces@.len() == self.rows * self.cols
    }

    /// What well-formedness gives a caller: a grid of at least one cell
    /// whose size fits in memory, a role index below three, and four fields
    /// of one cell per grid cell.
    pub proof fn lemma_wf_bounds(&self)
        requires
            self.wf(),
        ensures
            self.rows_spec() >= 1,
            self.cols_spec() >= 1,
            self.len_spec() <= usize::MAX,
            0 <= self.role_spec() < 3,
            self.previous_view().len() == self.len_spec(),
            self.current_view().len() == self.len_spec(),
            self.next_view().len() == self.len_spec(),
            self.forces_view().len() == self.len_spec(),
    {
    }

    /// `self` is `old` with its roles rotated once: the current field
    /// becomes the previous one, the next field becomes the current one,
    /// and the old previous field is the new scratch space.
    pub open spec fn is_rotation_of(&self, old: Self) -> bool {
        &&& self.wf()
        &&& self.rows_spec() == old.rows_spec()
        &&& self.cols_spec() == old.cols_spec()
        &&& self.role_spec() == rotated(old.role_spec())
        &&& self.previous_view() == old.current_view()
        &&& self.current_view() == old.next_view()
        &&& self.next_view() == old.previous_view()
        &&& self.forces_view() == old.forces_view()
    }

    /// A grid of `rows` x `cols` whose four fields all hold `zero`.
    pub fn new(rows: usize, cols: usize, zero: T) -> (r: Self)
        requires
            rows >= 1,
            cols >= 1,
            rows * cols <= usize::MAX,
        ensures
            r.wf(),
            r.rows_spec() == rows,
            r.cols_spec() == cols,
            r.role_spec() == 0,
            r.previous_view() == uniform(rows * cols, zero),
            r.current_view() == uniform(rows * cols, zero),
            r.next_view() == uniform(rows * cols, zero),
            r.forces_view() == uniform(rows * cols, zero),
    {
        let len = rows * cols;
        let a = filled(len, zero);
        let b = filled(len, zero);
        let c = filled(len, zero);
        let forces = filled(len, zero);
        Self { rows, cols, role: 0, a, b, c, forces }
    }

    pub fn rows(&self) -> (r: usize)
        ensures
            r == self.rows_spec(),
    {
        self.rows
    }

    pub fn cols(&self) -> (r: usize)
        ensures
            r == self.cols_spec(),
    {
        self.cols
    }

    /// The row-major index of cell `(row, col)`.
    pub fn index(&self, row: usize, col: usize) -> (r: usize)
        requires
            self.wf(),
            row < self.rows_spec(),
            col < self.cols_spec(),
        ensures
            r == row * self.cols_spec() + col,
            r < self.len_spec(),
    {
        proof {
            lemma_cell_in_grid(self.rows as int, self.cols as int, row as int, col as int);
        }
        row * self.cols + col
    }

    /// The height field as it stands between steps.
    pub fn current(&self) -> (r: &Vec<T>)
        requires
            self.wf(),
        ensures
            r@ == self.current_view(),
    {
        if self.role == 0 {
            &self.b
        } else if self.role == 1 {
            &self.c
        } else {
            &self.a
        }
    }

    /// The height field one step before the current one.
    pub fn previous(&self) -> (r: &Vec<T>)
        requires
            self.wf(),
        ensures
            r@ == self.previous_view(),
    {
        if self.role == 0 {
            &self.a
        } else if self.role == 1 {
            &self.b
        } else {
            &self.c
        }
    }

    /// The force accumulator.
    pub fn forces(&self) -> (r: &Vec<T>)
        ensures
            r@ == self.forces_view(),
    {
        &self.forces
    }

    /// Sets the force at cell `(row, col)`; nothing else changes.
    pub fn set_force(&mut self, row: usize, col: usize, v: T)
        requires
            old(self).wf(),
            row < old(self).rows_spec(),
            col < old(self).cols_spec(),
        ensures
            final(self).wf(),
            final(self).rows_spec() == old(self).rows_spec(),
            final(self).cols_spec() == old(self).cols_spec(),
            final(self).role_spec() == old(self).role_spec(),
            final(self).previous_view() == old(self).previous_view(),
            final(self).current_view() == old(self).current_view(),
            final(self).next_view() == old(self).next_view(),
            final(self).forces_view() == old(self).forces_view().update(
                row * old(self).cols_spec() + col,
                v,
            ),
    {
        let i = self.index(row, col);
        self.forces.set(i, v);
    }

    /// Sets every force to `zero`.
    pub fn clear_forces(&mut self, zero: T)
        requires
            old(self).wf(),
        ensures
            final(self).wf(),
            final(self).rows_spec() == old(self).rows_spec(),
            final(self).cols_spec() == old(self).cols_spec(),
            final(self).role_spec() == old(self).role_spec(),
            final(self).previous_view() == old(self).previous_view(),
            final(self).current_view() == old(self).current_view(),
            final(self).next_view() == old(self).next_view(),
            final(self).forces_view() == uniform(old(self).len_spec(), zero),
    {
        let mut i: usize = 0;
        while i < self.forces.len()
            invariant
                self.wf(),
                self.rows == old(self).rows,
                self.cols == old(self).cols,
                self.role == old(self).role,
                self.a == old(self).a,
                self.b == old(self).b,
                self.c == old(self).c,
                i <= self.forces@.len(),
                forall|j: int| 0 <= j < i ==> self.forces@[j] == zero,
            decreases self.forces@.len() - i,
        {
            self.forces.set(i, zero);
            i += 1;
        }
        assert(self.forces@ =~= uniform(self.len_spec(), zero));
    }

    /// Rotates the roles without copying a cell.
    pub fn rotate(&mut self)
        requires
            old(self).wf(),
        ensures
            final(self).is_rotation_of(*old(self)),
    {
        self.role = if self.role == 2 {
            0
        } else {
            self.role + 1
        };
    }

    /// One integration pass: writes into the scratch field what `update`
    /// gives on every cell, then rotates the roles so that this field
    /// becomes the current one.
    pub fn sweep<F: Fn(Neighborhood<T>) -> T>(&mut self, update: &F)
        requires
            old(self).wf(),
            forall|nb: Neighborhood<T>| update.requires((nb,)),
        ensures
            final(self).wf(),
            final(self).rows_spec() == old(self).rows_spec(),
            final(self).cols_spec() == old(self).cols_spec(),
            final(self).role_spec() == rotated(old(self).role_spec()),
            final(self).previous_view() == old(self).current_view(),
            final(self).next_view() == old(self).previous_view(),
            swept(
                *update,
                old(self).rows_spec(),
                old(self).cols_spec(),
                old(self).forces_view(),
                old(self).previous_view(),
                old(self).current_view(),
                final(self).current_view(),
            ),
            final(self).forces_view() == old(self).forces_view(),
    {
        if self.role == 0 {
            sweep_into(&self.a, &self.b, &mut self.c, &self.forces, self.rows, self.cols, update);
        } else if self.role == 1 {
            sweep_into(&self.b, &self.c, &mut self.a, &self.forces, self.rows, self.cols, update);
        } else {
            sweep_into(&self.c, &self.a, &mut self.b, &self.forces, self.rows, self.cols, update);
        }
        self.rotate();
    }

    /// Advances by `substeps` sweeps (at least one: zero counts as one).
    /// The forces gathered before the call enter the first sweep only; the
    /// later sweeps read a force field of `zero`, and every force is `zero`
    /// afterwards.
    pub fn step<F: Fn(Neighborhood<T>) -> T>(&mut self, substeps: usize, update: &F, zero: T)
        requires
            old(self).wf(),
            forall|nb: Neighborhood<T>| update.requires((nb,)),
        ensures
            final(self).wf(),
            final(self).rows_spec() == old(self).rows_spec(),
            final(self).cols_spec() == old(self).cols_spec(),
            final(self).role_spec() == (old(self).role_spec() + if substeps == 0 {
                1
            } else {
                substeps as int
            }) % 3,
            steps_to(
                *update,
                old(self).rows_spec(),
                old(self).cols_spec(),
                old(self).forces_view(),
                zero,
                old(self).previous_view(),
                old(self).current_view(),
                final(self).previous_view(),
                final(self).current_view(),
                (if substeps == 0 {
                    1
                } else {
                    substeps
                }) as nat,
            ),
            final(self).forces_view() == uniform(old(self).len_spec(), zero),
    {
        let n: usize = if substeps == 0 {
            1
        } else {
            substeps
        };
        let ghost start = *self;
        let ghost len = start.len_spec();
        self.sweep(update);
        self.clear_forces(zero);
        let ghost trace: Seq<(Seq<T>, Seq<T>)> = seq![
            (start.previous_view(), start.current_view()),
            (self.previous_view(), self.current_view()),
        ];
        proof {
            assert(linked(
                *update,
                start.rows_spec(),
                start.cols_spec(),
                sweep_forces(start.forces_view(), zero, len, 0),
                trace,
                0,
            ));
        }
        let mut i: usize = 1;
        while i < n
            invariant
                1 <= i <= n,
                self.wf(),
                self.rows == start.rows,
                self.cols == start.cols,
                len == start.len_spec(),
                self.role == (start.role + i) % 3,
                self.forces_view() == uniform(len, zero),
                forall|nb: Neighborhood<T>| update.requires((nb,)),
                trace.len() == i + 1,
                trace[0] == (start.previous_view(), start.current_view()),
                trace[i as int] == (self.previous_view(), self.current_view()),
                is_run(*update, start.rows_spec(), start.cols_spec(), start.forces_view(), zero, trace),
            decreases n - i,
        {
            let ghost before = trace;
            self.sweep(update);
            proof {
                trace = trace.push((self.previous_view(), self.current_view()));
                assert forall|j: int| 0 <= j < trace.len() - 1 implies #[trigger] linked(
                    *update,
                    start.rows_spec(),
                    start.cols_spec(),
                    sweep_forces(start.forces_view(), zero, len, j),
                    trace,
                    j,
                ) by {
                    if j < i {
                        assert(linked(
                            *update,
                            start.rows_spec(),
                            start.cols_spec(),
                            sweep_forces(start.forces_view(), zero, len, j),
                            before,
                            j,
                        ));
                        assert(trace[j] == before[j]);
                        assert(trace[j + 1] == before[j + 1]);
                    }
                }
            }
            i += 1;
        }
        assert(is_run(*update, start.rows_spec(), start.cols_spec(), start.forces_view(), zero, trace));
    }
}

/// A neighbourhood in which every value is `z`.
pub open spec fn uniform_neighborhood<T>(z: T) -> Neighborhood<T> {
    Neighborhood { previous: z, center: z, left: z, right: z, up: z, down: z, force: z }
}

/// Rotating the roles three times restores the initial configuration: the
/// same role index, and the same field in each role.
pub proof fn lemma_rotation_period<T: Copy>(
    g0: WaveGrid<T>,
    g1: WaveGrid<T>,
    g2: WaveGrid<T>,
    g3: WaveGrid<T>,
)
    requires
        g0.wf(),
        g1.is_rotation_of(g0),
        g2.is_rotation_of(g1),
        g3.is_rotation_of(g2),
    ensures
        g3.role_spec() == g0.role_spec(),
        g3.previous_view() == g0.previous_view(),
        g3.current_view() == g0.current_view(),
        g3.next_view() == g0.next_view(),
{
}

/// On a uniform field, every neighbourhood is uniform.
proof fn lemma_uniform_neighborhood<T>(rows: int, cols: int, z: T, r: int, c: int)
    requires
        0 <= r < rows,
        0 <= c < cols,
    ensures
        neighborhood(
            uniform(rows * cols, z),
            uniform(rows * cols, z),
            uniform(rows * cols, z),
            rows,
            cols,
            r,
            c,
        ) == uniform_neighborhood(z),
{
    lemma_neighbors_in_grid(rows, cols, r, c);
    lemma_cell_in_grid(rows, cols, r, c);
}

/// Index `k` of a row-major field is the cell at row `k / cols` and column
/// `k % cols`.
proof fn lemma_index_cell(rows: int, cols: int, k: int)
    requires
        cols >= 1,
        0 <= k < rows * cols,
    ensures
        0 <= k / cols < rows,
        0 <= k % cols < cols,
        (k / cols) * cols + k % cols == k,
{
    lemma_fundamental_div_mod(k, cols);
    lemma_mod_pos_bound(k, cols);
    let q = k / cols;
    assert(q * cols == cols * q) by (nonlinear_arith);
    assert(0 <= q < rows) by (nonlinear_arith)
        requires
            q * cols + k % cols == k,
            0 <= k % cols < cols,
            0 <= k < rows * cols,
            cols >= 1,
    ;
}

/// With every field and force at `z`, one sweep of an update that maps a
/// neighbourhood of `z` to `z` gives a field of `z`.
proof fn lemma_zero_sweep<T, F: Fn(Neighborhood<T>) -> T>(
    update: F,
    rows: int,
    cols: int,
    z: T,
    next: Seq<T>,
)
    requires
        rows >= 1,
        cols >= 1,
        forall|v: T| update.ensures((uniform_neighborhood(z),), v) ==> v == z,
        swept(
            update,
            rows,
            cols,
            uniform(rows * cols, z),
            uniform(rows * cols, z),
            uniform(rows * cols, z),
            next,
        ),
    ensures
        next == uniform(rows * cols, z),
{
    assert forall|k: int| 0 <= k < rows * cols implies next[k] == uniform(rows * cols, z)[k] by {
        lemma_index_cell(rows, cols, k);
        let r = k / cols;
        let c = k % cols;
        lemma_uniform_neighborhood(rows, cols, z, r, c);
        assert(update.ensures((uniform_neighborhood(z),), at(next, cols, r, c)));
    }
    assert(next =~= uniform(rows * cols, z));
}

/// Zero-state stability: if the update maps a neighbourhood of zeros to
/// zero, a grid whose previous, current and force fields hold only zeros
/// still holds only zeros after a step of any number of sweeps.
pub proof fn lemma_zero_state_stable<T, F: Fn(Neighborhood<T>) -> T>(
    update: F,
    rows: int,
    cols: int,
    z: T,
    prev1: Seq<T>,
    cur1: Seq<T>,
    n: nat,
)
    requires
        rows >= 1,
        cols >= 1,
        forall|v: T| update.ensures((uniform_neighborhood(z),), v) ==> v == z,
        steps_to(
            update,
            rows,
            cols,
            uniform(rows * cols, z),
            z,
            uniform(rows * cols, z),
            uniform(rows * cols, z),
            prev1,
            cur1,
            n,
        ),
    ensures
        prev1 == uniform(rows * cols, z),
        cur1 == uniform(rows * cols, z),
{
    let u = uniform(rows * cols, z);
    let trace = choose|trace: Seq<(Seq<T>, Seq<T>)>|
        #[trigger] is_run(update, rows, cols, u, z, trace) && trace.len() == n + 1 && trace[0] == (
            u,
            u,
        ) && trace[n as int] == (prev1, cur1);
    lemma_run_uniform(update, rows, cols, z, trace, n as int);
}

/// Every entry of a run that starts from uniform fields of `z` is uniform.
proof fn lemma_run_uniform<T, F: Fn(Neighborhood<T>) -> T>(
    update: F,
    rows: int,
    cols: int,
    z: T,
    trace: Seq<(Seq<T>, Seq<T>)>,
    i: int,
)
    requires
        rows >= 1,
        cols >= 1,
        forall|v: T| update.ensures((uniform_neighborhood(z),), v) ==> v == z,
        is_run(update, rows, cols, uniform(rows * cols, z), z, trace),
        trace.len() >= 1,
        trace[0] == (uniform(rows * cols, z), uniform(rows * cols, z)),
        0 <= i < trace.len(),
    ensures
        trace[i] == (uniform(rows * cols, z), uniform(rows * cols, z)),
    decreases i,
{
    if i > 0 {
        let u = uniform(rows * cols, z);
        lemma_run_uniform(update, rows, cols, z, trace, i - 1);
        assert(linked(update, rows, cols, sweep_forces(u, z, rows * cols, i - 1), trace, i - 1));
        lemma_zero_sweep(update, rows, cols, z, trace[i].1);
    }
}

/// A vector of `len` copies of `v`.
fn filled<T: Copy>(len: usize, v: T) -> (r: Vec<T>)
    ensures
        r@ == uniform(len as int, v),
{
    let mut r: Vec<T> = Vec::new();
    let mut i: usize = 0;
    while i < len
        invariant
            i <= len,
            r@ == uniform(i as int, v),
        decreases len - i,
    {
        r.push(v);
        i += 1;
        assert(r@ =~= uniform(i as int, v));
    }
    r
}

} // verus!
