use wave_simulation::impulse::{smoothing_targets, CursorTrace, Injection};
use wave_simulation::wave::{Neighborhood, WaveGrid};

const FORCE_STRENGTH: f32 = 16.0;

/// The damped explicit update of one cell.
fn wave_update(h: f32, delta_t: f32, damping: f32) -> impl Fn(Neighborhood<f32>) -> f32 {
    let k = (delta_t / h) * (delta_t / h);
    move |nb: Neighborhood<f32>| {
        damping
            * (2.0 * nb.center - nb.previous
                + k * (nb.left + nb.right + nb.up + nb.down - 4.0 * nb.center)
                + nb.force)
    }
}

fn add_smoothed(grid: &mut WaveGrid<f32>, row: usize, col: usize, force: f32) {
    for (r, c, w) in smoothing_targets(row, col, grid.rows(), grid.cols()) {
        let i = grid.index(r, c);
        let v = grid.forces()[i] + force / 16.0 * w as f32;
        grid.set_force(r, c, v);
    }
}

/// Bilinear point injection at the fractional position `(x, y)`.
fn add_point(grid: &mut WaveGrid<f32>, x: f32, y: f32, strength: f32) {
    let (xi, yi) = (x.floor() as usize, y.floor() as usize);
    let (wx, wy) = (x - x.floor(), y - y.floor());
    add_smoothed(grid, yi, xi, strength * (1.0 - wy) * (1.0 - wx));
    add_smoothed(grid, yi + 1, xi, strength * wy * (1.0 - wx));
    add_smoothed(grid, yi, xi + 1, strength * (1.0 - wy) * wx);
    add_smoothed(grid, yi + 1, xi + 1, strength * wy * wx);
}

fn energy(v: &[f32]) -> f32 {
    v.iter().map(|x| x * x).sum()
}

#[test]
fn new_grid_is_zero() {
    let grid = WaveGrid::new(3, 5, 0.0f32);
    assert_eq!((grid.rows(), grid.cols()), (3, 5));
    assert_eq!(grid.current().len(), 15);
    assert!(grid.current().iter().all(|v| *v == 0.0));
    assert!(grid.previous().iter().all(|v| *v == 0.0));
    assert!(grid.forces().iter().all(|v| *v == 0.0));
    assert_eq!(grid.index(2, 4), 14);
}

#[test]
fn zero_state_stays_zero() {
    let mut grid = WaveGrid::new(6, 7, 0.0f32);
    let update = wave_update(0.125, 0.05, 0.998);
    for substeps in [1usize, 2, 3, 1, 5] {
        grid.step(substeps, &update, 0.0);
    }
    assert!(grid.current().iter().all(|v| *v == 0.0));
    assert!(grid.previous().iter().all(|v| *v == 0.0));
}

#[test]
fn corner_force_stays_in_bounds() {
    let mut grid = WaveGrid::new(4, 5, 0.0f32);
    let update = wave_update(1.0, 0.1, 1.0);
    for (r, c) in [(0usize, 0usize), (0, 4), (3, 0), (3, 4)] {
        grid.set_force(r, c, 1.0);
        for _ in 0..10 {
            grid.step(1, &update, 0.0);
        }
    }
    assert!(grid.current().iter().all(|v| v.is_finite()));
    assert!(grid.current().iter().any(|v| *v != 0.0));
}

#[test]
fn step_applies_formula_and_clears_forces() {
    let mut grid = WaveGrid::new(3, 3, 0.0f32);
    grid.set_force(0, 0, 2.0);
    let update = wave_update(1.0, 0.5, 0.5);
    grid.step(1, &update, 0.0);
    // Only the corner had a force: 0.5 * 2.0.
    assert_eq!(grid.current()[0], 1.0);
    assert!(grid.current()[1..].iter().all(|v| *v == 0.0));
    assert!(grid.previous().iter().all(|v| *v == 0.0));
    assert!(grid.forces().iter().all(|v| *v == 0.0));
    // Next step: the corner reads itself as its missing neighbours.
    grid.step(1, &update, 0.0);
    // 0.5 * (2 - 0 + 0.25 * (1 + 0 + 1 + 0 - 4))
    assert_eq!(grid.current()[0], 0.75);
    // Cell (0, 1): left neighbour is the corner: 0.5 * 0.25 * 1.
    assert_eq!(grid.current()[1], 0.125);
    assert_eq!(grid.previous()[0], 1.0);
}

#[test]
fn zero_substeps_count_as_one() {
    let mut a = WaveGrid::new(3, 3, 0.0f32);
    let mut b = WaveGrid::new(3, 3, 0.0f32);
    a.set_force(1, 1, 1.0);
    b.set_force(1, 1, 1.0);
    let update = wave_update(1.0, 0.1, 1.0);
    a.step(0, &update, 0.0);
    b.step(1, &update, 0.0);
    assert_eq!(a.current(), b.current());
    assert_eq!(a.previous(), b.previous());
}

#[test]
fn rotation_has_period_three() {
    let mut grid = WaveGrid::new(2, 2, 0u32);
    grid.sweep(&|nb: Neighborhood<u32>| nb.center + 1);
    grid.sweep(&|nb: Neighborhood<u32>| nb.center + 10);
    let current = grid.current().clone();
    let previous = grid.previous().clone();
    assert_eq!(current, vec![11, 11, 11, 11]);
    assert_eq!(previous, vec![1, 1, 1, 1]);
    grid.rotate();
    assert_eq!(grid.previous(), &current);
    grid.rotate();
    grid.rotate();
    assert_eq!(grid.current(), &current);
    assert_eq!(grid.previous(), &previous);
}

#[test]
fn three_single_steps_return_to_the_same_buffer() {
    let mut grid = WaveGrid::new(2, 3, 0u32);
    let count = |nb: Neighborhood<u32>| nb.center + nb.previous + 1;
    grid.step(1, &count, 0);
    grid.step(1, &count, 0);
    grid.step(1, &count, 0);
    // 0,0 -> 1 -> 2 -> 4 (center + previous + 1 each time)
    assert!(grid.current().iter().all(|v| *v == 4));
    assert!(grid.previous().iter().all(|v| *v == 2));
}

#[test]
fn unit_impulse_sums_to_force_strength() {
    let mut grid = WaveGrid::new(8, 8, 0.0f32);
    add_point(&mut grid, 3.3, 4.6, FORCE_STRENGTH);
    let total: f32 = grid.forces().iter().sum();
    assert!((total - FORCE_STRENGTH).abs() < 1e-4);
    // Near an edge the clamped stencil still keeps the whole force.
    let mut edge = WaveGrid::new(8, 8, 0.0f32);
    add_point(&mut edge, 0.5, 0.25, FORCE_STRENGTH);
    let total: f32 = edge.forces().iter().sum();
    assert!((total - FORCE_STRENGTH).abs() < 1e-4);
}

#[test]
fn damping_takes_energy_out() {
    let mut damped = WaveGrid::new(16, 16, 0.0f32);
    let mut free = WaveGrid::new(16, 16, 0.0f32);
    add_point(&mut damped, 7.5, 7.5, FORCE_STRENGTH);
    add_point(&mut free, 7.5, 7.5, FORCE_STRENGTH);
    let with_damping = wave_update(1.0, 0.1, 0.99);
    let without = wave_update(1.0, 0.1, 1.0);
    for _ in 0..20 {
        damped.step(1, &with_damping, 0.0);
        free.step(1, &without, 0.0);
    }
    assert!(energy(damped.current()) > 0.0);
    assert!(energy(damped.current()) < energy(free.current()));
}

#[test]
fn same_point_twice_equals_double_strength() {
    let mut twice = WaveGrid::new(6, 6, 0.0f32);
    let mut trace = CursorTrace::new(0.0f32, 0.0f32);
    for _ in 0..2 {
        let (x, y) = (2.25f32, 3.5f32);
        match trace.accept(x, y, x.floor() as usize, y.floor() as usize) {
            Injection::Point => add_point(&mut twice, x, y, FORCE_STRENGTH),
            Injection::Line { .. } => panic!("a repeated sample is a point"),
        }
    }
    let mut once = WaveGrid::new(6, 6, 0.0f32);
    add_point(&mut once, 2.25, 3.5, 2.0 * FORCE_STRENGTH);
    for (a, b) in twice.forces().iter().zip(once.forces().iter()) {
        assert!((a - b).abs() < 1e-5);
    }
}

#[test]
fn centered_impulse_gives_a_symmetric_field() {
    let mut grid = WaveGrid::new(4, 4, 0.0f32);
    let mut trace = CursorTrace::new(0.0f32, 0.0f32);
    let (x, y) = (1.5f32, 1.5f32);
    assert!(matches!(trace.accept(x, y, 1, 1), Injection::Point));
    let (wx, wy) = (x - x.floor(), y - y.floor());
    for w in [(1.0 - wx) * (1.0 - wy), wx * (1.0 - wy), (1.0 - wx) * wy, wx * wy] {
        assert_eq!(w, 0.25);
    }
    add_point(&mut grid, x, y, FORCE_STRENGTH);
    let total: f32 = grid.forces().iter().sum();
    assert!((total - FORCE_STRENGTH).abs() < 1e-5);
    grid.step(1, &wave_update(1.0, 0.1, 1.0), 0.0);
    let f = grid.current();
    assert!(f.iter().any(|v| *v != 0.0));
    for r in 0..4 {
        for c in 0..4 {
            assert_eq!(f[r * 4 + c], f[c * 4 + r]);
        }
    }
}

#[test]
fn forces_enter_only_the_first_substep() {
    let mut grid = WaveGrid::new(2, 2, 0u64);
    grid.set_force(0, 0, 5);
    let read_force = |nb: Neighborhood<u64>| nb.force;
    grid.step(2, &read_force, 0);
    assert_eq!(grid.previous(), &vec![5, 0, 0, 0]);
    assert_eq!(grid.current(), &vec![0, 0, 0, 0]);
    assert!(grid.forces().iter().all(|v| *v == 0));
    let mut single = WaveGrid::new(2, 2, 0u64);
    single.set_force(1, 1, 7);
    single.step(1, &read_force, 0);
    assert_eq!(single.current(), &vec![0, 0, 0, 7]);
}

#[test]
fn sweep_reuses_the_old_previous_field_as_scratch() {
    let mut grid = WaveGrid::new(1, 2, 0u32);
    grid.sweep(&|nb: Neighborhood<u32>| nb.center + 1);
    grid.sweep(&|nb: Neighborhood<u32>| nb.center + 1);
    // previous = [1, 1], current = [2, 2]; the scratch field is the one
    // that held [0, 0], and rotating once more exposes it as current.
    grid.rotate();
    assert_eq!(grid.current(), &vec![0, 0]);
}
