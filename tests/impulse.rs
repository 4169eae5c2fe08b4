use wave_simulation::impulse::{cell_distance, next_square, smoothing_targets, CursorTrace, Injection};

#[test]
fn first_sample_is_a_point() {
    let mut trace = CursorTrace::new(0.0f32, 0.0f32);
    assert!(trace.discontinuous);
    assert!(matches!(trace.accept(3.5, 2.5, 3, 2), Injection::Point));
    assert!(!trace.discontinuous);
    assert_eq!((trace.x_old, trace.y_old, trace.cell_x, trace.cell_y), (3.5, 2.5, 3, 2));
}

#[test]
fn same_cell_is_a_point_and_new_cell_is_a_line() {
    let mut trace = CursorTrace::new(0.0f32, 0.0f32);
    trace.accept(3.5, 2.5, 3, 2);
    assert!(matches!(trace.accept(3.9, 2.1, 3, 2), Injection::Point));
    match trace.accept(5.5, 2.1, 5, 2) {
        Injection::Line { from_x, from_y } => assert_eq!((from_x, from_y), (3.9, 2.1)),
        Injection::Point => panic!("a move across cells is a line"),
    }
}

#[test]
fn interrupt_starts_a_fresh_touch() {
    let mut trace = CursorTrace::new(0.0f32, 0.0f32);
    trace.accept(1.5, 1.5, 1, 1);
    trace.interrupt();
    assert!(trace.discontinuous);
    assert_eq!((trace.x_old, trace.cell_x), (1.5, 1));
    assert!(matches!(trace.accept(6.5, 6.5, 6, 6), Injection::Point));
}

#[test]
fn stencil_in_the_interior() {
    let t = smoothing_targets(2, 3, 5, 5);
    assert_eq!(
        t,
        vec![
            (1, 2, 1),
            (1, 3, 2),
            (1, 4, 1),
            (2, 2, 2),
            (2, 3, 4),
            (2, 4, 2),
            (3, 2, 1),
            (3, 3, 2),
            (3, 4, 1),
        ]
    );
    assert_eq!(t.iter().map(|e| e.2).sum::<u32>(), 16);
}

#[test]
fn stencil_clamps_at_the_corners() {
    let t = smoothing_targets(0, 0, 3, 4);
    assert_eq!(t[0], (0, 0, 1));
    assert_eq!(t[4], (0, 0, 4));
    assert_eq!(t[8], (1, 1, 1));
    let t = smoothing_targets(2, 3, 3, 4);
    assert_eq!(t[0], (1, 2, 1));
    assert_eq!(t[8], (2, 3, 1));
    assert_eq!(t[5], (2, 3, 2));
    assert_eq!(t.iter().map(|e| e.2).sum::<u32>(), 16);
    let t = smoothing_targets(0, 0, 1, 1);
    assert!(t.iter().all(|e| e.0 == 0 && e.1 == 0));
}

#[test]
fn cell_distance_counts_both_axes() {
    assert_eq!(cell_distance(2, 5, 6, 3), 6);
    assert_eq!(cell_distance(6, 3, 2, 5), 6);
    assert_eq!(cell_distance(4, 4, 4, 4), 0);
    assert_eq!(cell_distance(0, 0, 0, 9), 9);
}

#[test]
fn line_walk_moves_one_square_at_a_time() {
    assert_eq!(next_square(2, 3, 8, 8, true, true), Some((3, 3)));
    assert_eq!(next_square(2, 3, 8, 8, false, true), Some((2, 4)));
    assert_eq!(next_square(2, 3, 8, 8, false, false), Some((2, 2)));
    // Leaving the grid is refused.
    assert_eq!(next_square(6, 3, 8, 8, true, false), None);
    assert_eq!(next_square(2, 6, 8, 8, false, true), None);
    assert_eq!(next_square(2, 0, 8, 8, false, false), None);
}
