use vector_app::app::{cell_at_pixel, focus_change, FocusChange};
use vector_app::tab_window::{grid_dims, ResizeDebounce, RESIZE_DEBOUNCE_MS};

#[test]
fn grid_dims_fit_whole_cells_at_least_one() {
    assert_eq!(grid_dims(800, 600, 10, 20), (30, 80));
    assert_eq!(grid_dims(5, 5, 10, 20), (1, 1));
    assert_eq!(grid_dims(800, 600, 0, 0), (600, 800));
    assert_eq!(grid_dims(u32::MAX, u32::MAX, 1, 1), (u16::MAX, u16::MAX));
}

#[test]
fn resize_burst_forwards_last_size_once_quiet() {
    let mut d = ResizeDebounce::new();
    assert_eq!(d.take_if_quiescent(1000), None);
    d.record(24, 80, 100);
    d.record(30, 100, 120);
    assert_eq!(d.take_if_quiescent(120 + RESIZE_DEBOUNCE_MS - 1), None);
    assert_eq!(d.pending, Some((30, 100)));
    assert_eq!(d.take_if_quiescent(120 + RESIZE_DEBOUNCE_MS), Some((30, 100)));
    assert_eq!(d.take_if_quiescent(10_000), None);
}

#[test]
fn resize_clock_going_backwards_waits() {
    let mut d = ResizeDebounce::new();
    d.record(10, 10, 500);
    assert_eq!(d.take_if_quiescent(400), None);
    assert_eq!(d.pending, Some((10, 10)));
}

#[test]
fn pointer_to_cell() {
    assert_eq!(cell_at_pixel(25, 41, 10, 20), (2, 2));
    assert_eq!(cell_at_pixel(0, 0, 10, 20), (0, 0));
    assert_eq!(cell_at_pixel(7, 9, 0, 0), (7, 9));
    assert_eq!(cell_at_pixel(u32::MAX, 3, 1, 1), (u16::MAX, 3));
}

#[test]
fn focus_moves_between_panes() {
    assert_eq!(focus_change(Some(1), 2), FocusChange { deactivate: Some(1), activate: 2 });
    assert_eq!(focus_change(Some(2), 2), FocusChange { deactivate: None, activate: 2 });
    assert_eq!(focus_change(None, 5), FocusChange { deactivate: None, activate: 5 });
}
