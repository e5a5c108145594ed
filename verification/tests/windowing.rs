use sampler::{Windowing, SAMPLING_WINDOWS};
use std::cell::Cell;

#[test]
fn slots_start_out_default() {
    let ring: Windowing<Cell<i64>> = Windowing::new();
    assert_eq!(ring.current().get(), 0);
}

#[test]
fn cycle_returns_the_previously_current_slot() {
    let ring: Windowing<Cell<i64>> = Windowing::new();

    ring.current().set(7);
    let retired = ring.cycle_windows();
    assert_eq!(retired.get(), 7);

    // The new current slot is a different, untouched one.
    assert_eq!(ring.current().get(), 0);
}

#[test]
fn rotation_comes_back_around() {
    let ring: Windowing<Cell<i64>> = Windowing::new();

    for mark in 0..SAMPLING_WINDOWS {
        ring.current().set(mark as i64 + 1);
        ring.cycle_windows();
    }

    // After a full lap the first slot, still carrying its mark, is current
    // again.
    assert_eq!(ring.current().get(), 1);
    assert_eq!(ring.cycle_windows().get(), 1);
    assert_eq!(ring.current().get(), 2);
}
