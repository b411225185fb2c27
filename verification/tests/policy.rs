use hyprlight::Direction;
use hyprlight::step::adjust_step;

#[test]
fn increase_below_ten_clamps_to_one() {
    for current in 0..10u32 {
        assert_eq!(adjust_step(current, 0, Direction::Increase), 1);
        assert_eq!(adjust_step(current, 5, Direction::Increase), 1);
        assert_eq!(adjust_step(current, 100, Direction::Increase), 1);
    }
}

#[test]
fn decrease_at_most_ten_clamps_to_one() {
    for current in 0..=10u32 {
        assert_eq!(adjust_step(current, 0, Direction::Decrease), 1);
        assert_eq!(adjust_step(current, 5, Direction::Decrease), 1);
        assert_eq!(adjust_step(current, 100, Direction::Decrease), 1);
    }
}

#[test]
fn identity_outside_band() {
    for current in 11..=100u32 {
        assert_eq!(adjust_step(current, 7, Direction::Increase), 7);
        assert_eq!(adjust_step(current, 7, Direction::Decrease), 7);
    }
}

#[test]
fn boundary_exactly_ten() {
    assert_eq!(adjust_step(10, 7, Direction::Increase), 7);
    assert_eq!(adjust_step(10, 7, Direction::Decrease), 1);
}

#[test]
fn zero_step_passes_through_outside_band() {
    assert_eq!(adjust_step(50, 0, Direction::Increase), 0);
    assert_eq!(adjust_step(50, 0, Direction::Decrease), 0);
}
