use hyprlight::Direction;
use hyprlight::applier::{direct_arg, osd_args};
use hyprlight::numeric::u32_to_dec;

#[test]
fn increase_formats_plus_percent() {
    assert_eq!(direct_arg(Direction::Increase, 7, 50), "+7%");
}

#[test]
fn decrease_at_one_formats_absolute() {
    assert_eq!(direct_arg(Direction::Decrease, 3, 1), "3%");
}

#[test]
fn decrease_at_zero_formats_absolute() {
    assert_eq!(direct_arg(Direction::Decrease, 5, 0), "5%");
}

#[test]
fn decrease_above_one_formats_relative() {
    assert_eq!(direct_arg(Direction::Decrease, 3, 50), "3%-");
}

#[test]
fn decrease_at_two_formats_relative() {
    assert_eq!(direct_arg(Direction::Decrease, 5, 2), "5%-");
}

#[test]
fn increase_ignores_current_level() {
    assert_eq!(direct_arg(Direction::Increase, 5, 0), "+5%");
    assert_eq!(direct_arg(Direction::Increase, 5, 100), "+5%");
}

#[test]
fn osd_args_raise() {
    let args = osd_args(Direction::Increase, 7);
    assert_eq!(args, vec!["--brightness", "raise", "7"]);
}

#[test]
fn osd_args_lower() {
    let args = osd_args(Direction::Decrease, 1);
    assert_eq!(args, vec!["--brightness", "lower", "1"]);
}

#[test]
fn decimal_formatting_exact() {
    assert_eq!(u32_to_dec(0), "0");
    assert_eq!(u32_to_dec(9), "9");
    assert_eq!(u32_to_dec(10), "10");
    assert_eq!(u32_to_dec(105), "105");
    assert_eq!(u32_to_dec(4294967295), "4294967295");
}
