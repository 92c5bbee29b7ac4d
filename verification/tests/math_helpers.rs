use rendering_engine::math_helpers::normalize_to_interval;

#[test]
fn normalize_negative_value_into_interval_from_zero() {
    // The documented example, on integers: -half turn lands on half turn.
    assert_eq!(normalize_to_interval(-3, 0..=6), 3);
}

#[test]
fn normalize_value_past_end_wraps_around() {
    assert_eq!(normalize_to_interval(7, 0..=6), 1);
    assert_eq!(normalize_to_interval(-13, 0..=6), 5);
}

#[test]
fn normalize_end_of_interval_maps_to_start() {
    assert_eq!(normalize_to_interval(6, 0..=6), 0);
    assert_eq!(normalize_to_interval(0, 0..=6), 0);
}

#[test]
fn normalize_value_inside_shifted_interval_is_kept() {
    assert_eq!(normalize_to_interval(13, 10..=20), 13);
}

#[test]
fn normalize_below_shifted_interval_moves_by_whole_widths() {
    // -5 is 7 below the start 2; one width (6) short of that is -1, so the
    // value lands 5 above the start.
    assert_eq!(normalize_to_interval(-5, 2..=8), 7);
}

#[test]
fn normalize_reduces_by_the_interval_width() {
    assert_eq!(normalize_to_interval(100, 50..=60), 50);
    assert_eq!(normalize_to_interval(67, 50..=60), 57);
    assert_eq!(normalize_to_interval(0, -180..=180), 0);
    assert_eq!(normalize_to_interval(190, -180..=180), -170);
    assert_eq!(normalize_to_interval(-190, -180..=180), 170);
}

#[test]
fn normalize_reversed_range_follows_the_computation() {
    // width -4: (9 - 5) rem -4 == 0, shifted back to 5, which is above 1,
    // so the (negative) width is taken off once more.
    assert_eq!(normalize_to_interval(9, 5..=1), 9);
}

#[test]
fn normalize_into_one_point_interval_gives_the_point() {
    assert_eq!(normalize_to_interval(7, 5..=5), 5);
    assert_eq!(normalize_to_interval(-3, 0..=0), 0);
}
