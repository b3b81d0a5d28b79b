use gmeter::render::{cur_line, format_fixed, max_line, render_frame, LINE_HEIGHT};

#[test]
fn value_is_right_aligned_and_rounded_to_two_decimals() {
    // 1.2345 gravities in fixed point, shown in a five-character field.
    assert_eq!(cur_line(12_345).as_str(), "Cur:  1.23");
}

#[test]
fn half_gravity() {
    assert_eq!(format_fixed(5_000).as_str(), " 0.50");
    assert_eq!(cur_line(5_000).as_str(), "Cur:  0.50");
    assert_eq!(max_line(5_000).as_str(), "Max:  0.50");
}

#[test]
fn zero_fills_the_field() {
    assert_eq!(format_fixed(0).as_str(), " 0.00");
}

#[test]
fn rounding_is_half_up() {
    assert_eq!(format_fixed(12_344).as_str(), " 1.23");
    assert_eq!(format_fixed(12_349).as_str(), " 1.23");
    assert_eq!(format_fixed(12_350).as_str(), " 1.24");
    assert_eq!(format_fixed(9_999).as_str(), " 1.00");
}

#[test]
fn wide_values_drop_the_padding() {
    assert_eq!(format_fixed(100_000).as_str(), "10.00");
    assert_eq!(format_fixed(1_234_567).as_str(), "123.46");
    assert_eq!(cur_line(1_234_567).as_str(), "Cur: 123.46");
}

#[test]
fn frame_places_the_two_lines_apart() {
    let f = render_frame(5_000, 12_345);
    assert_eq!(f.cur_text.as_str(), "Cur:  0.50");
    assert_eq!(f.peak_text.as_str(), "Max:  1.23");
    assert_eq!(f.cur_origin, (0, 0));
    assert_eq!(f.peak_origin, (0, LINE_HEIGHT));
    assert_eq!(LINE_HEIGHT, 23);
}
