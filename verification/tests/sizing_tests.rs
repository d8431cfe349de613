use hyprfinity::sizing::{derive_internal_size, derive_output_size};
use hyprfinity::util::{clamp_i32, even_floor, scaled_dimensions};

/// The render scale in parts per million, as the library takes it.
fn ppm(scale: f32) -> u32 {
    (scale * 1_000_000.0).round() as u32
}

#[test]
fn scaled_dimensions_rounds_and_clamps() {
    assert_eq!(scaled_dimensions(1920, 1080, ppm(0.5)), (960, 540));
    assert_eq!(scaled_dimensions(5, 5, ppm(1.0)), (4, 4));
    assert_eq!(scaled_dimensions(1920, 1080, ppm(0.0001)), (2, 2));
    assert_eq!(scaled_dimensions(1920, 1080, ppm(1.2)), (1920, 1080));
}

#[test]
fn even_floor_floors_to_even_and_two() {
    assert_eq!(even_floor(-7), 2);
    assert_eq!(even_floor(0), 2);
    assert_eq!(even_floor(2), 2);
    assert_eq!(even_floor(3), 2);
    assert_eq!(even_floor(1080), 1080);
    assert_eq!(even_floor(1081), 1080);
}

#[test]
fn clamp_i32_orders_bounds() {
    assert_eq!(clamp_i32(5, 2, 10), 5);
    assert_eq!(clamp_i32(1, 2, 10), 2);
    assert_eq!(clamp_i32(99, 2, 10), 10);
}

#[test]
fn internal_size_from_scale_is_even_and_clamped() {
    // A 4480x1440 span at three-quarter scale: rounded, clamped, evened.
    assert_eq!(derive_internal_size(4480, 1440, ppm(0.75), None, None), (3360, 1080));
}

#[test]
fn explicit_virtual_width_is_clamped_evened_and_height_inferred() {
    // 1601 exceeds no bound but is odd: floored to 1600, height inferred by
    // the 16:9 aspect of the 1920x1080 bound.
    assert_eq!(derive_internal_size(1920, 1080, ppm(1.0), Some(1601), None), (1600, 900));
}

#[test]
fn explicit_pair_is_clamped_to_tiny_bounds() {
    // Degenerate five-pixel bound: the override collapses to four.
    assert_eq!(derive_output_size(5, 5, Some(10), Some(10)), (4, 4));
}

#[test]
fn output_size_without_overrides_keeps_the_span() {
    assert_eq!(derive_output_size(4480, 1440, None, None), (4480, 1440));
    // The identity case keeps even an odd span: only overridden or inferred
    // dimensions are evened.
    assert_eq!(derive_output_size(1921, 1080, None, None), (1921, 1080));
}

#[test]
fn output_height_override_infers_width() {
    assert_eq!(derive_output_size(3840, 2160, None, Some(1080)), (1920, 1080));
}

#[test]
fn internal_overrides_beyond_bounds_are_pulled_back() {
    assert_eq!(derive_internal_size(1920, 1080, ppm(1.0), Some(5000), Some(5000)), (1920, 1080));
}
