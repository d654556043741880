use grr_imgui::clip::{
    framebuffer_size, is_culled, is_degenerate, scaled_distance, scissor, to_pixel_rect,
    FramebufferSize, PixelRect, Region,
};
use grr_imgui::frame::{ClipRect, Extent, Position, Scale};
use grr_imgui::projection::{projection, Projection, Ratio};
use grr_imgui::units::{to_covering_pixels, to_whole_pixels, PIXEL, UNIT};

fn rect(left: i128, top: i128, right: i128, bottom: i128) -> PixelRect {
    PixelRect { left: left * PIXEL, top: top * PIXEL, right: right * PIXEL, bottom: bottom * PIXEL }
}

fn fb(width: i128, height: i128) -> FramebufferSize {
    FramebufferSize { width: width * PIXEL, height: height * PIXEL }
}

/// `scale * x + offset` for the logical coordinate `x`, as a fraction.
fn apply(scale: Ratio, offset: Ratio, x: i64) -> (i128, i128) {
    let num = scale.num * (x as i128) * (offset.den as i128)
        + offset.num * (scale.den as i128) * (UNIT as i128);
    let den = (scale.den as i128) * (offset.den as i128) * (UNIT as i128);
    (num, den)
}

fn clip_point(p: &Projection, x: i64, y: i64) -> (f64, f64) {
    let (xn, xd) = apply(p.x_scale, p.x_offset, x);
    let (yn, yd) = apply(p.y_scale, p.y_offset, y);
    (xn as f64 / xd as f64, yn as f64 / yd as f64)
}

#[test]
fn units_are_sixteen_and_thirty_two_fractional_bits() {
    assert_eq!(UNIT, 1 << 16);
    assert_eq!(PIXEL, 1 << 32);
    assert_eq!(PIXEL, (UNIT as i128) * (UNIT as i128));
}

#[test]
fn whole_pixels_round_towards_zero() {
    assert_eq!(to_whole_pixels(0), 0);
    assert_eq!(to_whole_pixels(PIXEL - 1), 0);
    assert_eq!(to_whole_pixels(PIXEL), 1);
    assert_eq!(to_whole_pixels(5 * PIXEL + PIXEL / 2), 5);
    assert_eq!(to_whole_pixels(-(5 * PIXEL + PIXEL / 2)), -5);
    assert_eq!(to_whole_pixels(-1), 0);
    assert_eq!(to_whole_pixels(-PIXEL), -1);
    assert_eq!(to_whole_pixels(-PIXEL - 1), -1);
}

#[test]
fn whole_pixels_saturate() {
    assert_eq!(to_whole_pixels(2147483647 * PIXEL), 2147483647);
    assert_eq!(to_whole_pixels(2147483648 * PIXEL), 2147483647);
    assert_eq!(to_whole_pixels(i128::MAX), 2147483647);
    assert_eq!(to_whole_pixels(-2147483648 * PIXEL), -2147483648);
    assert_eq!(to_whole_pixels(-2147483649 * PIXEL), -2147483648);
    assert_eq!(to_whole_pixels(-2147483648 * PIXEL - 1), -2147483648);
    assert_eq!(to_whole_pixels(-2147483647 * PIXEL - 1), -2147483647);
    assert_eq!(to_whole_pixels(i128::MIN), -2147483648);
}

#[test]
fn covering_pixels_round_up() {
    assert_eq!(to_covering_pixels(0), 0);
    assert_eq!(to_covering_pixels(1), 1);
    assert_eq!(to_covering_pixels(PIXEL), 1);
    assert_eq!(to_covering_pixels(PIXEL + 1), 2);
    assert_eq!(to_covering_pixels(40 * PIXEL), 40);
    assert_eq!(to_covering_pixels(-1), 1);
    assert_eq!(to_covering_pixels(-40 * PIXEL), 40);
    assert_eq!(to_covering_pixels(-40 * PIXEL - 1), 41);
}

#[test]
fn covering_pixels_saturate() {
    assert_eq!(to_covering_pixels(2147483647 * PIXEL), 2147483647);
    assert_eq!(to_covering_pixels(2147483646 * PIXEL + 1), 2147483647);
    assert_eq!(to_covering_pixels(2147483646 * PIXEL), 2147483646);
    assert_eq!(to_covering_pixels(2147483647 * PIXEL + 1), 2147483647);
    assert_eq!(to_covering_pixels(i128::MAX), 2147483647);
    assert_eq!(to_covering_pixels(i128::MIN), 2147483647);
    assert_eq!(to_covering_pixels(i128::MIN + 1), 2147483647);
}

#[test]
fn scaled_distance_is_the_exact_product() {
    assert_eq!(scaled_distance(0, 800 * UNIT, 65536), 800 * PIXEL);
    assert_eq!(scaled_distance(100 * UNIT, 110 * UNIT, 98304), 15 * PIXEL);
    assert_eq!(scaled_distance(10, 3, 5), -35);
    assert_eq!(scaled_distance(3, 10, -5), -35);
    assert_eq!(
        scaled_distance(i64::MIN, i64::MAX, i32::MIN),
        (i64::MAX as i128 - i64::MIN as i128) * (i32::MIN as i128)
    );
    assert_eq!(
        scaled_distance(i64::MAX, i64::MIN, i32::MIN),
        (i64::MIN as i128 - i64::MAX as i128) * (i32::MIN as i128)
    );
}

#[test]
fn framebuffer_is_display_size_times_scale() {
    let size = Extent { width: 1024 * UNIT, height: 768 * UNIT };
    assert_eq!(framebuffer_size(size, Scale { x: 65536, y: 65536 }), fb(1024, 768));
    assert_eq!(framebuffer_size(size, Scale { x: 131072, y: 98304 }), fb(2048, 1152));
    assert_eq!(
        framebuffer_size(Extent { width: 3, height: -7 }, Scale { x: 5, y: 11 }),
        FramebufferSize { width: 15, height: -77 }
    );
}

#[test]
fn framebuffer_without_width_or_height_is_degenerate() {
    assert!(is_degenerate(fb(0, 0)));
    assert!(is_degenerate(fb(0, 600)));
    assert!(is_degenerate(fb(800, 0)));
    assert!(is_degenerate(fb(-800, 600)));
    assert!(is_degenerate(fb(800, -600)));
    assert!(!is_degenerate(fb(800, 600)));
    assert!(!is_degenerate(FramebufferSize { width: 1, height: 1 }));
}

#[test]
fn pixel_rect_is_moved_and_scaled_corner_by_corner() {
    let clip = ClipRect { left: 110 * UNIT, top: 210 * UNIT, right: 130 * UNIT, bottom: 250 * UNIT };
    let origin = Position { x: 100 * UNIT, y: 200 * UNIT };
    assert_eq!(to_pixel_rect(clip, origin, Scale { x: 131072, y: 98304 }), rect(20, 15, 60, 75));
    assert_eq!(
        to_pixel_rect(
            ClipRect { left: 1, top: 2, right: 3, bottom: 4 },
            Position { x: 10, y: 20 },
            Scale { x: 7, y: -1 }
        ),
        PixelRect { left: -63, top: 18, right: -49, bottom: 16 }
    );
}

#[test]
fn cull_test_is_exclusive_at_the_far_edges() {
    assert!(is_culled(rect(800, 10, 810, 50), fb(800, 600)));
    assert!(!is_culled(rect(799, 10, 810, 50), fb(800, 600)));
    let mut just_inside = rect(800, 10, 810, 50);
    just_inside.left -= 1;
    assert!(!is_culled(just_inside, fb(800, 600)));
    assert!(is_culled(rect(10, 600, 50, 610), fb(800, 600)));
    assert!(!is_culled(rect(10, 599, 50, 610), fb(800, 600)));
    assert!(is_culled(rect(801, 10, 810, 50), fb(800, 600)));
}

#[test]
fn cull_test_is_inclusive_at_the_near_edges() {
    assert!(!is_culled(rect(-10, 0, 0, 10), fb(800, 600)));
    assert!(!is_culled(rect(0, -10, 10, 0), fb(800, 600)));
    let mut before = rect(-10, 0, 0, 10);
    before.right = -1;
    assert!(is_culled(before, fb(800, 600)));
    let mut above = rect(0, -10, 10, 0);
    above.bottom = -1;
    assert!(is_culled(above, fb(800, 600)));
}

#[test]
fn scissor_flips_y() {
    assert_eq!(
        scissor(rect(0, 10, 100, 50), fb(800, 600)),
        Region { x: 0, y: 550, w: 100, h: 40 }
    );
    assert_eq!(
        scissor(rect(0, 0, 800, 600), fb(800, 600)),
        Region { x: 0, y: 0, w: 800, h: 600 }
    );
}

#[test]
fn scissor_saturates() {
    let huge = PixelRect { left: i128::MIN, top: i128::MIN, right: i128::MAX, bottom: i128::MAX };
    assert_eq!(
        scissor(huge, fb(800, 600)),
        Region { x: -2147483648, y: -2147483648, w: 2147483647, h: 2147483647 }
    );
    let low = PixelRect { left: i128::MAX, top: i128::MAX, right: i128::MIN, bottom: i128::MIN };
    assert_eq!(
        scissor(low, fb(800, 600)),
        Region { x: 2147483647, y: 2147483647, w: 2147483647, h: 2147483647 }
    );
    let below = PixelRect { left: 0, top: 0, right: 0, bottom: i128::MAX };
    let negative = FramebufferSize { width: 1, height: -PIXEL };
    assert_eq!(scissor(below, negative).y, -2147483648);
}

#[test]
fn projection_maps_the_corners_of_800_by_600() {
    let p = projection(Position { x: 0, y: 0 }, Extent { width: 800 * UNIT, height: 600 * UNIT });
    assert_eq!(p.x_scale, Ratio { num: 131072, den: 800 * UNIT });
    assert_eq!(p.y_scale, Ratio { num: -131072, den: 600 * UNIT });
    assert_eq!(p.x_offset, Ratio { num: -(800 * UNIT as i128), den: 800 * UNIT });
    assert_eq!(p.y_offset, Ratio { num: 600 * UNIT as i128, den: 600 * UNIT });
    assert_eq!(clip_point(&p, 0, 0), (-1.0, 1.0));
    assert_eq!(clip_point(&p, 800 * UNIT, 600 * UNIT), (1.0, -1.0));
    assert_eq!(clip_point(&p, 400 * UNIT, 300 * UNIT), (0.0, 0.0));
    assert_eq!(clip_point(&p, 200 * UNIT, 150 * UNIT), (-0.5, 0.5));
}

#[test]
fn projection_follows_the_display_origin() {
    let pos = Position { x: 100 * UNIT, y: -50 * UNIT };
    let p = projection(pos, Extent { width: 640 * UNIT, height: 480 * UNIT });
    assert_eq!(p.x_offset, Ratio { num: -(840 * UNIT as i128), den: 640 * UNIT });
    assert_eq!(p.y_offset, Ratio { num: 380 * UNIT as i128, den: 480 * UNIT });
    assert_eq!(clip_point(&p, 100 * UNIT, -50 * UNIT), (-1.0, 1.0));
    assert_eq!(clip_point(&p, 740 * UNIT, 430 * UNIT), (1.0, -1.0));
}

#[test]
fn projection_matrix_is_laid_out_by_columns() {
    let p = projection(Position { x: 0, y: 0 }, Extent { width: 800 * UNIT, height: 600 * UNIT });
    let zero = Ratio { num: 0, den: 1 };
    let one = Ratio { num: 1, den: 1 };
    let minus_one = Ratio { num: -1, den: 1 };
    assert_eq!(
        p.matrix(),
        [
            [p.x_scale, zero, zero, zero],
            [zero, p.y_scale, zero, zero],
            [zero, zero, minus_one, zero],
            [p.x_offset, p.y_offset, zero, one],
        ]
    );
}

#[test]
fn projection_of_extreme_coordinates_does_not_overflow() {
    let p = projection(
        Position { x: i64::MAX, y: i64::MIN },
        Extent { width: i64::MAX, height: i64::MIN },
    );
    assert_eq!(p.x_offset.num, -(3 * (i64::MAX as i128)));
    assert_eq!(p.y_offset.num, 3 * (i64::MIN as i128));
}
