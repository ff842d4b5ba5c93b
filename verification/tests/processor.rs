use texture_wear::processor::{
    clamp_level, composite_of_octaves, Pixel, Processor, NOISE_SCALE, POINT_FREQUENCY,
};

fn px(r: u8, g: u8, b: u8, a: u8) -> Pixel {
    Pixel { r, g, b, a }
}

#[test]
fn point_count_100x100() {
    let p = Processor::new(100, 100, 7, 42);
    assert_eq!(p.point_count(), 1000);
    assert_eq!(p.points.len(), 1000);
    for pt in &p.points {
        assert!(pt.x < 100);
        assert!(pt.y < 100);
        assert_eq!(pt.radius, 1);
    }
}

#[test]
fn point_count_odd_dimensions() {
    let p = Processor::new(7, 13, 1, 2);
    assert_eq!(p.points.len() as u64, 7 * 13 / POINT_FREQUENCY);
    for pt in &p.points {
        assert!(pt.x < 7);
        assert!(pt.y < 13);
        assert_eq!(pt.radius, 1);
    }
    assert_eq!(p.max_dimension, 13);
}

#[test]
fn zero_area_yields_no_points() {
    let p = Processor::new(0, 5, 3, 4);
    assert_eq!(p.points.len(), 0);
    assert_eq!(p.width, 0);
    assert_eq!(p.height, 5);
    let q = Processor::new(5, 0, 3, 4);
    assert_eq!(q.points.len(), 0);
    assert_eq!(q.max_dimension, 5);
}

#[test]
fn set_black_is_constant_and_idempotent() {
    let p = Processor::new(2, 2, 9, 9);
    let once = p.set_black(0, 0, &px(17, 99, 3, 4));
    assert_eq!(once, px(0, 0, 0, 255));
    let other = p.set_black(1, 1, &px(255, 255, 255, 0));
    assert_eq!(other, once);
    let twice = p.set_black(0, 0, &once);
    assert_eq!(twice, once);
}

#[test]
fn transparency_alpha_is_x_mod_255() {
    let p = Processor::new(2, 2, 9, 9);
    let out = p.transparency_test(300, 17, &px(1, 2, 3, 4));
    assert_eq!(out, px(255, 255, 255, 45));
    assert_eq!(p.transparency_test(0, 5, &px(9, 9, 9, 9)).a, 0);
    assert_eq!(p.transparency_test(254, 0, &px(9, 9, 9, 9)).a, 254);
    assert_eq!(p.transparency_test(255, 0, &px(9, 9, 9, 9)).a, 0);
    // Independent of y and of the input pixel.
    assert_eq!(
        p.transparency_test(300, 0, &px(0, 0, 0, 0)),
        p.transparency_test(300, 99, &px(255, 255, 255, 255))
    );
}

#[test]
fn pixel_at_point_position_is_erased() {
    // 4 * 3 / 10 = 1: exactly one point, radius 1.
    let p = Processor::new(4, 3, 11, 5);
    assert_eq!(p.points.len(), 1);
    let pt = p.points[0];
    assert!(pt.radius >= 1);
    for composite in [0u32, 250_000, 500_000, NOISE_SCALE] {
        let out = p.process_pixel(pt.x, pt.y, &px(10, 20, 30, 255), composite, 0);
        assert_eq!(out.a, 0);
    }
    let dbg = p.process_pixel_debug(pt.x, pt.y, &px(10, 20, 30, 40), 0);
    assert_eq!(dbg.r, 255);
    assert_eq!(dbg.b, 255);
    assert_eq!(dbg.a, 40);
}

#[test]
fn process_pixel_exact_values_without_points() {
    // 1 * 1 / 10 = 0: an empty point field.
    let p = Processor::new(1, 1, 0, 0);
    assert_eq!(p.points.len(), 0);
    // alpha 200 scaled by 0.5 rounds to 100; each channel blends 50/50 with
    // the darkening composite at full strength (255).
    let out = p.process_pixel(0, 0, &px(100, 50, 25, 200), 500_000, NOISE_SCALE);
    assert_eq!(out.a, 100);
    assert_eq!(out.r, 178);
    assert_eq!(out.g, 153);
    assert_eq!(out.b, 140);
    // A zero composite erases alpha entirely even without points.
    assert_eq!(p.process_pixel(0, 0, &px(1, 2, 3, 255), 0, 0).a, 0);
    // A full composite keeps alpha exactly.
    assert_eq!(p.process_pixel(0, 0, &px(1, 2, 3, 255), NOISE_SCALE, 0).a, 255);
}

#[test]
fn process_pixel_alpha_never_increases() {
    let p = Processor::new(6, 6, 21, 8);
    for composite in [0u32, 1, 123_456, 999_999, NOISE_SCALE] {
        for a in [0u8, 1, 128, 255] {
            let out = p.process_pixel(2, 3, &px(0, 0, 0, a), composite, 0);
            assert!(out.a <= a);
        }
    }
}

#[test]
fn debug_green_channel_values() {
    let p = Processor::new(1, 1, 0, 0);
    let low = p.process_pixel_debug(0, 0, &px(0, 10, 0, 9), 100_000);
    assert_eq!(low.g, 36);
    assert_eq!(low.a, 9);
    let saturated = p.process_pixel_debug(0, 0, &px(0, 200, 0, 9), 500_000);
    assert_eq!(saturated.g, 255);
}

#[test]
fn clamp_level_saturates() {
    assert_eq!(clamp_level(2_000_000), NOISE_SCALE);
    assert_eq!(clamp_level(NOISE_SCALE as u64), NOISE_SCALE);
    assert_eq!(clamp_level(123), 123);
    assert_eq!(clamp_level(0), 0);
}

#[test]
fn composite_averages_octaves() {
    assert_eq!(composite_of_octaves(300_000, 600_000, 900_000), 600_000);
    assert_eq!(composite_of_octaves(NOISE_SCALE, NOISE_SCALE, NOISE_SCALE), NOISE_SCALE);
    assert_eq!(composite_of_octaves(0, 0, 0), 0);
    assert_eq!(composite_of_octaves(0, 0, 1), 0);
}
