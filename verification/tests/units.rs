use platformer::units::ceil_to_tile;
use platformer::units::clamp;
use platformer::units::floor_div;
use platformer::units::floor_to_tile;
use platformer::units::remap;
use platformer::units::scale;
use platformer::units::shift;
use platformer::units::Vec2;
use platformer::units::MAGNITUDE_LIMIT;
use platformer::units::MILLION;
use platformer::units::PIXEL;
use platformer::units::TILE;
use platformer::units::WORLD_LIMIT;

#[test]
fn constants_agree() {
    assert_eq!(TILE, 16 * PIXEL);
    assert_eq!(MILLION, 1_000_000);
    assert_eq!(WORLD_LIMIT % TILE, 0);
}

#[test]
fn vec2_new_keeps_components() {
    let v = Vec2::new(-3, 7);
    assert_eq!(v, Vec2 { x: -3, y: 7 });
}

#[test]
fn scale_applies_rate_over_time() {
    // 70 pixels per second over a sixtieth of a second
    assert_eq!(scale(70_000_000, 16_667), 1_166_690);
    assert_eq!(scale(1_100_000_000, 1_000_000), 1_100_000_000);
    assert_eq!(scale(123, 0), 0);
    assert_eq!(scale(0, 4_294_967_295), 0);
}

#[test]
fn scale_rounds_toward_zero_on_both_sides() {
    assert_eq!(scale(7, 500_000), 3);
    assert_eq!(scale(-7, 500_000), -3);
    assert_eq!(scale(-70_000_000, 16_667), -1_166_690);
    assert_eq!(scale(1, 999_999), 0);
    assert_eq!(scale(-1, 999_999), 0);
}

#[test]
fn scale_takes_the_largest_arguments() {
    assert_eq!(scale(MAGNITUDE_LIMIT, u32::MAX), 8_589_934_590_000_000_000);
    assert_eq!(scale(-MAGNITUDE_LIMIT, u32::MAX), -8_589_934_590_000_000_000);
}

#[test]
fn clamp_limits_to_range() {
    assert_eq!(clamp(5, 0, 10), 5);
    assert_eq!(clamp(-5, 0, 10), 0);
    assert_eq!(clamp(15, 0, 10), 10);
    assert_eq!(clamp(i128::MAX, -3, -3), -3);
    assert_eq!(clamp(i128::MIN, i64::MIN, i64::MAX), i64::MIN);
}

#[test]
fn shift_moves_and_confines() {
    assert_eq!(shift(10, -25), -15);
    assert_eq!(shift(WORLD_LIMIT, 5), WORLD_LIMIT);
    assert_eq!(shift(-WORLD_LIMIT, -5), -WORLD_LIMIT);
    assert_eq!(shift(i64::MAX, i64::MAX), WORLD_LIMIT);
    assert_eq!(shift(i64::MIN, i64::MIN), -WORLD_LIMIT);
    assert_eq!(shift(WORLD_LIMIT, -1), WORLD_LIMIT - 1);
}

#[test]
fn floor_div_rounds_down() {
    assert_eq!(floor_div(7, 2), 3);
    assert_eq!(floor_div(-7, 2), -4);
    assert_eq!(floor_div(-8, 2), -4);
    assert_eq!(floor_div(0, 5), 0);
    assert_eq!(floor_div(-1, 16_000_000), -1);
}

#[test]
fn tile_rounding_of_positive_coordinates() {
    assert_eq!(floor_to_tile(0), 0);
    assert_eq!(floor_to_tile(15_999_999), 0);
    assert_eq!(floor_to_tile(16_000_000), 16_000_000);
    assert_eq!(ceil_to_tile(0), 0);
    assert_eq!(ceil_to_tile(1), 16_000_000);
    assert_eq!(ceil_to_tile(16_000_000), 16_000_000);
    assert_eq!(ceil_to_tile(16_000_001), 32_000_000);
}

#[test]
fn tile_rounding_of_negative_coordinates() {
    assert_eq!(floor_to_tile(-1), -16_000_000);
    assert_eq!(floor_to_tile(-16_000_000), -16_000_000);
    assert_eq!(floor_to_tile(-16_000_001), -32_000_000);
    assert_eq!(ceil_to_tile(-1), 0);
    assert_eq!(ceil_to_tile(-16_000_000), -16_000_000);
    assert_eq!(ceil_to_tile(-15_999_999), 0);
    assert_eq!(floor_to_tile(-WORLD_LIMIT), -WORLD_LIMIT);
    assert_eq!(ceil_to_tile(WORLD_LIMIT), WORLD_LIMIT);
}

#[test]
fn remap_interpolates() {
    assert_eq!(remap(110_000_000, 70_000_000, 150_000_000, 1_000_000, 500_000), 750_000);
    assert_eq!(remap(800_000, 400_000, 1_200_000, 110_000_000, 150_000_000), 130_000_000);
    assert_eq!(remap(400_000, 400_000, 1_200_000, 110_000_000, 150_000_000), 110_000_000);
    assert_eq!(remap(1_200_000, 400_000, 1_200_000, 110_000_000, 150_000_000), 150_000_000);
}

#[test]
fn remap_extrapolates_and_rounds_down() {
    assert_eq!(remap(0, 400_000, 1_200_000, 110_000_000, 150_000_000), 90_000_000);
    assert_eq!(remap(400_000_000, 70_000_000, 150_000_000, 1_000_000, 500_000), -1_062_500);
    assert_eq!(remap(1, 0, 3, 0, 1), 0);
    assert_eq!(remap(1, 0, 3, 0, -1), -1);
    assert_eq!(remap(-1, 0, 3, 0, 1), -1);
}
