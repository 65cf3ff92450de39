use mesh_world::biome::{
    displayed_height, grey_level, Biome, Color, HIGHLAND_LIMIT, LOWLAND_LIMIT, SEA_LEVEL, SHORE_LIMIT,
};
use mesh_world::noise::Noise;

const WATER: Color = Color { r: 5, g: 67, b: 166 };
const SHORE: Color = Color { r: 174, g: 184, b: 83 };
const LOWLAND: Color = Color { r: 26, g: 145, b: 38 };
const HIGHLAND: Color = Color { r: 74, g: 43, b: 27 };
const PEAK: Color = Color { r: 255, g: 255, b: 255 };

#[test]
fn colors_follow_the_height_bands() {
    assert_eq!(Noise::get_color_for_height(300_000), WATER);
    assert_eq!(Noise::get_color_for_height(520_000), SHORE);
    assert_eq!(Noise::get_color_for_height(600_000), LOWLAND);
    assert_eq!(Noise::get_color_for_height(850_000), HIGHLAND);
    assert_eq!(Noise::get_color_for_height(950_000), PEAK);
}

#[test]
fn band_limits_are_the_stated_ones() {
    assert_eq!(SEA_LEVEL, 500_000);
    assert_eq!(SHORE_LIMIT, 550_000);
    assert_eq!(LOWLAND_LIMIT, 800_000);
    assert_eq!(HIGHLAND_LIMIT, 900_000);
}

#[test]
fn water_ends_just_below_sea_level() {
    assert_eq!(Biome::classify(0), Biome::Water);
    assert_eq!(Biome::classify(499_999), Biome::Water);
    assert_eq!(Biome::classify(500_000), Biome::Shore);
}

#[test]
fn each_limit_belongs_to_the_band_below() {
    assert_eq!(Biome::classify(550_000), Biome::Shore);
    assert_eq!(Biome::classify(550_001), Biome::Lowland);
    assert_eq!(Biome::classify(800_000), Biome::Lowland);
    assert_eq!(Biome::classify(800_001), Biome::Highland);
    assert_eq!(Biome::classify(900_000), Biome::Highland);
    assert_eq!(Biome::classify(900_001), Biome::Peak);
    assert_eq!(Biome::classify(1_000_000), Biome::Peak);
}

#[test]
fn heights_outside_the_unit_interval_fall_into_the_outer_bands() {
    assert_eq!(Biome::classify(-1), Biome::Water);
    assert_eq!(Biome::classify(i64::MIN), Biome::Water);
    assert_eq!(Biome::classify(1_000_001), Biome::Peak);
    assert_eq!(Biome::classify(i64::MAX), Biome::Peak);
}

#[test]
fn every_band_has_its_color() {
    assert_eq!(Biome::Water.color(), WATER);
    assert_eq!(Biome::Shore.color(), SHORE);
    assert_eq!(Biome::Lowland.color(), LOWLAND);
    assert_eq!(Biome::Highland.color(), HIGHLAND);
    assert_eq!(Biome::Peak.color(), PEAK);
}

#[test]
fn sea_level_and_below_is_drawn_flat() {
    assert_eq!(displayed_height(0), 500_000);
    assert_eq!(displayed_height(300_000), 500_000);
    assert_eq!(displayed_height(499_999), 500_000);
    assert_eq!(displayed_height(500_000), 500_000);
    assert_eq!(displayed_height(-42), 500_000);
}

#[test]
fn land_is_drawn_at_its_own_height() {
    assert_eq!(displayed_height(500_001), 500_001);
    assert_eq!(displayed_height(730_000), 730_000);
    assert_eq!(displayed_height(1_000_000), 1_000_000);
}

#[test]
fn grey_levels_span_the_byte() {
    assert_eq!(grey_level(0), 0);
    assert_eq!(grey_level(1_000_000), 255);
    // 255 * 0.5 = 127.5, which rounds up
    assert_eq!(grey_level(500_000), 128);
    // 255 * 0.3 = 76.5
    assert_eq!(grey_level(300_000), 77);
    // 255 * 0.001 = 0.255
    assert_eq!(grey_level(1_000), 0);
    // 255 * 0.002 = 0.51
    assert_eq!(grey_level(2_000), 1);
}

#[test]
fn grey_levels_stay_within_the_byte() {
    assert_eq!(grey_level(-5), 0);
    assert_eq!(grey_level(i64::MIN), 0);
    assert_eq!(grey_level(1_000_001), 255);
    assert_eq!(grey_level(i64::MAX), 255);
}
