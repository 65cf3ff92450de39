use mesh_world::field::{extrema, normalize_height, NoiseMap, FLAT_LEVEL};
use mesh_world::fixed::UNIT;
use mesh_world::noise::{
    centre, guard_scale, sample, sample_along, Noise, NoiseParameters, MAX_EDITED_SCALE, MAX_FACTOR,
    MAX_OCTAVES, MAX_OFFSET, MAX_SEED, MAX_SIZE, MIN_EDITED_SCALE, MIN_FACTOR, MIN_OCTAVES,
    MIN_OFFSET, MIN_SCALE, MIN_SEED, MIN_SIZE,
};
use mesh_world::offsets::{octave_offsets, offset_from_draws, widen_seed, Offset, OFFSET_RANGE};

const ORIGIN: Offset = Offset { x: 0, y: 0 };

/// A stand-in for a coherent noise primitive: a value between zero and one
/// that depends on the point alone.
fn ripple(x: i64, y: i64) -> i64 {
    let a = (x / 1_000).rem_euclid(2_001);
    let b = (y / 700).rem_euclid(1_501);
    ((a * 389 + b * 523 + (a * b) % 977) * 131).rem_euclid(UNIT + 1)
}

fn level(_x: i64, _y: i64) -> i64 {
    750_000
}

fn cells_of(noise: &Noise) -> Vec<i64> {
    noise.noise_map.data.iter().flatten().copied().collect()
}

#[test]
fn seed_twelve_gives_its_offsets() {
    let offsets = octave_offsets(12, 4, ORIGIN);
    assert_eq!(
        offsets,
        vec![
            Offset { x: 42_206_000_000, y: 48_249_000_000 },
            Offset { x: 66_940_000_000, y: 96_618_000_000 },
            Offset { x: 94_345_000_000, y: 58_181_000_000 },
            Offset { x: 98_488_000_000, y: 86_488_000_000 },
        ]
    );
}

#[test]
fn offsets_are_moved_by_the_global_offset() {
    let offsets = octave_offsets(1, 3, Offset { x: 120_000, y: 400_000 });
    assert_eq!(
        offsets,
        vec![
            Offset { x: 82_495_120_000, y: 97_424_400_000 },
            Offset { x: 69_123_120_000, y: 19_642_400_000 },
            Offset { x: 42_797_120_000, y: 21_637_400_000 },
        ]
    );
}

#[test]
fn negative_seeds_are_taken_by_their_bits() {
    let offsets = octave_offsets(-1, 2, ORIGIN);
    assert_eq!(
        offsets,
        vec![
            Offset { x: 18_062_000_000, y: 6_115_000_000 },
            Offset { x: 25_418_000_000, y: 3_984_000_000 },
        ]
    );
    assert_eq!(widen_seed(-1), u64::MAX);
    assert_eq!(widen_seed(i32::MIN), 0xffff_ffff_8000_0000);
    assert_eq!(widen_seed(0), 0);
    assert_eq!(widen_seed(12), 12);
    assert_eq!(widen_seed(i32::MAX), 0x7fff_ffff);
}

#[test]
fn same_seed_same_offsets() {
    for seed in [1, 12, 99, 1_000_000, -7] {
        let first = octave_offsets(seed, 6, Offset { x: 5, y: -5 });
        let second = octave_offsets(seed, 6, Offset { x: 5, y: -5 });
        assert_eq!(first, second);
        assert_eq!(first.len(), 6);
    }
    assert_ne!(octave_offsets(12, 4, ORIGIN), octave_offsets(13, 4, ORIGIN));
}

#[test]
fn fewer_octaves_give_a_prefix_of_the_offsets() {
    let long = octave_offsets(12, 5, ORIGIN);
    let short = octave_offsets(12, 2, ORIGIN);
    assert_eq!(short[..], long[..2]);
    assert!(octave_offsets(12, 0, ORIGIN).is_empty());
}

#[test]
fn draws_lie_within_the_offset_range() {
    for seed in 1..40 {
        for offset in octave_offsets(seed, 8, ORIGIN) {
            assert!(0 <= offset.x && offset.x < OFFSET_RANGE as i64 * UNIT);
            assert!(0 <= offset.y && offset.y < OFFSET_RANGE as i64 * UNIT);
            assert_eq!(offset.x % UNIT, 0);
            assert_eq!(offset.y % UNIT, 0);
        }
    }
}

#[test]
fn draws_become_whole_units() {
    let offset = offset_from_draws(3, 99_999, Offset { x: 120_000, y: -400_000 });
    assert_eq!(offset, Offset { x: 3_120_000, y: 99_998_600_000 });
    let pinned = offset_from_draws(1, 0, Offset { x: i64::MAX, y: i64::MIN });
    assert_eq!(pinned, Offset { x: i64::MAX, y: i64::MIN });
}

#[test]
fn scale_guard_replaces_what_is_not_positive() {
    assert_eq!(MIN_SCALE, 100);
    assert_eq!(guard_scale(0), 100);
    assert_eq!(guard_scale(-27_000_000), 100);
    assert_eq!(guard_scale(i64::MIN), 100);
    assert_eq!(guard_scale(1), 1);
    assert_eq!(guard_scale(27_000_000), 27_000_000);
}

#[test]
fn sample_points_follow_the_formula() {
    // (0 - 2) / 27 * 1 + 0.12 = 0.045926
    assert_eq!(sample_along(0, 2, 27_000_000, UNIT, 120_000), 45_926);
    // (0 - 2) / 27 * 2 + 0.12 = -0.028148
    assert_eq!(sample_along(0, 2, 27_000_000, 2_000_000, 120_000), -28_148);
    // the middle cell samples at the offset itself
    assert_eq!(sample_along(2, 2, 27_000_000, 8_000_000, 400_000), 400_000);
    // (3 - 2) / 0.0001 * 1 + 0 = 10000
    assert_eq!(sample_along(3, 2, 100, UNIT, 0), 10_000_000_000);
}

#[test]
fn samples_are_centred_on_zero() {
    assert_eq!(centre(0), -UNIT);
    assert_eq!(centre(500_000), 0);
    assert_eq!(centre(750_000), 500_000);
    assert_eq!(centre(UNIT), UNIT);
    assert_eq!(centre(i64::MAX), i64::MAX);
    assert_eq!(centre(i64::MIN), i64::MIN);
}

#[test]
fn sample_calls_the_primitive() {
    assert_eq!(sample(&level, 3, 4), 750_000);
    assert_eq!(sample(&|x: i64, y: i64| x - y, 10, 4), 6);
}

#[test]
fn octaves_add_up_with_falling_amplitude() {
    let parameters = NoiseParameters {
        map_width: 4,
        map_height: 4,
        seed: 12,
        scale: 27_000_000,
        octaves: 3,
        persistance: 500_000,
        lacunarity: 2_000_000,
        offset: ORIGIN,
    };
    let offsets = octave_offsets(12, 3, ORIGIN);
    // 0.5 * (1 + 0.5 + 0.25)
    assert_eq!(parameters.cell_height(&offsets, &level, 1, 2), 875_000);
    let none = NoiseParameters { octaves: 0, ..parameters };
    assert_eq!(none.cell_height(&Vec::new(), &level, 1, 2), 0);
}

#[test]
fn octaves_sample_at_rising_frequency() {
    let parameters = NoiseParameters {
        map_width: 5,
        map_height: 1,
        seed: 0,
        scale: 2_000_000,
        octaves: 2,
        persistance: 1_000_000,
        lacunarity: 3_000_000,
        offset: ORIGIN,
    };
    let offsets = vec![Offset { x: 10_000_000, y: 0 }, Offset { x: 20_000_000, y: 0 }];
    // cell 4 lies 2 right of the middle: (4 - 2) / 2 = 1
    // first octave samples at 1 * 1 + 10 = 11, second at 1 * 3 + 20 = 23
    let seen = |x: i64, _y: i64| x / 100;
    // centred samples: 2 * 0.11 - 1 = -0.78 and 2 * 0.23 - 1 = -0.54
    assert_eq!(parameters.cell_height(&offsets, &seen, 4, 0), -780_000 - 540_000);
}

#[test]
fn raw_field_is_laid_out_column_by_column() {
    let parameters = NoiseParameters {
        map_width: 3,
        map_height: 2,
        seed: 0,
        scale: 1_000_000,
        octaves: 1,
        persistance: 1_000_000,
        lacunarity: 1_000_000,
        offset: ORIGIN,
    };
    let offsets = vec![ORIGIN];
    // samples at (x - 1, z - 1); the primitive returns (x + 10 * y + 11) / 2 + 0.5 in units
    let plane = |x: i64, y: i64| (x + 10 * y) / 2 + 500_000;
    let raw = parameters.raw_field(&offsets, &plane);
    assert_eq!(
        raw,
        vec![
            vec![-11_000_000, -1_000_000],
            vec![-10_000_000, 0],
            vec![-9_000_000, 1_000_000],
        ]
    );
}

#[test]
fn extrema_are_the_least_and_the_greatest() {
    let cells = vec![vec![3, -4, 9], vec![0, 12, -4]];
    assert_eq!(extrema(&cells, 2, 3), (-4, 12));
    assert_eq!(extrema(&vec![vec![5]], 1, 1), (5, 5));
    assert_eq!(extrema(&vec![vec![i64::MAX, i64::MIN]], 1, 2), (i64::MIN, i64::MAX));
}

#[test]
fn heights_are_placed_between_the_extrema() {
    assert_eq!(normalize_height(0, 0, 20), 0);
    assert_eq!(normalize_height(5, 0, 20), 250_000);
    assert_eq!(normalize_height(10, 0, 20), 500_000);
    assert_eq!(normalize_height(20, 0, 20), UNIT);
    assert_eq!(normalize_height(1, 0, 3), 333_333);
    assert_eq!(normalize_height(2, 0, 3), 666_666);
    assert_eq!(normalize_height(-5, -10, 10), 250_000);
    assert_eq!(normalize_height(0, i64::MIN, i64::MAX), 500_000);
    assert_eq!(normalize_height(i64::MAX, i64::MIN, i64::MAX), UNIT);
}

#[test]
fn a_flat_span_places_everything_at_one_half() {
    assert_eq!(FLAT_LEVEL, 500_000);
    assert_eq!(normalize_height(7, 7, 7), 500_000);
    assert_eq!(normalize_height(0, 0, 0), 500_000);
    assert_eq!(normalize_height(i64::MIN, i64::MIN, i64::MIN), 500_000);
}

#[test]
fn finished_field_is_rescaled_onto_the_unit_interval() {
    let raw = vec![vec![0, 10], vec![5, 20]];
    let map = NoiseMap::from_heights(&raw, 2, 2);
    assert_eq!(map.data, vec![vec![0, 500_000], vec![250_000, 1_000_000]]);
    assert_eq!(map.min, 0);
    assert_eq!(map.max, UNIT);
    assert_eq!(map.width, 2);
    assert_eq!(map.height, 2);
}

#[test]
fn finished_field_of_negative_heights() {
    let raw = vec![vec![-30, -10, -20]];
    let map = NoiseMap::from_heights(&raw, 1, 3);
    assert_eq!(map.data, vec![vec![0, 1_000_000, 500_000]]);
    assert_eq!((map.min, map.max), (0, UNIT));
}

#[test]
fn flat_field_becomes_one_half_throughout() {
    let raw = vec![vec![7, 7], vec![7, 7], vec![7, 7]];
    let map = NoiseMap::from_heights(&raw, 3, 2);
    assert_eq!(map.data, vec![vec![500_000, 500_000]; 3]);
    assert_eq!(map.min, 500_000);
    assert_eq!(map.max, 500_000);
}

#[test]
fn single_cell_is_flat() {
    let map = NoiseMap::from_heights(&vec![vec![-123]], 1, 1);
    assert_eq!(map.data, vec![vec![500_000]]);
}

#[test]
fn default_map_is_empty() {
    let map = NoiseMap::default();
    assert!(map.data.is_empty());
    assert_eq!((map.min, map.max, map.width, map.height), (0, 0, 0, 0));
}

#[test]
fn new_generator_keeps_its_parameters() {
    let noise = Noise::new(32, 64, 12, 20_000_000, 4, 200_000, 4_000_000, Offset { x: 120_000, y: 400_000 });
    assert_eq!(noise.map_width, 32);
    assert_eq!(noise.map_height, 64);
    assert_eq!(noise.seed, 12);
    assert_eq!(noise.scale, 20_000_000);
    assert_eq!(noise.octaves, 4);
    assert_eq!(noise.persistance, 200_000);
    assert_eq!(noise.lacunarity, 4_000_000);
    assert_eq!(noise.offset, Offset { x: 120_000, y: 400_000 });
    assert!(!noise.updated);
    assert!(noise.noise_map.data.is_empty());
    assert_eq!(
        noise.current_parameters(),
        NoiseParameters {
            map_width: 32,
            map_height: 64,
            seed: 12,
            scale: 20_000_000,
            octaves: 4,
            persistance: 200_000,
            lacunarity: 4_000_000,
            offset: Offset { x: 120_000, y: 400_000 },
        }
    );
}

#[test]
fn generate_samples_at_the_seeded_offsets() {
    // one octave, scale one: the three cells sample at -1, 0 and 1 plus the
    // first offset that seed 12 gives, 42206
    let mut noise = Noise::new(3, 1, 12, 1_000_000, 1, 500_000, 2_000_000, ORIGIN);
    noise.generate(|x: i64, _y: i64| (x - 42_205_000_000) / 4);
    // samples 0, 0.25, 0.5; centred -1, -0.5, 0; rescaled 0, 0.5, 1
    assert_eq!(noise.noise_map.data, vec![vec![0], vec![500_000], vec![1_000_000]]);
    assert_eq!(noise.noise_map.min, 0);
    assert_eq!(noise.noise_map.max, UNIT);
    assert_eq!(noise.noise_map.width, 3);
    assert_eq!(noise.noise_map.height, 1);
    assert!(noise.updated);
}

#[test]
fn generate_passes_both_coordinates() {
    let mut noise = Noise::new(1, 3, 12, 1_000_000, 1, 500_000, 2_000_000, ORIGIN);
    // the three cells sample at -1, 0 and 1 plus 48249 along the second axis
    noise.generate(|_x: i64, y: i64| (y - 48_248_000_000) / 2);
    assert_eq!(noise.noise_map.data, vec![vec![0, 500_000, 1_000_000]]);
}

#[test]
fn generation_is_deterministic() {
    let mut first = Noise::new(16, 9, 12, 27_000_000, 4, 500_000, 2_000_000, Offset { x: 120_000, y: 400_000 });
    let mut second = Noise::new(16, 9, 12, 27_000_000, 4, 500_000, 2_000_000, Offset { x: 120_000, y: 400_000 });
    first.generate(ripple);
    second.generate(ripple);
    assert_eq!(first.noise_map.data, second.noise_map.data);
    let before = first.noise_map.data.clone();
    first.updated = false;
    first.generate(ripple);
    assert_eq!(first.noise_map.data, before);
    assert!(first.updated);
}

#[test]
fn another_seed_gives_another_field() {
    let mut first = Noise::new(8, 8, 12, 27_000_000, 4, 500_000, 2_000_000, ORIGIN);
    let mut second = Noise::new(8, 8, 13, 27_000_000, 4, 500_000, 2_000_000, ORIGIN);
    first.generate(ripple);
    second.generate(ripple);
    assert_ne!(first.noise_map.data, second.noise_map.data);
}

#[test]
fn generated_field_spans_the_unit_interval() {
    let mut noise = Noise::new(12, 7, 3, 5_000_000, 5, 600_000, 2_500_000, Offset { x: 1_000_000, y: 2_000_000 });
    noise.generate(ripple);
    let cells = cells_of(&noise);
    assert_eq!(cells.len(), 12 * 7);
    assert!(cells.iter().all(|&cell| 0 <= cell && cell <= UNIT));
    assert!(cells.contains(&0));
    assert!(cells.contains(&UNIT));
    assert_eq!(noise.noise_map.min, 0);
    assert_eq!(noise.noise_map.max, UNIT);
    assert_eq!(noise.noise_map.data.len(), 12);
    assert!(noise.noise_map.data.iter().all(|column| column.len() == 7));
}

#[test]
fn constant_primitive_gives_a_flat_field() {
    let mut noise = Noise::new(5, 4, 12, 27_000_000, 4, 500_000, 2_000_000, ORIGIN);
    noise.generate(level);
    assert!(cells_of(&noise).iter().all(|&cell| cell == 500_000));
    assert_eq!(noise.noise_map.min, 500_000);
    assert_eq!(noise.noise_map.max, 500_000);
}

#[test]
fn zero_scale_is_guarded() {
    let mut noise = Noise::new(6, 6, 12, 0, 4, 500_000, 2_000_000, Offset { x: 120_000, y: 400_000 });
    noise.generate(ripple);
    assert_eq!(noise.scale, 100);
    let cells = cells_of(&noise);
    assert_eq!(cells.len(), 36);
    assert!(cells.iter().all(|&cell| 0 <= cell && cell <= UNIT));
    assert!(cells.contains(&0));
    assert!(cells.contains(&UNIT));
}

#[test]
fn guarded_scale_gives_the_field_of_the_least_scale() {
    let mut guarded = Noise::new(6, 5, 12, -3, 3, 500_000, 2_000_000, ORIGIN);
    let mut least = Noise::new(6, 5, 12, 100, 3, 500_000, 2_000_000, ORIGIN);
    guarded.generate(ripple);
    least.generate(ripple);
    assert_eq!(guarded.scale, 100);
    assert_eq!(guarded.noise_map.data, least.noise_map.data);
}

#[test]
fn generate_changes_no_other_parameter() {
    let mut noise = Noise::new(4, 4, 12, 27_000_000, 4, 500_000, 2_000_000, Offset { x: 120_000, y: 400_000 });
    let before = noise.current_parameters();
    noise.generate(ripple);
    assert_eq!(noise.current_parameters(), before);
}

#[test]
fn extreme_parameters_saturate_and_do_not_fail() {
    let mut noise = Noise::new(3, 3, 1, 1, 50, 5_000_000, 5_000_000, Offset { x: i64::MAX, y: i64::MIN });
    noise.generate(ripple);
    let cells = cells_of(&noise);
    assert_eq!(cells.len(), 9);
    assert!(cells.iter().all(|&cell| 0 <= cell && cell <= UNIT));
}

#[test]
fn generate_replaces_the_old_field() {
    let mut noise = Noise::new(4, 4, 12, 27_000_000, 4, 500_000, 2_000_000, ORIGIN);
    noise.generate(ripple);
    noise.map_width = 2;
    noise.map_height = 5;
    noise.generate(ripple);
    assert_eq!(noise.noise_map.data.len(), 2);
    assert!(noise.noise_map.data.iter().all(|column| column.len() == 5));
    assert_eq!((noise.noise_map.width, noise.noise_map.height), (2, 5));
}

#[test]
fn grid_without_cells_gives_a_field_without_cells() {
    let mut noise = Noise::new(0, 4, 12, 27_000_000, 4, 500_000, 2_000_000, ORIGIN);
    noise.generate(ripple);
    assert!(noise.noise_map.data.is_empty());
    assert_eq!((noise.noise_map.width, noise.noise_map.height), (0, 4));
    assert_eq!((noise.noise_map.min, noise.noise_map.max), (0, 0));
    assert!(noise.updated);
    let mut noise = Noise::new(3, 0, 12, 27_000_000, 4, 500_000, 2_000_000, ORIGIN);
    noise.generate(ripple);
    assert_eq!(noise.noise_map.data, vec![Vec::<i64>::new(); 3]);
    assert_eq!((noise.noise_map.min, noise.noise_map.max), (0, 0));
}

#[test]
fn no_octaves_give_a_flat_field() {
    let mut noise = Noise::new(3, 2, 12, 27_000_000, 0, 500_000, 2_000_000, ORIGIN);
    noise.generate(ripple);
    assert_eq!(noise.noise_map.data, vec![vec![500_000, 500_000]; 3]);
}

#[test]
fn editor_ranges_are_the_stated_ones() {
    assert_eq!((MIN_SIZE, MAX_SIZE), (1, 256));
    assert_eq!((MIN_EDITED_SCALE, MAX_EDITED_SCALE), (UNIT / 100, 50 * UNIT));
    assert_eq!((MIN_OCTAVES, MAX_OCTAVES), (1, 50));
    assert_eq!((MIN_FACTOR, MAX_FACTOR), (UNIT / 10, 5 * UNIT));
    assert_eq!((MIN_SEED, MAX_SEED), (1, 1_000_000));
    assert_eq!((MIN_OFFSET, MAX_OFFSET), (UNIT, 100_000 * UNIT));
}

#[test]
fn parameters_generate_the_field_of_the_generator() {
    let parameters = NoiseParameters {
        map_width: 7,
        map_height: 5,
        seed: 12,
        scale: 27_000_000,
        octaves: 4,
        persistance: 500_000,
        lacunarity: 2_000_000,
        offset: Offset { x: 120_000, y: 400_000 },
    };
    let map = parameters.generate(&ripple);
    let again = parameters.generate(&ripple);
    assert_eq!(map.data, again.data);
    assert_eq!((map.width, map.height), (7, 5));
    assert_eq!((map.min, map.max), (0, UNIT));
    let mut noise = Noise::new(7, 5, 12, 27_000_000, 4, 500_000, 2_000_000, Offset { x: 120_000, y: 400_000 });
    noise.generate(ripple);
    assert_eq!(noise.noise_map.data, map.data);
    let offsets = octave_offsets(12, 4, Offset { x: 120_000, y: 400_000 });
    assert_eq!(parameters.height_field(&offsets, &ripple).data, map.data);
}
