use mesh_world::fixed::UNIT;
use mesh_world::noise::Noise;
use mesh_world::offsets::Offset;
use mesh_world::terrain::{mesh, Terrain};

/// Perlin noise at a fixed-point position, as a fixed-point number.
fn perlin(x: i64, y: i64) -> i64 {
    cgl_rs::noise::init();
    let value = cgl_rs::noise::perlin(
        (x as f64 / UNIT as f64) as f32,
        (y as f64 / UNIT as f64) as f32,
        0.0,
    );
    cgl_rs::noise::shutdown();
    (value as f64 * UNIT as f64).round() as i64
}

fn four_by_four() -> Noise {
    Noise::new(4, 4, 12, 27_000_000, 4, 500_000, 2_000_000, Offset { x: 120_000, y: 400_000 })
}

#[test]
fn perlin_depends_on_the_point_alone() {
    for (x, y) in [(0, 0), (1_234_567, 7_654_321), (-3_000_000, 42_206_120_000), (500_000, -500_000)] {
        assert_eq!(perlin(x, y), perlin(x, y));
    }
    assert_ne!(perlin(1_234_567, 7_654_321), perlin(1_734_567, 7_654_321));
}

#[test]
fn perlin_field_spans_the_unit_interval() {
    let mut noise = four_by_four();
    noise.generate(perlin);
    let cells: Vec<i64> = noise.noise_map.data.iter().flatten().copied().collect();
    assert_eq!(cells.len(), 16);
    assert!(cells.iter().all(|&cell| 0 <= cell && cell <= UNIT));
    assert!(cells.contains(&0));
    assert!(cells.contains(&UNIT));
    assert!(noise.updated);
}

#[test]
fn perlin_field_repeats() {
    let mut first = four_by_four();
    let mut second = four_by_four();
    first.generate(perlin);
    second.generate(perlin);
    assert_eq!(first.noise_map.data, second.noise_map.data);
    first.generate(perlin);
    assert_eq!(first.noise_map.data, second.noise_map.data);
}

#[test]
fn perlin_terrain_end_to_end() {
    let mut noise = four_by_four();
    noise.generate(perlin);
    let built = mesh(&noise.noise_map);
    assert_eq!(built.vertices.len(), 16);
    assert_eq!(built.triangles.len(), 54);
    assert!(built.triangles.iter().all(|&index| 0 <= index && index < 16));
    let mut terrain = Terrain::init();
    assert!(terrain.refresh(&mut noise));
    assert_eq!(terrain.mesh_data.unwrap().triangles, built.triangles);
}

#[test]
fn perlin_terrain_with_zero_scale() {
    let mut noise = Noise::new(8, 8, 12, 0, 4, 500_000, 2_000_000, Offset { x: 120_000, y: 400_000 });
    noise.generate(perlin);
    assert_eq!(noise.scale, 100);
    let cells: Vec<i64> = noise.noise_map.data.iter().flatten().copied().collect();
    assert_eq!(cells.len(), 64);
    assert!(cells.iter().all(|&cell| 0 <= cell && cell <= UNIT));
    let flat = cells.iter().all(|&cell| cell == 500_000);
    assert!(flat || (cells.contains(&0) && cells.contains(&UNIT)));
    let built = Terrain::generate(&mut noise);
    assert_eq!(built.vertices.len(), 64);
    assert_eq!(built.triangles.len(), 294);
}
