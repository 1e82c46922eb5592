use terrain_core::config::{EngineConfig, MapConfig, TerrainError, validate_engine_config};
use terrain_core::field::ElevationField;
use terrain_core::planet::is_graph_evaluable;

fn map_config() -> MapConfig {
    MapConfig {
        seed: 42,
        continent_frequency: 1_000_000,
        continent_lacunarity: 2_208_984,
        mountain_lacunarity: 2_142_578,
        hills_lacunarity: 2_162_109,
        plains_lacunarity: 2_314_453,
        badlands_lacunarity: 2_212_890,
        mountains_twist: 1_000_000,
        hills_twist: 1_000_000,
        badlands_twist: 1_000_000,
        sea_level: 0,
        shelf_level: -375_000,
        mountains_amount: 500_000,
        hills_amount: 500_000,
        badlands_amount: 312_500,
        terrain_offset: 1_000_000,
        mountain_glaciation: 1_375_000,
        continent_height_scale: 250_000,
        river_depth: 1_000_000,
    }
}

#[test]
fn validate_accepts_divisible_sizes() {
    let cfg = EngineConfig { world_size: 4, chunk_size: 2, world_height: 1_000_000 };
    assert!(validate_engine_config(&cfg).is_ok());
}

#[test]
fn validate_rejects_non_divisor_chunk() {
    let cfg = EngineConfig { world_size: 10, chunk_size: 3, world_height: 1_000_000 };
    assert_eq!(
        validate_engine_config(&cfg),
        Err(TerrainError::ChunkSizeNotDivisor { world_size: 10, chunk_size: 3 })
    );
}

#[test]
fn validate_rejects_zero_chunk() {
    let cfg = EngineConfig { world_size: 4, chunk_size: 0, world_height: 1_000_000 };
    assert_eq!(
        validate_engine_config(&cfg),
        Err(TerrainError::ChunkSizeNotDivisor { world_size: 4, chunk_size: 0 })
    );
}

#[test]
fn feasible_accepts_square_worlds() {
    let cfg = EngineConfig { world_size: 4, chunk_size: 2, world_height: 1_000_000 };
    assert!(cfg.is_feasible());
    let cfg = EngineConfig { world_size: 256, chunk_size: 16, world_height: -50_000_000 };
    assert!(cfg.is_feasible());
}

#[test]
fn feasible_accepts_non_divisor_within_limits() {
    // The divisibility failure itself is reported by generation, not here.
    let cfg = EngineConfig { world_size: 10, chunk_size: 3, world_height: 1_000_000 };
    assert!(cfg.is_feasible());
}

#[test]
fn feasible_accepts_rectangular_division() {
    // 16 / 2 divides evenly and the squared chunk edge stays below the
    // world edge, so every overlapping tile walk ends inside the field.
    let cfg = EngineConfig { world_size: 16, chunk_size: 2, world_height: 1_000_000 };
    assert!(cfg.is_feasible());
}

#[test]
fn feasible_rejects_oversized_chunks() {
    // 8 / 4 divides evenly, but the squared chunk edge exceeds the world
    // edge: the last overlapping tile would read past the field.
    let cfg = EngineConfig { world_size: 8, chunk_size: 4, world_height: 1_000_000 };
    assert!(!cfg.is_feasible());
}

#[test]
fn feasible_rejects_oversized_world() {
    let cfg = EngineConfig { world_size: 40_000, chunk_size: 200, world_height: 1_000_000 };
    assert!(!cfg.is_feasible());
}

#[test]
fn feasible_rejects_oversized_height() {
    let cfg = EngineConfig { world_size: 4, chunk_size: 2, world_height: 200_000_000 };
    assert!(!cfg.is_feasible());
}

#[test]
fn bounded_accepts_standard_parameters() {
    assert!(map_config().is_bounded());
}

#[test]
fn bounded_rejects_oversized_frequency() {
    let mut c = map_config();
    c.continent_frequency = 2_000_000_000;
    assert!(!c.is_bounded());
}

#[test]
fn bounded_rejects_negative_twist() {
    let mut c = map_config();
    c.mountains_twist = -1;
    assert!(!c.is_bounded());
}

#[test]
fn evaluable_accepts_standard_parameters() {
    assert!(is_graph_evaluable(&map_config()));
}

#[test]
fn evaluable_rejects_full_mountains_amount() {
    let mut c = map_config();
    c.mountains_amount = 1_000_000;
    assert!(!is_graph_evaluable(&c));
}

#[test]
fn evaluable_rejects_deep_sea_level() {
    let mut c = map_config();
    c.sea_level = -800_000;
    assert!(!is_graph_evaluable(&c));
}

#[test]
fn field_accepts_square_buffer() {
    let values: Vec<i64> = (0..16).map(|k| (k * 1000) as i64).collect();
    let f = ElevationField::new(4, values).unwrap();
    assert_eq!(f.side_len(), 4);
    assert_eq!(f.at(0, 0), 0);
    assert_eq!(f.at(1, 2), 6000);
    assert_eq!(f.at(3, 3), 15000);
}

#[test]
fn field_rejects_wrong_length() {
    let values: Vec<i64> = vec![0; 15];
    assert!(ElevationField::new(4, values).is_none());
}

#[test]
fn field_rejects_out_of_range_sample() {
    let mut values: Vec<i64> = vec![0; 16];
    values[7] = 1_000_000_001;
    assert!(ElevationField::new(4, values).is_none());
    let mut values: Vec<i64> = vec![0; 16];
    values[3] = -1_000_000_001;
    assert!(ElevationField::new(4, values).is_none());
}

#[test]
fn field_rejects_oversized_grid() {
    assert!(ElevationField::new(32_769, Vec::new()).is_none());
}
