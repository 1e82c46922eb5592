use terrain_core::config::MapConfig;
use terrain_core::graph::{graph_is_wf, scale_div, terrain_offset_power, NoiseExpr};
use terrain_core::planet::{
    base_continent_def, continent_def, planet_graph, river_positions, terrain_type_def,
    RIVER_WARP_POWER,
};

fn map_config() -> MapConfig {
    MapConfig {
        seed: 1066,
        continent_frequency: 1_000_000,
        continent_lacunarity: 2_208_984,
        mountain_lacunarity: 2_142_578,
        hills_lacunarity: 2_162_109,
        plains_lacunarity: 2_314_453,
        badlands_lacunarity: 2_212_890,
        mountains_twist: 1_000_000,
        hills_twist: 1_000_000,
        badlands_twist: 1_000_000,
        sea_level: 0,
        shelf_level: -375_000,
        mountains_amount: 500_000,
        hills_amount: 500_000,
        badlands_amount: 312_500,
        terrain_offset: 1_000_000,
        mountain_glaciation: 1_375_000,
        continent_height_scale: 250_000,
        river_depth: 1_000_000,
    }
}

#[test]
fn planet_graph_is_deterministic() {
    let c = map_config();
    assert_eq!(planet_graph(&c), planet_graph(&c));
}

#[test]
fn planet_graph_depends_on_seed() {
    let c1 = map_config();
    let mut c2 = map_config();
    c2.seed = 1067;
    assert_ne!(planet_graph(&c1), planet_graph(&c2));
}

#[test]
fn planet_root_is_river_select() {
    let g = planet_graph(&map_config());
    assert!(matches!(g, NoiseExpr::Select { .. }));
}

#[test]
fn base_continent_is_clamped_to_nominal_band() {
    let g = base_continent_def(&map_config());
    match g {
        NoiseExpr::Clamp { lower, upper, .. } => {
            assert_eq!(lower, -1_000_000_000_000);
            assert_eq!(upper, 1_000_000_000_000);
        },
        other => panic!("expected a clamp at the root, got {:?}", other),
    }
}

#[test]
fn continent_select_window_sits_at_sea_level() {
    let c = map_config();
    let g = continent_def(&c);
    match g {
        NoiseExpr::Select { lower, upper, falloff, .. } => {
            assert_eq!(lower, -37_500_000_000);
            assert_eq!(upper, 1_000_037_500_000_000);
            assert_eq!(falloff, 62_500_000_000);
        },
        other => panic!("expected a coastline select at the root, got {:?}", other),
    }
}

#[test]
fn terrain_type_classifier_is_terraced() {
    let g = terrain_type_def(&map_config());
    assert!(matches!(g, NoiseExpr::Terrace { .. }));
}

#[test]
fn river_positions_carry_fixed_warp_power() {
    let g = river_positions(&map_config());
    match g {
        NoiseExpr::Turbulence { power, roughness, .. } => {
            assert_eq!(power, RIVER_WARP_POWER);
            assert_eq!(roughness, 6);
        },
        other => panic!("expected a warp at the root, got {:?}", other),
    }
}

#[test]
fn river_warp_power_is_the_pico_reciprocal() {
    // One over fifty-seven and three quarters, truncated to pico units.
    assert_eq!(RIVER_WARP_POWER, 17_316_017_316);
    assert_eq!(4_000_000_000_000u64 / 231, 17_316_017_316);
}

#[test]
fn scale_div_rounds_toward_zero() {
    assert_eq!(scale_div(1_000_000, 1_000_000, 6_730), 148_588_410);
    assert_eq!(scale_div(0, 1_000_000, 6_730), 0);
    assert_eq!(scale_div(1_000_000, 100_000_000, 11_375), 8_791_208_791);
}

#[test]
fn terrain_offset_power_is_exact() {
    assert_eq!(terrain_offset_power(1_000_000, 1_000_000), 48_558_421_851);
    assert_eq!(terrain_offset_power(1_000_000, 0), 0);
}

#[test]
fn standard_graph_is_well_formed() {
    let g = planet_graph(&map_config());
    assert!(graph_is_wf(&g));
}

#[test]
fn degenerate_mountains_amount_breaks_well_formedness() {
    // With a mountains amount of one, two control points of the mountain
    // curve coincide and the expression is no longer evaluable.
    let mut c = map_config();
    c.mountains_amount = 1_000_000;
    let g = planet_graph(&c);
    assert!(!graph_is_wf(&g));
}
