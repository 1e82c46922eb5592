//! The planet's composed noise expression, layer by layer.
//!
//! Each named sub-expression of the composition is built by one function
//! whose contract states the exact expression produced, as a spec-level
//! value: the expression is a pure function of the configuration, so two
//! runs over the same configuration describe the same elevation field.
use vstd::prelude::*;

use crate::config::MapConfig;
use crate::graph::{CurvePoints, NoiseExpr, TerracePoints, graph_wf, scale_div, terrain_offset_power};

verus! {

/// Domain-warp power of the river layer: the exact constant one over
/// fifty-seven and three quarters, truncated to pico resolution.
pub const RIVER_WARP_POWER: i64 = 17_316_017_316;


/// Raw continent shape: a low-frequency fractal surface remapped through
/// a sea-level-anchored curve, combined by minimum with a higher-frequency
/// detail layer and clamped to the nominal band.  (Specification value.)
pub open spec fn base_continent_def_spec(c: MapConfig) -> NoiseExpr {
    let fb0 = NoiseExpr::Fbm {
        seed: c.seed,
        frequency: (c.continent_frequency * 1_000_000) as i64,
        persistence: 500_000_000_000,
        lacunarity: (c.continent_lacunarity * 1_000_000) as i64,
        octaves: 5,
    };
    let cu = NoiseExpr::Curve {
        input: Box::new(fb0),
        points: CurvePoints::Point {
            input: (c.sea_level * 1_000_000 - 2_000_000_000_000) as i64,
            output: (c.sea_level * 1_000_000 - 1_625_000_000_000) as i64,
            rest: Box::new(
                CurvePoints::Point {
                    input: (c.sea_level * 1_000_000 - 1_000_000_000_000) as i64,
                    output: (c.sea_level * 1_000_000 - 1_375_000_000_000) as i64,
                    rest: Box::new(
                        CurvePoints::Point {
                            input: (c.sea_level * 1_000_000) as i64,
                            output: (c.sea_level * 1_000_000 - 375_000_000_000) as i64,
                            rest: Box::new(
                                CurvePoints::Point {
                                    input: (c.sea_level * 1_000_000 + 62_500_000_000) as i64,
                                    output: (c.sea_level * 1_000_000 + 125_000_000_000) as i64,
                                    rest: Box::new(
                                        CurvePoints::Point {
                                            input: (c.sea_level * 1_000_000 + 125_000_000_000) as i64,
                                            output: (c.sea_level * 1_000_000 + 250_000_000_000) as i64,
                                            rest: Box::new(
                                                CurvePoints::Point {
                                                    input: (c.sea_level * 1_000_000 + 250_000_000_000) as i64,
                                                    output: (c.sea_level * 1_000_000 + 1_000_000_000_000) as i64,
                                                    rest: Box::new(
                                                        CurvePoints::Point {
                                                            input: (c.sea_level * 1_000_000 + 500_000_000_000) as i64,
                                                            output: (c.sea_level * 1_000_000 + 250_000_000_000) as i64,
                                                            rest: Box::new(
                                                                CurvePoints::Point {
                                                                    input: (c.sea_level * 1_000_000 + 750_000_000_000) as i64,
                                                                    output: (c.sea_level * 1_000_000 + 250_000_000_000) as i64,
                                                                    rest: Box::new(
                                                                        CurvePoints::Point {
                                                                            input: (c.sea_level * 1_000_000 + 1_000_000_000_000) as i64,
                                                                            output: (c.sea_level * 1_000_000 + 500_000_000_000) as i64,
                                                                            rest: Box::new(
                                                                                CurvePoints::Point {
                                                                                    input: (c.sea_level * 1_000_000 + 2_000_000_000_000) as i64,
                                                                                    output: (c.sea_level * 1_000_000 + 500_000_000_000) as i64,
                                                                                    rest: Box::new(
                                                                                        CurvePoints::Done,
                                                                                    ),
                                                                                },
                                                                            ),
                                                                        },
                                                                    ),
                                                                },
                                                            ),
                                                        },
                                                    ),
                                                },
                                            ),
                                        },
                                    ),
                                },
                            ),
                        },
                    ),
                },
            ),
        },
    };
    let fb1 = NoiseExpr::Fbm {
        seed: (c.seed + 1) as u32,
        frequency: (c.continent_frequency * 4_343_750) as i64,
        persistence: 500_000_000_000,
        lacunarity: (c.continent_lacunarity * 1_000_000) as i64,
        octaves: 11,
    };
    let sb = NoiseExpr::ScaleBias { input: Box::new(fb1), scale: 375_000_000_000, bias: 625_000_000_000 };
    let mi = NoiseExpr::Min { a: Box::new(sb), b: Box::new(cu) };
    NoiseExpr::Clamp { input: Box::new(mi), lower: -1_000_000_000_000i64, upper: 1_000_000_000_000 }
}

/// Raw continent shape: a low-frequency fractal surface remapped through
/// a sea-level-anchored curve, combined by minimum with a higher-frequency
/// detail layer and clamped to the nominal band.
pub fn base_continent_def(c: &MapConfig) -> (r: NoiseExpr)
    requires
        c.bounded(),
    ensures
        r == base_continent_def_spec(*c),
{
    let fb0 = NoiseExpr::Fbm {
        seed: c.seed,
        frequency: c.continent_frequency * 1_000_000,
        persistence: 500_000_000_000,
        lacunarity: c.continent_lacunarity * 1_000_000,
        octaves: 5,
    };
    let cu = NoiseExpr::Curve {
        input: Box::new(fb0),
        points: CurvePoints::Point {
            input: c.sea_level * 1_000_000 - 2_000_000_000_000,
            output: c.sea_level * 1_000_000 - 1_625_000_000_000,
            rest: Box::new(
                CurvePoints::Point {
                    input: c.sea_level * 1_000_000 - 1_000_000_000_000,
                    output: c.sea_level * 1_000_000 - 1_375_000_000_000,
                    rest: Box::new(
                        CurvePoints::Point {
                            input: c.sea_level * 1_000_000,
                            output: c.sea_level * 1_000_000 - 375_000_000_000,
                            rest: Box::new(
                                CurvePoints::Point {
                                    input: c.sea_level * 1_000_000 + 62_500_000_000,
                                    output: c.sea_level * 1_000_000 + 125_000_000_000,
                                    rest: Box::new(
                                        CurvePoints::Point {
                                            input: c.sea_level * 1_000_000 + 125_000_000_000,
                                            output: c.sea_level * 1_000_000 + 250_000_000_000,
                                            rest: Box::new(
                                                CurvePoints::Point {
                                                    input: c.sea_level * 1_000_000 + 250_000_000_000,
                                                    output: c.sea_level * 1_000_000 + 1_000_000_000_000,
                                                    rest: Box::new(
                                                        CurvePoints::Point {
                                                            input: c.sea_level * 1_000_000 + 500_000_000_000,
                                                            output: c.sea_level * 1_000_000 + 250_000_000_000,
                                                            rest: Box::new(
                                                                CurvePoints::Point {
                                                                    input: c.sea_level * 1_000_000 + 750_000_000_000,
                                                                    output: c.sea_level * 1_000_000 + 250_000_000_000,
                                                                    rest: Box::new(
                                                                        CurvePoints::Point {
                                                                            input: c.sea_level * 1_000_000 + 1_000_000_000_000,
                                                                            output: c.sea_level * 1_000_000 + 500_000_000_000,
                                                                            rest: Box::new(
                                                                                CurvePoints::Point {
                                                                                    input: c.sea_level * 1_000_000 + 2_000_000_000_000,
                                                                                    output: c.sea_level * 1_000_000 + 500_000_000_000,
                                                                                    rest: Box::new(
                                                                                        CurvePoints::Done,
                                                                                    ),
                                                                                },
                                                                            ),
                                                                        },
                                                                    ),
                                                                },
                                                            ),
                                                        },
                                                    ),
                                                },
                                            ),
                                        },
                                    ),
                                },
                            ),
                        },
                    ),
                },
            ),
        },
    };
    let fb1 = NoiseExpr::Fbm {
        seed: c.seed + 1,
        frequency: c.continent_frequency * 4_343_750,
        persistence: 500_000_000_000,
        lacunarity: c.continent_lacunarity * 1_000_000,
        octaves: 11,
    };
    let sb = NoiseExpr::ScaleBias { input: Box::new(fb1), scale: 375_000_000_000, bias: 625_000_000_000 };
    let mi = NoiseExpr::Min { a: Box::new(sb), b: Box::new(cu) };
    NoiseExpr::Clamp { input: Box::new(mi), lower: -1_000_000_000_000i64, upper: 1_000_000_000_000 }
}

/// Final continent shape: the raw continents warped three times at rising
/// frequency and falling power, blended back near the coastline only.  (Specification value.)
pub open spec fn continent_def_spec(c: MapConfig) -> NoiseExpr {
    let tu0 = NoiseExpr::Turbulence {
        input: Box::new(base_continent_def_spec(c)),
        seed: (c.seed + 10) as u32,
        frequency: (c.continent_frequency * 15_250_000) as i64,
        power: (c.continent_frequency * 100_000_000 / 11_375) as i64,
        roughness: 13,
    };
    let tu1 = NoiseExpr::Turbulence {
        input: Box::new(tu0),
        seed: (c.seed + 11) as u32,
        frequency: (c.continent_frequency * 47_250_000) as i64,
        power: (c.continent_frequency * 100_000_000 / 43_375) as i64,
        roughness: 12,
    };
    let tu2 = NoiseExpr::Turbulence {
        input: Box::new(tu1),
        seed: (c.seed + 12) as u32,
        frequency: (c.continent_frequency * 95_250_000) as i64,
        power: (c.continent_frequency * 100_000_000 / 101_975) as i64,
        roughness: 11,
    };
    NoiseExpr::Select {
        a: Box::new(base_continent_def_spec(c)),
        b: Box::new(tu2),
        control: Box::new(base_continent_def_spec(c)),
        lower: (c.sea_level * 1_000_000 - 37_500_000_000) as i64,
        upper: (c.sea_level * 1_000_000 + 1_000_037_500_000_000) as i64,
        falloff: 62_500_000_000,
    }
}

/// Final continent shape: the raw continents warped three times at rising
/// frequency and falling power, blended back near the coastline only.
pub fn continent_def(c: &MapConfig) -> (r: NoiseExpr)
    requires
        c.bounded(),
    ensures
        r == continent_def_spec(*c),
{
    let tu0 = NoiseExpr::Turbulence {
        input: Box::new(base_continent_def(c)),
        seed: c.seed + 10,
        frequency: c.continent_frequency * 15_250_000,
        power: scale_div(c.continent_frequency, 100_000_000, 11_375),
        roughness: 13,
    };
    let tu1 = NoiseExpr::Turbulence {
        input: Box::new(tu0),
        seed: c.seed + 11,
        frequency: c.continent_frequency * 47_250_000,
        power: scale_div(c.continent_frequency, 100_000_000, 43_375),
        roughness: 12,
    };
    let tu2 = NoiseExpr::Turbulence {
        input: Box::new(tu1),
        seed: c.seed + 12,
        frequency: c.continent_frequency * 95_250_000,
        power: scale_div(c.continent_frequency, 100_000_000, 101_975),
        roughness: 11,
    };
    NoiseExpr::Select {
        a: Box::new(base_continent_def(c)),
        b: Box::new(tu2),
        control: Box::new(base_continent_def(c)),
        lower: c.sea_level * 1_000_000 - 37_500_000_000,
        upper: c.sea_level * 1_000_000 + 1_000_037_500_000_000,
        falloff: 62_500_000_000,
    }
}

/// Terrain-type classifier: a warped, terraced remap of the continent
/// shape used purely as a selection mask for the detail layers.  (Specification value.)
pub open spec fn terrain_type_def_spec(c: MapConfig) -> NoiseExpr {
    let tu = NoiseExpr::Turbulence {
        input: Box::new(continent_def_spec(c)),
        seed: (c.seed + 20) as u32,
        frequency: (c.continent_frequency * 18_125_000) as i64,
        power: (c.continent_frequency * c.terrain_offset * 32 / 659) as i64,
        roughness: 3,
    };
    NoiseExpr::Terrace {
        input: Box::new(tu),
        steps: TerracePoints::Point {
            value: -1_000_000_000_000i64,
            rest: Box::new(
                TerracePoints::Point {
                    value: (c.shelf_level * 1_000_000 + c.sea_level * 500_000) as i64,
                    rest: Box::new(
                        TerracePoints::Point {
                            value: 1_000_000_000_000,
                            rest: Box::new(TerracePoints::Done),
                        },
                    ),
                },
            ),
        },
    }
}

/// Terrain-type classifier: a warped, terraced remap of the continent
/// shape used purely as a selection mask for the detail layers.
pub fn terrain_type_def(c: &MapConfig) -> (r: NoiseExpr)
    requires
        c.bounded(),
    ensures
        r == terrain_type_def_spec(*c),
{
    let tu = NoiseExpr::Turbulence {
        input: Box::new(continent_def(c)),
        seed: c.seed + 20,
        frequency: c.continent_frequency * 18_125_000,
        power: terrain_offset_power(c.continent_frequency, c.terrain_offset),
        roughness: 3,
    };
    NoiseExpr::Terrace {
        input: Box::new(tu),
        steps: TerracePoints::Point {
            value: -1_000_000_000_000i64,
            rest: Box::new(
                TerracePoints::Point {
                    value: c.shelf_level * 1_000_000 + c.sea_level * 500_000,
                    rest: Box::new(
                        TerracePoints::Point {
                            value: 1_000_000_000_000,
                            rest: Box::new(TerracePoints::Done),
                        },
                    ),
                },
            ),
        },
    }
}

/// Mountain base: ridged ranges blended down to a constant floor and
/// twisted twice by the mountains twist.  (Specification value.)
pub open spec fn mountain_base_def_spec(c: MapConfig) -> NoiseExpr {
    let rm0 = NoiseExpr::RidgedMulti {
        seed: (c.seed + 30) as u32,
        frequency: 1_723_000_000_000_000,
        lacunarity: (c.mountain_lacunarity * 1_000_000) as i64,
        octaves: 4,
    };
    let sb0 = NoiseExpr::ScaleBias { input: Box::new(rm0), scale: 500_000_000_000, bias: 375_000_000_000 };
    let rm1 = NoiseExpr::RidgedMulti {
        seed: (c.seed + 31) as u32,
        frequency: 367_000_000_000_000,
        lacunarity: (c.mountain_lacunarity * 1_000_000) as i64,
        octaves: 1,
    };
    let sb1 = NoiseExpr::ScaleBias {
        input: Box::new(rm1),
        scale: -2_000_000_000_000i64,
        bias: -500_000_000_000i64,
    };
    let co = NoiseExpr::Constant { value: -1_000_000_000_000i64 };
    let bl = NoiseExpr::Blend { a: Box::new(co), b: Box::new(sb0), control: Box::new(sb1) };
    let tu0 = NoiseExpr::Turbulence {
        input: Box::new(bl),
        seed: (c.seed + 32) as u32,
        frequency: 1_337_000_000_000_000,
        power: (c.mountains_twist * 1_000_000 / 6_730) as i64,
        roughness: 4,
    };
    NoiseExpr::Turbulence {
        input: Box::new(tu0),
        seed: (c.seed + 33) as u32,
        frequency: 21_221_000_000_000_000,
        power: (c.mountains_twist * 1_000_000 / 120_157) as i64,
        roughness: 6,
    }
}

/// Mountain base: ridged ranges blended down to a constant floor and
/// twisted twice by the mountains twist.
pub fn mountain_base_def(c: &MapConfig) -> (r: NoiseExpr)
    requires
        c.bounded(),
    ensures
        r == mountain_base_def_spec(*c),
{
    let rm0 = NoiseExpr::RidgedMulti {
        seed: c.seed + 30,
        frequency: 1_723_000_000_000_000,
        lacunarity: c.mountain_lacunarity * 1_000_000,
        octaves: 4,
    };
    let sb0 = NoiseExpr::ScaleBias { input: Box::new(rm0), scale: 500_000_000_000, bias: 375_000_000_000 };
    let rm1 = NoiseExpr::RidgedMulti {
        seed: c.seed + 31,
        frequency: 367_000_000_000_000,
        lacunarity: c.mountain_lacunarity * 1_000_000,
        octaves: 1,
    };
    let sb1 = NoiseExpr::ScaleBias {
        input: Box::new(rm1),
        scale: -2_000_000_000_000i64,
        bias: -500_000_000_000i64,
    };
    let co = NoiseExpr::Constant { value: -1_000_000_000_000i64 };
    let bl = NoiseExpr::Blend { a: Box::new(co), b: Box::new(sb0), control: Box::new(sb1) };
    let tu0 = NoiseExpr::Turbulence {
        input: Box::new(bl),
        seed: c.seed + 32,
        frequency: 1_337_000_000_000_000,
        power: scale_div(c.mountains_twist, 1_000_000, 6_730),
        roughness: 4,
    };
    NoiseExpr::Turbulence {
        input: Box::new(tu0),
        seed: c.seed + 33,
        frequency: 21_221_000_000_000_000,
        power: scale_div(c.mountains_twist, 1_000_000, 120_157),
        roughness: 6,
    }
}

/// High mountainous detail: the maximum of two independently seeded
/// ridged surfaces, lightly twisted.  (Specification value.)
pub open spec fn mountainous_high_spec(c: MapConfig) -> NoiseExpr {
    let rm0 = NoiseExpr::RidgedMulti {
        seed: (c.seed + 40) as u32,
        frequency: 2_371_000_000_000_000,
        lacunarity: (c.mountain_lacunarity * 1_000_000) as i64,
        octaves: 3,
    };
    let rm1 = NoiseExpr::RidgedMulti {
        seed: (c.seed + 41) as u32,
        frequency: 2_341_000_000_000_000,
        lacunarity: (c.mountain_lacunarity * 1_000_000) as i64,
        octaves: 3,
    };
    let ma = NoiseExpr::Max { a: Box::new(rm0), b: Box::new(rm1) };
    NoiseExpr::Turbulence {
        input: Box::new(ma),
        seed: (c.seed + 42) as u32,
        frequency: 31_511_000_000_000_000,
        power: (c.mountains_twist * 1_000_000 / 180_371) as i64,
        roughness: 4,
    }
}

/// High mountainous detail: the maximum of two independently seeded
/// ridged surfaces, lightly twisted.
pub fn mountainous_high(c: &MapConfig) -> (r: NoiseExpr)
    requires
        c.bounded(),
    ensures
        r == mountainous_high_spec(*c),
{
    let rm0 = NoiseExpr::RidgedMulti {
        seed: c.seed + 40,
        frequency: 2_371_000_000_000_000,
        lacunarity: c.mountain_lacunarity * 1_000_000,
        octaves: 3,
    };
    let rm1 = NoiseExpr::RidgedMulti {
        seed: c.seed + 41,
        frequency: 2_341_000_000_000_000,
        lacunarity: c.mountain_lacunarity * 1_000_000,
        octaves: 3,
    };
    let ma = NoiseExpr::Max { a: Box::new(rm0), b: Box::new(rm1) };
    NoiseExpr::Turbulence {
        input: Box::new(ma),
        seed: c.seed + 42,
        frequency: 31_511_000_000_000_000,
        power: scale_div(c.mountains_twist, 1_000_000, 180_371),
        roughness: 4,
    }
}

/// Low mountainous detail: the product of two independently seeded
/// ridged surfaces.  (Specification value.)
pub open spec fn mountainous_low_spec(c: MapConfig) -> NoiseExpr {
    let rm0 = NoiseExpr::RidgedMulti {
        seed: (c.seed + 50) as u32,
        frequency: 1_381_000_000_000_000,
        lacunarity: (c.mountain_lacunarity * 1_000_000) as i64,
        octaves: 8,
    };
    let rm1 = NoiseExpr::RidgedMulti {
        seed: (c.seed + 51) as u32,
        frequency: 1_427_000_000_000_000,
        lacunarity: (c.mountain_lacunarity * 1_000_000) as i64,
        octaves: 8,
    };
    NoiseExpr::Multiply { a: Box::new(rm0), b: Box::new(rm1) }
}

/// Low mountainous detail: the product of two independently seeded
/// ridged surfaces.
pub fn mountainous_low(c: &MapConfig) -> (r: NoiseExpr)
    requires
        c.bounded(),
    ensures
        r == mountainous_low_spec(*c),
{
    let rm0 = NoiseExpr::RidgedMulti {
        seed: c.seed + 50,
        frequency: 1_381_000_000_000_000,
        lacunarity: c.mountain_lacunarity * 1_000_000,
        octaves: 8,
    };
    let rm1 = NoiseExpr::RidgedMulti {
        seed: c.seed + 51,
        frequency: 1_427_000_000_000_000,
        lacunarity: c.mountain_lacunarity * 1_000_000,
        octaves: 8,
    };
    NoiseExpr::Multiply { a: Box::new(rm0), b: Box::new(rm1) }
}

/// Complete mountainous terrain: high detail over the mountain base where
/// the base rises, low detail elsewhere, shaped by the glaciation
/// exponent.  The mountain base is deliberately rebuilt for both the
/// summed branch and the selection control, with identical parameters.  (Specification value.)
pub open spec fn mountainous_terrain_spec(c: MapConfig) -> NoiseExpr {
    let sb0 = NoiseExpr::ScaleBias {
        input: Box::new(mountainous_low_spec(c)),
        scale: 31_250_000_000,
        bias: -968_750_000_000i64,
    };
    let sb1 = NoiseExpr::ScaleBias {
        input: Box::new(mountainous_high_spec(c)),
        scale: 250_000_000_000,
        bias: 250_000_000_000,
    };
    let ad = NoiseExpr::Add { a: Box::new(sb1), b: Box::new(mountain_base_def_spec(c)) };
    let se = NoiseExpr::Select {
        a: Box::new(sb0),
        b: Box::new(ad),
        control: Box::new(mountain_base_def_spec(c)),
        lower: -500_000_000_000i64,
        upper: 999_500_000_000_000,
        falloff: 500_000_000_000,
    };
    let sb2 = NoiseExpr::ScaleBias { input: Box::new(se), scale: 800_000_000_000, bias: 0 };
    NoiseExpr::Exponent {
        input: Box::new(sb2),
        exponent: (c.mountain_glaciation * 1_000_000) as i64,
    }
}

/// Complete mountainous terrain: high detail over the mountain base where
/// the base rises, low detail elsewhere, shaped by the glaciation
/// exponent.  The mountain base is deliberately rebuilt for both the
/// summed branch and the selection control, with identical parameters.
pub fn mountainous_terrain(c: &MapConfig) -> (r: NoiseExpr)
    requires
        c.bounded(),
    ensures
        r == mountainous_terrain_spec(*c),
{
    let sb0 = NoiseExpr::ScaleBias {
        input: Box::new(mountainous_low(c)),
        scale: 31_250_000_000,
        bias: -968_750_000_000i64,
    };
    let sb1 = NoiseExpr::ScaleBias {
        input: Box::new(mountainous_high(c)),
        scale: 250_000_000_000,
        bias: 250_000_000_000,
    };
    let ad = NoiseExpr::Add { a: Box::new(sb1), b: Box::new(mountain_base_def(c)) };
    let se = NoiseExpr::Select {
        a: Box::new(sb0),
        b: Box::new(ad),
        control: Box::new(mountain_base_def(c)),
        lower: -500_000_000_000i64,
        upper: 999_500_000_000_000,
        falloff: 500_000_000_000,
    };
    let sb2 = NoiseExpr::ScaleBias { input: Box::new(se), scale: 800_000_000_000, bias: 0 };
    NoiseExpr::Exponent { input: Box::new(sb2), exponent: c.mountain_glaciation * 1_000_000 }
}

/// Hilly terrain: billowing hills carved by a ridged layer, reshaped by
/// an exponent and twisted twice by the hills twist.  (Specification value.)
pub open spec fn hilly_terrain_spec(c: MapConfig) -> NoiseExpr {
    let bi = NoiseExpr::Billow {
        seed: (c.seed + 60) as u32,
        frequency: 1_663_000_000_000_000,
        persistence: 500_000_000_000,
        lacunarity: (c.hills_lacunarity * 1_000_000) as i64,
        octaves: 6,
    };
    let sb0 = NoiseExpr::ScaleBias { input: Box::new(bi), scale: 500_000_000_000, bias: 500_000_000_000 };
    let rm = NoiseExpr::RidgedMulti {
        seed: (c.seed + 61) as u32,
        frequency: 367_500_000_000_000,
        lacunarity: (c.hills_lacunarity * 1_000_000) as i64,
        octaves: 1,
    };
    let sb1 = NoiseExpr::ScaleBias {
        input: Box::new(rm),
        scale: -2_000_000_000_000i64,
        bias: -1_000_000_000_000i64,
    };
    let co = NoiseExpr::Constant { value: -1_000_000_000_000i64 };
    let bl = NoiseExpr::Blend { a: Box::new(co), b: Box::new(sb1), control: Box::new(sb0) };
    let sb2 = NoiseExpr::ScaleBias {
        input: Box::new(bl),
        scale: 750_000_000_000,
        bias: -250_000_000_000i64,
    };
    let ex = NoiseExpr::Exponent { input: Box::new(sb2), exponent: 1_375_000_000_000 };
    let tu0 = NoiseExpr::Turbulence {
        input: Box::new(ex),
        seed: (c.seed + 62) as u32,
        frequency: 1_531_000_000_000_000,
        power: (c.hills_twist * 1_000_000 / 16_921) as i64,
        roughness: 4,
    };
    NoiseExpr::Turbulence {
        input: Box::new(tu0),
        seed: (c.seed + 63) as u32,
        frequency: 21_617_000_000_000_000,
        power: (c.hills_twist * 1_000_000 / 117_529) as i64,
        roughness: 6,
    }
}

/// Hilly terrain: billowing hills carved by a ridged layer, reshaped by
/// an exponent and twisted twice by the hills twist.
pub fn hilly_terrain(c: &MapConfig) -> (r: NoiseExpr)
    requires
        c.bounded(),
    ensures
        r == hilly_terrain_spec(*c),
{
    let bi = NoiseExpr::Billow {
        seed: c.seed + 60,
        frequency: 1_663_000_000_000_000,
        persistence: 500_000_000_000,
        lacunarity: c.hills_lacunarity * 1_000_000,
        octaves: 6,
    };
    let sb0 = NoiseExpr::ScaleBias { input: Box::new(bi), scale: 500_000_000_000, bias: 500_000_000_000 };
    let rm = NoiseExpr::RidgedMulti {
        seed: c.seed + 61,
        frequency: 367_500_000_000_000,
        lacunarity: c.hills_lacunarity * 1_000_000,
        octaves: 1,
    };
    let sb1 = NoiseExpr::ScaleBias {
        input: Box::new(rm),
        scale: -2_000_000_000_000i64,
        bias: -1_000_000_000_000i64,
    };
    let co = NoiseExpr::Constant { value: -1_000_000_000_000i64 };
    let bl = NoiseExpr::Blend { a: Box::new(co), b: Box::new(sb1), control: Box::new(sb0) };
    let sb2 = NoiseExpr::ScaleBias {
        input: Box::new(bl),
        scale: 750_000_000_000,
        bias: -250_000_000_000i64,
    };
    let ex = NoiseExpr::Exponent { input: Box::new(sb2), exponent: 1_375_000_000_000 };
    let tu0 = NoiseExpr::Turbulence {
        input: Box::new(ex),
        seed: c.seed + 62,
        frequency: 1_531_000_000_000_000,
        power: scale_div(c.hills_twist, 1_000_000, 16_921),
        roughness: 4,
    };
    NoiseExpr::Turbulence {
        input: Box::new(tu0),
        seed: c.seed + 63,
        frequency: 21_617_000_000_000_000,
        power: scale_div(c.hills_twist, 1_000_000, 117_529),
        roughness: 6,
    }
}

/// Plains: the renormalized product of two billowing surfaces, flat and
/// low-contrast.  (Specification value.)
pub open spec fn plains_terrain_spec(c: MapConfig) -> NoiseExpr {
    let bi0 = NoiseExpr::Billow {
        seed: (c.seed + 70) as u32,
        frequency: 1_097_500_000_000_000,
        persistence: 500_000_000_000,
        lacunarity: (c.plains_lacunarity * 1_000_000) as i64,
        octaves: 8,
    };
    let sb0 = NoiseExpr::ScaleBias { input: Box::new(bi0), scale: 500_000_000_000, bias: 500_000_000_000 };
    let bi1 = NoiseExpr::Billow {
        seed: (c.seed + 71) as u32,
        frequency: 1_097_500_000_000_000,
        persistence: 500_000_000_000,
        lacunarity: (c.plains_lacunarity * 1_000_000) as i64,
        octaves: 8,
    };
    let sb1 = NoiseExpr::ScaleBias { input: Box::new(bi1), scale: 500_000_000_000, bias: 500_000_000_000 };
    let mu = NoiseExpr::Multiply { a: Box::new(sb0), b: Box::new(sb1) };
    NoiseExpr::ScaleBias {
        input: Box::new(mu),
        scale: 2_000_000_000_000,
        bias: -1_000_000_000_000i64,
    }
}

/// Plains: the renormalized product of two billowing surfaces, flat and
/// low-contrast.
pub fn plains_terrain(c: &MapConfig) -> (r: NoiseExpr)
    requires
        c.bounded(),
    ensures
        r == plains_terrain_spec(*c),
{
    let bi0 = NoiseExpr::Billow {
        seed: c.seed + 70,
        frequency: 1_097_500_000_000_000,
        persistence: 500_000_000_000,
        lacunarity: c.plains_lacunarity * 1_000_000,
        octaves: 8,
    };
    let sb0 = NoiseExpr::ScaleBias { input: Box::new(bi0), scale: 500_000_000_000, bias: 500_000_000_000 };
    let bi1 = NoiseExpr::Billow {
        seed: c.seed + 71,
        frequency: 1_097_500_000_000_000,
        persistence: 500_000_000_000,
        lacunarity: c.plains_lacunarity * 1_000_000,
        octaves: 8,
    };
    let sb1 = NoiseExpr::ScaleBias { input: Box::new(bi1), scale: 500_000_000_000, bias: 500_000_000_000 };
    let mu = NoiseExpr::Multiply { a: Box::new(sb0), b: Box::new(sb1) };
    NoiseExpr::ScaleBias {
        input: Box::new(mu),
        scale: 2_000_000_000_000,
        bias: -1_000_000_000_000i64,
    }
}

/// Badlands sand dunes: a ridged layer plus cellular distance noise.  (Specification value.)
pub open spec fn badlands_sand_spec(c: MapConfig) -> NoiseExpr {
    let rm = NoiseExpr::RidgedMulti {
        seed: (c.seed + 80) as u32,
        frequency: 6_163_500_000_000_000,
        lacunarity: (c.badlands_lacunarity * 1_000_000) as i64,
        octaves: 1,
    };
    let sb0 = NoiseExpr::ScaleBias { input: Box::new(rm), scale: 875_000_000_000, bias: 0 };
    let wo = NoiseExpr::WorleyDistance { seed: (c.seed + 81) as u32, frequency: 16_183_250_000_000_000 };
    let sb1 = NoiseExpr::ScaleBias { input: Box::new(wo), scale: 250_000_000_000, bias: 250_000_000_000 };
    NoiseExpr::Add { a: Box::new(sb0), b: Box::new(sb1) }
}

/// Badlands sand dunes: a ridged layer plus cellular distance noise.
pub fn badlands_sand(c: &MapConfig) -> (r: NoiseExpr)
    requires
        c.bounded(),
    ensures
        r == badlands_sand_spec(*c),
{
    let rm = NoiseExpr::RidgedMulti {
        seed: c.seed + 80,
        frequency: 6_163_500_000_000_000,
        lacunarity: c.badlands_lacunarity * 1_000_000,
        octaves: 1,
    };
    let sb0 = NoiseExpr::ScaleBias { input: Box::new(rm), scale: 875_000_000_000, bias: 0 };
    let wo = NoiseExpr::WorleyDistance { seed: c.seed + 81, frequency: 16_183_250_000_000_000 };
    let sb1 = NoiseExpr::ScaleBias { input: Box::new(wo), scale: 250_000_000_000, bias: 250_000_000_000 };
    NoiseExpr::Add { a: Box::new(sb0), b: Box::new(sb1) }
}

/// Badlands cliffs: a curved, clamped and terraced fractal surface
/// twisted twice by the badlands twist.  (Specification value.)
pub open spec fn badlands_cliffs_spec(c: MapConfig) -> NoiseExpr {
    let fb = NoiseExpr::Fbm {
        seed: (c.seed + 90) as u32,
        frequency: (c.continent_frequency * 839_000_000) as i64,
        persistence: 500_000_000_000,
        lacunarity: (c.badlands_lacunarity * 1_000_000) as i64,
        octaves: 6,
    };
    let cu = NoiseExpr::Curve {
        input: Box::new(fb),
        points: CurvePoints::Point {
            input: -2_000_000_000_000i64,
            output: -2_000_000_000_000i64,
            rest: Box::new(
                CurvePoints::Point {
                    input: -1_000_000_000_000i64,
                    output: -1_000_000_000_000i64,
                    rest: Box::new(
                        CurvePoints::Point {
                            input: 0,
                            output: -750_000_000_000i64,
                            rest: Box::new(
                                CurvePoints::Point {
                                    input: 500_000_000_000,
                                    output: -250_000_000_000i64,
                                    rest: Box::new(
                                        CurvePoints::Point {
                                            input: 625_000_000_000,
                                            output: 875_000_000_000,
                                            rest: Box::new(
                                                CurvePoints::Point {
                                                    input: 750_000_000_000,
                                                    output: 1_000_000_000_000,
                                                    rest: Box::new(
                                                        CurvePoints::Point {
                                                            input: 2_000_000_000_000,
                                                            output: 1_250_000_000_000,
                                                            rest: Box::new(CurvePoints::Done),
                                                        },
                                                    ),
                                                },
                                            ),
                                        },
                                    ),
                                },
                            ),
                        },
                    ),
                },
            ),
        },
    };
    let cl = NoiseExpr::Clamp {
        input: Box::new(cu),
        lower: -999_125_000_000_000i64,
        upper: 875_000_000_000,
    };
    let te = NoiseExpr::Terrace {
        input: Box::new(cl),
        steps: TerracePoints::Point {
            value: -1_000_000_000_000i64,
            rest: Box::new(
                TerracePoints::Point {
                    value: -875_000_000_000i64,
                    rest: Box::new(
                        TerracePoints::Point {
                            value: -750_000_000_000i64,
                            rest: Box::new(
                                TerracePoints::Point {
                                    value: -500_000_000_000i64,
                                    rest: Box::new(
                                        TerracePoints::Point {
                                            value: 0,
                                            rest: Box::new(
                                                TerracePoints::Point {
                                                    value: 1_000_000_000_000,
                                                    rest: Box::new(TerracePoints::Done),
                                                },
                                            ),
                                        },
                                    ),
                                },
                            ),
                        },
                    ),
                },
            ),
        },
    };
    let tu0 = NoiseExpr::Turbulence {
        input: Box::new(te),
        seed: (c.seed + 91) as u32,
        frequency: 16_111_000_000_000_000,
        power: (c.badlands_twist * 1_000_000 / 141_539) as i64,
        roughness: 3,
    };
    NoiseExpr::Turbulence {
        input: Box::new(tu0),
        seed: (c.seed + 92) as u32,
        frequency: 36_107_000_000_000_000,
        power: (c.badlands_twist * 1_000_000 / 211_543) as i64,
        roughness: 3,
    }
}

/// Badlands cliffs: a curved, clamped and terraced fractal surface
/// twisted twice by the badlands twist.
pub fn badlands_cliffs(c: &MapConfig) -> (r: NoiseExpr)
    requires
        c.bounded(),
    ensures
        r == badlands_cliffs_spec(*c),
{
    let fb = NoiseExpr::Fbm {
        seed: c.seed + 90,
        frequency: c.continent_frequency * 839_000_000,
        persistence: 500_000_000_000,
        lacunarity: c.badlands_lacunarity * 1_000_000,
        octaves: 6,
    };
    let cu = NoiseExpr::Curve {
        input: Box::new(fb),
        points: CurvePoints::Point {
            input: -2_000_000_000_000i64,
            output: -2_000_000_000_000i64,
            rest: Box::new(
                CurvePoints::Point {
                    input: -1_000_000_000_000i64,
                    output: -1_000_000_000_000i64,
                    rest: Box::new(
                        CurvePoints::Point {
                            input: 0,
                            output: -750_000_000_000i64,
                            rest: Box::new(
                                CurvePoints::Point {
                                    input: 500_000_000_000,
                                    output: -250_000_000_000i64,
                                    rest: Box::new(
                                        CurvePoints::Point {
                                            input: 625_000_000_000,
                                            output: 875_000_000_000,
                                            rest: Box::new(
                                                CurvePoints::Point {
                                                    input: 750_000_000_000,
                                                    output: 1_000_000_000_000,
                                                    rest: Box::new(
                                                        CurvePoints::Point {
                                                            input: 2_000_000_000_000,
                                                            output: 1_250_000_000_000,
                                                            rest: Box::new(CurvePoints::Done),
                                                        },
                                                    ),
                                                },
                                            ),
                                        },
                                    ),
                                },
                            ),
                        },
                    ),
                },
            ),
        },
    };
    let cl = NoiseExpr::Clamp {
        input: Box::new(cu),
        lower: -999_125_000_000_000i64,
        upper: 875_000_000_000,
    };
    let te = NoiseExpr::Terrace {
        input: Box::new(cl),
        steps: TerracePoints::Point {
            value: -1_000_000_000_000i64,
            rest: Box::new(
                TerracePoints::Point {
                    value: -875_000_000_000i64,
                    rest: Box::new(
                        TerracePoints::Point {
                            value: -750_000_000_000i64,
                            rest: Box::new(
                                TerracePoints::Point {
                                    value: -500_000_000_000i64,
                                    rest: Box::new(
                                        TerracePoints::Point {
                                            value: 0,
                                            rest: Box::new(
                                                TerracePoints::Point {
                                                    value: 1_000_000_000_000,
                                                    rest: Box::new(TerracePoints::Done),
                                                },
                                            ),
                                        },
                                    ),
                                },
                            ),
                        },
                    ),
                },
            ),
        },
    };
    let tu0 = NoiseExpr::Turbulence {
        input: Box::new(te),
        seed: c.seed + 91,
        frequency: 16_111_000_000_000_000,
        power: scale_div(c.badlands_twist, 1_000_000, 141_539),
        roughness: 3,
    };
    NoiseExpr::Turbulence {
        input: Box::new(tu0),
        seed: c.seed + 92,
        frequency: 36_107_000_000_000_000,
        power: scale_div(c.badlands_twist, 1_000_000, 211_543),
        roughness: 3,
    }
}

/// Complete badlands: cliffs rising over the scaled sand floor.  (Specification value.)
pub open spec fn badlands_terrain_spec(c: MapConfig) -> NoiseExpr {
    let sb = NoiseExpr::ScaleBias {
        input: Box::new(badlands_sand_spec(c)),
        scale: 250_000_000_000,
        bias: -750_000_000_000i64,
    };
    NoiseExpr::Max { a: Box::new(badlands_cliffs_spec(c)), b: Box::new(sb) }
}

/// Complete badlands: cliffs rising over the scaled sand floor.
pub fn badlands_terrain(c: &MapConfig) -> (r: NoiseExpr)
    requires
        c.bounded(),
    ensures
        r == badlands_terrain_spec(*c),
{
    let sb = NoiseExpr::ScaleBias {
        input: Box::new(badlands_sand(c)),
        scale: 250_000_000_000,
        bias: -750_000_000_000i64,
    };
    NoiseExpr::Max { a: Box::new(badlands_cliffs(c)), b: Box::new(sb) }
}

/// River channels: two ridged layers remapped through opposite curves and
/// combined by minimum, then lightly warped.  (Specification value.)
pub open spec fn river_positions_spec(c: MapConfig) -> NoiseExpr {
    let rm0 = NoiseExpr::RidgedMulti {
        seed: (c.seed + 100) as u32,
        frequency: 18_750_000_000_000,
        lacunarity: (c.continent_lacunarity * 1_000_000) as i64,
        octaves: 1,
    };
    let cu0 = NoiseExpr::Curve {
        input: Box::new(rm0),
        points: CurvePoints::Point {
            input: -2_000_000_000_000i64,
            output: 2_000_000_000_000,
            rest: Box::new(
                CurvePoints::Point {
                    input: -1_000_000_000_000i64,
                    output: 1_000_000_000_000,
                    rest: Box::new(
                        CurvePoints::Point {
                            input: -125_000_000_000i64,
                            output: 875_000_000_000,
                            rest: Box::new(
                                CurvePoints::Point {
                                    input: 0,
                                    output: -1_000_000_000_000i64,
                                    rest: Box::new(
                                        CurvePoints::Point {
                                            input: 1_000_000_000_000,
                                            output: -1_500_000_000_000i64,
                                            rest: Box::new(
                                                CurvePoints::Point {
                                                    input: 2_000_000_000_000,
                                                    output: -2_000_000_000_000i64,
                                                    rest: Box::new(CurvePoints::Done),
                                                },
                                            ),
                                        },
                                    ),
                                },
                            ),
                        },
                    ),
                },
            ),
        },
    };
    let rm1 = NoiseExpr::RidgedMulti {
        seed: (c.seed + 101) as u32,
        frequency: 43_250_000_000_000,
        lacunarity: (c.continent_lacunarity * 1_000_000) as i64,
        octaves: 1,
    };
    let cu1 = NoiseExpr::Curve {
        input: Box::new(rm1),
        points: CurvePoints::Point {
            input: -2_000_000_000_000i64,
            output: 2_000_000_000_000,
            rest: Box::new(
                CurvePoints::Point {
                    input: -1_000_000_000_000i64,
                    output: 1_500_000_000_000,
                    rest: Box::new(
                        CurvePoints::Point {
                            input: -125_000_000_000i64,
                            output: 1_437_500_000_000,
                            rest: Box::new(
                                CurvePoints::Point {
                                    input: 0,
                                    output: 500_000_000_000,
                                    rest: Box::new(
                                        CurvePoints::Point {
                                            input: 1_000_000_000_000,
                                            output: 250_000_000_000,
                                            rest: Box::new(
                                                CurvePoints::Point {
                                                    input: 2_000_000_000_000,
                                                    output: 0,
                                                    rest: Box::new(CurvePoints::Done),
                                                },
                                            ),
                                        },
                                    ),
                                },
                            ),
                        },
                    ),
                },
            ),
        },
    };
    let mi = NoiseExpr::Min { a: Box::new(cu0), b: Box::new(cu1) };
    NoiseExpr::Turbulence {
        input: Box::new(mi),
        seed: (c.seed + 102) as u32,
        frequency: 9_250_000_000_000,
        power: RIVER_WARP_POWER,
        roughness: 6,
    }
}

/// River channels: two ridged layers remapped through opposite curves and
/// combined by minimum, then lightly warped.
pub fn river_positions(c: &MapConfig) -> (r: NoiseExpr)
    requires
        c.bounded(),
    ensures
        r == river_positions_spec(*c),
{
    let rm0 = NoiseExpr::RidgedMulti {
        seed: c.seed + 100,
        frequency: 18_750_000_000_000,
        lacunarity: c.continent_lacunarity * 1_000_000,
        octaves: 1,
    };
    let cu0 = NoiseExpr::Curve {
        input: Box::new(rm0),
        points: CurvePoints::Point {
            input: -2_000_000_000_000i64,
            output: 2_000_000_000_000,
            rest: Box::new(
                CurvePoints::Point {
                    input: -1_000_000_000_000i64,
                    output: 1_000_000_000_000,
                    rest: Box::new(
                        CurvePoints::Point {
                            input: -125_000_000_000i64,
                            output: 875_000_000_000,
                            rest: Box::new(
                                CurvePoints::Point {
                                    input: 0,
                                    output: -1_000_000_000_000i64,
                                    rest: Box::new(
                                        CurvePoints::Point {
                                            input: 1_000_000_000_000,
                                            output: -1_500_000_000_000i64,
                                            rest: Box::new(
                                                CurvePoints::Point {
                                                    input: 2_000_000_000_000,
                                                    output: -2_000_000_000_000i64,
                                                    rest: Box::new(CurvePoints::Done),
                                                },
                                            ),
                                        },
                                    ),
                                },
                            ),
                        },
                    ),
                },
            ),
        },
    };
    let rm1 = NoiseExpr::RidgedMulti {
        seed: c.seed + 101,
        frequency: 43_250_000_000_000,
        lacunarity: c.continent_lacunarity * 1_000_000,
        octaves: 1,
    };
    let cu1 = NoiseExpr::Curve {
        input: Box::new(rm1),
        points: CurvePoints::Point {
            input: -2_000_000_000_000i64,
            output: 2_000_000_000_000,
            rest: Box::new(
                CurvePoints::Point {
                    input: -1_000_000_000_000i64,
                    output: 1_500_000_000_000,
                    rest: Box::new(
                        CurvePoints::Point {
                            input: -125_000_000_000i64,
                            output: 1_437_500_000_000,
                            rest: Box::new(
                                CurvePoints::Point {
                                    input: 0,
                                    output: 500_000_000_000,
                                    rest: Box::new(
                                        CurvePoints::Point {
                                            input: 1_000_000_000_000,
                                            output: 250_000_000_000,
                                            rest: Box::new(
                                                CurvePoints::Point {
                                                    input: 2_000_000_000_000,
                                                    output: 0,
                                                    rest: Box::new(CurvePoints::Done),
                                                },
                                            ),
                                        },
                                    ),
                                },
                            ),
                        },
                    ),
                },
            ),
        },
    };
    let mi = NoiseExpr::Min { a: Box::new(cu0), b: Box::new(cu1) };
    NoiseExpr::Turbulence {
        input: Box::new(mi),
        seed: c.seed + 102,
        frequency: 9_250_000_000_000,
        power: RIVER_WARP_POWER,
        roughness: 6,
    }
}

/// Mountainous terrain scaled into the composition range and modulated by
/// a broad fractal surface.  (Specification value.)
pub open spec fn scaled_mountainous_terrain_spec(c: MapConfig) -> NoiseExpr {
    let sb0 = NoiseExpr::ScaleBias {
        input: Box::new(mountainous_terrain_spec(c)),
        scale: 125_000_000_000,
        bias: 125_000_000_000,
    };
    let fb = NoiseExpr::Fbm {
        seed: (c.seed + 110) as u32,
        frequency: 14_500_000_000_000,
        persistence: 500_000_000_000,
        lacunarity: (c.mountain_lacunarity * 1_000_000) as i64,
        octaves: 6,
    };
    let ex = NoiseExpr::Exponent { input: Box::new(fb), exponent: 1_250_000_000_000 };
    let sb1 = NoiseExpr::ScaleBias {
        input: Box::new(ex),
        scale: 250_000_000_000,
        bias: 1_000_000_000_000,
    };
    NoiseExpr::Multiply { a: Box::new(sb0), b: Box::new(sb1) }
}

/// Mountainous terrain scaled into the composition range and modulated by
/// a broad fractal surface.
pub fn scaled_mountainous_terrain(c: &MapConfig) -> (r: NoiseExpr)
    requires
        c.bounded(),
    ensures
        r == scaled_mountainous_terrain_spec(*c),
{
    let sb0 = NoiseExpr::ScaleBias {
        input: Box::new(mountainous_terrain(c)),
        scale: 125_000_000_000,
        bias: 125_000_000_000,
    };
    let fb = NoiseExpr::Fbm {
        seed: c.seed + 110,
        frequency: 14_500_000_000_000,
        persistence: 500_000_000_000,
        lacunarity: c.mountain_lacunarity * 1_000_000,
        octaves: 6,
    };
    let ex = NoiseExpr::Exponent { input: Box::new(fb), exponent: 1_250_000_000_000 };
    let sb1 = NoiseExpr::ScaleBias {
        input: Box::new(ex),
        scale: 250_000_000_000,
        bias: 1_000_000_000_000,
    };
    NoiseExpr::Multiply { a: Box::new(sb0), b: Box::new(sb1) }
}

/// Hilly terrain scaled into the composition range and modulated by a
/// broad fractal surface.  (Specification value.)
pub open spec fn scaled_hilly_terrain_spec(c: MapConfig) -> NoiseExpr {
    let sb0 = NoiseExpr::ScaleBias {
        input: Box::new(hilly_terrain_spec(c)),
        scale: 62_500_000_000,
        bias: 62_500_000_000,
    };
    let fb = NoiseExpr::Fbm {
        seed: (c.seed + 120) as u32,
        frequency: 13_500_000_000_000,
        persistence: 500_000_000_000,
        lacunarity: (c.hills_lacunarity * 1_000_000) as i64,
        octaves: 6,
    };
    let ex = NoiseExpr::Exponent { input: Box::new(fb), exponent: 1_250_000_000_000 };
    let sb1 = NoiseExpr::ScaleBias {
        input: Box::new(ex),
        scale: 500_000_000_000,
        bias: 1_500_000_000_000,
    };
    NoiseExpr::Multiply { a: Box::new(sb0), b: Box::new(sb1) }
}

/// Hilly terrain scaled into the composition range and modulated by a
/// broad fractal surface.
pub fn scaled_hilly_terrain(c: &MapConfig) -> (r: NoiseExpr)
    requires
        c.bounded(),
    ensures
        r == scaled_hilly_terrain_spec(*c),
{
    let sb0 = NoiseExpr::ScaleBias {
        input: Box::new(hilly_terrain(c)),
        scale: 62_500_000_000,
        bias: 62_500_000_000,
    };
    let fb = NoiseExpr::Fbm {
        seed: c.seed + 120,
        frequency: 13_500_000_000_000,
        persistence: 500_000_000_000,
        lacunarity: c.hills_lacunarity * 1_000_000,
        octaves: 6,
    };
    let ex = NoiseExpr::Exponent { input: Box::new(fb), exponent: 1_250_000_000_000 };
    let sb1 = NoiseExpr::ScaleBias {
        input: Box::new(ex),
        scale: 500_000_000_000,
        bias: 1_500_000_000_000,
    };
    NoiseExpr::Multiply { a: Box::new(sb0), b: Box::new(sb1) }
}

/// Plains scaled into the composition range.  (Specification value.)
pub open spec fn scaled_plains_terrain_spec(c: MapConfig) -> NoiseExpr {
    NoiseExpr::ScaleBias {
        input: Box::new(plains_terrain_spec(c)),
        scale: 3_906_250_000,
        bias: 7_812_500_000,
    }
}

/// Plains scaled into the composition range.
pub fn scaled_plains_terrain(c: &MapConfig) -> (r: NoiseExpr)
    requires
        c.bounded(),
    ensures
        r == scaled_plains_terrain_spec(*c),
{
    NoiseExpr::ScaleBias {
        input: Box::new(plains_terrain(c)),
        scale: 3_906_250_000,
        bias: 7_812_500_000,
    }
}

/// Badlands scaled into the composition range.  (Specification value.)
pub open spec fn scaled_badlands_terrain_spec(c: MapConfig) -> NoiseExpr {
    NoiseExpr::ScaleBias {
        input: Box::new(badlands_terrain_spec(c)),
        scale: 62_500_000_000,
        bias: 62_500_000_000,
    }
}

/// Badlands scaled into the composition range.
pub fn scaled_badlands_terrain(c: &MapConfig) -> (r: NoiseExpr)
    requires
        c.bounded(),
    ensures
        r == scaled_badlands_terrain_spec(*c),
{
    NoiseExpr::ScaleBias {
        input: Box::new(badlands_terrain(c)),
        scale: 62_500_000_000,
        bias: 62_500_000_000,
    }
}

/// Continental shelf: the continent terraced at the shelf level, clamped
/// below sea level, roughened by fine ridged noise.  (Specification value.)
pub open spec fn continental_shelf_spec(c: MapConfig) -> NoiseExpr {
    let te = NoiseExpr::Terrace {
        input: Box::new(continent_def_spec(c)),
        steps: TerracePoints::Point {
            value: -1_000_000_000_000i64,
            rest: Box::new(
                TerracePoints::Point {
                    value: -750_000_000_000i64,
                    rest: Box::new(
                        TerracePoints::Point {
                            value: (c.shelf_level * 1_000_000) as i64,
                            rest: Box::new(
                                TerracePoints::Point {
                                    value: 1_000_000_000_000,
                                    rest: Box::new(TerracePoints::Done),
                                },
                            ),
                        },
                    ),
                },
            ),
        },
    };
    let cl = NoiseExpr::Clamp {
        input: Box::new(te),
        lower: -750_000_000_000i64,
        upper: (c.sea_level * 1_000_000) as i64,
    };
    let rm = NoiseExpr::RidgedMulti {
        seed: (c.seed + 130) as u32,
        frequency: (c.continent_frequency * 4_375_000) as i64,
        lacunarity: (c.continent_lacunarity * 1_000_000) as i64,
        octaves: 16,
    };
    let sb = NoiseExpr::ScaleBias {
        input: Box::new(rm),
        scale: -125_000_000_000i64,
        bias: -125_000_000_000i64,
    };
    NoiseExpr::Add { a: Box::new(sb), b: Box::new(cl) }
}

/// Continental shelf: the continent terraced at the shelf level, clamped
/// below sea level, roughened by fine ridged noise.
pub fn continental_shelf(c: &MapConfig) -> (r: NoiseExpr)
    requires
        c.bounded(),
    ensures
        r == continental_shelf_spec(*c),
{
    let te = NoiseExpr::Terrace {
        input: Box::new(continent_def(c)),
        steps: TerracePoints::Point {
            value: -1_000_000_000_000i64,
            rest: Box::new(
                TerracePoints::Point {
                    value: -750_000_000_000i64,
                    rest: Box::new(
                        TerracePoints::Point {
                            value: c.shelf_level * 1_000_000,
                            rest: Box::new(
                                TerracePoints::Point {
                                    value: 1_000_000_000_000,
                                    rest: Box::new(TerracePoints::Done),
                                },
                            ),
                        },
                    ),
                },
            ),
        },
    };
    let cl = NoiseExpr::Clamp {
        input: Box::new(te),
        lower: -750_000_000_000i64,
        upper: c.sea_level * 1_000_000,
    };
    let rm = NoiseExpr::RidgedMulti {
        seed: c.seed + 130,
        frequency: c.continent_frequency * 4_375_000,
        lacunarity: c.continent_lacunarity * 1_000_000,
        octaves: 16,
    };
    let sb = NoiseExpr::ScaleBias {
        input: Box::new(rm),
        scale: -125_000_000_000i64,
        bias: -125_000_000_000i64,
    };
    NoiseExpr::Add { a: Box::new(sb), b: Box::new(cl) }
}

/// Base continent elevation: the continent scaled by the height scale,
/// with the shelf substituted in below the shelf level.  (Specification value.)
pub open spec fn base_continent_elev_spec(c: MapConfig) -> NoiseExpr {
    let sb = NoiseExpr::ScaleBias {
        input: Box::new(continent_def_spec(c)),
        scale: (c.continent_height_scale * 1_000_000) as i64,
        bias: 0,
    };
    NoiseExpr::Select {
        a: Box::new(sb),
        b: Box::new(continental_shelf_spec(c)),
        control: Box::new(continent_def_spec(c)),
        lower: (c.shelf_level * 1_000_000 - 1_000_000_000_000_000) as i64,
        upper: (c.shelf_level * 1_000_000) as i64,
        falloff: 31_250_000_000,
    }
}

/// Base continent elevation: the continent scaled by the height scale,
/// with the shelf substituted in below the shelf level.
pub fn base_continent_elev(c: &MapConfig) -> (r: NoiseExpr)
    requires
        c.bounded(),
    ensures
        r == base_continent_elev_spec(*c),
{
    let sb = NoiseExpr::ScaleBias {
        input: Box::new(continent_def(c)),
        scale: c.continent_height_scale * 1_000_000,
        bias: 0,
    };
    NoiseExpr::Select {
        a: Box::new(sb),
        b: Box::new(continental_shelf(c)),
        control: Box::new(continent_def(c)),
        lower: c.shelf_level * 1_000_000 - 1_000_000_000_000_000,
        upper: c.shelf_level * 1_000_000,
        falloff: 31_250_000_000,
    }
}

/// Continents with the plains layer blended in everywhere.  (Specification value.)
pub open spec fn continents_with_plains_spec(c: MapConfig) -> NoiseExpr {
    NoiseExpr::Add {
        a: Box::new(base_continent_elev_spec(c)),
        b: Box::new(scaled_plains_terrain_spec(c)),
    }
}

/// Continents with the plains layer blended in everywhere.
pub fn continents_with_plains(c: &MapConfig) -> (r: NoiseExpr)
    requires
        c.bounded(),
    ensures
        r == continents_with_plains_spec(*c),
{
    NoiseExpr::Add { a: Box::new(base_continent_elev(c)), b: Box::new(scaled_plains_terrain(c)) }
}

/// Hills gated over the plains by the terrain-type classifier.  (Specification value.)
pub open spec fn continents_with_hills_spec(c: MapConfig) -> NoiseExpr {
    let ad = NoiseExpr::Add {
        a: Box::new(base_continent_elev_spec(c)),
        b: Box::new(scaled_hilly_terrain_spec(c)),
    };
    NoiseExpr::Select {
        a: Box::new(continents_with_plains_spec(c)),
        b: Box::new(ad),
        control: Box::new(terrain_type_def_spec(c)),
        lower: (1_000_000_000_000 - c.hills_amount * 1_000_000) as i64,
        upper: (1_001_000_000_000_000 - c.hills_amount * 1_000_000) as i64,
        falloff: 250_000_000_000,
    }
}

/// Hills gated over the plains by the terrain-type classifier.
pub fn continents_with_hills(c: &MapConfig) -> (r: NoiseExpr)
    requires
        c.bounded(),
    ensures
        r == continents_with_hills_spec(*c),
{
    let ad = NoiseExpr::Add { a: Box::new(base_continent_elev(c)), b: Box::new(scaled_hilly_terrain(c)) };
    NoiseExpr::Select {
        a: Box::new(continents_with_plains(c)),
        b: Box::new(ad),
        control: Box::new(terrain_type_def(c)),
        lower: 1_000_000_000_000 - c.hills_amount * 1_000_000,
        upper: 1_001_000_000_000_000 - c.hills_amount * 1_000_000,
        falloff: 250_000_000_000,
    }
}

/// Mountains gated over the hills by the terrain-type classifier, raised
/// further where the continent itself is high.  (Specification value.)
pub open spec fn continents_with_mountains_spec(c: MapConfig) -> NoiseExpr {
    let ad0 = NoiseExpr::Add {
        a: Box::new(base_continent_elev_spec(c)),
        b: Box::new(scaled_mountainous_terrain_spec(c)),
    };
    let cu = NoiseExpr::Curve {
        input: Box::new(continent_def_spec(c)),
        points: CurvePoints::Point {
            input: -1_000_000_000_000i64,
            output: -62_500_000_000i64,
            rest: Box::new(
                CurvePoints::Point {
                    input: 0,
                    output: 0,
                    rest: Box::new(
                        CurvePoints::Point {
                            input: (1_000_000_000_000 - c.mountains_amount * 1_000_000) as i64,
                            output: 62_500_000_000,
                            rest: Box::new(
                                CurvePoints::Point {
                                    input: 1_000_000_000_000,
                                    output: 250_000_000_000,
                                    rest: Box::new(CurvePoints::Done),
                                },
                            ),
                        },
                    ),
                },
            ),
        },
    };
    let ad1 = NoiseExpr::Add { a: Box::new(ad0), b: Box::new(cu) };
    NoiseExpr::Select {
        a: Box::new(continents_with_hills_spec(c)),
        b: Box::new(ad1),
        control: Box::new(terrain_type_def_spec(c)),
        lower: (1_000_000_000_000 - c.mountains_amount * 1_000_000) as i64,
        upper: (1_001_000_000_000_000 - c.mountains_amount * 1_000_000) as i64,
        falloff: 250_000_000_000,
    }
}

/// Mountains gated over the hills by the terrain-type classifier, raised
/// further where the continent itself is high.
pub fn continents_with_mountains(c: &MapConfig) -> (r: NoiseExpr)
    requires
        c.bounded(),
    ensures
        r == continents_with_mountains_spec(*c),
{
    let ad0 = NoiseExpr::Add {
        a: Box::new(base_continent_elev(c)),
        b: Box::new(scaled_mountainous_terrain(c)),
    };
    let cu = NoiseExpr::Curve {
        input: Box::new(continent_def(c)),
        points: CurvePoints::Point {
            input: -1_000_000_000_000i64,
            output: -62_500_000_000i64,
            rest: Box::new(
                CurvePoints::Point {
                    input: 0,
                    output: 0,
                    rest: Box::new(
                        CurvePoints::Point {
                            input: 1_000_000_000_000 - c.mountains_amount * 1_000_000,
                            output: 62_500_000_000,
                            rest: Box::new(
                                CurvePoints::Point {
                                    input: 1_000_000_000_000,
                                    output: 250_000_000_000,
                                    rest: Box::new(CurvePoints::Done),
                                },
                            ),
                        },
                    ),
                },
            ),
        },
    };
    let ad1 = NoiseExpr::Add { a: Box::new(ad0), b: Box::new(cu) };
    NoiseExpr::Select {
        a: Box::new(continents_with_hills(c)),
        b: Box::new(ad1),
        control: Box::new(terrain_type_def(c)),
        lower: 1_000_000_000_000 - c.mountains_amount * 1_000_000,
        upper: 1_001_000_000_000_000 - c.mountains_amount * 1_000_000,
        falloff: 250_000_000_000,
    }
}

/// Badlands select-blended on top through their own low-frequency mask,
/// never cutting below the mountainous terrain.  (Specification value.)
pub open spec fn continents_with_badlands_spec(c: MapConfig) -> NoiseExpr {
    let bm = NoiseExpr::Fbm {
        seed: (c.seed + 140) as u32,
        frequency: 16_500_000_000_000,
        persistence: 500_000_000_000,
        lacunarity: (c.continent_lacunarity * 1_000_000) as i64,
        octaves: 2,
    };
    let ad = NoiseExpr::Add {
        a: Box::new(base_continent_elev_spec(c)),
        b: Box::new(scaled_badlands_terrain_spec(c)),
    };
    let se = NoiseExpr::Select {
        a: Box::new(continents_with_mountains_spec(c)),
        b: Box::new(ad),
        control: Box::new(bm),
        lower: (1_000_000_000_000 - c.badlands_amount * 1_000_000) as i64,
        upper: (1_001_000_000_000_000 - c.badlands_amount * 1_000_000) as i64,
        falloff: 250_000_000_000,
    };
    NoiseExpr::Max { a: Box::new(continents_with_mountains_spec(c)), b: Box::new(se) }
}

/// Badlands select-blended on top through their own low-frequency mask,
/// never cutting below the mountainous terrain.
pub fn continents_with_badlands(c: &MapConfig) -> (r: NoiseExpr)
    requires
        c.bounded(),
    ensures
        r == continents_with_badlands_spec(*c),
{
    let bm = NoiseExpr::Fbm {
        seed: c.seed + 140,
        frequency: 16_500_000_000_000,
        persistence: 500_000_000_000,
        lacunarity: c.continent_lacunarity * 1_000_000,
        octaves: 2,
    };
    let ad = NoiseExpr::Add {
        a: Box::new(base_continent_elev(c)),
        b: Box::new(scaled_badlands_terrain(c)),
    };
    let se = NoiseExpr::Select {
        a: Box::new(continents_with_mountains(c)),
        b: Box::new(ad),
        control: Box::new(bm),
        lower: 1_000_000_000_000 - c.badlands_amount * 1_000_000,
        upper: 1_001_000_000_000_000 - c.badlands_amount * 1_000_000,
        falloff: 250_000_000_000,
    };
    NoiseExpr::Max { a: Box::new(continents_with_mountains(c)), b: Box::new(se) }
}

/// Rivers carved into the band just above sea level, scaled by the river
/// depth; open ocean and high ground are left untouched.  (Specification value.)
pub open spec fn continents_with_rivers_spec(c: MapConfig) -> NoiseExpr {
    let sb = NoiseExpr::ScaleBias {
        input: Box::new(river_positions_spec(c)),
        scale: (c.river_depth * 500_000) as i64,
        bias: (-(c.river_depth * 500_000)) as i64,
    };
    let ad = NoiseExpr::Add { a: Box::new(continents_with_badlands_spec(c)), b: Box::new(sb) };
    NoiseExpr::Select {
        a: Box::new(continents_with_badlands_spec(c)),
        b: Box::new(ad),
        control: Box::new(continents_with_badlands_spec(c)),
        lower: (c.sea_level * 1_000_000) as i64,
        upper: (c.continent_height_scale * 1_000_000 + c.sea_level * 1_000_000) as i64,
        falloff: (c.continent_height_scale * 1_000_000 - c.sea_level * 1_000_000) as i64,
    }
}

/// Rivers carved into the band just above sea level, scaled by the river
/// depth; open ocean and high ground are left untouched.
pub fn continents_with_rivers(c: &MapConfig) -> (r: NoiseExpr)
    requires
        c.bounded(),
    ensures
        r == continents_with_rivers_spec(*c),
{
    let sb = NoiseExpr::ScaleBias {
        input: Box::new(river_positions(c)),
        scale: c.river_depth * 500_000,
        bias: -(c.river_depth * 500_000),
    };
    let ad = NoiseExpr::Add { a: Box::new(continents_with_badlands(c)), b: Box::new(sb) };
    NoiseExpr::Select {
        a: Box::new(continents_with_badlands(c)),
        b: Box::new(ad),
        control: Box::new(continents_with_badlands(c)),
        lower: c.sea_level * 1_000_000,
        upper: c.continent_height_scale * 1_000_000 + c.sea_level * 1_000_000,
        falloff: c.continent_height_scale * 1_000_000 - c.sea_level * 1_000_000,
    }
}

/// The complete composed noise expression of the planet: continents with
/// plains, hills, mountains and badlands gated by the terrain-type
/// classifier, and rivers carved last.  (Specification value.)
pub open spec fn planet_graph_spec(c: MapConfig) -> NoiseExpr {
    continents_with_rivers_spec(c)
}

/// Builds the complete composed noise expression of the planet.  The
/// result is exactly [`planet_graph_spec`] of the configuration: the
/// synthesizer has no hidden entropy source, so two builds from one
/// configuration describe identical elevation fields.
pub fn planet_graph(map_config: &MapConfig) -> (r: NoiseExpr)
    requires
        map_config.bounded(),
    ensures
        r == planet_graph_spec(*map_config),
{
    continents_with_rivers(map_config)
}

/// Parameter ranges under which the composed expression is well-formed:
/// the select-curve of the mountains keeps its control points distinct,
/// the terrace points of the classifier and the shelf stay inside the
/// nominal band, and the shelf clamp keeps an ordered range.
pub open spec fn graph_evaluable(c: MapConfig) -> bool {
    &&& 0 < c.mountains_amount < 1_000_000
    &&& -750_000 <= c.sea_level
    &&& -2_000_000 < 2 * c.shelf_level + c.sea_level < 2_000_000
    &&& -750_000 < c.shelf_level < 1_000_000
}

/// Executable check for [`graph_evaluable`].
pub fn is_graph_evaluable(c: &MapConfig) -> (r: bool)
    ensures
        r == graph_evaluable(*c),
{
    let shelf_mid: i128 = 2 * (c.shelf_level as i128) + (c.sea_level as i128);
    0 < c.mountains_amount && c.mountains_amount < 1_000_000
        && -750_000 <= c.sea_level
        && -2_000_000 < shelf_mid && shelf_mid < 2_000_000
        && -750_000 < c.shelf_level && c.shelf_level < 1_000_000
}

/// Within the machine bounds and the evaluable parameter ranges, the
/// complete composed expression is well-formed: every curve has at least
/// four strictly increasing control points, every terrace at least two,
/// and every clamp an ordered range, so an evaluator can walk the whole
/// expression without failing.
pub proof fn lemma_planet_graph_wf(c: MapConfig)
    requires
        c.bounded(),
        graph_evaluable(c),
    ensures
        graph_wf(planet_graph_spec(c)),
{
    reveal_with_fuel(graph_wf, 12);
    reveal_with_fuel(crate::graph::curve_len, 12);
    reveal_with_fuel(crate::graph::curve_increasing, 12);
    reveal_with_fuel(crate::graph::terrace_len, 8);
    reveal_with_fuel(crate::graph::terrace_increasing, 8);
    assert(graph_wf(base_continent_def_spec(c)));
    assert(graph_wf(continent_def_spec(c)));
    assert(graph_wf(terrain_type_def_spec(c)));
    assert(graph_wf(mountain_base_def_spec(c)));
    assert(graph_wf(mountainous_high_spec(c)));
    assert(graph_wf(mountainous_low_spec(c)));
    assert(graph_wf(mountainous_terrain_spec(c)));
    assert(graph_wf(hilly_terrain_spec(c)));
    assert(graph_wf(plains_terrain_spec(c)));
    assert(graph_wf(badlands_sand_spec(c)));
    assert(graph_wf(badlands_cliffs_spec(c)));
    assert(graph_wf(badlands_terrain_spec(c)));
    assert(graph_wf(river_positions_spec(c)));
    assert(graph_wf(scaled_mountainous_terrain_spec(c)));
    assert(graph_wf(scaled_hilly_terrain_spec(c)));
    assert(graph_wf(scaled_plains_terrain_spec(c)));
    assert(graph_wf(scaled_badlands_terrain_spec(c)));
    assert(graph_wf(continental_shelf_spec(c)));
    assert(graph_wf(base_continent_elev_spec(c)));
    assert(graph_wf(continents_with_plains_spec(c)));
    assert(graph_wf(continents_with_hills_spec(c)));
    assert(graph_wf(continents_with_mountains_spec(c)));
    assert(graph_wf(continents_with_badlands_spec(c)));
    assert(graph_wf(continents_with_rivers_spec(c)));
}

} // verus!
