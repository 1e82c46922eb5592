//! Generation parameters and their validity conditions.
use vstd::prelude::*;

verus! {

/// Fixed-point scale of configuration values: one world unit is `MICRO`.
pub const MICRO: i64 = 1_000_000;

/// Largest magnitude, in micro units, admitted for a shaping parameter.
/// Keeping parameters within a thousand world units lets every derived
/// constant of the noise graph fit comfortably in an `i64`.
pub const PARAM_LIMIT: i64 = 1_000 * 1_000_000;

/// Noise-shaping inputs of the heightfield synthesizer.  All values are
/// fixed-point with six decimal places (micro units), except `seed`.
#[derive(Clone, Copy, Debug, PartialEq, Eq, Structural)]
pub struct MapConfig {
    pub seed: u32,
    pub continent_frequency: i64,
    pub continent_lacunarity: i64,
    pub mountain_lacunarity: i64,
    pub hills_lacunarity: i64,
    pub plains_lacunarity: i64,
    pub badlands_lacunarity: i64,
    pub mountains_twist: i64,
    pub hills_twist: i64,
    pub badlands_twist: i64,
    pub sea_level: i64,
    pub shelf_level: i64,
    pub mountains_amount: i64,
    pub hills_amount: i64,
    pub badlands_amount: i64,
    pub terrain_offset: i64,
    pub mountain_glaciation: i64,
    pub continent_height_scale: i64,
    pub river_depth: i64,
}

impl MapConfig {
    /// Machine limits under which the noise graph is built without overflow.
    /// Frequencies, lacunarities, twists and the terrain offset are scale or
    /// power factors and are taken non-negative; signed level parameters are
    /// bounded in magnitude.  The seed leaves headroom for the per-layer
    /// seed offsets.
    pub open spec fn bounded(self) -> bool {
        &&& self.seed <= u32::MAX - 1000
        &&& 0 <= self.continent_frequency <= PARAM_LIMIT
        &&& 0 <= self.continent_lacunarity <= PARAM_LIMIT
        &&& 0 <= self.mountain_lacunarity <= PARAM_LIMIT
        &&& 0 <= self.hills_lacunarity <= PARAM_LIMIT
        &&& 0 <= self.plains_lacunarity <= PARAM_LIMIT
        &&& 0 <= self.badlands_lacunarity <= PARAM_LIMIT
        &&& 0 <= self.mountains_twist <= PARAM_LIMIT
        &&& 0 <= self.hills_twist <= PARAM_LIMIT
        &&& 0 <= self.badlands_twist <= PARAM_LIMIT
        &&& 0 <= self.terrain_offset <= PARAM_LIMIT
        &&& -PARAM_LIMIT <= self.sea_level <= PARAM_LIMIT
        &&& -PARAM_LIMIT <= self.shelf_level <= PARAM_LIMIT
        &&& -PARAM_LIMIT <= self.mountains_amount <= PARAM_LIMIT
        &&& -PARAM_LIMIT <= self.hills_amount <= PARAM_LIMIT
        &&& -PARAM_LIMIT <= self.badlands_amount <= PARAM_LIMIT
        &&& -PARAM_LIMIT <= self.mountain_glaciation <= PARAM_LIMIT
        &&& -PARAM_LIMIT <= self.continent_height_scale <= PARAM_LIMIT
        &&& -PARAM_LIMIT <= self.river_depth <= PARAM_LIMIT
    }

    /// Executable check for [`MapConfig::bounded`].
    pub fn is_bounded(&self) -> (r: bool)
        ensures
            r == self.bounded(),
    {
        self.seed <= u32::MAX - 1000
            && 0 <= self.continent_frequency && self.continent_frequency <= PARAM_LIMIT
            && 0 <= self.continent_lacunarity && self.continent_lacunarity <= PARAM_LIMIT
            && 0 <= self.mountain_lacunarity && self.mountain_lacunarity <= PARAM_LIMIT
            && 0 <= self.hills_lacunarity && self.hills_lacunarity <= PARAM_LIMIT
            && 0 <= self.plains_lacunarity && self.plains_lacunarity <= PARAM_LIMIT
            && 0 <= self.badlands_lacunarity && self.badlands_lacunarity <= PARAM_LIMIT
            && 0 <= self.mountains_twist && self.mountains_twist <= PARAM_LIMIT
            && 0 <= self.hills_twist && self.hills_twist <= PARAM_LIMIT
            && 0 <= self.badlands_twist && self.badlands_twist <= PARAM_LIMIT
            && 0 <= self.terrain_offset && self.terrain_offset <= PARAM_LIMIT
            && -PARAM_LIMIT <= self.sea_level && self.sea_level <= PARAM_LIMIT
            && -PARAM_LIMIT <= self.shelf_level && self.shelf_level <= PARAM_LIMIT
            && -PARAM_LIMIT <= self.mountains_amount && self.mountains_amount <= PARAM_LIMIT
            && -PARAM_LIMIT <= self.hills_amount && self.hills_amount <= PARAM_LIMIT
            && -PARAM_LIMIT <= self.badlands_amount && self.badlands_amount <= PARAM_LIMIT
            && -PARAM_LIMIT <= self.mountain_glaciation && self.mountain_glaciation <= PARAM_LIMIT
            && -PARAM_LIMIT <= self.continent_height_scale
            && self.continent_height_scale <= PARAM_LIMIT
            && -PARAM_LIMIT <= self.river_depth && self.river_depth <= PARAM_LIMIT
    }
}

/// Grid and scale parameters of the mesh builder.  `world_height` is
/// fixed-point with six decimal places (micro units).
#[derive(Clone, Copy, Debug, PartialEq, Eq, Structural)]
pub struct EngineConfig {
    pub world_size: usize,
    pub chunk_size: usize,
    pub world_height: i64,
}

/// Largest admitted world edge length, in samples.  Keeps every index
/// computation of the mesh builder inside a 32-bit `usize`.
pub const WORLD_SIZE_LIMIT: usize = 32_768;

/// Largest admitted magnitude of `world_height`, in micro units.
pub const WORLD_HEIGHT_LIMIT: i64 = 100 * 1_000_000;

impl EngineConfig {
    /// The fatal configuration invariant: tiles of `chunk_size` samples must
    /// partition a `world_size` grid evenly.
    pub open spec fn divides(self) -> bool {
        self.chunk_size != 0 && self.world_size as int % self.chunk_size as int == 0
    }

    /// Number of tiles per world edge.
    pub open spec fn chunk_ratio(self) -> int {
        self.world_size as int / self.chunk_size as int + 1
    }

    /// Machine limits under which every grid index of the mesh builder
    /// stays inside the elevation field and inside `usize`/`u32` range.
    /// Overlapping tiles step by `chunk_size - 1` samples along both axes,
    /// and the last tile of a row ends on the last field sample exactly
    /// when the squared chunk edge does not exceed the world edge, so that
    /// family of sizes is admitted.
    pub open spec fn feasible(self) -> bool {
        &&& 1 <= self.chunk_size
        &&& self.world_size <= WORLD_SIZE_LIMIT
        &&& -WORLD_HEIGHT_LIMIT <= self.world_height <= WORLD_HEIGHT_LIMIT
        &&& self.divides() ==> self.chunk_size * self.chunk_size <= self.world_size
    }

    /// Executable check for [`EngineConfig::feasible`].
    pub fn is_feasible(&self) -> (r: bool)
        ensures
            r == self.feasible(),
    {
        if !(1 <= self.chunk_size && self.world_size <= WORLD_SIZE_LIMIT
            && -WORLD_HEIGHT_LIMIT <= self.world_height
            && self.world_height <= WORLD_HEIGHT_LIMIT)
        {
            return false;
        }
        if self.world_size % self.chunk_size == 0 {
            proof {
                if self.chunk_size > self.world_size {
                    assert(self.chunk_size * self.chunk_size > self.world_size)
                        by (nonlinear_arith)
                        requires
                            1 <= self.chunk_size,
                            self.chunk_size > self.world_size,
                    ;
                }
            }
            if self.chunk_size <= self.world_size {
                proof {
                    assert(self.chunk_size * self.chunk_size <= 0x4000_0000)
                        by (nonlinear_arith)
                        requires
                            self.chunk_size <= WORLD_SIZE_LIMIT,
                    ;
                }
                self.chunk_size * self.chunk_size <= self.world_size
            } else {
                false
            }
        } else {
            true
        }
    }
}

/// A fatal precondition violation: generation is refused before any buffer
/// is produced.
#[derive(Clone, Copy, Debug, PartialEq, Eq, Structural)]
pub enum TerrainError {
    /// `chunk_size` does not evenly divide `world_size`.
    ChunkSizeNotDivisor { world_size: usize, chunk_size: usize },
}

/// Checks the fatal configuration invariant before any generation work.
pub fn validate_engine_config(engine_config: &EngineConfig) -> (r: Result<(), TerrainError>)
    ensures
        r is Ok <==> engine_config.divides(),
        r is Err ==> r == Err::<(), TerrainError>(TerrainError::ChunkSizeNotDivisor {
            world_size: engine_config.world_size,
            chunk_size: engine_config.chunk_size,
        }),
{
    if engine_config.chunk_size != 0 && engine_config.world_size % engine_config.chunk_size == 0 {
        Ok(())
    } else {
        Err(TerrainError::ChunkSizeNotDivisor {
            world_size: engine_config.world_size,
            chunk_size: engine_config.chunk_size,
        })
    }
}

} // verus!
