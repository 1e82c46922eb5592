//! Chunked mesh builder: per-tile render meshes with flat shading and
//! per-triangle coloring, plus parallel collision meshes, all sampled from
//! one shared elevation field.
use vstd::prelude::*;

use crate::config::{
    EngineConfig, TerrainError, validate_engine_config, WORLD_HEIGHT_LIMIT, WORLD_SIZE_LIMIT,
};
use crate::field::{ElevationField, ELEV_LIMIT};
use crate::geometry::{
    calculate_normal, collinear, cross_y, lemma_zero_normal_iff_collinear, tri_normal,
    COORD_SCALE, MeshVertex, TriNormal,
};
use crate::geometry::lemma_mul_bounds;
use vstd::arithmetic::div_mod::{
    lemma_div_is_ordered, lemma_div_multiples_vanish, lemma_div_pos_is_pos,
    lemma_fundamental_div_mod, lemma_fundamental_div_mod_converse, lemma_mod_pos_bound,
};

verus! {

/// The coarse biome color of a triangle, decided by the mean height of its
/// three vertices.
#[derive(Clone, Copy, Debug, PartialEq, Eq, Structural)]
pub enum ColorBand {
    /// Mean height below the lower threshold: sandy tan.
    Sand,
    /// Mean height between the thresholds: green.
    Grass,
    /// Mean height at or above the upper threshold: gray.
    Rock,
}

/// Sum of three vertex heights (pico units) below which a triangle is sand;
/// three times a mean height of `-0.3`.
pub const SAND_SUM_LIMIT: i64 = -900_000_000_000;

/// Sum of three vertex heights (pico units) below which a non-sand triangle
/// is grass; three times a mean height of `0.5`.
pub const GRASS_SUM_LIMIT: i64 = 1_500_000_000_000;

/// The color band of a triangle whose three vertex heights add up to `sum`.
/// A mean height of exactly `-0.3` is grass, and exactly `0.5` is rock.
pub open spec fn band_of(sum: int) -> ColorBand {
    if sum < SAND_SUM_LIMIT {
        ColorBand::Sand
    } else if sum < GRASS_SUM_LIMIT {
        ColorBand::Grass
    } else {
        ColorBand::Rock
    }
}

/// Executable form of [`band_of`].
pub fn color_band_of_sum(sum: i64) -> (c: ColorBand)
    ensures
        c == band_of(sum as int),
{
    if sum < SAND_SUM_LIMIT {
        ColorBand::Sand
    } else if sum < GRASS_SUM_LIMIT {
        ColorBand::Grass
    } else {
        ColorBand::Rock
    }
}

/// A vertex-index triple describing one triangle of a collision mesh.
#[derive(Clone, Copy, Debug, PartialEq, Eq, Structural)]
pub struct Triangle {
    pub a: u32,
    pub b: u32,
    pub c: u32,
}

/// A render mesh for one tile: parallel per-vertex buffers.  Vertices are
/// not shared between triangles, so `indices` is simply `0, 1, 2, ...`;
/// every vertex carries its own triangle's flat normal and uniform color.
#[derive(Debug, PartialEq, Eq)]
pub struct TileMesh {
    pub positions: Vec<MeshVertex>,
    pub normals: Vec<TriNormal>,
    pub colors: Vec<ColorBand>,
    pub indices: Vec<u32>,
}

/// A collision mesh for one tile: one shared vertex per grid sample and a
/// triangle list over them.
#[derive(Debug, PartialEq, Eq)]
pub struct ColliderMesh {
    pub vertices: Vec<MeshVertex>,
    pub triangles: Vec<Triangle>,
}

/// First field row or column covered by tile `t` along one axis: adjacent
/// tiles overlap by one sample row/column.
pub open spec fn tile_start(chunk_size: int, t: int) -> int {
    t * (chunk_size - 1)
}

/// The elevation sample feeding tile `(i, j)` at in-tile offset `(a, b)`:
/// `a` runs along the axis addressed by `i`, `b` along the axis addressed
/// by `j`.  Both the render mesh and the collision mesh of a tile read
/// their grid points through this mapping.
pub open spec fn sample(
    cfg: EngineConfig,
    f: ElevationField,
    i: int,
    j: int,
    a: int,
    b: int,
) -> int {
    f.elev(tile_start(cfg.chunk_size as int, j) + b, tile_start(cfg.chunk_size as int, i) + a)
}

/// The render-mesh vertex of tile `(i, j)` at grid offset `(a, b)`:
/// horizontal position is the in-tile offset, height is the elevation
/// sample scaled by the vertical scale (both fixed-point, so the product
/// is exact in pico units).
pub open spec fn position_at(
    cfg: EngineConfig,
    f: ElevationField,
    i: int,
    j: int,
    a: int,
    b: int,
) -> MeshVertex {
    MeshVertex {
        x: (a * COORD_SCALE) as i64,
        y: (sample(cfg, f, i, j, a, b) * cfg.world_height) as i64,
        z: (b * COORD_SCALE) as i64,
    }
}

/// Vertex-slot base of the quad at offset `(a, b)`: six fresh vertex slots
/// per quad, quads in row-major order (`b` outer, `a` inner).
pub open spec fn quad_base(chunk_size: int, a: int, b: int) -> int {
    6 * (b * (chunk_size - 1) + a)
}

/// Color of the first triangle (top-left, bottom-left, bottom-right) of the
/// quad at `(a, b)`.
pub open spec fn tri1_color(
    cfg: EngineConfig,
    f: ElevationField,
    i: int,
    j: int,
    a: int,
    b: int,
) -> ColorBand {
    band_of(
        position_at(cfg, f, i, j, a, b).y + position_at(cfg, f, i, j, a, b + 1).y + position_at(
            cfg,
            f,
            i,
            j,
            a + 1,
            b + 1,
        ).y,
    )
}

/// Color of the second triangle (top-left, bottom-right, top-right) of the
/// quad at `(a, b)`.
pub open spec fn tri2_color(
    cfg: EngineConfig,
    f: ElevationField,
    i: int,
    j: int,
    a: int,
    b: int,
) -> ColorBand {
    band_of(
        position_at(cfg, f, i, j, a, b).y + position_at(cfg, f, i, j, a + 1, b + 1).y + position_at(
            cfg,
            f,
            i,
            j,
            a + 1,
            b,
        ).y,
    )
}

/// Every buffer entry of the quad at `(a, b)` has its specified value:
/// six fresh vertices forming two triangles, each triangle's color repeated
/// for its three vertices, and each triangle's flat normal likewise.
pub open spec fn quad_seqs_ok(
    pos: Seq<MeshVertex>,
    nor: Seq<TriNormal>,
    col: Seq<ColorBand>,
    cfg: EngineConfig,
    f: ElevationField,
    i: int,
    j: int,
    a: int,
    b: int,
) -> bool {
    let k0 = quad_base(cfg.chunk_size as int, a, b);
    let p00 = position_at(cfg, f, i, j, a, b);
    let p01 = position_at(cfg, f, i, j, a, b + 1);
    let p11 = position_at(cfg, f, i, j, a + 1, b + 1);
    let p10 = position_at(cfg, f, i, j, a + 1, b);
    &&& pos[k0] == p00
    &&& pos[k0 + 1] == p01
    &&& pos[k0 + 2] == p11
    &&& pos[k0 + 3] == p00
    &&& pos[k0 + 4] == p11
    &&& pos[k0 + 5] == p10
    &&& col[k0] == tri1_color(cfg, f, i, j, a, b)
    &&& col[k0 + 1] == tri1_color(cfg, f, i, j, a, b)
    &&& col[k0 + 2] == tri1_color(cfg, f, i, j, a, b)
    &&& col[k0 + 3] == tri2_color(cfg, f, i, j, a, b)
    &&& col[k0 + 4] == tri2_color(cfg, f, i, j, a, b)
    &&& col[k0 + 5] == tri2_color(cfg, f, i, j, a, b)
    &&& nor[k0] == tri_normal(p00, p01, p11)
    &&& nor[k0 + 1] == tri_normal(p00, p01, p11)
    &&& nor[k0 + 2] == tri_normal(p00, p01, p11)
    &&& nor[k0 + 3] == tri_normal(p00, p11, p10)
    &&& nor[k0 + 4] == tri_normal(p00, p11, p10)
    &&& nor[k0 + 5] == tri_normal(p00, p11, p10)
}

/// [`quad_seqs_ok`] over the buffers of a built tile mesh.
pub open spec fn tile_quad_ok(
    m: TileMesh,
    cfg: EngineConfig,
    f: ElevationField,
    i: int,
    j: int,
    a: int,
    b: int,
) -> bool {
    quad_seqs_ok(m.positions@, m.normals@, m.colors@, cfg, f, i, j, a, b)
}

/// The complete specification of the render mesh of tile `(i, j)`: buffer
/// lengths, the trivial index list, and every quad's vertices, colors and
/// normals.
pub open spec fn tile_mesh_ok(
    m: TileMesh,
    cfg: EngineConfig,
    f: ElevationField,
    i: int,
    j: int,
) -> bool {
    let cs = cfg.chunk_size as int;
    &&& m.positions@.len() == 6 * (cs - 1) * (cs - 1)
    &&& m.normals@.len() == 6 * (cs - 1) * (cs - 1)
    &&& m.colors@.len() == 6 * (cs - 1) * (cs - 1)
    &&& m.indices@.len() == 6 * (cs - 1) * (cs - 1)
    &&& forall|k: int| 0 <= k < m.indices@.len() ==> #[trigger] m.indices@[k] == k as u32
    &&& forall|a: int, b: int|
        0 <= a < cs - 1 && 0 <= b < cs - 1 ==> #[trigger] tile_quad_ok(m, cfg, f, i, j, a, b)
}

/// The collider vertex of tile `(i, j)` at in-tile sample `(x, z)`: one
/// shared vertex per grid point of the same overlap-aligned sub-grid the
/// render mesh of the tile covers, read through [`sample`], at the tile's
/// own origin.
pub open spec fn collider_vertex(
    cfg: EngineConfig,
    f: ElevationField,
    i: int,
    j: int,
    x: int,
    z: int,
) -> MeshVertex {
    MeshVertex {
        x: (x * COORD_SCALE) as i64,
        y: (sample(cfg, f, i, j, x, z) * cfg.world_height) as i64,
        z: (z * COORD_SCALE) as i64,
    }
}

/// First triangle (top-left, bottom-left, top-right) of the collider quad
/// at `(y, x)`.
pub open spec fn collider_tri1(chunk_size: int, y: int, x: int) -> Triangle {
    Triangle {
        a: (y * chunk_size + x) as u32,
        b: ((y + 1) * chunk_size + x) as u32,
        c: (y * chunk_size + x + 1) as u32,
    }
}

/// Second triangle (top-right, bottom-left, bottom-right) of the collider
/// quad at `(y, x)`.
pub open spec fn collider_tri2(chunk_size: int, y: int, x: int) -> Triangle {
    Triangle {
        a: (y * chunk_size + x + 1) as u32,
        b: ((y + 1) * chunk_size + x) as u32,
        c: ((y + 1) * chunk_size + x + 1) as u32,
    }
}

/// The complete specification of the collision mesh of tile `(i, j)`:
/// one shared vertex per sub-grid sample and two triangles per quad with
/// fixed winding.
pub open spec fn collider_ok(
    c: ColliderMesh,
    cfg: EngineConfig,
    f: ElevationField,
    i: int,
    j: int,
) -> bool {
    let cs = cfg.chunk_size as int;
    &&& c.vertices@.len() == cs * cs
    &&& forall|z: int, x: int|
        0 <= z < cs && 0 <= x < cs ==> c.vertices@[z * cs + x] == #[trigger] collider_vertex(
            cfg,
            f,
            i,
            j,
            x,
            z,
        )
    &&& c.triangles@.len() == 2 * (cs - 1) * (cs - 1)
    &&& forall|y: int, x: int|
        0 <= y < cs - 1 && 0 <= x < cs - 1 ==> c.triangles@[2 * (y * (cs - 1) + x)]
            == #[trigger] collider_tri1(cs, y, x)
    &&& forall|y: int, x: int|
        0 <= y < cs - 1 && 0 <= x < cs - 1 ==> c.triangles@[2 * (y * (cs - 1) + x) + 1]
            == #[trigger] collider_tri2(cs, y, x)
}

/// Bounds that the feasibility limits give an evenly dividing
/// configuration: the chunk edge is small, it does not exceed the number
/// of chunks per world edge (so every overlapping tile walk ends inside
/// the field), and the tile count per edge is bounded by the world edge.
pub proof fn lemma_feasible_bounds(cfg: EngineConfig)
    requires
        cfg.feasible(),
        cfg.divides(),
    ensures
        cfg.chunk_size <= 181,
        cfg.chunk_size <= cfg.world_size as int / cfg.chunk_size as int,
        (cfg.world_size as int / cfg.chunk_size as int) * cfg.chunk_size == cfg.world_size,
        cfg.chunk_ratio() <= cfg.world_size + 1,
{
    let ws = cfg.world_size as int;
    let cs = cfg.chunk_size as int;
    let q = ws / cs;
    assert(cs <= 181) by (nonlinear_arith)
        requires
            cs * cs <= 32768,
            1 <= cs,
    ;
    lemma_fundamental_div_mod(ws, cs);
    lemma_div_multiples_vanish(cs, cs);
    lemma_div_is_ordered(cs * cs, ws, cs);
    assert((cs * cs) / cs == cs);
    lemma_div_pos_is_pos(ws, cs);
    assert(q <= ws) by (nonlinear_arith)
        requires
            ws == cs * q,
            1 <= cs,
            0 <= q,
    ;
}

/// Row-major grid indices are in range.
pub proof fn lemma_grid_index(rows: int, cols: int, r: int, c: int)
    requires
        0 <= r < rows,
        0 <= c < cols,
    ensures
        0 <= r * cols + c < rows * cols,
{
    assert(0 <= r * cols + c < rows * cols) by (nonlinear_arith)
        requires
            0 <= r < rows,
            0 <= c < cols,
    ;
}

/// Row-major grid indices are ordered lexicographically.
pub proof fn lemma_grid_order(cols: int, r1: int, c1: int, r2: int, c2: int)
    requires
        0 <= c1 < cols,
        0 <= c2 < cols,
        0 <= r1,
        0 <= r2,
    ensures
        r1 < r2 ==> r1 * cols + c1 < r2 * cols + c2,
{
    assert(r1 < r2 ==> r1 * cols + c1 < r2 * cols + c2) by (nonlinear_arith)
        requires
            0 <= c1 < cols,
            0 <= c2 < cols,
            0 <= r1,
            0 <= r2,
    ;
}

/// Builds the triangle list of one tile's collision mesh: two triangles per
/// sub-grid quad, over `chunk_size * chunk_size` shared vertices.
#[verifier::loop_isolation(false)]
pub fn compute_collider_indices(engine_config: &EngineConfig) -> (r: Vec<Triangle>)
    requires
        1 <= engine_config.chunk_size,
        engine_config.chunk_size <= WORLD_SIZE_LIMIT,
    ensures
        r@.len() == 2 * (engine_config.chunk_size - 1) * (engine_config.chunk_size - 1),
        forall|y: int, x: int|
            0 <= y < engine_config.chunk_size - 1 && 0 <= x < engine_config.chunk_size - 1
                ==> r@[2 * (y * (engine_config.chunk_size - 1) + x)] == #[trigger] collider_tri1(
                engine_config.chunk_size as int,
                y,
                x,
            ),
        forall|y: int, x: int|
            0 <= y < engine_config.chunk_size - 1 && 0 <= x < engine_config.chunk_size - 1
                ==> r@[2 * (y * (engine_config.chunk_size - 1) + x) + 1] == #[trigger] collider_tri2(
                engine_config.chunk_size as int,
                y,
                x,
            ),
{
    let cs = engine_config.chunk_size;
    let mut indices: Vec<Triangle> = Vec::new();
    let mut y: usize = 0;
    while y < cs - 1
        invariant
            y <= cs - 1,
            indices@.len() == 2 * (y * (cs - 1)),
            forall|yy: int, xx: int|
                0 <= yy < y && 0 <= xx < cs - 1 ==> indices@[2 * (yy * (cs - 1) + xx)]
                    == #[trigger] collider_tri1(cs as int, yy, xx),
            forall|yy: int, xx: int|
                0 <= yy < y && 0 <= xx < cs - 1 ==> indices@[2 * (yy * (cs - 1) + xx) + 1]
                    == #[trigger] collider_tri2(cs as int, yy, xx),
        decreases cs - 1 - y,
    {
        let mut x: usize = 0;
        while x < cs - 1
            invariant
                x <= cs - 1,
                y < cs - 1,
                indices@.len() == 2 * (y * (cs - 1) + x),
                forall|yy: int, xx: int|
                    0 <= yy < y && 0 <= xx < cs - 1 ==> indices@[2 * (yy * (cs - 1) + xx)]
                        == #[trigger] collider_tri1(cs as int, yy, xx),
                forall|yy: int, xx: int|
                    0 <= yy < y && 0 <= xx < cs - 1 ==> indices@[2 * (yy * (cs - 1) + xx) + 1]
                        == #[trigger] collider_tri2(cs as int, yy, xx),
                forall|xx: int|
                    0 <= xx < x ==> indices@[2 * (y * (cs - 1) + xx)] == #[trigger] collider_tri1(
                        cs as int,
                        y as int,
                        xx,
                    ),
                forall|xx: int|
                    0 <= xx < x ==> indices@[2 * (y * (cs - 1) + xx) + 1]
                        == #[trigger] collider_tri2(cs as int, y as int, xx),
            decreases cs - 1 - x,
        {
            proof {
                lemma_grid_index((cs - 1) as int, (cs - 1) as int, y as int, x as int);
                assert(y * cs + x + 1 <= cs * cs && (y + 1) * cs + x + 1 <= cs * cs)
                    by (nonlinear_arith)
                    requires
                        0 <= y < cs - 1,
                        0 <= x < cs - 1,
                ;
                assert(cs * cs <= 0x4000_0000) by (nonlinear_arith)
                    requires
                        cs <= 32768,
                ;
            }
            let top_left = y * cs + x;
            let top_right = y * cs + x + 1;
            let bottom_left = (y + 1) * cs + x;
            let bottom_right = (y + 1) * cs + x + 1;
            indices.push(
                Triangle { a: top_left as u32, b: bottom_left as u32, c: top_right as u32 },
            );
            indices.push(
                Triangle { a: top_right as u32, b: bottom_left as u32, c: bottom_right as u32 },
            );
            proof {
                assert forall|yy: int, xx: int|
                    0 <= yy < y && 0 <= xx < cs - 1 implies indices@[2 * (yy * (cs - 1) + xx)]
                    == #[trigger] collider_tri1(cs as int, yy, xx) by {
                    lemma_grid_order((cs - 1) as int, yy, xx, y as int, x as int);
                }
                assert forall|yy: int, xx: int|
                    0 <= yy < y && 0 <= xx < cs - 1 implies indices@[2 * (yy * (cs - 1) + xx) + 1]
                    == #[trigger] collider_tri2(cs as int, yy, xx) by {
                    lemma_grid_order((cs - 1) as int, yy, xx, y as int, x as int);
                }
            }
            x = x + 1;
        }
        y = y + 1;
        proof {
            assert(y * (cs - 1) == (y - 1) * (cs - 1) + (cs - 1)) by (nonlinear_arith);
        }
    }
    proof {
        assert(2 * (((cs - 1) as int) * ((cs - 1) as int)) == 2 * ((cs - 1) as int) * ((cs
            - 1) as int)) by (nonlinear_arith);
    }
    indices
}

/// Builds the vertex list of one tile's collision mesh: one shared vertex
/// per sample of the tile's `chunk_size x chunk_size` sub-grid, read
/// directly out of the full field with the overlap-aware stride — the
/// same region the tile's render mesh covers.
#[verifier::loop_isolation(false)]
pub fn compute_collider_vertices(
    engine_config: &EngineConfig,
    field: &ElevationField,
    i: usize,
    j: usize,
) -> (r: Vec<MeshVertex>)
    requires
        engine_config.feasible(),
        engine_config.divides(),
        field.wf(),
        field.side() == engine_config.world_size,
        i < engine_config.chunk_ratio(),
        j < engine_config.chunk_ratio(),
    ensures
        r@.len() == engine_config.chunk_size * engine_config.chunk_size,
        forall|z: int, x: int|
            0 <= z < engine_config.chunk_size && 0 <= x < engine_config.chunk_size ==> r@[z
                * engine_config.chunk_size + x] == #[trigger] collider_vertex(
                *engine_config,
                *field,
                i as int,
                j as int,
                x,
                z,
            ),
{
    proof {
        lemma_feasible_bounds(*engine_config);
    }
    let cs = engine_config.chunk_size;
    let ghost q = engine_config.world_size as int / engine_config.chunk_size as int;
    let mut vertices: Vec<MeshVertex> = Vec::new();
    let mut z: usize = 0;
    while z < cs
        invariant
            z <= cs,
            vertices@.len() == z * cs,
            forall|zz: int, xx: int|
                0 <= zz < z && 0 <= xx < cs ==> vertices@[zz * cs + xx]
                    == #[trigger] collider_vertex(
                    *engine_config,
                    *field,
                    i as int,
                    j as int,
                    xx,
                    zz,
                ),
        decreases cs - z,
    {
        let mut x: usize = 0;
        while x < cs
            invariant
                x <= cs,
                z < cs,
                vertices@.len() == z * cs + x,
                forall|zz: int, xx: int|
                    0 <= zz < z && 0 <= xx < cs ==> vertices@[zz * cs + xx]
                        == #[trigger] collider_vertex(
                        *engine_config,
                        *field,
                        i as int,
                        j as int,
                        xx,
                        zz,
                    ),
                forall|xx: int|
                    0 <= xx < x ==> vertices@[z * cs + xx] == #[trigger] collider_vertex(
                        *engine_config,
                        *field,
                        i as int,
                        j as int,
                        xx,
                        z as int,
                    ),
            decreases cs - x,
        {
            proof {
                lemma_grid_index(cs as int, cs as int, z as int, x as int);
                assert(j * (cs - 1) + z < engine_config.world_size && i * (cs - 1) + x
                    < engine_config.world_size) by (nonlinear_arith)
                    requires
                        i <= q,
                        j <= q,
                        z < cs,
                        x < cs,
                        cs <= q,
                        q * cs == engine_config.world_size,
                        1 <= cs,
                ;
            }
            let row = j * (cs - 1) + z;
            let col = i * (cs - 1) + x;
            let e = field.at(row, col);
            proof {
                lemma_mul_bounds(
                    e as int,
                    engine_config.world_height as int,
                    ELEV_LIMIT as int,
                    WORLD_HEIGHT_LIMIT as int,
                );
            }
            let height = e * engine_config.world_height;
            vertices.push(
                MeshVertex { x: (x as i64) * COORD_SCALE, y: height, z: (z as i64) * COORD_SCALE },
            );
            proof {
                assert forall|zz: int, xx: int|
                    0 <= zz < z && 0 <= xx < cs implies vertices@[zz * cs + xx]
                    == #[trigger] collider_vertex(
                    *engine_config,
                    *field,
                    i as int,
                    j as int,
                    xx,
                    zz,
                ) by {
                    lemma_grid_order(cs as int, zz, xx, z as int, x as int);
                }
            }
            x = x + 1;
        }
        z = z + 1;
        proof {
            assert(z * cs == (z - 1) * cs + cs) by (nonlinear_arith);
        }
    }
    vertices
}

/// Builds the render mesh of tile `(i, j)`: two flat-shaded triangles per
/// interior quad, with six fresh vertex slots each, a uniform per-triangle
/// color band, and the exact cross-product normal repeated on all three
/// vertices of a triangle.
#[verifier::loop_isolation(false)]
#[verifier::rlimit(60)]
pub fn build_tile_mesh(
    engine_config: &EngineConfig,
    field: &ElevationField,
    i: usize,
    j: usize,
) -> (m: TileMesh)
    requires
        engine_config.feasible(),
        engine_config.divides(),
        field.wf(),
        field.side() == engine_config.world_size,
        i < engine_config.chunk_ratio(),
        j < engine_config.chunk_ratio(),
    ensures
        tile_mesh_ok(m, *engine_config, *field, i as int, j as int),
{
    proof {
        lemma_feasible_bounds(*engine_config);
    }
    let cs = engine_config.chunk_size;
    let ghost q = engine_config.world_size as int / engine_config.chunk_size as int;
    proof {
        assert(i * (cs - 1) <= engine_config.world_size && j * (cs - 1)
            <= engine_config.world_size) by (nonlinear_arith)
            requires
                i <= q,
                j <= q,
                q * cs == engine_config.world_size,
                1 <= cs,
                0 <= q,
        ;
    }
    let x_start = i * (cs - 1);
    let z_start = j * (cs - 1);
    let mut positions: Vec<MeshVertex> = Vec::new();
    let mut normals: Vec<TriNormal> = Vec::new();
    let mut colors: Vec<ColorBand> = Vec::new();
    let mut indices: Vec<u32> = Vec::new();
    let mut b: usize = 0;
    while b < cs - 1
        invariant
            b <= cs - 1,
            positions@.len() == 6 * (b * (cs - 1)),
            normals@.len() == positions@.len(),
            colors@.len() == positions@.len(),
            indices@.len() == positions@.len(),
            forall|k: int| 0 <= k < indices@.len() ==> #[trigger] indices@[k] == k as u32,
            forall|aa: int, bb: int|
                0 <= aa < cs - 1 && 0 <= bb < b ==> #[trigger] quad_seqs_ok(
                    positions@,
                    normals@,
                    colors@,
                    *engine_config,
                    *field,
                    i as int,
                    j as int,
                    aa,
                    bb,
                ),
        decreases cs - 1 - b,
    {
        let mut a: usize = 0;
        while a < cs - 1
            invariant
                a <= cs - 1,
                b < cs - 1,
                positions@.len() == 6 * (b * (cs - 1) + a),
                normals@.len() == positions@.len(),
                colors@.len() == positions@.len(),
                indices@.len() == positions@.len(),
                forall|k: int| 0 <= k < indices@.len() ==> #[trigger] indices@[k] == k as u32,
                forall|aa: int, bb: int|
                    0 <= aa < cs - 1 && 0 <= bb < b ==> #[trigger] quad_seqs_ok(
                        positions@,
                        normals@,
                        colors@,
                        *engine_config,
                        *field,
                        i as int,
                        j as int,
                        aa,
                        bb,
                    ),
                forall|aa: int|
                    0 <= aa < a ==> #[trigger] quad_seqs_ok(
                        positions@,
                        normals@,
                        colors@,
                        *engine_config,
                        *field,
                        i as int,
                        j as int,
                        aa,
                        b as int,
                    ),
            decreases cs - 1 - a,
        {
            proof {
                lemma_grid_index((cs - 1) as int, (cs - 1) as int, b as int, a as int);
                assert(j * (cs - 1) + b + 1 <= engine_config.world_size - 1 && i * (cs - 1) + a
                    + 1 <= engine_config.world_size - 1) by (nonlinear_arith)
                    requires
                        i <= q,
                        j <= q,
                        0 <= a < cs - 1,
                        0 <= b < cs - 1,
                        cs <= q,
                        q * cs == engine_config.world_size,
                        1 <= cs,
                ;
            }
            let row0 = z_start + b;
            let row1 = z_start + b + 1;
            let col0 = x_start + a;
            let col1 = x_start + a + 1;
            let e00 = field.at(row0, col0);
            let e01 = field.at(row1, col0);
            let e11 = field.at(row1, col1);
            let e10 = field.at(row0, col1);
            proof {
                lemma_mul_bounds(
                    e00 as int,
                    engine_config.world_height as int,
                    ELEV_LIMIT as int,
                    WORLD_HEIGHT_LIMIT as int,
                );
                lemma_mul_bounds(
                    e01 as int,
                    engine_config.world_height as int,
                    ELEV_LIMIT as int,
                    WORLD_HEIGHT_LIMIT as int,
                );
                lemma_mul_bounds(
                    e11 as int,
                    engine_config.world_height as int,
                    ELEV_LIMIT as int,
                    WORLD_HEIGHT_LIMIT as int,
                );
                lemma_mul_bounds(
                    e10 as int,
                    engine_config.world_height as int,
                    ELEV_LIMIT as int,
                    WORLD_HEIGHT_LIMIT as int,
                );
            }
            let y00 = e00 * engine_config.world_height;
            let y01 = e01 * engine_config.world_height;
            let y11 = e11 * engine_config.world_height;
            let y10 = e10 * engine_config.world_height;
            let p00 = MeshVertex {
                x: (a as i64) * COORD_SCALE,
                y: y00,
                z: (b as i64) * COORD_SCALE,
            };
            let p01 = MeshVertex {
                x: (a as i64) * COORD_SCALE,
                y: y01,
                z: ((b + 1) as i64) * COORD_SCALE,
            };
            let p11 = MeshVertex {
                x: ((a + 1) as i64) * COORD_SCALE,
                y: y11,
                z: ((b + 1) as i64) * COORD_SCALE,
            };
            let p10 = MeshVertex {
                x: ((a + 1) as i64) * COORD_SCALE,
                y: y10,
                z: (b as i64) * COORD_SCALE,
            };
            let n1 = calculate_normal(&p00, &p01, &p11);
            let n2 = calculate_normal(&p00, &p11, &p10);
            let c1 = color_band_of_sum(y00 + y01 + y11);
            let c2 = color_band_of_sum(y00 + y11 + y10);
            proof {
                assert((cs - 1) * (cs - 1) < cs * cs) by (nonlinear_arith)
                    requires
                        1 <= cs,
                ;
            }
            let ghost prev_pos = positions@;
            let ghost prev_nor = normals@;
            let ghost prev_col = colors@;
            let base = positions.len();
            indices.push(base as u32);
            indices.push((base + 1) as u32);
            indices.push((base + 2) as u32);
            indices.push((base + 3) as u32);
            indices.push((base + 4) as u32);
            indices.push((base + 5) as u32);
            positions.push(p00);
            positions.push(p01);
            positions.push(p11);
            positions.push(p00);
            positions.push(p11);
            positions.push(p10);
            colors.push(c1);
            colors.push(c1);
            colors.push(c1);
            colors.push(c2);
            colors.push(c2);
            colors.push(c2);
            normals.push(n1);
            normals.push(n1);
            normals.push(n1);
            normals.push(n2);
            normals.push(n2);
            normals.push(n2);
            proof {
                assert(quad_seqs_ok(
                    positions@,
                    normals@,
                    colors@,
                    *engine_config,
                    *field,
                    i as int,
                    j as int,
                    a as int,
                    b as int,
                ));
                assert forall|aa: int, bb: int|
                    0 <= aa < cs - 1 && 0 <= bb < b implies #[trigger] quad_seqs_ok(
                    positions@,
                    normals@,
                    colors@,
                    *engine_config,
                    *field,
                    i as int,
                    j as int,
                    aa,
                    bb,
                ) by {
                    assert(quad_seqs_ok(
                        prev_pos,
                        prev_nor,
                        prev_col,
                        *engine_config,
                        *field,
                        i as int,
                        j as int,
                        aa,
                        bb,
                    ));
                    lemma_grid_order((cs - 1) as int, bb, aa, b as int, a as int);
                }
                assert forall|aa: int| 0 <= aa < a implies #[trigger] quad_seqs_ok(
                    positions@,
                    normals@,
                    colors@,
                    *engine_config,
                    *field,
                    i as int,
                    j as int,
                    aa,
                    b as int,
                ) by {
                    assert(quad_seqs_ok(
                        prev_pos,
                        prev_nor,
                        prev_col,
                        *engine_config,
                        *field,
                        i as int,
                        j as int,
                        aa,
                        b as int,
                    ));
                    lemma_grid_order((cs - 1) as int, b as int, aa, b as int, a as int);
                }
            }
            a = a + 1;
        }
        b = b + 1;
        proof {
            assert(b * (cs - 1) == (b - 1) * (cs - 1) + (cs - 1)) by (nonlinear_arith);
        }
    }
    proof {
        assert(6 * (((cs - 1) as int) * ((cs - 1) as int)) == 6 * ((cs - 1) as int) * ((cs
            - 1) as int)) by (nonlinear_arith);
    }
    TileMesh { positions, normals, colors, indices }
}

/// Builds the complete chunked output: `chunk_ratio()^2` render meshes and
/// as many parallel collision meshes, tile `(i, j)` at flattened index
/// `i * chunk_ratio() + j`.  A chunk size that does not evenly divide the
/// world size is refused before any buffer is produced.  Each tile is a
/// pure function of the shared read-only field, so the tiles could be
/// built in any order or concurrently with identical results; they are
/// built row-major here.
#[verifier::loop_isolation(false)]
pub fn generate_low_poly_terrain(
    engine_config: EngineConfig,
    field: &ElevationField,
) -> (r: Result<(Vec<TileMesh>, Vec<ColliderMesh>), TerrainError>)
    requires
        engine_config.feasible(),
        field.wf(),
        field.side() == engine_config.world_size,
    ensures
        r is Ok <==> engine_config.divides(),
        r is Err ==> r == Err::<(Vec<TileMesh>, Vec<ColliderMesh>), TerrainError>(
            TerrainError::ChunkSizeNotDivisor {
                world_size: engine_config.world_size,
                chunk_size: engine_config.chunk_size,
            },
        ),
        r matches Ok(out) ==> out.0@.len() == engine_config.chunk_ratio()
            * engine_config.chunk_ratio() && out.1@.len() == engine_config.chunk_ratio()
            * engine_config.chunk_ratio(),
        r matches Ok(out) ==> forall|t: int|
            0 <= t < engine_config.chunk_ratio() * engine_config.chunk_ratio() ==> tile_mesh_ok(
                #[trigger] out.0@[t],
                engine_config,
                *field,
                t / engine_config.chunk_ratio(),
                t % engine_config.chunk_ratio(),
            ),
        r matches Ok(out) ==> forall|t: int|
            0 <= t < engine_config.chunk_ratio() * engine_config.chunk_ratio() ==> collider_ok(
                #[trigger] out.1@[t],
                engine_config,
                *field,
                t / engine_config.chunk_ratio(),
                t % engine_config.chunk_ratio(),
            ),
{
    match validate_engine_config(&engine_config) {
        Err(e) => {
            return Err(e);
        },
        Ok(_u) => {},
    }
    proof {
        lemma_feasible_bounds(engine_config);
    }
    let ratio = engine_config.world_size / engine_config.chunk_size + 1;
    let mut meshes: Vec<TileMesh> = Vec::new();
    let mut colliders: Vec<ColliderMesh> = Vec::new();
    let mut i: usize = 0;
    while i < ratio
        invariant
            i <= ratio,
            meshes@.len() == i * ratio,
            colliders@.len() == i * ratio,
            forall|t: int|
                0 <= t < meshes@.len() ==> tile_mesh_ok(
                    #[trigger] meshes@[t],
                    engine_config,
                    *field,
                    t / (ratio as int),
                    t % (ratio as int),
                ),
            forall|t: int|
                0 <= t < colliders@.len() ==> collider_ok(
                    #[trigger] colliders@[t],
                    engine_config,
                    *field,
                    t / (ratio as int),
                    t % (ratio as int),
                ),
        decreases ratio - i,
    {
        let mut j: usize = 0;
        while j < ratio
            invariant
                j <= ratio,
                i < ratio,
                meshes@.len() == i * ratio + j,
                colliders@.len() == i * ratio + j,
                forall|t: int|
                    0 <= t < meshes@.len() ==> tile_mesh_ok(
                        #[trigger] meshes@[t],
                        engine_config,
                        *field,
                        t / (ratio as int),
                        t % (ratio as int),
                    ),
                forall|t: int|
                    0 <= t < colliders@.len() ==> collider_ok(
                        #[trigger] colliders@[t],
                        engine_config,
                        *field,
                        t / (ratio as int),
                        t % (ratio as int),
                    ),
            decreases ratio - j,
        {
            proof {
                lemma_grid_index(ratio as int, ratio as int, i as int, j as int);
            }
            let collider_triangles = compute_collider_indices(&engine_config);
            let collider_vertices = compute_collider_vertices(&engine_config, field, i, j);
            let mesh = build_tile_mesh(&engine_config, field, i, j);
            meshes.push(mesh);
            colliders.push(ColliderMesh { vertices: collider_vertices, triangles: collider_triangles });
            proof {
                lemma_fundamental_div_mod_converse(
                    (i * ratio + j) as int,
                    ratio as int,
                    i as int,
                    j as int,
                );
            }
            j = j + 1;
        }
        i = i + 1;
        proof {
            assert(i * ratio == (i - 1) * ratio + ratio) by (nonlinear_arith);
        }
    }
    proof {
        assert((ratio as int) * (ratio as int) == engine_config.chunk_ratio()
            * engine_config.chunk_ratio());
    }
    Ok((meshes, colliders))
}

/// Adjacent tiles read their shared edge out of the same overlap row or
/// column of the elevation field, so the edge samples agree exactly and
/// the placed tiles meet without a seam.  `k` runs along the shared edge;
/// render meshes and colliders alike sample through [`sample`], so the
/// statement covers both.
pub proof fn lemma_adjacent_tiles_share_edge(
    cfg: EngineConfig,
    f: ElevationField,
    i: int,
    j: int,
    k: int,
)
    requires
        1 <= cfg.chunk_size,
        0 <= i,
        0 <= j,
        0 <= k < cfg.chunk_size,
    ensures
        sample(cfg, f, i, j, cfg.chunk_size - 1, k) == sample(cfg, f, i + 1, j, 0, k),
        sample(cfg, f, i, j, k, cfg.chunk_size - 1) == sample(cfg, f, i, j + 1, k, 0),
{
    let cs = cfg.chunk_size as int;
    assert((i + 1) * (cs - 1) == i * (cs - 1) + (cs - 1)) by (nonlinear_arith);
    assert((j + 1) * (cs - 1) == j * (cs - 1) + (cs - 1)) by (nonlinear_arith);
}

/// The boundary behavior of the color bands: a triangle whose mean vertex
/// height is exactly the sand threshold is grass, and one exactly at the
/// grass threshold is rock.
pub proof fn lemma_band_boundaries()
    ensures
        band_of(SAND_SUM_LIMIT as int) == ColorBand::Grass,
        band_of(SAND_SUM_LIMIT - 1) == ColorBand::Sand,
        band_of(GRASS_SUM_LIMIT as int) == ColorBand::Rock,
        band_of(GRASS_SUM_LIMIT - 1) == ColorBand::Grass,
{
}

/// Decomposes a non-negative flat index into quotient and remainder by a
/// positive width.
pub proof fn lemma_flat_index_decompose(w: int, t: int)
    requires
        0 < w,
        0 <= t,
    ensures
        t == (t / w) * w + (t % w),
        t == w * (t / w) + (t % w),
        0 <= t % w < w,
        0 <= t / w,
{
    lemma_fundamental_div_mod(t, w);
    lemma_mod_pos_bound(t, w);
    lemma_div_pos_is_pos(t, w);
    assert((t / w) * w == w * (t / w)) by (nonlinear_arith);
}

/// A flat index below `h * w` has its quotient below `h`.
pub proof fn lemma_flat_index_row(h: int, w: int, t: int)
    requires
        0 < w,
        0 <= t,
        t < h * w,
    ensures
        t / w < h,
{
    lemma_flat_index_decompose(w, t);
    assert(t / w < h) by (nonlinear_arith)
        requires
            t == (t / w) * w + (t % w),
            0 <= t % w < w,
            t < h * w,
            0 <= t / w,
            0 < w,
    ;
}

/// Every triangle of a built tile mesh carries one uniform color on its
/// three vertices, and that color is the band of the sum of its own three
/// vertex heights.  `t` is the triangle index; vertices are unshared, so
/// triangle `t` owns vertex slots `3t .. 3t + 3`.
pub proof fn lemma_triangle_colors_uniform(
    m: TileMesh,
    cfg: EngineConfig,
    f: ElevationField,
    i: int,
    j: int,
    t: int,
)
    requires
        1 <= cfg.chunk_size,
        tile_mesh_ok(m, cfg, f, i, j),
        0 <= t < 2 * ((cfg.chunk_size - 1) * (cfg.chunk_size - 1)),
    ensures
        m.colors@[3 * t] == m.colors@[3 * t + 1],
        m.colors@[3 * t + 1] == m.colors@[3 * t + 2],
        m.colors@[3 * t] == band_of(
            m.positions@[3 * t].y + m.positions@[3 * t + 1].y + m.positions@[3 * t + 2].y,
        ),
{
    let cs = cfg.chunk_size as int;
    if cs == 1 {
        assert(2 * ((cs - 1) * (cs - 1)) == 0);
    }
    assert(((cs - 1) * (cs - 1)) * 2 == 2 * ((cs - 1) * (cs - 1))) by (nonlinear_arith);
    lemma_flat_index_decompose(2, t);
    lemma_flat_index_row((cs - 1) * (cs - 1), 2, t);
    let q = t / 2;
    let s = t % 2;
    lemma_flat_index_decompose(cs - 1, q);
    lemma_flat_index_row(cs - 1, cs - 1, q);
    let b = q / (cs - 1);
    let a = q % (cs - 1);
    assert(tile_quad_ok(m, cfg, f, i, j, a, b));
    assert(3 * t == quad_base(cs, a, b) + 3 * s);
}

/// The tile-mesh specification pins every buffer entry, so any two meshes
/// built for the same tile of the same field agree on all four buffers:
/// generation is deterministic.
pub proof fn lemma_tile_mesh_unique(
    m1: TileMesh,
    m2: TileMesh,
    cfg: EngineConfig,
    f: ElevationField,
    i: int,
    j: int,
)
    requires
        1 <= cfg.chunk_size,
        tile_mesh_ok(m1, cfg, f, i, j),
        tile_mesh_ok(m2, cfg, f, i, j),
    ensures
        m1.positions@ == m2.positions@,
        m1.normals@ == m2.normals@,
        m1.colors@ == m2.colors@,
        m1.indices@ == m2.indices@,
{
    let cs = cfg.chunk_size as int;
    assert forall|k: int| 0 <= k < m1.indices@.len() implies m1.indices@[k] == m2.indices@[k] by {
        assert(m1.indices@[k] == k as u32);
        assert(m2.indices@[k] == k as u32);
    }
    assert(m1.indices@ =~= m2.indices@);
    assert(((cs - 1) * (cs - 1)) * 6 == 6 * (cs - 1) * (cs - 1)) by (nonlinear_arith);
    assert forall|k: int| 0 <= k < m1.positions@.len() implies m1.positions@[k]
        == m2.positions@[k] && m1.normals@[k] == m2.normals@[k] && m1.colors@[k]
        == m2.colors@[k] by {
        if cs == 1 {
            assert(6 * (cs - 1) * (cs - 1) == 0);
        }
        lemma_flat_index_decompose(6, k);
        lemma_flat_index_row((cs - 1) * (cs - 1), 6, k);
        let q = k / 6;
        lemma_flat_index_decompose(cs - 1, q);
        lemma_flat_index_row(cs - 1, cs - 1, q);
        let b = q / (cs - 1);
        let a = q % (cs - 1);
        assert(tile_quad_ok(m1, cfg, f, i, j, a, b));
        assert(tile_quad_ok(m2, cfg, f, i, j, a, b));
        assert(k == quad_base(cs, a, b) + k % 6);
    }
    assert(m1.positions@ =~= m2.positions@);
    assert(m1.normals@ =~= m2.normals@);
    assert(m1.colors@ =~= m2.colors@);
}

/// The collider specification pins every vertex and triangle, so any two
/// colliders built for the same tile of the same field agree exactly.
pub proof fn lemma_collider_unique(
    c1: ColliderMesh,
    c2: ColliderMesh,
    cfg: EngineConfig,
    f: ElevationField,
    i: int,
    j: int,
)
    requires
        1 <= cfg.chunk_size,
        collider_ok(c1, cfg, f, i, j),
        collider_ok(c2, cfg, f, i, j),
    ensures
        c1.vertices@ == c2.vertices@,
        c1.triangles@ == c2.triangles@,
{
    let cs = cfg.chunk_size as int;
    assert(cs * cs == cs * cs);
    assert forall|k: int| 0 <= k < c1.vertices@.len() implies c1.vertices@[k]
        == c2.vertices@[k] by {
        lemma_flat_index_decompose(cs, k);
        lemma_flat_index_row(cs, cs, k);
        let z = k / cs;
        let x = k % cs;
        assert(c1.vertices@[z * cs + x] == collider_vertex(cfg, f, i, j, x, z));
        assert(c2.vertices@[z * cs + x] == collider_vertex(cfg, f, i, j, x, z));
    }
    assert(c1.vertices@ =~= c2.vertices@);
    assert(((cs - 1) * (cs - 1)) * 2 == 2 * (cs - 1) * (cs - 1)) by (nonlinear_arith);
    assert forall|k: int| 0 <= k < c1.triangles@.len() implies c1.triangles@[k]
        == c2.triangles@[k] by {
        if cs == 1 {
            assert(2 * (cs - 1) * (cs - 1) == 0);
        }
        lemma_flat_index_decompose(2, k);
        lemma_flat_index_row((cs - 1) * (cs - 1), 2, k);
        let q = k / 2;
        lemma_flat_index_decompose(cs - 1, q);
        lemma_flat_index_row(cs - 1, cs - 1, q);
        let y = q / (cs - 1);
        let x = q % (cs - 1);
        assert(c1.triangles@[2 * (y * (cs - 1) + x)] == collider_tri1(cs, y, x));
        assert(c2.triangles@[2 * (y * (cs - 1) + x)] == collider_tri1(cs, y, x));
        assert(c1.triangles@[2 * (y * (cs - 1) + x) + 1] == collider_tri2(cs, y, x));
        assert(c2.triangles@[2 * (y * (cs - 1) + x) + 1] == collider_tri2(cs, y, x));
        assert(k == 2 * (y * (cs - 1) + x) + k % 2);
    }
    assert(c1.triangles@ =~= c2.triangles@);
}

/// Under the tile placement contract (tile `(i, j)` at world offset
/// `(i * (chunk_size - 1), 0, j * (chunk_size - 1))`), the vertices on the
/// shared edge of two adjacent tiles coincide in world space: same
/// horizontal position, same height.  `k` runs along the shared edge.
pub proof fn lemma_tile_placement_seamless(
    cfg: EngineConfig,
    f: ElevationField,
    i: int,
    j: int,
    k: int,
)
    requires
        cfg.feasible(),
        cfg.divides(),
        0 <= i,
        0 <= j,
        0 <= k < cfg.chunk_size,
    ensures
        i + 1 < cfg.chunk_ratio() ==> {
            let cs = cfg.chunk_size as int;
            let left = position_at(cfg, f, i, j, cs - 1, k);
            let right = position_at(cfg, f, i + 1, j, 0, k);
            &&& tile_start(cs, i) * COORD_SCALE + left.x == tile_start(cs, i + 1) * COORD_SCALE
                + right.x
            &&& left.y == right.y
            &&& left.z == right.z
        },
        j + 1 < cfg.chunk_ratio() ==> {
            let cs = cfg.chunk_size as int;
            let near = position_at(cfg, f, i, j, k, cs - 1);
            let far = position_at(cfg, f, i, j + 1, k, 0);
            &&& tile_start(cs, j) * COORD_SCALE + near.z == tile_start(cs, j + 1) * COORD_SCALE
                + far.z
            &&& near.y == far.y
            &&& near.x == far.x
        },
{
    let cs = cfg.chunk_size as int;
    lemma_feasible_bounds(cfg);
    lemma_adjacent_tiles_share_edge(cfg, f, i, j, k);
    assert((i + 1) * (cs - 1) == i * (cs - 1) + (cs - 1)) by (nonlinear_arith);
    assert((j + 1) * (cs - 1) == j * (cs - 1) + (cs - 1)) by (nonlinear_arith);
    assert(i * (cs - 1) * COORD_SCALE + (((cs - 1) * COORD_SCALE) as i64) == (i * (cs - 1) + (cs
        - 1)) * COORD_SCALE) by (nonlinear_arith)
        requires
            0 <= cs - 1 <= 181,
    ;
    assert(j * (cs - 1) * COORD_SCALE + (((cs - 1) * COORD_SCALE) as i64) == (j * (cs - 1) + (cs
        - 1)) * COORD_SCALE) by (nonlinear_arith)
        requires
            0 <= cs - 1 <= 181,
    ;
}

/// The complete generated output is a function of the configuration and
/// the elevation field alone: any two outputs meeting the generator's
/// specification agree, tile by tile, on every buffer.
pub proof fn lemma_generation_unique(
    meshes1: Seq<TileMesh>,
    colliders1: Seq<ColliderMesh>,
    meshes2: Seq<TileMesh>,
    colliders2: Seq<ColliderMesh>,
    cfg: EngineConfig,
    f: ElevationField,
)
    requires
        1 <= cfg.chunk_size,
        meshes1.len() == cfg.chunk_ratio() * cfg.chunk_ratio(),
        meshes2.len() == cfg.chunk_ratio() * cfg.chunk_ratio(),
        colliders1.len() == cfg.chunk_ratio() * cfg.chunk_ratio(),
        colliders2.len() == cfg.chunk_ratio() * cfg.chunk_ratio(),
        forall|t: int|
            0 <= t < meshes1.len() ==> tile_mesh_ok(
                #[trigger] meshes1[t],
                cfg,
                f,
                t / cfg.chunk_ratio(),
                t % cfg.chunk_ratio(),
            ),
        forall|t: int|
            0 <= t < meshes2.len() ==> tile_mesh_ok(
                #[trigger] meshes2[t],
                cfg,
                f,
                t / cfg.chunk_ratio(),
                t % cfg.chunk_ratio(),
            ),
        forall|t: int|
            0 <= t < colliders1.len() ==> collider_ok(
                #[trigger] colliders1[t],
                cfg,
                f,
                t / cfg.chunk_ratio(),
                t % cfg.chunk_ratio(),
            ),
        forall|t: int|
            0 <= t < colliders2.len() ==> collider_ok(
                #[trigger] colliders2[t],
                cfg,
                f,
                t / cfg.chunk_ratio(),
                t % cfg.chunk_ratio(),
            ),
    ensures
        forall|t: int|
            0 <= t < meshes1.len() ==> {
                &&& (#[trigger] meshes1[t]).positions@ == meshes2[t].positions@
                &&& meshes1[t].normals@ == meshes2[t].normals@
                &&& meshes1[t].colors@ == meshes2[t].colors@
                &&& meshes1[t].indices@ == meshes2[t].indices@
            },
        forall|t: int|
            0 <= t < colliders1.len() ==> {
                &&& (#[trigger] colliders1[t]).vertices@ == colliders2[t].vertices@
                &&& colliders1[t].triangles@ == colliders2[t].triangles@
            },
{
    assert forall|t: int| 0 <= t < meshes1.len() implies {
        &&& (#[trigger] meshes1[t]).positions@ == meshes2[t].positions@
        &&& meshes1[t].normals@ == meshes2[t].normals@
        &&& meshes1[t].colors@ == meshes2[t].colors@
        &&& meshes1[t].indices@ == meshes2[t].indices@
    } by {
        lemma_tile_mesh_unique(
            meshes1[t],
            meshes2[t],
            cfg,
            f,
            t / cfg.chunk_ratio(),
            t % cfg.chunk_ratio(),
        );
    }
    assert forall|t: int| 0 <= t < colliders1.len() implies {
        &&& (#[trigger] colliders1[t]).vertices@ == colliders2[t].vertices@
        &&& colliders1[t].triangles@ == colliders2[t].triangles@
    } by {
        lemma_collider_unique(
            colliders1[t],
            colliders2[t],
            cfg,
            f,
            t / cfg.chunk_ratio(),
            t % cfg.chunk_ratio(),
        );
    }
}

/// The collider of tile `(i, j)` reads the very grid points the tile's
/// render mesh samples, so the mesh and collider paired at one flattened
/// index describe the same region of terrain; and along shared edges,
/// adjacent tiles' colliders agree exactly, just as the render meshes do.
pub proof fn lemma_collider_matches_render_tile(
    cfg: EngineConfig,
    f: ElevationField,
    i: int,
    j: int,
    x: int,
    z: int,
)
    requires
        1 <= cfg.chunk_size,
        0 <= i,
        0 <= j,
        0 <= x < cfg.chunk_size,
        0 <= z < cfg.chunk_size,
    ensures
        collider_vertex(cfg, f, i, j, x, z).y == (sample(cfg, f, i, j, x, z)
            * cfg.world_height) as i64,
        x == cfg.chunk_size - 1 ==> collider_vertex(cfg, f, i, j, x, z).y == collider_vertex(
            cfg,
            f,
            i + 1,
            j,
            0,
            z,
        ).y,
        z == cfg.chunk_size - 1 ==> collider_vertex(cfg, f, i, j, x, z).y == collider_vertex(
            cfg,
            f,
            i,
            j + 1,
            x,
            0,
        ).y,
{
    lemma_adjacent_tiles_share_edge(cfg, f, i, j, z);
    lemma_adjacent_tiles_share_edge(cfg, f, i, j, x);
}

/// Tile `(i, j)` of the generated output stands at flattened index
/// `i * chunk_ratio() + j`, so consumers can place tiles by index.
pub proof fn lemma_tile_at_flat_index(
    meshes: Seq<TileMesh>,
    colliders: Seq<ColliderMesh>,
    cfg: EngineConfig,
    f: ElevationField,
    i: int,
    j: int,
)
    requires
        meshes.len() == cfg.chunk_ratio() * cfg.chunk_ratio(),
        colliders.len() == cfg.chunk_ratio() * cfg.chunk_ratio(),
        forall|t: int|
            0 <= t < meshes.len() ==> tile_mesh_ok(
                #[trigger] meshes[t],
                cfg,
                f,
                t / cfg.chunk_ratio(),
                t % cfg.chunk_ratio(),
            ),
        forall|t: int|
            0 <= t < colliders.len() ==> collider_ok(
                #[trigger] colliders[t],
                cfg,
                f,
                t / cfg.chunk_ratio(),
                t % cfg.chunk_ratio(),
            ),
        0 <= i < cfg.chunk_ratio(),
        0 <= j < cfg.chunk_ratio(),
    ensures
        tile_mesh_ok(meshes[i * cfg.chunk_ratio() + j], cfg, f, i, j),
        collider_ok(colliders[i * cfg.chunk_ratio() + j], cfg, f, i, j),
{
    let ratio = cfg.chunk_ratio();
    lemma_grid_index(ratio, ratio, i, j);
    lemma_fundamental_div_mod_converse(i * ratio + j, ratio, i, j);
    assert(tile_mesh_ok(meshes[i * ratio + j], cfg, f, (i * ratio + j) / ratio, (i * ratio
        + j) % ratio));
    assert(collider_ok(colliders[i * ratio + j], cfg, f, (i * ratio + j) / ratio, (i * ratio
        + j) % ratio));
}

/// No triangle of a render tile is degenerate: the vertical component of
/// its flat normal is exactly the squared grid scale, which is positive.
/// Downstream normalization to unit length therefore always succeeds, and
/// every render normal points upward rather than vanishing.
pub proof fn lemma_render_normals_nonzero(
    cfg: EngineConfig,
    f: ElevationField,
    i: int,
    j: int,
    a: int,
    b: int,
)
    requires
        cfg.feasible(),
        cfg.divides(),
        0 <= a < cfg.chunk_size - 1,
        0 <= b < cfg.chunk_size - 1,
    ensures
        ({
            let p00 = position_at(cfg, f, i, j, a, b);
            let p01 = position_at(cfg, f, i, j, a, b + 1);
            let p11 = position_at(cfg, f, i, j, a + 1, b + 1);
            let p10 = position_at(cfg, f, i, j, a + 1, b);
            &&& tri_normal(p00, p01, p11).y == COORD_SCALE * COORD_SCALE
            &&& tri_normal(p00, p11, p10).y == COORD_SCALE * COORD_SCALE
            &&& !collinear(p00, p01, p11)
            &&& !collinear(p00, p11, p10)
        }),
{
    lemma_feasible_bounds(cfg);
    let p00 = position_at(cfg, f, i, j, a, b);
    let p01 = position_at(cfg, f, i, j, a, b + 1);
    let p11 = position_at(cfg, f, i, j, a + 1, b + 1);
    let p10 = position_at(cfg, f, i, j, a + 1, b);
    assert(p01.x == p00.x && p11.x - p00.x == COORD_SCALE && p10.x - p00.x == COORD_SCALE);
    assert(p01.z - p00.z == COORD_SCALE && p11.z - p00.z == COORD_SCALE && p10.z == p00.z);
    assert(cross_y(p00, p01, p11) == COORD_SCALE * COORD_SCALE);
    assert(cross_y(p00, p11, p10) == COORD_SCALE * COORD_SCALE);
    lemma_zero_normal_iff_collinear(p00, p01, p11);
    lemma_zero_normal_iff_collinear(p00, p11, p10);
}

} // verus!
