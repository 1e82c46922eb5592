use terrain_core::config::{EngineConfig, TerrainError};
use terrain_core::field::ElevationField;
use terrain_core::geometry::{calculate_normal, MeshVertex, TriNormal};
use terrain_core::mesh::{
    compute_collider_indices, compute_collider_vertices, generate_low_poly_terrain, ColliderMesh,
    ColorBand, Triangle,
};

const UNIT: i64 = 1_000_000_000_000;

fn field_4(values: Vec<i64>) -> ElevationField {
    ElevationField::new(4, values).unwrap()
}

fn counting_field_4() -> ElevationField {
    field_4((0..16).map(|k| (k * 1000) as i64).collect())
}

fn cfg_4_2() -> EngineConfig {
    EngineConfig { world_size: 4, chunk_size: 2, world_height: 1_000_000 }
}

#[test]
fn emits_nine_meshes_and_colliders_for_four_by_two() {
    let field = counting_field_4();
    let (meshes, colliders) = generate_low_poly_terrain(cfg_4_2(), &field).unwrap();
    assert_eq!(meshes.len(), 9);
    assert_eq!(colliders.len(), 9);
    for m in &meshes {
        assert_eq!(m.positions.len(), 6);
        assert_eq!(m.normals.len(), 6);
        assert_eq!(m.colors.len(), 6);
        assert_eq!(m.indices.len(), 6);
        assert_eq!(m.indices, vec![0, 1, 2, 3, 4, 5]);
    }
}

#[test]
fn fails_fatally_on_non_divisor_chunk_size() {
    let values: Vec<i64> = vec![0; 100];
    let field = ElevationField::new(10, values).unwrap();
    let cfg = EngineConfig { world_size: 10, chunk_size: 3, world_height: 1_000_000 };
    assert_eq!(
        generate_low_poly_terrain(cfg, &field),
        Err(TerrainError::ChunkSizeNotDivisor { world_size: 10, chunk_size: 3 })
    );
}

#[test]
fn generation_is_deterministic() {
    let field = counting_field_4();
    let first = generate_low_poly_terrain(cfg_4_2(), &field).unwrap();
    let second = generate_low_poly_terrain(cfg_4_2(), &field).unwrap();
    assert_eq!(first, second);
}

#[test]
fn adjacent_tiles_share_edge_samples() {
    let field = counting_field_4();
    let (meshes, _colliders) = generate_low_poly_terrain(cfg_4_2(), &field).unwrap();
    // Tile (i, j) sits at flattened index i * 3 + j.  With a chunk size of
    // two, each tile holds one quad whose vertex slots are: 0 the top-left
    // corner, 1 the corner one step along the j axis, 2 the far corner, and
    // 5 the corner one step along the i axis.
    let t00 = &meshes[0];
    let t10 = &meshes[3];
    let t01 = &meshes[1];
    // Shared edge along the i direction: last column of (0,0) is the first
    // column of (1,0).
    assert_eq!(t00.positions[5].y, t10.positions[0].y);
    assert_eq!(t00.positions[2].y, t10.positions[1].y);
    // Shared edge along the j direction: last row of (0,0) is the first row
    // of (0,1).
    assert_eq!(t00.positions[1].y, t01.positions[0].y);
    assert_eq!(t00.positions[2].y, t01.positions[5].y);
    // And the concrete sampled values.
    assert_eq!(t00.positions[5].y, 1000 * 1_000_000);
    assert_eq!(t00.positions[1].y, 4000 * 1_000_000);
}

#[test]
fn collider_counts_match_chunk_size() {
    let field = counting_field_4();
    let (_meshes, colliders) = generate_low_poly_terrain(cfg_4_2(), &field).unwrap();
    for c in &colliders {
        // chunk_size^2 vertices and 6 * (chunk_size - 1)^2 indices.
        assert_eq!(c.vertices.len(), 4);
        assert_eq!(c.triangles.len(), 2);
    }
}

#[test]
fn collider_indices_walk_quads_with_fixed_winding() {
    let cfg = EngineConfig { world_size: 9, chunk_size: 3, world_height: 1_000_000 };
    let tris = compute_collider_indices(&cfg);
    let expected = vec![
        Triangle { a: 0, b: 3, c: 1 },
        Triangle { a: 1, b: 3, c: 4 },
        Triangle { a: 1, b: 4, c: 2 },
        Triangle { a: 2, b: 4, c: 5 },
        Triangle { a: 3, b: 6, c: 4 },
        Triangle { a: 4, b: 6, c: 7 },
        Triangle { a: 4, b: 7, c: 5 },
        Triangle { a: 5, b: 7, c: 8 },
    ];
    assert_eq!(tris, expected);
}

#[test]
fn collider_vertices_sample_with_overlap_stride() {
    let field = counting_field_4();
    let cfg = cfg_4_2();
    let verts = compute_collider_vertices(&cfg, &field, 1, 1);
    assert_eq!(verts.len(), 4);
    // Tile (1, 1) starts one sample in along both axes.
    assert_eq!(verts[0], MeshVertex { x: 0, y: 5000 * 1_000_000, z: 0 });
    assert_eq!(verts[1], MeshVertex { x: UNIT, y: 6000 * 1_000_000, z: 0 });
    assert_eq!(verts[2], MeshVertex { x: 0, y: 9000 * 1_000_000, z: UNIT });
    assert_eq!(verts[3], MeshVertex { x: UNIT, y: 10000 * 1_000_000, z: UNIT });
}

#[test]
fn collider_covers_the_same_region_as_the_render_tile() {
    // Asymmetric tiles pin the axis orientation: tile (0, 1) is offset one
    // sample along the j (row) axis only, tile (1, 0) along the i (column)
    // axis only.
    let field = counting_field_4();
    let cfg = cfg_4_2();
    let verts_01 = compute_collider_vertices(&cfg, &field, 0, 1);
    assert_eq!(verts_01[0].y, 4000 * 1_000_000);
    assert_eq!(verts_01[1].y, 5000 * 1_000_000);
    assert_eq!(verts_01[2].y, 8000 * 1_000_000);
    assert_eq!(verts_01[3].y, 9000 * 1_000_000);
    let verts_10 = compute_collider_vertices(&cfg, &field, 1, 0);
    assert_eq!(verts_10[0].y, 1000 * 1_000_000);
    assert_eq!(verts_10[1].y, 2000 * 1_000_000);
    assert_eq!(verts_10[2].y, 5000 * 1_000_000);
    assert_eq!(verts_10[3].y, 6000 * 1_000_000);
    // The collider's corner heights equal the render mesh's corner heights
    // of the same tile, so the pair at one flattened index holds one
    // region of terrain.
    let (meshes, colliders) = generate_low_poly_terrain(cfg, &field).unwrap();
    for t in 0..9usize {
        let m = &meshes[t];
        let c = &colliders[t];
        assert_eq!(c.vertices[0].y, m.positions[0].y); // sample (0, 0)
        assert_eq!(c.vertices[1].y, m.positions[5].y); // sample (1, 0)
        assert_eq!(c.vertices[2].y, m.positions[1].y); // sample (0, 1)
        assert_eq!(c.vertices[3].y, m.positions[2].y); // sample (1, 1)
    }
}

#[test]
fn flat_terrain_normals_point_up() {
    let field = field_4(vec![100_000; 16]);
    let (meshes, _) = generate_low_poly_terrain(cfg_4_2(), &field).unwrap();
    let up = TriNormal { x: 0, y: 1_000_000_000_000_000_000_000_000, z: 0 };
    for m in &meshes {
        for n in &m.normals {
            assert_eq!(*n, up);
        }
    }
}

#[test]
fn triangle_colors_are_uniform_and_banded() {
    // All heights at -0.3: the mean sits exactly on the sand threshold,
    // which belongs to the grass band.
    let field = field_4(vec![-300_000; 16]);
    let (meshes, _) = generate_low_poly_terrain(cfg_4_2(), &field).unwrap();
    for m in &meshes {
        for c in &m.colors {
            assert_eq!(*c, ColorBand::Grass);
        }
    }
    // Just below the sand threshold.
    let field = field_4(vec![-300_001; 16]);
    let (meshes, _) = generate_low_poly_terrain(cfg_4_2(), &field).unwrap();
    for m in &meshes {
        for c in &m.colors {
            assert_eq!(*c, ColorBand::Sand);
        }
    }
    // Exactly at the grass threshold: rock, not grass.
    let field = field_4(vec![500_000; 16]);
    let (meshes, _) = generate_low_poly_terrain(cfg_4_2(), &field).unwrap();
    for m in &meshes {
        for c in &m.colors {
            assert_eq!(*c, ColorBand::Rock);
        }
    }
    // Just below the grass threshold.
    let field = field_4(vec![499_999; 16]);
    let (meshes, _) = generate_low_poly_terrain(cfg_4_2(), &field).unwrap();
    for m in &meshes {
        for c in &m.colors {
            assert_eq!(*c, ColorBand::Grass);
        }
    }
}

#[test]
fn vertex_heights_scale_with_world_height() {
    let field = counting_field_4();
    let cfg = EngineConfig { world_size: 4, chunk_size: 2, world_height: 2_500_000 };
    let (meshes, _) = generate_low_poly_terrain(cfg, &field).unwrap();
    // Tile (0, 0), top-left vertex of its only quad samples the field origin;
    // slot 5 samples one step along the i axis.
    assert_eq!(meshes[0].positions[0].y, 0);
    assert_eq!(meshes[0].positions[5].y, 1000 * 2_500_000);
}

#[test]
fn normal_is_exact_cross_product() {
    let v0 = MeshVertex { x: 0, y: 0, z: 0 };
    let v1 = MeshVertex { x: 0, y: 2, z: 1 };
    let v2 = MeshVertex { x: 3, y: 0, z: 0 };
    assert_eq!(calculate_normal(&v0, &v1, &v2), TriNormal { x: 0, y: 3, z: -6 });
}

#[test]
fn degenerate_triangle_yields_zero_normal() {
    let v0 = MeshVertex { x: 0, y: 0, z: 0 };
    let v1 = MeshVertex { x: 1, y: 2, z: 3 };
    let v2 = MeshVertex { x: 2, y: 4, z: 6 };
    assert_eq!(calculate_normal(&v0, &v1, &v2), TriNormal { x: 0, y: 0, z: 0 });
    let coincident = calculate_normal(&v0, &v1, &v1);
    assert_eq!(coincident, TriNormal { x: 0, y: 0, z: 0 });
}

#[test]
fn rectangular_world_with_small_chunks() {
    // world_size 8, chunk_size 2: the chunk edge squared is below the
    // world edge, so the overlapping tile walks stay inside the field.
    let values: Vec<i64> = (0..64).map(|k| (k * 100) as i64).collect();
    let field = ElevationField::new(8, values).unwrap();
    let cfg = EngineConfig { world_size: 8, chunk_size: 2, world_height: 1_000_000 };
    let (meshes, colliders) = generate_low_poly_terrain(cfg, &field).unwrap();
    // chunkRatio = 8 / 2 + 1 = 5.
    assert_eq!(meshes.len(), 25);
    assert_eq!(colliders.len(), 25);
    // The last tile (4, 4) reads the bottom-right corner of the field.
    let last = &colliders[4 * 5 + 4];
    assert_eq!(last.vertices[0].y, (4 * 8 + 4) * 100 * 1_000_000);
    assert_eq!(last.vertices[3].y, (5 * 8 + 5) * 100 * 1_000_000);
    // Seam between tiles (0, 0) and (1, 0): shared edge along the i axis.
    assert_eq!(meshes[0].positions[5].y, meshes[5].positions[0].y);
}

#[test]
fn single_chunk_tile_grid_has_four_tiles() {
    // world_size 1, chunk_size 1: ratio 2, four degenerate tiles with no
    // quads at all.
    let field = ElevationField::new(1, vec![0]).unwrap();
    let cfg = EngineConfig { world_size: 1, chunk_size: 1, world_height: 1_000_000 };
    let (meshes, colliders) = generate_low_poly_terrain(cfg, &field).unwrap();
    assert_eq!(meshes.len(), 4);
    assert_eq!(colliders.len(), 4);
    for m in &meshes {
        assert_eq!(m.positions.len(), 0);
        assert_eq!(m.indices.len(), 0);
    }
    for c in &colliders {
        assert_eq!(c.vertices.len(), 1);
        assert_eq!(c.triangles.len(), 0);
    }
}

#[test]
fn sixteen_tiles_for_nine_by_three() {
    let values: Vec<i64> = (0..81).map(|k| (k * 100) as i64).collect();
    let field = ElevationField::new(9, values).unwrap();
    let cfg = EngineConfig { world_size: 9, chunk_size: 3, world_height: 1_000_000 };
    let (meshes, colliders) = generate_low_poly_terrain(cfg, &field).unwrap();
    assert_eq!(meshes.len(), 16);
    assert_eq!(colliders.len(), 16);
    for m in &meshes {
        // (chunk_size - 1)^2 quads, six fresh vertex slots each.
        assert_eq!(m.positions.len(), 24);
        assert_eq!(m.indices.len(), 24);
    }
    for c in &colliders {
        assert_eq!(c.vertices.len(), 9);
        assert_eq!(c.triangles.len(), 8);
    }
}

#[test]
fn generated_colliders_match_direct_computation() {
    let field = counting_field_4();
    let cfg = cfg_4_2();
    let (_meshes, colliders) = generate_low_poly_terrain(cfg, &field).unwrap();
    for i in 0..3usize {
        for j in 0..3usize {
            let expected = ColliderMesh {
                vertices: compute_collider_vertices(&cfg, &field, i, j),
                triangles: compute_collider_indices(&cfg),
            };
            assert_eq!(colliders[i * 3 + j], expected);
        }
    }
}
