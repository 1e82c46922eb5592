//! Mesh vertices and flat triangle normals, in exact fixed-point arithmetic.
use vstd::prelude::*;

verus! {

/// Fixed-point scale of mesh coordinates: one world unit is `COORD_SCALE`.
/// Coordinates carry twelve decimal places so that the product of an
/// elevation sample and the vertical scale (six decimal places each) is
/// represented exactly.
pub const COORD_SCALE: i64 = 1_000_000_000_000;

/// Largest admitted magnitude of a mesh coordinate, in pico units.
pub const COORD_LIMIT: i64 = 200_000_000_000_000_000;

/// A mesh vertex position, fixed-point with twelve decimal places.
#[derive(Clone, Copy, Debug, PartialEq, Eq, Structural)]
pub struct MeshVertex {
    pub x: i64,
    pub y: i64,
    pub z: i64,
}

/// An unnormalized flat triangle normal: the exact cross product of the
/// triangle's two edge vectors.  A degenerate triangle yields the zero
/// vector.  Normalization to unit length is a consumer concern.
#[derive(Clone, Copy, Debug, PartialEq, Eq, Structural)]
pub struct TriNormal {
    pub x: i128,
    pub y: i128,
    pub z: i128,
}

impl MeshVertex {
    /// Machine bound under which cross products of edge vectors fit in
    /// an `i128`.
    pub open spec fn bounded(self) -> bool {
        &&& -COORD_LIMIT <= self.x <= COORD_LIMIT
        &&& -COORD_LIMIT <= self.y <= COORD_LIMIT
        &&& -COORD_LIMIT <= self.z <= COORD_LIMIT
    }
}

/// First component of `(p1 - p0) x (p2 - p0)`.
pub open spec fn cross_x(p0: MeshVertex, p1: MeshVertex, p2: MeshVertex) -> int {
    (p1.y - p0.y) * (p2.z - p0.z) - (p1.z - p0.z) * (p2.y - p0.y)
}

/// Second component of `(p1 - p0) x (p2 - p0)`.
pub open spec fn cross_y(p0: MeshVertex, p1: MeshVertex, p2: MeshVertex) -> int {
    (p1.z - p0.z) * (p2.x - p0.x) - (p1.x - p0.x) * (p2.z - p0.z)
}

/// Third component of `(p1 - p0) x (p2 - p0)`.
pub open spec fn cross_z(p0: MeshVertex, p1: MeshVertex, p2: MeshVertex) -> int {
    (p1.x - p0.x) * (p2.y - p0.y) - (p1.y - p0.y) * (p2.x - p0.x)
}

/// The exact flat normal of the triangle `(p0, p1, p2)`.
pub open spec fn tri_normal(p0: MeshVertex, p1: MeshVertex, p2: MeshVertex) -> TriNormal {
    TriNormal {
        x: cross_x(p0, p1, p2) as i128,
        y: cross_y(p0, p1, p2) as i128,
        z: cross_z(p0, p1, p2) as i128,
    }
}

/// The three vertices lie on one line (or coincide): the edge vectors are
/// linearly dependent over the integers.
pub open spec fn collinear(p0: MeshVertex, p1: MeshVertex, p2: MeshVertex) -> bool {
    exists|s: int, t: int|
        {
            &&& (s != 0 || t != 0)
            &&& #[trigger] (s * (p1.x - p0.x)) == #[trigger] (t * (p2.x - p0.x))
            &&& s * (p1.y - p0.y) == t * (p2.y - p0.y)
            &&& s * (p1.z - p0.z) == t * (p2.z - p0.z)
        }
}

/// Products of values bounded in magnitude are bounded in magnitude.
pub proof fn lemma_mul_bounds(a: int, b: int, ma: int, mb: int)
    requires
        -ma <= a <= ma,
        -mb <= b <= mb,
        0 <= ma,
        0 <= mb,
    ensures
        -(ma * mb) <= a * b <= ma * mb,
{
    assert(-(ma * mb) <= a * b <= ma * mb) by (nonlinear_arith)
        requires
            -ma <= a <= ma,
            -mb <= b <= mb,
            0 <= ma,
            0 <= mb,
    ;
}

/// Computes the exact flat normal of a triangle: the cross product of its
/// two edge vectors.  The zero vector is returned exactly for degenerate
/// (collinear) triangles; see [`lemma_zero_normal_iff_collinear`].
pub fn calculate_normal(v0: &MeshVertex, v1: &MeshVertex, v2: &MeshVertex) -> (n: TriNormal)
    requires
        v0.bounded(),
        v1.bounded(),
        v2.bounded(),
    ensures
        n == tri_normal(*v0, *v1, *v2),
{
    let ux: i128 = v1.x as i128 - v0.x as i128;
    let uy: i128 = v1.y as i128 - v0.y as i128;
    let uz: i128 = v1.z as i128 - v0.z as i128;
    let vx: i128 = v2.x as i128 - v0.x as i128;
    let vy: i128 = v2.y as i128 - v0.y as i128;
    let vz: i128 = v2.z as i128 - v0.z as i128;
    proof {
        lemma_mul_bounds(uy as int, vz as int, 2 * COORD_LIMIT as int, 2 * COORD_LIMIT as int);
        lemma_mul_bounds(uz as int, vy as int, 2 * COORD_LIMIT as int, 2 * COORD_LIMIT as int);
        lemma_mul_bounds(uz as int, vx as int, 2 * COORD_LIMIT as int, 2 * COORD_LIMIT as int);
        lemma_mul_bounds(ux as int, vz as int, 2 * COORD_LIMIT as int, 2 * COORD_LIMIT as int);
        lemma_mul_bounds(ux as int, vy as int, 2 * COORD_LIMIT as int, 2 * COORD_LIMIT as int);
        lemma_mul_bounds(uy as int, vx as int, 2 * COORD_LIMIT as int, 2 * COORD_LIMIT as int);
    }
    TriNormal { x: uy * vz - uz * vy, y: uz * vx - ux * vz, z: ux * vy - uy * vx }
}

/// The flat normal is the zero vector exactly when the triangle is
/// degenerate: its three vertices are collinear (or coincide).
pub proof fn lemma_zero_normal_iff_collinear(p0: MeshVertex, p1: MeshVertex, p2: MeshVertex)
    ensures
        collinear(p0, p1, p2) <==> (cross_x(p0, p1, p2) == 0 && cross_y(p0, p1, p2) == 0
            && cross_z(p0, p1, p2) == 0),
{
    let ux = p1.x - p0.x;
    let uy = p1.y - p0.y;
    let uz = p1.z - p0.z;
    let vx = p2.x - p0.x;
    let vy = p2.y - p0.y;
    let vz = p2.z - p0.z;
    if collinear(p0, p1, p2) {
        let (s, t) = choose|s: int, t: int|
            {
                &&& (s != 0 || t != 0)
                &&& #[trigger] (s * (p1.x - p0.x)) == #[trigger] (t * (p2.x - p0.x))
                &&& s * (p1.y - p0.y) == t * (p2.y - p0.y)
                &&& s * (p1.z - p0.z) == t * (p2.z - p0.z)
            };
        assert(s * (uy * vz - uz * vy) == 0 && t * (uy * vz - uz * vy) == 0)
            by (nonlinear_arith)
            requires
                s * uy == t * vy,
                s * uz == t * vz,
        ;
        assert(s * (uz * vx - ux * vz) == 0 && t * (uz * vx - ux * vz) == 0)
            by (nonlinear_arith)
            requires
                s * uz == t * vz,
                s * ux == t * vx,
        ;
        assert(s * (ux * vy - uy * vx) == 0 && t * (ux * vy - uy * vx) == 0)
            by (nonlinear_arith)
            requires
                s * ux == t * vx,
                s * uy == t * vy,
        ;
        assert(cross_x(p0, p1, p2) == 0) by {
            if s != 0 {
                assert(s * cross_x(p0, p1, p2) == 0 && s != 0 ==> cross_x(p0, p1, p2) == 0)
                    by (nonlinear_arith);
            } else {
                assert(t * cross_x(p0, p1, p2) == 0 && t != 0 ==> cross_x(p0, p1, p2) == 0)
                    by (nonlinear_arith);
            }
        }
        assert(cross_y(p0, p1, p2) == 0) by {
            if s != 0 {
                assert(s * cross_y(p0, p1, p2) == 0 && s != 0 ==> cross_y(p0, p1, p2) == 0)
                    by (nonlinear_arith);
            } else {
                assert(t * cross_y(p0, p1, p2) == 0 && t != 0 ==> cross_y(p0, p1, p2) == 0)
                    by (nonlinear_arith);
            }
        }
        assert(cross_z(p0, p1, p2) == 0) by {
            if s != 0 {
                assert(s * cross_z(p0, p1, p2) == 0 && s != 0 ==> cross_z(p0, p1, p2) == 0)
                    by (nonlinear_arith);
            } else {
                assert(t * cross_z(p0, p1, p2) == 0 && t != 0 ==> cross_z(p0, p1, p2) == 0)
                    by (nonlinear_arith);
            }
        }
    }
    if cross_x(p0, p1, p2) == 0 && cross_y(p0, p1, p2) == 0 && cross_z(p0, p1, p2) == 0 {
        if ux == 0 && uy == 0 && uz == 0 {
            // The first edge vanishes: 1 * u == 0 * v.
            assert((1int != 0 || 0int != 0) && 1 * ux == 0 * vx && 1 * uy == 0 * vy && 1 * uz
                == 0 * vz) by (nonlinear_arith)
                requires
                    ux == 0 && uy == 0 && uz == 0,
            ;
            assert(collinear(p0, p1, p2));
        } else if ux != 0 {
            // v_x * u == u_x * v, component-wise from the vanishing minors.
            assert(vx * ux == ux * vx && vx * uy == ux * vy && vx * uz == ux * vz)
                by (nonlinear_arith)
                requires
                    ux * vy - uy * vx == 0,
                    uz * vx - ux * vz == 0,
            ;
            assert(collinear(p0, p1, p2));
        } else if uy != 0 {
            assert(vy * ux == uy * vx && vy * uy == uy * vy && vy * uz == uy * vz)
                by (nonlinear_arith)
                requires
                    ux * vy - uy * vx == 0,
                    uy * vz - uz * vy == 0,
            ;
            assert(collinear(p0, p1, p2));
        } else {
            assert(vz * ux == uz * vx && vz * uy == uz * vy && vz * uz == uz * vz)
                by (nonlinear_arith)
                requires
                    uz * vx - ux * vz == 0,
                    uy * vz - uz * vy == 0,
            ;
            assert(collinear(p0, p1, p2));
        }
    }
}

} // verus!
