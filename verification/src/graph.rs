//! The composed noise expression of the heightfield synthesizer.
//!
//! Elevation is described by a closed sum type of noise operators: fractal
//! generators at the leaves and scale/bias, min/max, add/multiply,
//! threshold-select, curve/terrace remaps and domain-warping combinators
//! above them.  All numeric constants are fixed-point with twelve decimal
//! places (pico units), so the expression is an exact function of the
//! configuration; an evaluator working in floating point consumes it
//! outside this crate.  Sub-expressions that the composition references
//! several times are rebuilt with identical parameters; sharing or caching
//! them is a performance concern of the evaluator, not of this description.
use vstd::prelude::*;

use crate::config::PARAM_LIMIT;
use crate::geometry::lemma_mul_bounds;
use vstd::arithmetic::div_mod::{
    lemma_div_pos_is_pos, lemma_fundamental_div_mod, lemma_mod_pos_bound,
};

verus! {

/// Control points of a curve remap, in insertion order: pairs of input and
/// output value, fixed-point pico.
#[derive(Debug, PartialEq, Eq)]
pub enum CurvePoints {
    Done,
    Point { input: i64, output: i64, rest: Box<CurvePoints> },
}

/// Control points of a terrace remap, in insertion order, fixed-point pico.
#[derive(Debug, PartialEq, Eq)]
pub enum TerracePoints {
    Done,
    Point { value: i64, rest: Box<TerracePoints> },
}

/// A node of the composed noise expression.  Frequencies, persistences,
/// lacunarities, powers, scales, biases, bounds and exponents are
/// fixed-point with twelve decimal places.
#[derive(Debug, PartialEq, Eq)]
pub enum NoiseExpr {
    /// Fractal Brownian motion over gradient noise.
    Fbm { seed: u32, frequency: i64, persistence: i64, lacunarity: i64, octaves: u32 },
    /// Billowing folded fractal noise.
    Billow { seed: u32, frequency: i64, persistence: i64, lacunarity: i64, octaves: u32 },
    /// Sharp-ridged multifractal noise.
    RidgedMulti { seed: u32, frequency: i64, lacunarity: i64, octaves: u32 },
    /// Cellular noise returning the distance to the nearest seed point.
    WorleyDistance { seed: u32, frequency: i64 },
    /// A constant surface.
    Constant { value: i64 },
    /// Piecewise cubic remap of the input through control points.
    Curve { input: Box<NoiseExpr>, points: CurvePoints },
    /// Affine remap: `input * scale + bias`.
    ScaleBias { input: Box<NoiseExpr>, scale: i64, bias: i64 },
    /// Clamp of the input into `[lower, upper]`.
    Clamp { input: Box<NoiseExpr>, lower: i64, upper: i64 },
    /// Raises the (renormalized) input to a power.
    Exponent { input: Box<NoiseExpr>, exponent: i64 },
    /// Terrace-forming remap through control points.
    Terrace { input: Box<NoiseExpr>, steps: TerracePoints },
    /// Pointwise minimum of two sources.
    Min { a: Box<NoiseExpr>, b: Box<NoiseExpr> },
    /// Pointwise maximum of two sources.
    Max { a: Box<NoiseExpr>, b: Box<NoiseExpr> },
    /// Pointwise sum of two sources.
    Add { a: Box<NoiseExpr>, b: Box<NoiseExpr> },
    /// Pointwise product of two sources.
    Multiply { a: Box<NoiseExpr>, b: Box<NoiseExpr> },
    /// Linear interpolation of `a` and `b` steered by `control`.
    Blend { a: Box<NoiseExpr>, b: Box<NoiseExpr>, control: Box<NoiseExpr> },
    /// Chooses `b` where `control` falls inside `[lower, upper]` (with an
    /// edge falloff), `a` elsewhere.
    Select {
        a: Box<NoiseExpr>,
        b: Box<NoiseExpr>,
        control: Box<NoiseExpr>,
        lower: i64,
        upper: i64,
        falloff: i64,
    },
    /// Domain warping: perturbs sample coordinates with gradient noise.
    Turbulence { input: Box<NoiseExpr>, seed: u32, frequency: i64, power: i64, roughness: u32 },
}

/// Number of curve control points.
pub open spec fn curve_len(p: CurvePoints) -> nat
    decreases p,
{
    match p {
        CurvePoints::Done => 0,
        CurvePoints::Point { rest, .. } => 1 + curve_len(*rest),
    }
}

/// The curve control points have strictly increasing input values.
pub open spec fn curve_increasing(p: CurvePoints) -> bool
    decreases p,
{
    match p {
        CurvePoints::Done => true,
        CurvePoints::Point { input, rest, .. } => match *rest {
            CurvePoints::Done => curve_increasing(*rest),
            CurvePoints::Point { input: next, .. } => input < next && curve_increasing(*rest),
        },
    }
}

/// Number of terrace control points.
pub open spec fn terrace_len(p: TerracePoints) -> nat
    decreases p,
{
    match p {
        TerracePoints::Done => 0,
        TerracePoints::Point { rest, .. } => 1 + terrace_len(*rest),
    }
}

/// The terrace control points are strictly increasing.
pub open spec fn terrace_increasing(p: TerracePoints) -> bool
    decreases p,
{
    match p {
        TerracePoints::Done => true,
        TerracePoints::Point { value, rest } => match *rest {
            TerracePoints::Done => terrace_increasing(*rest),
            TerracePoints::Point { value: next, .. } => value < next && terrace_increasing(*rest),
        },
    }
}

/// Well-formedness of a noise expression: an evaluator can walk it without
/// failing.  A curve needs at least four control points with distinct
/// inputs, a terrace at least two, and a clamp an ordered range; strictly
/// increasing control points satisfy the distinctness.
pub open spec fn graph_wf(e: NoiseExpr) -> bool
    decreases e,
{
    match e {
        NoiseExpr::Fbm { .. } => true,
        NoiseExpr::Billow { .. } => true,
        NoiseExpr::RidgedMulti { .. } => true,
        NoiseExpr::WorleyDistance { .. } => true,
        NoiseExpr::Constant { .. } => true,
        NoiseExpr::Curve { input, points } => graph_wf(*input) && curve_len(points) >= 4
            && curve_increasing(points),
        NoiseExpr::ScaleBias { input, .. } => graph_wf(*input),
        NoiseExpr::Clamp { input, lower, upper } => graph_wf(*input) && lower <= upper,
        NoiseExpr::Exponent { input, .. } => graph_wf(*input),
        NoiseExpr::Terrace { input, steps } => graph_wf(*input) && terrace_len(steps) >= 2
            && terrace_increasing(steps),
        NoiseExpr::Min { a, b } => graph_wf(*a) && graph_wf(*b),
        NoiseExpr::Max { a, b } => graph_wf(*a) && graph_wf(*b),
        NoiseExpr::Add { a, b } => graph_wf(*a) && graph_wf(*b),
        NoiseExpr::Multiply { a, b } => graph_wf(*a) && graph_wf(*b),
        NoiseExpr::Blend { a, b, control } => graph_wf(*a) && graph_wf(*b) && graph_wf(*control),
        NoiseExpr::Select { a, b, control, .. } => graph_wf(*a) && graph_wf(*b) && graph_wf(
            *control,
        ),
        NoiseExpr::Turbulence { input, .. } => graph_wf(*input),
    }
}

/// Scales a non-negative fixed-point parameter by the exact rational
/// `num / den`, rounding toward zero.
pub fn scale_div(v: i64, num: u64, den: u64) -> (r: i64)
    requires
        0 <= v <= PARAM_LIMIT,
        1 <= den,
        num <= 100_000_000,
    ensures
        r == v * num / (den as int),
        0 <= r <= v * num,
{
    proof {
        lemma_mul_bounds(v as int, num as int, PARAM_LIMIT as int, 100_000_000);
    }
    let p: u128 = (v as u128) * (num as u128);
    proof {
        lemma_fundamental_div_mod(p as int, den as int);
        lemma_mod_pos_bound(p as int, den as int);
        lemma_div_pos_is_pos(p as int, den as int);
        assert((p as int) / (den as int) <= p as int) by (nonlinear_arith)
            requires
                p as int == (den as int) * ((p as int) / (den as int)) + (p as int) % (den as int),
                0 <= (p as int) % (den as int),
                0 <= (p as int) / (den as int),
                1 <= den as int,
        ;
    }
    (p / (den as u128)) as i64
}

/// The domain-warp power derived from the continent frequency and the
/// terrain offset: their product scaled by the exact rational `32 / 659`
/// (one over about twenty and three fifths).
pub fn terrain_offset_power(frequency: i64, offset: i64) -> (r: i64)
    requires
        0 <= frequency <= PARAM_LIMIT,
        0 <= offset <= PARAM_LIMIT,
    ensures
        r == frequency * offset * 32 / 659,
{
    proof {
        lemma_mul_bounds(frequency as int, offset as int, PARAM_LIMIT as int, PARAM_LIMIT as int);
    }
    let p: u128 = (frequency as u128) * (offset as u128) * 32;
    proof {
        lemma_fundamental_div_mod(p as int, 659);
        lemma_mod_pos_bound(p as int, 659);
        lemma_div_pos_is_pos(p as int, 659);
        assert((p as int) / 659 <= p as int) by (nonlinear_arith)
            requires
                p as int == 659 * ((p as int) / 659) + (p as int) % 659,
                0 <= (p as int) % 659,
                0 <= (p as int) / 659,
        ;
    }
    (p / 659) as i64
}

/// Executable check that a curve holds at least four control points.
pub fn curve_has_four_points(p: &CurvePoints) -> (r: bool)
    ensures
        r == (curve_len(*p) >= 4),
{
    proof {
        reveal_with_fuel(curve_len, 6);
    }
    match p {
        CurvePoints::Point { rest: r1, .. } => match &**r1 {
            CurvePoints::Point { rest: r2, .. } => match &**r2 {
                CurvePoints::Point { rest: r3, .. } => matches!(&**r3, CurvePoints::Point { .. }),
                CurvePoints::Done => false,
            },
            CurvePoints::Done => false,
        },
        CurvePoints::Done => false,
    }
}

/// Executable check for [`curve_increasing`].
pub fn curve_points_sorted(p: &CurvePoints) -> (r: bool)
    ensures
        r == curve_increasing(*p),
    decreases *p,
{
    match p {
        CurvePoints::Done => true,
        CurvePoints::Point { input, rest, .. } => match &**rest {
            CurvePoints::Done => curve_points_sorted(rest),
            CurvePoints::Point { input: next, .. } => *input < *next && curve_points_sorted(rest),
        },
    }
}

/// Executable check that a terrace holds at least two control points.
pub fn terrace_has_two_points(p: &TerracePoints) -> (r: bool)
    ensures
        r == (terrace_len(*p) >= 2),
{
    proof {
        reveal_with_fuel(terrace_len, 4);
    }
    match p {
        TerracePoints::Point { rest, .. } => matches!(&**rest, TerracePoints::Point { .. }),
        TerracePoints::Done => false,
    }
}

/// Executable check for [`terrace_increasing`].
pub fn terrace_points_sorted(p: &TerracePoints) -> (r: bool)
    ensures
        r == terrace_increasing(*p),
    decreases *p,
{
    match p {
        TerracePoints::Done => true,
        TerracePoints::Point { value, rest } => match &**rest {
            TerracePoints::Done => terrace_points_sorted(rest),
            TerracePoints::Point { value: next, .. } => *value < *next && terrace_points_sorted(
                rest,
            ),
        },
    }
}

/// Executable check for [`graph_wf`]: walks the whole expression and
/// confirms that an evaluator can process every node.
pub fn graph_is_wf(e: &NoiseExpr) -> (r: bool)
    ensures
        r == graph_wf(*e),
    decreases *e,
{
    match e {
        NoiseExpr::Fbm { .. } => true,
        NoiseExpr::Billow { .. } => true,
        NoiseExpr::RidgedMulti { .. } => true,
        NoiseExpr::WorleyDistance { .. } => true,
        NoiseExpr::Constant { .. } => true,
        NoiseExpr::Curve { input, points } => graph_is_wf(input) && curve_has_four_points(points)
            && curve_points_sorted(points),
        NoiseExpr::ScaleBias { input, .. } => graph_is_wf(input),
        NoiseExpr::Clamp { input, lower, upper } => graph_is_wf(input) && *lower <= *upper,
        NoiseExpr::Exponent { input, .. } => graph_is_wf(input),
        NoiseExpr::Terrace { input, steps } => graph_is_wf(input) && terrace_has_two_points(steps)
            && terrace_points_sorted(steps),
        NoiseExpr::Min { a, b } => graph_is_wf(a) && graph_is_wf(b),
        NoiseExpr::Max { a, b } => graph_is_wf(a) && graph_is_wf(b),
        NoiseExpr::Add { a, b } => graph_is_wf(a) && graph_is_wf(b),
        NoiseExpr::Multiply { a, b } => graph_is_wf(a) && graph_is_wf(b),
        NoiseExpr::Blend { a, b, control } => graph_is_wf(a) && graph_is_wf(b) && graph_is_wf(
            control,
        ),
        NoiseExpr::Select { a, b, control, .. } => graph_is_wf(a) && graph_is_wf(b) && graph_is_wf(
            control,
        ),
        NoiseExpr::Turbulence { input, .. } => graph_is_wf(input),
    }
}

} // verus!
