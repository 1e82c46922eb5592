//! The dense elevation field produced by the heightfield synthesizer.
use vstd::prelude::*;

use crate::config::WORLD_SIZE_LIMIT;

verus! {

/// Largest admitted magnitude of an elevation sample, in micro units
/// (a thousand world units).  Composition is not clamped inside the nominal
/// `[-1, 1]` band, but a machine bound is needed so that the product of a
/// sample and the vertical scale fits in an `i64`.
pub const ELEV_LIMIT: i64 = 1_000 * 1_000_000;

/// A `size x size` grid of elevation samples in row-major order, fixed-point
/// with six decimal places (micro units).  Produced once per generation run
/// and immutable thereafter.
pub struct ElevationField {
    values: Vec<i64>,
    size: usize,
}

impl ElevationField {
    /// Well-formedness: the buffer holds exactly `size * size` samples, the
    /// edge length is within the machine limit and every sample is bounded.
    pub closed spec fn wf(self) -> bool {
        &&& self.values@.len() == self.size * self.size
        &&& self.size <= WORLD_SIZE_LIMIT
        &&& forall|k: int| 0 <= k < self.values@.len()
            ==> -ELEV_LIMIT <= #[trigger] self.values@[k] <= ELEV_LIMIT
    }

    /// Edge length of the square grid.
    pub closed spec fn side(self) -> int {
        self.size as int
    }

    /// The sample at `(row, col)`, row-major.
    pub closed spec fn elev(self, row: int, col: int) -> int {
        self.values@[row * self.side() + col] as int
    }

    /// Builds a field from a row-major buffer of `size * size` samples.
    /// Returns `None` when the buffer has the wrong length, the edge length
    /// is over the machine limit, or a sample is out of the admitted range.
    pub fn new(size: usize, values: Vec<i64>) -> (r: Option<ElevationField>)
        ensures
            r is Some <==> {
                &&& values@.len() == size * size
                &&& size <= WORLD_SIZE_LIMIT
                &&& forall|k: int| 0 <= k < values@.len()
                    ==> -ELEV_LIMIT <= #[trigger] values@[k] <= ELEV_LIMIT
            },
            r matches Some(f) ==> {
                &&& f.wf()
                &&& f.side() == size
                &&& forall|row: int, col: int|
                    0 <= row < size && 0 <= col < size
                        ==> #[trigger] f.elev(row, col) == values@[row * size + col]
            },
    {
        if size > WORLD_SIZE_LIMIT {
            return None;
        }
        proof {
            assert(size * size <= 0x4000_0000) by (nonlinear_arith)
                requires
                    size <= WORLD_SIZE_LIMIT,
            ;
        }
        if values.len() != size * size {
            return None;
        }
        let mut k: usize = 0;
        while k < values.len()
            invariant
                k <= values@.len(),
                forall|m: int| 0 <= m < k
                    ==> -ELEV_LIMIT <= #[trigger] values@[m] <= ELEV_LIMIT,
            decreases values@.len() - k,
        {
            if values[k] < -ELEV_LIMIT || values[k] > ELEV_LIMIT {
                return None;
            }
            k = k + 1;
        }
        let f = ElevationField { values, size };
        proof {
            assert forall|row: int, col: int|
                0 <= row < size && 0 <= col < size
                    implies #[trigger] f.elev(row, col) == f.values@[row * size + col] by {
                assert(f.elev(row, col) == f.values@[row * f.side() + col]);
            }
        }
        Some(f)
    }

    /// Edge length of the square grid.
    pub fn side_len(&self) -> (n: usize)
        ensures
            n == self.side(),
    {
        self.size
    }

    /// Reads the sample at `(row, col)`.
    pub fn at(&self, row: usize, col: usize) -> (e: i64)
        requires
            self.wf(),
            row < self.side(),
            col < self.side(),
        ensures
            e == self.elev(row as int, col as int),
            -ELEV_LIMIT <= e <= ELEV_LIMIT,
    {
        proof {
            assert(self.size * self.size <= 0x4000_0000) by (nonlinear_arith)
                requires
                    self.size <= WORLD_SIZE_LIMIT,
            ;
            assert(row * self.size + col < self.size * self.size) by (nonlinear_arith)
                requires
                    row < self.size,
                    col < self.size,
            ;
            assert(row * (self.size as int) + col >= 0) by (nonlinear_arith)
                requires
                    row >= 0,
                    col >= 0,
                    self.size >= 0,
            ;
        }
        self.values[row * self.size + col]
    }
}

} // verus!
