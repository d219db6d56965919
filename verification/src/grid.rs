use vstd::prelude::*;

use crate::domain::AxisRange;
use crate::num::div_trunc;
use crate::num::div_tz;
use crate::num::lemma_div_tz_bounds;
use crate::num::lemma_div_tz_exact;
use crate::num::lemma_div_tz_monotone;

verus! {

/// Largest step density the library accepts (samples per unit).
/// Keeps `coordinate * density` inside `i64`.
pub const DENSITY_LIMIT: u32 = 100_000;

/// Numerator of the first sample of `range` at `density`: the range start,
/// scaled to units of `1 / density` and truncated toward zero.
pub open spec fn spec_first_num(range: AxisRange, density: int) -> int {
    div_tz(range.start_milli * density, 1000)
}

/// Numerator of the last sample of `range` at `density`.
pub open spec fn spec_last_num(range: AxisRange, density: int) -> int {
    div_tz(range.end_milli * density, 1000)
}

/// How many samples `range` yields at `density`.
pub open spec fn spec_sample_count(range: AxisRange, density: int) -> int {
    spec_last_num(range, density) - spec_first_num(range, density) + 1
}

/// An ordered, finite sequence of coordinate samples along one axis.
/// Each sample is the numerator `n` of the coordinate `n / density`:
/// consecutive samples differ by exactly one numerator step, `1 / density`.
#[derive(Clone, PartialEq, Eq, Debug)]
pub struct SamplingGrid {
    pub density: u32,
    pub samples: Vec<i64>,
}

impl SamplingGrid {
    /// Samples are non-empty, evenly spaced and in increasing order.
    pub open spec fn wf(self) -> bool {
        &&& self.density > 0
        &&& self.samples@.len() >= 1
        &&& forall|k: int|
            0 <= k < self.samples@.len() ==> #[trigger] self.samples@[k] == self.samples@[0] + k
    }

    /// Derives the discrete sample set of `range` at `density`: numerators
    /// from the truncated scaled start to the truncated scaled end, both
    /// endpoints included.
    pub fn new(range: AxisRange, density: u32) -> (r: SamplingGrid)
        requires
            range.wf(),
            0 < density <= DENSITY_LIMIT,
        ensures
            r.wf(),
            r.density == density,
            r.samples@.len() == spec_sample_count(range, density as int),
            forall|k: int|
                0 <= k < r.samples@.len() ==> r.samples@[k] == spec_first_num(
                    range,
                    density as int,
                ) + k,
    {
        proof {
            lemma_scaled_bounds_ordered(
                range.start_milli as int,
                range.end_milli as int,
                density as int,
            );
        }
        let lo: i64 = div_trunc(range.start_milli * density as i64, 1000);
        let hi: i64 = div_trunc(range.end_milli * density as i64, 1000);
        let mut samples: Vec<i64> = Vec::new();
        let mut n: i64 = lo;
        while n <= hi
            invariant
                lo <= n <= hi + 1,
                hi < i64::MAX,
                samples@.len() == n - lo,
                forall|k: int| 0 <= k < samples@.len() ==> samples@[k] == lo + k,
            decreases hi + 1 - n,
        {
            samples.push(n);
            n = n + 1;
        }
        SamplingGrid { density, samples }
    }

    /// How many coordinates the grid holds.
    pub fn len(&self) -> (r: usize)
        ensures
            r == self.samples@.len(),
    {
        self.samples.len()
    }

    /// The numerator of sample `k`: its coordinate is `sample_num / density`.
    pub fn sample_num(&self, k: usize) -> (r: i64)
        requires
            k < self.samples@.len(),
        ensures
            r == self.samples@[k as int],
    {
        self.samples[k]
    }
}

/// The scaled range bounds keep their order under truncation, and stay
/// well inside `i64`.
proof fn lemma_scaled_bounds_ordered(start: int, end: int, density: int)
    requires
        start < end,
        -1_000_000_000 <= start,
        end <= 1_000_000_000,
        0 < density <= 100_000,
    ensures
        div_tz(start * density, 1000) <= div_tz(end * density, 1000),
        -100_000_000_000_000 <= start * density,
        end * density <= 100_000_000_000_000,
        div_tz(start * density, 1000) >= -100_000_000_000_000,
        div_tz(end * density, 1000) <= 100_000_000_000_000,
{
    assert(start * density <= end * density) by (nonlinear_arith)
        requires
            start < end,
            density > 0,
    ;
    assert(-100_000_000_000_000 <= start * density <= 100_000_000_000_000) by (nonlinear_arith)
        requires
            -1_000_000_000 <= start <= 1_000_000_000,
            0 < density <= 100_000,
    ;
    assert(-100_000_000_000_000 <= end * density <= 100_000_000_000_000) by (nonlinear_arith)
        requires
            -1_000_000_000 <= end <= 1_000_000_000,
            0 < density <= 100_000,
    ;
    let a = start * density;
    let b = end * density;
    lemma_div_tz_monotone(a, b, 1000);
    lemma_div_tz_bounds(a, 1000);
    lemma_div_tz_bounds(b, 1000);
}

/// Sample count law: when the scaled bounds `start * density / 1000` and
/// `end * density / 1000` are whole numbers, the count of samples equals
/// `floor((end - start) * density / 1000) + 1`, the first sample sits
/// exactly at the range start, and each later sample is one step of
/// `1 / density` above its predecessor (the numerators are consecutive).
pub proof fn lemma_sample_count_exact(range: AxisRange, density: int)
    requires
        range.wf(),
        0 < density <= DENSITY_LIMIT,
        (range.start_milli * density) % 1000 == 0,
        (range.end_milli * density) % 1000 == 0,
    ensures
        spec_sample_count(range, density) == ((range.end_milli - range.start_milli) * density)
            / 1000 + 1,
        spec_first_num(range, density) * 1000 == range.start_milli * density,
{
    let a = range.start_milli as int;
    let b = range.end_milli as int;
    lemma_div_tz_exact(a * density, 1000);
    lemma_div_tz_exact(b * density, 1000);
    assert((b - a) * density == b * density - a * density) by (nonlinear_arith);
    let p = div_tz(a * density, 1000);
    let q = div_tz(b * density, 1000);
    assert((b - a) * density == 1000 * (q - p));
    vstd::arithmetic::div_mod::lemma_div_multiples_vanish(q - p, 1000);
}

} // verus!
