//! Statistics-based calibration: accumulates a fixed window of distance
//! samples and produces their integer mean and population standard
//! deviation, from which the per-position contact threshold is derived.
use vstd::prelude::*;

verus! {

/// Number of samples collected per scan position before the baseline
/// threshold is computed.
pub const SAMPLE_TARGET: u16 = 5;

/// Sum of a sequence of samples.
pub open spec fn sum_spec(s: Seq<u16>) -> int
    decreases s.len(),
{
    if s.len() == 0 {
        0
    } else {
        sum_spec(s.drop_last()) + s.last()
    }
}

/// Integer mean of a non-empty sequence of samples (truncating division).
pub open spec fn mean_spec(s: Seq<u16>) -> int {
    sum_spec(s) / (s.len() as int)
}

/// Sum of squared deviations from `mean`.
pub open spec fn sq_dev_sum_spec(s: Seq<u16>, mean: int) -> int
    decreases s.len(),
{
    if s.len() == 0 {
        0
    } else {
        sq_dev_sum_spec(s.drop_last(), mean) + (s.last() - mean) * (s.last() - mean)
    }
}

/// Integer population variance of a non-empty sequence of samples.
pub open spec fn variance_spec(s: Seq<u16>) -> int {
    sq_dev_sum_spec(s, mean_spec(s)) / (s.len() as int)
}

/// `r` is the integer square root of `v`.
pub open spec fn is_isqrt(v: int, r: int) -> bool {
    r * r <= v < (r + 1) * (r + 1)
}

/// The completed statistic of one calibration window: integer mean and
/// integer population standard deviation, in the same millimeter units as
/// the raw readings.
pub struct CalibrationPoint {
    /// Integer mean of the window.
    pub mean: u16,
    /// Integer square root of the integer population variance.
    pub stddev: u16,
}

/// `p` is the statistic of the sample window `s`.
pub open spec fn point_of(s: Seq<u16>, p: CalibrationPoint) -> bool {
    &&& p.mean == mean_spec(s)
    &&& is_isqrt(variance_spec(s), p.stddev as int)
}

/// The contact threshold derived from a statistic: `mean - 3 * stddev`,
/// clamped at zero. A reading below this one-sided lower control limit is
/// treated as a contact.
pub open spec fn threshold_spec(mean: int, stddev: int) -> int {
    if mean > 3 * stddev {
        mean - 3 * stddev
    } else {
        0
    }
}

/// Integer square root for values below `2^32`.
fn isqrt(v: u64) -> (r: u64)
    requires
        v < 0x1_0000_0000,
    ensures
        is_isqrt(v as int, r as int),
{
    let mut r: u64 = 0;
    loop
        invariant_except_break
            v < 0x1_0000_0000,
            r <= 0xffff,
            r * r <= v,
        ensures
            is_isqrt(v as int, r as int),
        decreases 0x1_0000 - r,
    {
        proof {
            assert((r + 1) * (r + 1) <= 0x1_0000_0000) by (nonlinear_arith)
                requires
                    r <= 0xffff,
            ;
        }
        let next: u64 = (r + 1) * (r + 1);
        if next > v {
            break;
        }
        proof {
            assert(r + 1 <= 0xffff) by (nonlinear_arith)
                requires
                    (r + 1) * (r + 1) <= v,
                    v < 0x1_0000_0000,
            ;
        }
        r = r + 1;
    }
    r
}

/// One calibration window: distance samples accumulated for a single scan
/// position, replaced once the window is complete.
pub struct Calibration {
    samples: Vec<u16>,
}

impl Calibration {
    /// The samples accumulated so far.
    pub closed spec fn view(&self) -> Seq<u16> {
        self.samples@
    }

    /// A fresh, empty window.
    pub fn new() -> (r: Calibration)
        ensures
            r@ =~= Seq::<u16>::empty(),
    {
        Calibration { samples: Vec::new() }
    }

    /// Append one distance observation.
    pub fn add_sample(&mut self, distance: u16)
        requires
            old(self)@.len() < SAMPLE_TARGET,
        ensures
            final(self)@ =~= old(self)@.push(distance),
    {
        self.samples.push(distance);
    }

    /// Number of samples accumulated so far.
    pub fn num_samples(&self) -> (r: u16)
        requires
            self@.len() <= SAMPLE_TARGET,
        ensures
            r == self@.len(),
    {
        self.samples.len() as u16
    }

    /// The completed statistic. Valid only once the window holds the fixed
    /// target count of samples.
    pub fn get_point(&self) -> (p: CalibrationPoint)
        requires
            self@.len() == SAMPLE_TARGET,
        ensures
            point_of(self@, p),
    {
        let n = self.samples.len();
        let mut sum: u32 = 0;
        let mut i: usize = 0;
        while i < n
            invariant
                n == self@.len() == SAMPLE_TARGET,
                i <= n,
                sum == sum_spec(self@.take(i as int)),
                sum <= i * 0xffff,
            decreases n - i,
        {
            proof {
                assert(self@.take(i + 1 as int).drop_last() =~= self@.take(i as int));
            }
            sum = sum + self.samples[i] as u32;
            i = i + 1;
        }
        proof {
            assert(self@.take(n as int) =~= self@);
        }
        let mean: u16 = (sum / SAMPLE_TARGET as u32) as u16;
        proof {
            assert(sum / 5 <= 0xffff) by (nonlinear_arith)
                requires
                    sum <= 5 * 0xffff,
            ;
        }

        let mut sq: u64 = 0;
        let mut i: usize = 0;
        while i < n
            invariant
                n == self@.len() == SAMPLE_TARGET,
                i <= n,
                sq == sq_dev_sum_spec(self@.take(i as int), mean as int),
                sq <= i * 0xffff_ffff,
        decreases n - i,
        {
            proof {
                assert(self@.take(i + 1 as int).drop_last() =~= self@.take(i as int));
            }
            let x = self.samples[i];
            let d: u64 = if x >= mean {
                (x - mean) as u64
            } else {
                (mean - x) as u64
            };
            proof {
                assert(d * d == (self@[i as int] - mean) * (self@[i as int] - mean))
                    by (nonlinear_arith)
                    requires
                        d == self@[i as int] - mean || d == mean - self@[i as int],
                ;
                assert(d * d <= 0xffff_ffff) by (nonlinear_arith)
                    requires
                        d <= 0xffff,
                ;
            }
            sq = sq + d * d;
            i = i + 1;
        }
        proof {
            assert(self@.take(n as int) =~= self@);
        }
        let variance: u64 = sq / SAMPLE_TARGET as u64;
        proof {
            assert(variance < 0x1_0000_0000) by (nonlinear_arith)
                requires
                    variance == sq / 5,
                    sq <= 5 * 0xffff_ffff,
            ;
        }
        let sd: u64 = isqrt(variance);
        proof {
            assert(sd <= 0xffff) by (nonlinear_arith)
                requires
                    sd * sd <= variance,
                    variance <= 0xffff_ffff,
            ;
        }
        let stddev: u16 = sd as u16;
        CalibrationPoint { mean, stddev }
    }
}

} // verus!
