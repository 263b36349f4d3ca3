//! Servo duty-cycle arithmetic.
//!
//! A hobby servo is positioned by a PWM pulse between one and two
//! milliseconds wide. [`Bounds`] computes the duty-cycle counts for those
//! pulse widths from the PWM period and maximum duty, optionally shrunk
//! around the midpoint by a calibration ratio; [`Servo`] maps a position
//! ratio in `[0, 1]` onto that range. All arithmetic is exact rational
//! arithmetic carried out in integers, truncated only at the final result.
use vstd::prelude::*;

verus! {

/// Rejected inputs of the duty-cycle computations.
#[derive(Clone, Copy, Debug, PartialEq, Eq, Structural)]
pub enum Error {
    /// The PWM period was zero.
    ZeroPeriod,
    /// The two-millisecond pulse would not fit in the PWM period.
    UpperBoundOverflow,
    /// A ratio greater than one was supplied.
    InvalidArgument,
}

/// A servo position as a ratio `numer / denom` of the full sweep.
#[derive(Clone, Copy, Debug, PartialEq, Eq, Structural)]
pub struct ServoTarget {
    /// Numerator of the position ratio.
    pub numer: u16,
    /// Denominator of the position ratio.
    pub denom: u16,
}

/// Duty-cycle window of a servo: the count for the low end of its travel and
/// the width of the travel in counts.
#[derive(Clone, Copy, Debug, PartialEq, Eq, Structural)]
pub struct Bounds {
    /// Duty count of the low end of the travel.
    pub lower_bound: u16,
    /// Width of the travel in duty counts.
    pub width: u16,
}

impl Bounds {
    /// The full one-to-two-millisecond bounds for a PWM with the given
    /// maximum duty count and period in milliseconds: the lower bound and
    /// width are each one millisecond's worth of duty counts. Rejected when
    /// the period is zero, or when two milliseconds would exceed the period.
    pub fn from_period_ms(max_duty: u16, period_ms: u16) -> (r: Result<Bounds, Error>)
        ensures
            match r {
                Ok(b) => {
                    &&& period_ms > 0
                    &&& !(max_duty > 0 && period_ms < 2)
                    &&& b.lower_bound == max_duty as int / period_ms as int
                    &&& b.width == max_duty as int / period_ms as int
                },
                Err(Error::ZeroPeriod) => period_ms == 0,
                Err(Error::UpperBoundOverflow) => period_ms == 1 && max_duty > 0,
                Err(Error::InvalidArgument) => false,
            },
    {
        if period_ms == 0 {
            return Err(Error::ZeroPeriod);
        }
        if max_duty > 0 && period_ms < 2 {
            return Err(Error::UpperBoundOverflow);
        }
        let bound = max_duty / period_ms;
        Ok(Bounds { lower_bound: bound, width: bound })
    }

    /// The one-to-two-millisecond bounds shrunk symmetrically around their
    /// midpoint by the ratio `numer / denom`: the width becomes that fraction
    /// of a millisecond's worth of duty counts. A ratio greater than one is
    /// rejected.
    pub fn scale_from_period_ms(max_duty: u16, period_ms: u16, numer: u16, denom: u16) -> (r:
        Result<Bounds, Error>)
        requires
            denom > 0,
        ensures
            match r {
                Ok(b) => {
                    &&& period_ms > 0
                    &&& !(max_duty > 0 && period_ms < 2)
                    &&& numer <= denom
                    &&& b.lower_bound == max_duty * (3 * denom - numer) / (2 * period_ms * denom)
                    &&& b.width == max_duty * numer as int / (period_ms * denom)
                },
                Err(Error::ZeroPeriod) => period_ms == 0,
                Err(Error::UpperBoundOverflow) => period_ms == 1 && max_duty > 0,
                Err(Error::InvalidArgument) => period_ms > 0 && !(max_duty > 0 && period_ms < 2)
                    && numer > denom,
            },
    {
        if period_ms == 0 {
            return Err(Error::ZeroPeriod);
        }
        if max_duty > 0 && period_ms < 2 {
            return Err(Error::UpperBoundOverflow);
        }
        if numer > denom {
            return Err(Error::InvalidArgument);
        }

        let m = max_duty as u64;
        let p = period_ms as u64;
        let n = numer as u64;
        let d = denom as u64;

        proof {
            assert(m * (3 * d - n) <= 0xffff * (3 * 0xffff) && m * n <= 0xffff * 0xffff && 0 < 2
                * p * d <= 2 * 0xffff * 0xffff && 0 < p * d <= 0xffff * 0xffff) by (
            nonlinear_arith)
                requires
                    m <= 0xffff,
                    n <= d,
                    0 < d <= 0xffff,
                    0 < p <= 0xffff,
            ;
        }
        let lower_num: u64 = m * (3 * d - n);
        let lower_den: u64 = 2 * p * d;
        let lower: u64 = lower_num / lower_den;

        let width_num: u64 = m * n;
        let width_den: u64 = p * d;
        let width: u64 = width_num / width_den;

        proof {
            assert(lower <= 0xffff && width <= 0xffff) by (nonlinear_arith)
                requires
                    lower == m * (3 * d - n) / (2 * p * d),
                    width == m * n / (p * d),
                    m <= 0xffff,
                    n <= d,
                    0 < d,
                    2 <= p || m == 0,
                    0 < p,
            ;
        }
        Ok(Bounds { lower_bound: lower as u16, width: width as u16 })
    }
}

/// A positional servo: its duty-cycle window, the duty it is currently
/// commanded to, and whether its PWM output is enabled.
pub struct Servo {
    bounds: Bounds,
    duty: u16,
    enabled: bool,
}

impl Servo {
    /// The servo's duty-cycle window.
    pub closed spec fn bounds_spec(&self) -> Bounds {
        self.bounds
    }

    /// The duty count the servo is currently commanded to.
    pub closed spec fn duty_spec(&self) -> u16 {
        self.duty
    }

    /// Whether the PWM output is enabled.
    pub closed spec fn enabled_spec(&self) -> bool {
        self.enabled
    }

    /// The window fits the 16-bit duty domain.
    pub open spec fn wf(&self) -> bool {
        self.bounds_spec().lower_bound + self.bounds_spec().width <= u16::MAX
    }

    /// A servo over the given duty window, commanded to its low end,
    /// disabled.
    pub fn new(bounds: Bounds) -> (r: Servo)
        requires
            bounds.lower_bound + bounds.width <= u16::MAX,
        ensures
            r.wf(),
            r.bounds_spec() == bounds,
            r.duty_spec() == bounds.lower_bound,
            !r.enabled_spec(),
    {
        Servo { bounds, duty: bounds.lower_bound, enabled: false }
    }

    /// Enable the PWM output.
    pub fn enable(&mut self)
        ensures
            final(self).bounds_spec() == old(self).bounds_spec(),
            final(self).duty_spec() == old(self).duty_spec(),
            final(self).enabled_spec(),
    {
        self.enabled = true;
    }

    /// Disable the PWM output.
    pub fn disable(&mut self)
        ensures
            final(self).bounds_spec() == old(self).bounds_spec(),
            final(self).duty_spec() == old(self).duty_spec(),
            !final(self).enabled_spec(),
    {
        self.enabled = false;
    }

    /// The duty count for a position ratio `numer / denom` of the travel:
    /// the lower bound plus that fraction of the width, truncated. A ratio
    /// greater than one is rejected.
    pub fn calculate_duty(&self, numer: u16, denom: u16) -> (r: Result<u16, Error>)
        requires
            self.wf(),
            denom > 0,
        ensures
            match r {
                Ok(duty) => numer <= denom && duty == self.bounds_spec().lower_bound
                    + self.bounds_spec().width * numer as int / (denom as int),
                Err(e) => numer > denom && e == Error::InvalidArgument,
            },
    {
        if numer > denom {
            return Err(Error::InvalidArgument);
        }

        proof {
            assert(self.bounds.width * numer <= 0xffff * 0xffff) by (nonlinear_arith)
                requires
                    self.bounds.width <= 0xffff,
                    numer <= 0xffff,
            ;
        }
        let shift: u64 = self.bounds.width as u64 * numer as u64 / denom as u64;
        proof {
            assert(shift <= self.bounds.width) by (nonlinear_arith)
                requires
                    shift == self.bounds.width * numer as int / (denom as int),
                    numer <= denom,
                    0 < denom,
            ;
        }
        Ok(self.bounds.lower_bound + shift as u16)
    }

    /// Command the servo to a position ratio of its travel. A ratio greater
    /// than one is rejected and leaves the commanded duty unchanged.
    pub fn set(&mut self, target: ServoTarget) -> (r: Result<(), Error>)
        requires
            old(self).wf(),
            target.denom > 0,
        ensures
            final(self).wf(),
            final(self).bounds_spec() == old(self).bounds_spec(),
            final(self).enabled_spec() == old(self).enabled_spec(),
            match r {
                Ok(()) => target.numer <= target.denom && final(self).duty_spec() == old(
                    self,
                ).bounds_spec().lower_bound + old(self).bounds_spec().width * target.numer as int
                    / (target.denom as int),
                Err(e) => target.numer > target.denom && e == Error::InvalidArgument
                    && final(self).duty_spec() == old(self).duty_spec(),
            },
    {
        match self.calculate_duty(target.numer, target.denom) {
            Ok(duty) => {
                self.duty = duty;
                Ok(())
            },
            Err(e) => Err(e),
        }
    }
}

} // verus!
