//! Ranging / sweep state machine.
//!
//! Orchestrates the distance sensor and sweep servo through a per-position
//! calibration pass and continuous back-and-forth scanning. In baseline mode
//! each position collects a fixed window of samples whose statistic yields
//! that position's contact threshold; in scan mode each reading is compared
//! against the stored threshold and reported to the targeting collaborator.
//! The decisions are pure state transitions here; the caller performs the
//! sensor, servo and scheduling actions the returned outcome asks for.
use vstd::prelude::*;

use crate::calibration::{
    is_isqrt, mean_spec, point_of, threshold_spec, variance_spec, Calibration, SAMPLE_TARGET,
};

verus! {

/// Capacity of the baseline table: the maximum number of scan steps.
pub const MAX_STEPS: usize = 100;

/// Number of distance samples per calibration window.
pub const NUM_CALIBRATION_SAMPLES: u16 = 5;

/// Rejected inputs of the sweep configuration.
#[derive(Clone, Copy, Debug, PartialEq, Eq, Structural)]
pub enum Error {
    /// A calibration ratio greater than one was supplied.
    InvalidScale,
}

/// What one servo move did to the sweep direction.
#[derive(Clone, Copy, Debug, PartialEq, Eq, Structural)]
pub enum MoveResult {
    /// The sweep advanced one step in its current direction.
    SameDirection,
    /// The sweep reached an edge and flipped direction without moving.
    ChangeDirection,
}

/// Whether a calibration window is complete.
#[derive(Clone, Copy, Debug, PartialEq, Eq, Structural)]
pub enum CalibrationResult {
    /// The window still needs samples.
    NeedMoreData,
    /// The window is complete; the value is the position's contact threshold.
    Done(u16),
}

/// Sweep mode: (re)calibrating the current position, or actively scanning in
/// one of the two directions.
pub enum ScanMode {
    /// Collecting the baseline window for the current position.
    Baseline(Calibration),
    /// Scanning toward step zero.
    ScanDown,
    /// Scanning toward the top step.
    ScanUp,
}

/// One contact report handed to the targeting collaborator.
#[derive(Clone, Copy, Debug, PartialEq, Eq, Structural)]
pub struct Report {
    /// The scan step the reading was taken at.
    pub position: u16,
    /// Whether the reading fell below the position's baseline threshold.
    pub contact: bool,
}

/// What one sensor reading led to.
#[derive(Clone, Copy, Debug, PartialEq, Eq, Structural)]
pub enum ReadOutcome {
    /// The sensor had no data yet; re-check after the retry delay.
    NotReady,
    /// The calibration window needs more samples; read again after the
    /// inter-measurement delay, leaving the sensor ranging.
    CalibrationContinues,
    /// The position is done: stop the sensor, hand `report` (if any) to the
    /// targeting collaborator — resetting it first when the direction
    /// changed — then move the servo and schedule the next measurement.
    Advanced { report: Option<Report>, moved: MoveResult },
}

/// The integer square root of `v`.
pub open spec fn isqrt_spec(v: int) -> int {
    choose|r: int| 0 <= r && is_isqrt(v, r)
}

/// The integer square root predicate picks out a unique non-negative root.
pub proof fn lemma_isqrt_unique(v: int, r: int)
    requires
        0 <= r,
        is_isqrt(v, r),
    ensures
        isqrt_spec(v) == r,
{
    assert(exists|x: int| 0 <= x && is_isqrt(v, x)) by {
        assert(0 <= r && is_isqrt(v, r));
    }
    let rp = isqrt_spec(v);
    assert(rp == r) by (nonlinear_arith)
        requires
            0 <= r,
            0 <= rp,
            is_isqrt(v, r),
            is_isqrt(v, rp),
    ;
}

/// The contact threshold established by a complete calibration window:
/// `mean - 3 * stddev`, clamped at zero, over the window's integer statistic.
pub open spec fn threshold_of_window(s: Seq<u16>) -> int {
    threshold_spec(mean_spec(s), isqrt_spec(variance_spec(s)))
}

/// Number of sweep steps derived from the calibration potentiometer ratio
/// `numer / denom`: the ratio scaled against the maximum step count,
/// truncated. A ratio greater than one is rejected.
pub fn get_num_steps_from_angle_scale(numer: u16, denom: u16) -> (r: Result<usize, Error>)
    requires
        denom > 0,
    ensures
        match r {
            Ok(n) => numer <= denom && n == (MAX_STEPS * numer as int) / (denom as int),
            Err(e) => numer > denom && e == Error::InvalidScale,
        },
{
    if numer > denom {
        return Err(Error::InvalidScale);
    }
    proof {
        assert(MAX_STEPS * numer <= 6553500) by (nonlinear_arith)
            requires
                numer <= 0xffff,
        ;
    }
    let steps: u32 = MAX_STEPS as u32 * numer as u32 / denom as u32;
    proof {
        assert(100 * numer as int / denom as int <= 100) by (nonlinear_arith)
            requires
                0 < denom,
                numer <= denom,
        ;
    }
    Ok(steps as usize)
}

/// The ranging state machine: sweep mode, current position, sweep width, and
/// the per-position baseline threshold table.
pub struct Ranging {
    mode: ScanMode,
    current_step: usize,
    total_steps: usize,
    baseline: Vec<u16>,
}

impl Ranging {
    /// Current sweep mode.
    pub closed spec fn mode_spec(&self) -> ScanMode {
        self.mode
    }

    /// Current scan step.
    pub closed spec fn step_spec(&self) -> usize {
        self.current_step
    }

    /// Total number of sweep steps.
    pub closed spec fn total_spec(&self) -> usize {
        self.total_steps
    }

    /// The baseline threshold table.
    pub closed spec fn baseline_spec(&self) -> Seq<u16> {
        self.baseline@
    }

    /// Well-formedness: the step lies inside the sweep, the table has full
    /// capacity, and a pending calibration window is never already complete.
    pub open spec fn wf(&self) -> bool {
        &&& 1 <= self.total_spec() <= MAX_STEPS
        &&& self.step_spec() < self.total_spec()
        &&& self.baseline_spec().len() == MAX_STEPS
        &&& (self.mode_spec() matches ScanMode::Baseline(c) ==> c@.len() < SAMPLE_TARGET)
    }

    /// A fresh machine at step zero, calibrating, with a zeroed baseline
    /// table.
    pub fn new(total_steps: usize) -> (r: Ranging)
        requires
            1 <= total_steps <= MAX_STEPS,
        ensures
            r.wf(),
            r.total_spec() == total_steps,
            r.step_spec() == 0,
            (r.mode_spec() matches ScanMode::Baseline(c) && c@ =~= Seq::<u16>::empty()),
            r.baseline_spec() =~= Seq::new(MAX_STEPS as nat, |i: int| 0u16),
    {
        let mut baseline: Vec<u16> = Vec::new();
        let mut i: usize = 0;
        while i < MAX_STEPS
            invariant
                i <= MAX_STEPS,
                baseline@ =~= Seq::new(i as nat, |j: int| 0u16),
            decreases MAX_STEPS - i,
        {
            baseline.push(0);
            i = i + 1;
        }
        Ranging {
            mode: ScanMode::Baseline(Calibration::new()),
            current_step: 0,
            total_steps,
            baseline,
        }
    }

    /// Current scan step.
    pub fn current_step(&self) -> (r: usize)
        ensures
            r == self.step_spec(),
    {
        self.current_step
    }

    /// Total number of sweep steps.
    pub fn total_steps(&self) -> (r: usize)
        ensures
            r == self.total_spec(),
    {
        self.total_steps
    }

    /// Whether the sweep is scanning toward step zero.
    pub fn is_scan_down(&self) -> (r: bool)
        ensures
            r == (self.mode_spec() is ScanDown),
    {
        matches!(self.mode, ScanMode::ScanDown)
    }

    /// Whether the sweep is scanning toward the top step.
    pub fn is_scan_up(&self) -> (r: bool)
        ensures
            r == (self.mode_spec() is ScanUp),
    {
        matches!(self.mode, ScanMode::ScanUp)
    }

    /// Whether the current position is being calibrated.
    pub fn is_baseline(&self) -> (r: bool)
        ensures
            r == (self.mode_spec() is Baseline),
    {
        matches!(self.mode, ScanMode::Baseline(_))
    }

    /// The stored baseline threshold for a step.
    pub fn baseline_at(&self, step: usize) -> (r: u16)
        requires
            step < self.baseline_spec().len(),
        ensures
            r == self.baseline_spec()[step as int],
    {
        self.baseline[step]
    }

    /// Feed one distance sample to a calibration window; once the window is
    /// complete, report the position's contact threshold.
    pub fn process_calibration(calibration: &mut Calibration, distance: u16) -> (r:
        CalibrationResult)
        requires
            old(calibration)@.len() < SAMPLE_TARGET,
        ensures
            final(calibration)@ =~= old(calibration)@.push(distance),
            ({
                let s = old(calibration)@.push(distance);
                if s.len() == SAMPLE_TARGET {
                    r == CalibrationResult::Done(threshold_of_window(s) as u16)
                } else {
                    r == CalibrationResult::NeedMoreData
                }
            }),
    {
        calibration.add_sample(distance);

        if calibration.num_samples() == NUM_CALIBRATION_SAMPLES {
            let point = calibration.get_point();
            proof {
                lemma_isqrt_unique(variance_spec(calibration@), point.stddev as int);
            }
            let buffer: u32 = 3 * point.stddev as u32;
            let threshold: u16 = if point.mean as u32 > buffer {
                point.mean - buffer as u16
            } else {
                0
            };
            CalibrationResult::Done(threshold)
        } else {
            CalibrationResult::NeedMoreData
        }
    }

    /// Compare one reading against the stored baseline threshold of the
    /// current step and build the contact report for the targeting
    /// collaborator.
    pub fn process_scan(&self, distance: u16) -> (r: Report)
        requires
            self.wf(),
        ensures
            r.position == self.step_spec(),
            r.contact == (distance < self.baseline_spec()[self.step_spec() as int]),
    {
        Report {
            position: self.current_step as u16,
            contact: distance < self.baseline[self.current_step],
        }
    }

    /// Advance the sweep one step in its current direction, or flip the
    /// direction — without moving — when the sweep is at an edge: at step
    /// zero scanning down, or at the top step otherwise.
    pub fn move_servo(&mut self) -> (r: MoveResult)
        requires
            old(self).wf(),
        ensures
            final(self).wf(),
            final(self).total_spec() == old(self).total_spec(),
            final(self).baseline_spec() == old(self).baseline_spec(),
            (match old(self).mode_spec() {
                ScanMode::ScanDown => {
                    if old(self).step_spec() == 0 {
                        &&& r == MoveResult::ChangeDirection
                        &&& final(self).mode_spec() == ScanMode::ScanUp
                        &&& final(self).step_spec() == old(self).step_spec()
                    } else {
                        &&& r == MoveResult::SameDirection
                        &&& final(self).mode_spec() == ScanMode::ScanDown
                        &&& final(self).step_spec() == old(self).step_spec() - 1
                    }
                },
                _ => {
                    if old(self).step_spec() == old(self).total_spec() - 1 {
                        &&& r == MoveResult::ChangeDirection
                        &&& final(self).mode_spec() == ScanMode::ScanDown
                        &&& final(self).step_spec() == old(self).step_spec()
                    } else {
                        &&& r == MoveResult::SameDirection
                        &&& final(self).mode_spec() == old(self).mode_spec()
                        &&& final(self).step_spec() == old(self).step_spec() + 1
                    }
                },
            }),
    {
        let mut result = MoveResult::SameDirection;

        if matches!(self.mode, ScanMode::ScanDown) {
            if self.current_step == 0 {
                self.mode = ScanMode::ScanUp;
                result = MoveResult::ChangeDirection;
            } else {
                self.current_step = self.current_step - 1;
            }
        } else {
            if self.current_step == self.total_steps - 1 {
                self.mode = ScanMode::ScanDown;
                result = MoveResult::ChangeDirection;
            } else {
                self.current_step = self.current_step + 1;
            }
        }

        result
    }

    /// Handle the outcome of one measurement cycle. `ready` is the sensor's
    /// data-ready flag; `distance` is the reading (meaningful only when
    /// ready). In baseline mode the reading feeds the calibration window and,
    /// once the window completes, its threshold is stored for the current
    /// step and a fresh window begins at the next position. In scan mode the
    /// reading becomes a contact report for the current step. Either way the
    /// sweep then advances (or reverses at an edge).
    pub fn read_sensor(&mut self, ready: bool, distance: u16) -> (r: ReadOutcome)
        requires
            old(self).wf(),
        ensures
            final(self).wf(),
            final(self).total_spec() == old(self).total_spec(),
            !ready ==> r == ReadOutcome::NotReady && *final(self) == *old(self),
            ready ==> (match old(self).mode_spec() {
                ScanMode::Baseline(c) => {
                    let s = c@.push(distance);
                    if s.len() < SAMPLE_TARGET {
                        &&& r == ReadOutcome::CalibrationContinues
                        &&& (final(self).mode_spec() matches ScanMode::Baseline(c2) && c2@ =~= s)
                        &&& final(self).step_spec() == old(self).step_spec()
                        &&& final(self).baseline_spec() == old(self).baseline_spec()
                    } else {
                        &&& (r matches ReadOutcome::Advanced { report, moved } && report is None
                            && moved == after_advance_moved(*old(self)))
                        &&& final(self).baseline_spec() =~= old(self).baseline_spec().update(
                            old(self).step_spec() as int,
                            threshold_of_window(s) as u16,
                        )
                        &&& advanced_from_baseline(*old(self), *final(self))
                    }
                },
                _ => {
                    &&& (r matches ReadOutcome::Advanced { report, moved } && report == Some(
                        Report {
                            position: old(self).step_spec() as u16,
                            contact: distance < old(self).baseline_spec()[old(
                                self,
                            ).step_spec() as int],
                        },
                    ) && moved == after_advance_moved(*old(self)))
                    &&& final(self).baseline_spec() == old(self).baseline_spec()
                    &&& advanced_from_scan(*old(self), *final(self))
                },
            }),
    {
        if !ready {
            return ReadOutcome::NotReady;
        }

        let mut mode = ScanMode::ScanDown;
        core::mem::swap(&mut mode, &mut self.mode);

        match mode {
            ScanMode::Baseline(mut calibration) => {
                match Self::process_calibration(&mut calibration, distance) {
                    CalibrationResult::Done(threshold) => {
                        self.baseline.set(self.current_step, threshold);
                        self.mode = ScanMode::Baseline(Calibration::new());
                        let moved = self.move_servo();
                        ReadOutcome::Advanced { report: None, moved }
                    },
                    CalibrationResult::NeedMoreData => {
                        self.mode = ScanMode::Baseline(calibration);
                        ReadOutcome::CalibrationContinues
                    },
                }
            },
            other => {
                self.mode = other;
                let report = self.process_scan(distance);
                let moved = self.move_servo();
                ReadOutcome::Advanced { report: Some(report), moved }
            },
        }
    }
}

/// The move result produced when the sweep advances from the given state: a
/// direction change exactly at an edge.
pub open spec fn after_advance_moved(pre: Ranging) -> MoveResult {
    match pre.mode_spec() {
        ScanMode::ScanDown => {
            if pre.step_spec() == 0 {
                MoveResult::ChangeDirection
            } else {
                MoveResult::SameDirection
            }
        },
        _ => {
            if pre.step_spec() == pre.total_spec() - 1 {
                MoveResult::ChangeDirection
            } else {
                MoveResult::SameDirection
            }
        },
    }
}

/// Mode and step after a completed baseline window: the window restarts
/// fresh and the sweep advances upward, flipping to the downward scan at the
/// top edge.
pub open spec fn advanced_from_baseline(pre: Ranging, post: Ranging) -> bool {
    if pre.step_spec() == pre.total_spec() - 1 {
        &&& post.mode_spec() == ScanMode::ScanDown
        &&& post.step_spec() == pre.step_spec()
    } else {
        &&& (post.mode_spec() matches ScanMode::Baseline(c) && c@ =~= Seq::<u16>::empty())
        &&& post.step_spec() == pre.step_spec() + 1
    }
}

/// Mode and step after a scan reading: one step further in the current
/// direction, or a direction flip at either edge.
pub open spec fn advanced_from_scan(pre: Ranging, post: Ranging) -> bool {
    match pre.mode_spec() {
        ScanMode::ScanDown => {
            if pre.step_spec() == 0 {
                post.mode_spec() == ScanMode::ScanUp && post.step_spec() == 0
            } else {
                post.mode_spec() == ScanMode::ScanDown && post.step_spec() == pre.step_spec() - 1
            }
        },
        _ => {
            if pre.step_spec() == pre.total_spec() - 1 {
                post.mode_spec() == ScanMode::ScanDown && post.step_spec() == pre.step_spec()
            } else {
                post.mode_spec() == pre.mode_spec() && post.step_spec() == pre.step_spec() + 1
            }
        },
    }
}

} // verus!
