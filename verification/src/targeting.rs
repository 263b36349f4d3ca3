//! Target-lock tracking state machine.
//!
//! Consumes per-step contact reports from the ranging sweep, acquires a lock
//! once a contact spans the lock-acquisition width, tracks the target while
//! contact is reaffirmed, and breaks the lock when the contact diverges
//! outward from the locked arc. Side effects — the LED, the laser, the lock
//! servo, the sounds, and the deferred laser-off / target-lost timers — are
//! returned as plain values for the caller to perform.
use vstd::prelude::*;

use crate::audio::Sound;
use crate::servo::ServoTarget;
use crate::time::{ticks_between, Instant};

verus! {

/// A lock is acquired when a contact's extent reaches exactly this many
/// steps.
pub const MIN_TARGET_LOCK_RANGE: u16 = 8;

/// A lock breaks when a no-contact report diverges at least this many steps
/// outward from the locked arc.
pub const MAX_TARGET_BREAK_RANGE: u16 = 4;

/// Ticks the laser stays on after the last contact reaffirmation.
pub const LASER_OFF_DELAY_TICKS: u32 = 500;

/// Ticks after laser-off before the target is declared lost.
pub const TARGET_LOST_DELAY_TICKS: u32 = 6000;

/// A new lock within this many ticks of the last release is a restored
/// contact rather than a fresh acquisition.
pub const TARGET_ACQUIRED_INTERVAL_TICKS: u32 = 3000;

/// The tracker's current belief about a target.
#[derive(Clone, Copy, Debug, PartialEq, Eq, Structural)]
pub enum TargetState {
    /// No contact seen.
    NoContact,
    /// A contact was seen but does not span the lock width yet.
    EarlyContact {
        /// Step of the first contact.
        start_position: u16,
    },
    /// A target is locked between the two positions.
    Lock {
        /// Step where the contact began.
        start_position: u16,
        /// Most recent contact step.
        end_position: u16,
    },
}

/// The side effects one contact report asks the caller to perform.
#[derive(Clone, Copy, Debug, PartialEq, Eq, Structural)]
pub struct ReportEffects {
    /// Level to drive the contact-indicator LED to: high on any contact
    /// report, low otherwise, independent of lock state.
    pub led: bool,
    /// When set: aim the lock servo at this position, illuminate the laser,
    /// re-arm the laser-off timer `LASER_OFF_DELAY_TICKS` from now, and
    /// cancel a pending target-lost timer.
    pub aim: Option<ServoTarget>,
    /// Sound cue to play, if any.
    pub sound: Option<Sound>,
}

/// Midpoint of the arc between two steps.
pub open spec fn midpoint_spec(a: u16, b: u16) -> int {
    let low = if a < b {
        a as int
    } else {
        b as int
    };
    let high = if a < b {
        b as int
    } else {
        a as int
    };
    low + (high - low) / 2
}

/// Whether a no-contact report at `position` breaks a lock spanning `start`
/// to `end`: only a divergence of at least the break width outward from the
/// locked arc — on the side away from `start` — breaks it.
pub open spec fn lock_break_spec(start: u16, end: u16, position: u16) -> bool {
    if start < end {
        position - end >= MAX_TARGET_BREAK_RANGE
    } else {
        end - position >= MAX_TARGET_BREAK_RANGE
    }
}

/// State transition for a contact report.
pub open spec fn contact_transition(pre: TargetState, position: u16) -> TargetState {
    match pre {
        TargetState::NoContact => TargetState::EarlyContact { start_position: position },
        TargetState::EarlyContact { start_position } => {
            if abs_diff_spec(start_position, position) == MIN_TARGET_LOCK_RANGE {
                TargetState::Lock { start_position, end_position: position }
            } else {
                pre
            }
        },
        TargetState::Lock { start_position, end_position } => TargetState::Lock {
            start_position,
            end_position: position,
        },
    }
}

/// State transition for a no-contact report.
pub open spec fn no_contact_transition(pre: TargetState, position: u16) -> TargetState {
    match pre {
        TargetState::NoContact => pre,
        TargetState::EarlyContact { .. } => TargetState::NoContact,
        TargetState::Lock { start_position, end_position } => {
            if lock_break_spec(start_position, end_position, position) {
                TargetState::NoContact
            } else {
                pre
            }
        },
    }
}

/// Absolute difference of two steps.
pub open spec fn abs_diff_spec(a: u16, b: u16) -> int {
    if a < b {
        b - a
    } else {
        a - b
    }
}

/// The target tracker: its belief state, the instant the laser last went
/// off, and the sweep width its positions live in.
pub struct Targeting {
    target_state: TargetState,
    last_lock: Instant,
    total_steps: u16,
}

impl Targeting {
    /// Current belief state.
    pub closed spec fn state_spec(&self) -> TargetState {
        self.target_state
    }

    /// Instant the laser last went off (initially boot).
    pub closed spec fn last_lock_spec(&self) -> Instant {
        self.last_lock
    }

    /// Sweep width the reported positions live in.
    pub closed spec fn total_spec(&self) -> u16 {
        self.total_steps
    }

    /// Positions recorded in the state lie inside the sweep.
    pub open spec fn wf(&self) -> bool {
        &&& self.total_spec() >= 1
        &&& (self.state_spec() matches TargetState::EarlyContact { start_position } ==> start_position
            < self.total_spec())
        &&& (self.state_spec() matches TargetState::Lock { start_position, end_position } ==> (
        start_position < self.total_spec() && end_position < self.total_spec()))
    }

    /// A fresh tracker: no contact, laser-off instant at boot.
    pub fn new(total_steps: u16) -> (r: Targeting)
        requires
            total_steps >= 1,
        ensures
            r.wf(),
            r.state_spec() == TargetState::NoContact,
            r.last_lock_spec() == (Instant { ticks: 0 }),
            r.total_spec() == total_steps,
    {
        Targeting {
            target_state: TargetState::NoContact,
            last_lock: Instant::from_ticks(0),
            total_steps,
        }
    }

    /// Current belief state.
    pub fn state(&self) -> (r: TargetState)
        ensures
            r == self.state_spec(),
    {
        self.target_state
    }

    /// Instant the laser last went off.
    pub fn last_lock(&self) -> (r: Instant)
        ensures
            r == self.last_lock_spec(),
    {
        self.last_lock
    }

    /// Force the belief back to no-contact. Called by the ranging sweep on a
    /// direction reversal, when any partial lock context has become stale.
    pub fn reset(&mut self)
        ensures
            final(self).state_spec() == TargetState::NoContact,
            final(self).last_lock_spec() == old(self).last_lock_spec(),
            final(self).total_spec() == old(self).total_spec(),
            old(self).wf() ==> final(self).wf(),
    {
        self.target_state = TargetState::NoContact;
    }

    /// The laser-off timer fired: the caller turns the laser off and plays
    /// the returned sound; the release instant is recorded and the
    /// target-lost timer must be armed `TARGET_LOST_DELAY_TICKS` from now.
    pub fn laser_off(&mut self, now: Instant) -> (r: Sound)
        ensures
            final(self).state_spec() == old(self).state_spec(),
            final(self).total_spec() == old(self).total_spec(),
            final(self).last_lock_spec() == now,
            r == Sound::ContactLost,
            old(self).wf() ==> final(self).wf(),
    {
        self.last_lock = now;
        Sound::ContactLost
    }

    /// The target-lost timer fired: the caller plays the returned sound.
    pub fn target_lost(&self) -> (r: Sound)
        ensures
            r == Sound::TargetLost,
    {
        Sound::TargetLost
    }

    /// Enter (or re-center) a lock between the two positions and build the
    /// aim effect at the arc's midpoint.
    fn set_lock(&mut self, start_position: u16, end_position: u16) -> (r: ServoTarget)
        requires
            old(self).wf(),
            start_position < old(self).total_spec(),
            end_position < old(self).total_spec(),
        ensures
            final(self).wf(),
            final(self).total_spec() == old(self).total_spec(),
            final(self).last_lock_spec() == old(self).last_lock_spec(),
            final(self).state_spec() == (TargetState::Lock { start_position, end_position }),
            r.numer == midpoint_spec(start_position, end_position),
            r.denom == old(self).total_spec(),
    {
        self.target_state = TargetState::Lock { start_position, end_position };

        let low_side = if start_position < end_position {
            start_position
        } else {
            end_position
        };
        let high_side = if start_position < end_position {
            end_position
        } else {
            start_position
        };

        ServoTarget { numer: low_side + (high_side - low_side) / 2, denom: self.total_steps }
    }

    /// A contact was seen at `position`.
    fn process_contact(&mut self, position: u16, now: Instant) -> (r: ReportEffects)
        requires
            old(self).wf(),
            position < old(self).total_spec(),
        ensures
            final(self).wf(),
            final(self).total_spec() == old(self).total_spec(),
            final(self).last_lock_spec() == old(self).last_lock_spec(),
            final(self).state_spec() == contact_transition(old(self).state_spec(), position),
            r.led,
            (match old(self).state_spec() {
                TargetState::NoContact => r.aim is None && r.sound is None,
                TargetState::EarlyContact { start_position } => {
                    if abs_diff_spec(start_position, position) == MIN_TARGET_LOCK_RANGE {
                        &&& r.aim == Some(
                            ServoTarget {
                                numer: midpoint_spec(start_position, position) as u16,
                                denom: old(self).total_spec(),
                            },
                        )
                        &&& r.sound == Some(
                            if ticks_between(old(self).last_lock_spec().ticks, now.ticks)
                                >= TARGET_ACQUIRED_INTERVAL_TICKS {
                                Sound::TargetAcquired
                            } else {
                                Sound::ContactRestored
                            },
                        )
                    } else {
                        r.aim is None && r.sound is None
                    }
                },
                TargetState::Lock { start_position, .. } => {
                    &&& r.aim == Some(
                        ServoTarget {
                            numer: midpoint_spec(start_position, position) as u16,
                            denom: old(self).total_spec(),
                        },
                    )
                    &&& r.sound is None
                },
            }),
    {
        match self.target_state {
            TargetState::NoContact => {
                self.target_state = TargetState::EarlyContact { start_position: position };
                ReportEffects { led: true, aim: None, sound: None }
            },
            TargetState::EarlyContact { start_position } => {
                let low_side = if start_position < position {
                    start_position
                } else {
                    position
                };
                let high_side = if start_position < position {
                    position
                } else {
                    start_position
                };

                if high_side - low_side == MIN_TARGET_LOCK_RANGE {
                    let sound = if now.since(self.last_lock).ticks()
                        >= TARGET_ACQUIRED_INTERVAL_TICKS {
                        Sound::TargetAcquired
                    } else {
                        Sound::ContactRestored
                    };
                    let aim = self.set_lock(start_position, position);
                    ReportEffects { led: true, aim: Some(aim), sound: Some(sound) }
                } else {
                    ReportEffects { led: true, aim: None, sound: None }
                }
            },
            TargetState::Lock { start_position, end_position: _ } => {
                let aim = self.set_lock(start_position, position);
                ReportEffects { led: true, aim: Some(aim), sound: None }
            },
        }
    }

    /// No contact was seen at `position`.
    fn process_no_contact(&mut self, position: u16) -> (r: ReportEffects)
        requires
            old(self).wf(),
        ensures
            final(self).wf(),
            final(self).total_spec() == old(self).total_spec(),
            final(self).last_lock_spec() == old(self).last_lock_spec(),
            final(self).state_spec() == no_contact_transition(old(self).state_spec(), position),
            !r.led,
            r.aim is None,
            r.sound is None,
    {
        match self.target_state {
            TargetState::NoContact => {},
            TargetState::EarlyContact { start_position: _ } => {
                self.target_state = TargetState::NoContact;
            },
            TargetState::Lock { start_position, end_position } => {
                let lock_break = if start_position < end_position {
                    position >= end_position && position - end_position >= MAX_TARGET_BREAK_RANGE
                } else {
                    position <= end_position && end_position - position >= MAX_TARGET_BREAK_RANGE
                };

                if lock_break {
                    self.target_state = TargetState::NoContact;
                }
            },
        }
        ReportEffects { led: false, aim: None, sound: None }
    }

    /// The main transition function: handle one `(position, contact)` report
    /// from the ranging sweep at instant `now`, returning the side effects
    /// for the caller to perform.
    pub fn report(&mut self, position: u16, contact: bool, now: Instant) -> (r: ReportEffects)
        requires
            old(self).wf(),
            position < old(self).total_spec(),
        ensures
            final(self).wf(),
            final(self).total_spec() == old(self).total_spec(),
            final(self).last_lock_spec() == old(self).last_lock_spec(),
            final(self).state_spec() == (if contact {
                contact_transition(old(self).state_spec(), position)
            } else {
                no_contact_transition(old(self).state_spec(), position)
            }),
            r.led == contact,
            !contact ==> r.aim is None && r.sound is None,
            contact ==> (match old(self).state_spec() {
                TargetState::NoContact => r.aim is None && r.sound is None,
                TargetState::EarlyContact { start_position } => {
                    if abs_diff_spec(start_position, position) == MIN_TARGET_LOCK_RANGE {
                        &&& r.aim == Some(
                            ServoTarget {
                                numer: midpoint_spec(start_position, position) as u16,
                                denom: old(self).total_spec(),
                            },
                        )
                        &&& r.sound == Some(
                            if ticks_between(old(self).last_lock_spec().ticks, now.ticks)
                                >= TARGET_ACQUIRED_INTERVAL_TICKS {
                                Sound::TargetAcquired
                            } else {
                                Sound::ContactRestored
                            },
                        )
                    } else {
                        r.aim is None && r.sound is None
                    }
                },
                TargetState::Lock { start_position, .. } => {
                    &&& r.aim == Some(
                        ServoTarget {
                            numer: midpoint_spec(start_position, position) as u16,
                            denom: old(self).total_spec(),
                        },
                    )
                    &&& r.sound is None
                },
            }),
    {
        if contact {
            self.process_contact(position, now)
        } else {
            self.process_no_contact(position)
        }
    }
}

} // verus!
