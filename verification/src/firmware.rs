//! Coordination of the three state machines over the event scheduler.
//!
//! The firmware owns the scheduler and the ranging, targeting and audio
//! machines. Five events are bound at start-up; each handler applies one
//! event's decisions — re-arming events, feeding contact reports from
//! ranging to targeting and sound requests from targeting to audio — and
//! returns the hardware actions for the caller (the unverified run loop) to
//! perform. A direction reversal of the sweep resets the targeting state;
//! every timing re-arm uses the delays of the measurement protocol.
use vstd::prelude::*;

use crate::audio::{play_post, Audio, AudioStep, PlayOutcome, PlayState, Sound};
use crate::event::{Event, EventQueue, EventState};
use crate::ranging::{MoveResult, Ranging, ReadOutcome, Report, MAX_STEPS};
use crate::servo::ServoTarget;
use crate::simplefs::{Error, Storage};
use crate::targeting::{ReportEffects, Targeting};
use crate::time::{wrap_add, Duration, Instant};

verus! {

/// Handle of the event that starts a measurement.
pub const START_RANGING_EVENT: usize = 0;

/// Handle of the event that polls and reads the sensor.
pub const READ_SENSOR_EVENT: usize = 1;

/// Handle of the deferred laser-off event.
pub const LASER_OFF_EVENT: usize = 2;

/// Handle of the deferred target-lost event.
pub const TARGET_LOST_EVENT: usize = 3;

/// Handle of the buffer-consumed event posted by the transfer-complete
/// interrupt.
pub const PLAY_NEXT_BUFFER_EVENT: usize = 4;

/// Number of bound events.
pub const NUM_EVENTS: usize = 5;

/// Ticks the sensor needs for one measurement (100 ms).
pub const SENSOR_TIMING_BUDGET_TICKS: u32 = 10;

/// Ticks between calibration measurements (120 ms).
pub const SENSOR_INTERMEASUREMENT_TICKS: u32 = 12;

/// Ticks before re-polling a sensor that was not ready (10 ms).
pub const SENSOR_RETRY_TICKS: u32 = 1;

/// Ticks the sweep servo gets to reach its zero position at start-up
/// (500 ms).
pub const SERVO_RESET_TICKS: u32 = 50;

/// Ticks the sweep servo gets to settle after a step (100 ms).
pub const SERVO_STEP_TICKS: u32 = 10;

/// An event armed at a deadline, with no period.
pub open spec fn armed_at(t: u32) -> Event {
    Event { state: EventState::PendingAt(t), period: None }
}

/// An event posted for immediate dispatch, with no period.
pub open spec fn posted() -> Event {
    Event { state: EventState::PendingImmediate, period: None }
}

/// An idle event with no period.
pub open spec fn idle_event() -> Event {
    Event { state: EventState::Idle, period: None }
}

/// The hardware actions one sensor-read event asks for.
pub struct ReadEffects {
    /// What the reading did to the sweep.
    pub outcome: ReadOutcome,
    /// Stop the sensor (the position is done).
    pub sensor_stop: bool,
    /// Move the sweep servo here.
    pub sweep_servo: Option<ServoTarget>,
    /// LED, laser and lock-servo actions from the targeting machine.
    pub report: Option<ReportEffects>,
    /// What a triggered sound request did.
    pub play: Option<PlayOutcome>,
}

/// The firmware core: the scheduler and the three state machines.
pub struct Firmware<S: Storage> {
    queue: EventQueue,
    ranging: Ranging,
    targeting: Targeting,
    audio: Audio<S>,
}

impl<S: Storage> Firmware<S> {
    /// The bound events.
    pub closed spec fn queue_spec(&self) -> Seq<Event> {
        self.queue@
    }

    /// The ranging machine.
    pub closed spec fn ranging_spec(&self) -> Ranging {
        self.ranging
    }

    /// The targeting machine.
    pub closed spec fn targeting_spec(&self) -> Targeting {
        self.targeting
    }

    /// The audio machine.
    pub closed spec fn audio_spec(&self) -> Audio<S> {
        self.audio
    }

    /// All five events are bound and none is periodic; the machines are
    /// well-formed and agree on the sweep width.
    pub open spec fn wf(&self) -> bool {
        &&& self.queue_spec().len() == NUM_EVENTS
        &&& (forall|e: int|
            0 <= e < NUM_EVENTS ==> (#[trigger] self.queue_spec()[e]).period is None)
        &&& self.ranging_spec().wf()
        &&& self.targeting_spec().wf()
        &&& self.audio_spec().wf()
        &&& self.targeting_spec().total_spec() == self.ranging_spec().total_spec()
    }

    /// Assemble the core: bind the five events and schedule the first
    /// measurement once the sweep servo has had time to reach zero. The
    /// caller positions both servos at zero and configures the sensor.
    pub fn new(total_steps: usize, audio: Audio<S>, now: Instant) -> (r: Firmware<S>)
        requires
            1 <= total_steps <= MAX_STEPS,
            audio.wf(),
        ensures
            r.wf(),
            r.ranging_spec().total_spec() == total_steps,
            r.ranging_spec().step_spec() == 0,
            r.targeting_spec().state_spec() == crate::targeting::TargetState::NoContact,
            r.queue_spec()[START_RANGING_EVENT as int] == armed_at(
                wrap_add(now.ticks, SERVO_RESET_TICKS),
            ),
            r.queue_spec()[READ_SENSOR_EVENT as int] == idle_event(),
            r.queue_spec()[LASER_OFF_EVENT as int] == idle_event(),
            r.queue_spec()[TARGET_LOST_EVENT as int] == idle_event(),
            r.queue_spec()[PLAY_NEXT_BUFFER_EVENT as int] == idle_event(),
            r.audio_spec() == audio,
    {
        let mut queue = EventQueue::new();
        let mut start_ranging = Event::new();
        start_ranging.call_at(now.plus(Duration::from_ticks(SERVO_RESET_TICKS)));
        queue.bind(start_ranging);
        queue.bind(Event::new());
        queue.bind(Event::new());
        queue.bind(Event::new());
        queue.bind(Event::new());

        Firmware {
            queue,
            ranging: Ranging::new(total_steps),
            targeting: Targeting::new(total_steps as u16),
            audio,
        }
    }

    /// One scheduler scan: evaluate every bound event against the current
    /// tick count and return, in bind order, the handles of the events that
    /// are due. The caller runs the matching handler for each.
    pub fn run_once(&mut self, now: Instant) -> (due: Vec<usize>)
        requires
            old(self).wf(),
        ensures
            final(self).wf(),
            final(self).ranging_spec() == old(self).ranging_spec(),
            final(self).targeting_spec() == old(self).targeting_spec(),
            final(self).audio_spec() == old(self).audio_spec(),
            final(self).queue_spec().len() == old(self).queue_spec().len(),
            forall|i: int|
                0 <= i < NUM_EVENTS ==> final(self).queue_spec()[i] == crate::event::after_poll(
                    #[trigger] old(self).queue_spec()[i],
                    now.ticks,
                ),
            due@ == crate::event::due_indices(old(self).queue_spec(), now.ticks),
    {
        let due = self.queue.run_once(now.ticks);
        proof {
            assert forall|e: int| 0 <= e < NUM_EVENTS implies (#[trigger] self.queue@[e]).period
                is None by {
                assert(self.queue@[e] == crate::event::after_poll(
                    old(self).queue_spec()[e],
                    now.ticks,
                ));
            }
        }
        due
    }

    /// The measurement-start event: start the sensor ranging and arm the
    /// read event one timing budget from now.
    pub fn on_start_ranging(&mut self, now: Instant) -> (sensor_start: bool)
        requires
            old(self).wf(),
        ensures
            final(self).wf(),
            sensor_start,
            final(self).ranging_spec() == old(self).ranging_spec(),
            final(self).targeting_spec() == old(self).targeting_spec(),
            final(self).audio_spec() == old(self).audio_spec(),
            final(self).queue_spec() =~= old(self).queue_spec().update(
                READ_SENSOR_EVENT as int,
                armed_at(wrap_add(now.ticks, SENSOR_TIMING_BUDGET_TICKS)),
            ),
    {
        self.queue.call_at(
            READ_SENSOR_EVENT,
            now.plus(Duration::from_ticks(SENSOR_TIMING_BUDGET_TICKS)),
        );
        true
    }

    /// The sensor-read event. `ready` and `distance` are what the caller
    /// read from the sensor (the distance is meaningful only when ready).
    /// The reading drives the sweep machine; in scan mode the contact report
    /// goes to the targeting machine — after a direction reversal the
    /// targeting state is reset instead of tracking stale context — and a
    /// sound request raised by targeting goes to the audio machine. The
    /// next measurement or retry is scheduled per the protocol's delays.
    pub fn on_read_sensor(&mut self, now: Instant, ready: bool, distance: u16) -> (r: Result<
        ReadEffects,
        Error<S::Error>,
    >)
        requires
            old(self).wf(),
        ensures
            final(self).wf(),
            final(self).ranging_spec().total_spec() == old(self).ranging_spec().total_spec(),
            (r matches Err(e) ==> exists|snd: Sound|
                #[trigger] play_post(
                    old(self).audio_spec(),
                    final(self).audio_spec(),
                    snd,
                    Err::<PlayOutcome, Error<S::Error>>(e),
                )),
            (r matches Ok(eff) ==> {
                &&& (!ready ==> {
                    &&& eff.outcome == ReadOutcome::NotReady
                    &&& final(self).ranging_spec() == old(self).ranging_spec()
                    &&& final(self).targeting_spec() == old(self).targeting_spec()
                    &&& final(self).audio_spec() == old(self).audio_spec()
                    &&& final(self).queue_spec() =~= old(self).queue_spec().update(
                        READ_SENSOR_EVENT as int,
                        armed_at(wrap_add(now.ticks, SENSOR_RETRY_TICKS)),
                    )
                    &&& !eff.sensor_stop
                })
                &&& (eff.outcome is CalibrationContinues ==> {
                    &&& final(self).targeting_spec() == old(self).targeting_spec()
                    &&& final(self).audio_spec() == old(self).audio_spec()
                    &&& final(self).queue_spec() =~= old(self).queue_spec().update(
                        READ_SENSOR_EVENT as int,
                        armed_at(wrap_add(now.ticks, SENSOR_INTERMEASUREMENT_TICKS)),
                    )
                    &&& !eff.sensor_stop
                })
                &&& (eff.outcome matches ReadOutcome::Advanced { report, moved } ==> {
                    &&& eff.sensor_stop
                    &&& moved == crate::ranging::after_advance_moved(old(self).ranging_spec())
                    &&& (moved == MoveResult::SameDirection ==> eff.sweep_servo == Some(
                        ServoTarget {
                            numer: final(self).ranging_spec().step_spec() as u16,
                            denom: old(self).ranging_spec().total_spec() as u16,
                        },
                    ) && final(self).queue_spec()[START_RANGING_EVENT as int] == armed_at(
                        wrap_add(now.ticks, SERVO_STEP_TICKS),
                    ))
                    &&& (moved == MoveResult::ChangeDirection ==> (eff.sweep_servo is None) && final(self).queue_spec()[START_RANGING_EVENT as int] == posted())
                    &&& (report is None ==> final(self).targeting_spec() == old(
                        self,
                    ).targeting_spec() && final(self).audio_spec() == old(self).audio_spec()
                        && (eff.report is None))
                    &&& (report matches Some(rep) ==> {
                        &&& rep == (Report {
                            position: old(self).ranging_spec().step_spec() as u16,
                            contact: distance < old(self).ranging_spec().baseline_spec()[old(
                                self,
                            ).ranging_spec().step_spec() as int],
                        })
                        &&& (moved == MoveResult::ChangeDirection ==> final(self).targeting_spec().state_spec()
                            == crate::targeting::TargetState::NoContact)
                        &&& (moved == MoveResult::SameDirection ==> final(self).targeting_spec().state_spec() == (if rep.contact {
                            crate::targeting::contact_transition(
                                old(self).targeting_spec().state_spec(),
                                rep.position,
                            )
                        } else {
                            crate::targeting::no_contact_transition(
                                old(self).targeting_spec().state_spec(),
                                rep.position,
                            )
                        }))
                        &&& (eff.report matches Some(te) ==> {
                            &&& te.led == rep.contact
                            &&& (te.aim matches Some(_) ==> final(self).queue_spec()[LASER_OFF_EVENT as int] == armed_at(
                                wrap_add(now.ticks, crate::targeting::LASER_OFF_DELAY_TICKS),
                            ) && final(self).queue_spec()[TARGET_LOST_EVENT as int]
                                == idle_event())
                            &&& (te.sound matches Some(snd) ==> (eff.play matches Some(o)
                                && play_post(
                                old(self).audio_spec(),
                                final(self).audio_spec(),
                                snd,
                                Ok::<PlayOutcome, Error<S::Error>>(o),
                            )))
                            &&& (te.sound is None ==> (eff.play is None) && final(self).audio_spec() == old(self).audio_spec())
                        })
                        &&& (eff.report is Some)
                    })
                })
            }),
    {
        let outcome = self.ranging.read_sensor(ready, distance);

        match outcome {
            ReadOutcome::NotReady => {
                self.queue.call_at(
                    READ_SENSOR_EVENT,
                    now.plus(Duration::from_ticks(SENSOR_RETRY_TICKS)),
                );
                Ok(
                    ReadEffects {
                        outcome,
                        sensor_stop: false,
                        sweep_servo: None,
                        report: None,
                        play: None,
                    },
                )
            },
            ReadOutcome::CalibrationContinues => {
                self.queue.call_at(
                    READ_SENSOR_EVENT,
                    now.plus(Duration::from_ticks(SENSOR_INTERMEASUREMENT_TICKS)),
                );
                Ok(
                    ReadEffects {
                        outcome,
                        sensor_stop: false,
                        sweep_servo: None,
                        report: None,
                        play: None,
                    },
                )
            },
            ReadOutcome::Advanced { report, moved } => {
                let mut report_effects: Option<ReportEffects> = None;
                let mut play: Option<PlayOutcome> = None;

                if let Some(rep) = report {
                    let te = self.targeting.report(rep.position, rep.contact, now);
                    if te.aim.is_some() {
                        self.queue.call_at(
                            LASER_OFF_EVENT,
                            now.plus(
                                Duration::from_ticks(crate::targeting::LASER_OFF_DELAY_TICKS),
                            ),
                        );
                        self.queue.cancel(TARGET_LOST_EVENT);
                    }
                    if let Some(sound) = te.sound {
                        match self.audio.play(sound) {
                            Ok(o) => {
                                play = Some(o);
                            },
                            Err(e) => {
                                proof {
                                    assert(play_post(
                                        old(self).audio_spec(),
                                        self.audio,
                                        sound,
                                        Err::<PlayOutcome, Error<S::Error>>(e),
                                    ));
                                }
                                return Err(e);
                            },
                        }
                    }
                    report_effects = Some(te);
                    if matches!(moved, MoveResult::ChangeDirection) {
                        self.targeting.reset();
                    }
                }

                let sweep_servo: Option<ServoTarget> = if matches!(
                    moved,
                    MoveResult::SameDirection,
                ) {
                    self.queue.call_at(
                        START_RANGING_EVENT,
                        now.plus(Duration::from_ticks(SERVO_STEP_TICKS)),
                    );
                    Some(
                        ServoTarget {
                            numer: self.ranging.current_step() as u16,
                            denom: self.ranging.total_steps() as u16,
                        },
                    )
                } else {
                    self.queue.call(START_RANGING_EVENT);
                    None
                };

                Ok(
                    ReadEffects {
                        outcome,
                        sensor_stop: true,
                        sweep_servo,
                        report: report_effects,
                        play,
                    },
                )
            },
        }
    }

    /// The deferred laser-off event: the caller turns the laser off and the
    /// contact-lost sound plays; the release instant is recorded and the
    /// target-lost timer is armed.
    pub fn on_laser_off(&mut self, now: Instant) -> (r: Result<PlayOutcome, Error<S::Error>>)
        requires
            old(self).wf(),
        ensures
            final(self).wf(),
            final(self).ranging_spec() == old(self).ranging_spec(),
            final(self).targeting_spec().state_spec() == old(self).targeting_spec().state_spec(),
            final(self).targeting_spec().last_lock_spec() == now,
            final(self).queue_spec() =~= old(self).queue_spec().update(
                TARGET_LOST_EVENT as int,
                armed_at(wrap_add(now.ticks, crate::targeting::TARGET_LOST_DELAY_TICKS)),
            ),
            play_post(old(self).audio_spec(), final(self).audio_spec(), Sound::ContactLost, r),
    {
        let sound = self.targeting.laser_off(now);
        self.queue.call_at(
            TARGET_LOST_EVENT,
            now.plus(Duration::from_ticks(crate::targeting::TARGET_LOST_DELAY_TICKS)),
        );
        self.audio.play(sound)
    }

    /// The deferred target-lost event: the target-lost sound plays.
    pub fn on_target_lost(&mut self) -> (r: Result<PlayOutcome, Error<S::Error>>)
        requires
            old(self).wf(),
        ensures
            final(self).wf(),
            final(self).ranging_spec() == old(self).ranging_spec(),
            final(self).targeting_spec() == old(self).targeting_spec(),
            final(self).queue_spec() == old(self).queue_spec(),
            play_post(old(self).audio_spec(), final(self).audio_spec(), Sound::TargetLost, r),
    {
        let sound = self.targeting.target_lost();
        self.audio.play(sound)
    }

    /// The buffer-consumed event relayed from the transfer-complete
    /// interrupt: swap buffers and refill.
    pub fn on_play_next_buffer(&mut self) -> (r: Result<AudioStep, Error<S::Error>>)
        requires
            old(self).wf(),
        ensures
            final(self).wf(),
            final(self).ranging_spec() == old(self).ranging_spec(),
            final(self).targeting_spec() == old(self).targeting_spec(),
            final(self).queue_spec() == old(self).queue_spec(),
    {
        self.audio.play_next_buffer()
    }

    /// Post an event from interrupt context (the transfer-complete interrupt
    /// posts the buffer-consumed event).
    pub fn post(&mut self, id: usize)
        requires
            old(self).wf(),
            id < NUM_EVENTS,
        ensures
            final(self).wf(),
            final(self).ranging_spec() == old(self).ranging_spec(),
            final(self).targeting_spec() == old(self).targeting_spec(),
            final(self).audio_spec() == old(self).audio_spec(),
            final(self).queue_spec() =~= old(self).queue_spec().update(id as int, posted()),
    {
        self.queue.call(id);
    }

    /// Request a sound cue directly (the start-up and begin-scan chimes).
    pub fn play(&mut self, sound: Sound) -> (r: Result<PlayOutcome, Error<S::Error>>)
        requires
            old(self).wf(),
        ensures
            final(self).wf(),
            final(self).ranging_spec() == old(self).ranging_spec(),
            final(self).targeting_spec() == old(self).targeting_spec(),
            final(self).queue_spec() == old(self).queue_spec(),
            play_post(old(self).audio_spec(), final(self).audio_spec(), sound, r),
    {
        self.audio.play(sound)
    }

    /// The audio machine, for reading the streaming buffers.
    pub fn audio(&self) -> (r: &Audio<S>)
        ensures
            r == self.audio_spec(),
    {
        &self.audio
    }
}

} // verus!
