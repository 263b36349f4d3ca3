use sentry::audio::{Audio, PlayOutcome};
use sentry::firmware::{
    Firmware, LASER_OFF_EVENT, PLAY_NEXT_BUFFER_EVENT, READ_SENSOR_EVENT, START_RANGING_EVENT,
};
use sentry::fsbuild::SimpleFsBuilder;
use sentry::ranging::{MoveResult, ReadOutcome};
use sentry::servo::ServoTarget;
use sentry::simplefs::RamStorage;
use sentry::time::Instant;

const CAPACITY: usize = 4096 * 128;

fn clip_store() -> RamStorage {
    let mut builder = SimpleFsBuilder::new(CAPACITY);
    for i in 0..25usize {
        builder.add_file(format!("clip{}", i).into_bytes(), vec![i as u8; 4]);
    }
    RamStorage::new(builder.finalize().expect("clip image"))
}

fn turret() -> Firmware<RamStorage> {
    let audio = Audio::new(clip_store(), fastrand::Rng::with_seed(3)).expect("mount");
    Firmware::new(10, audio, Instant::from_ticks(0))
}

#[test]
fn startup_schedules_the_first_measurement() {
    let mut fw = turret();

    // Nothing is due while the sweep servo settles.
    assert!(fw.run_once(Instant::from_ticks(49)).is_empty());

    // The first measurement starts 500 ms after boot; the read follows one
    // timing budget later.
    let due = fw.run_once(Instant::from_ticks(50));
    assert_eq!(due, vec![START_RANGING_EVENT]);
    assert!(fw.on_start_ranging(Instant::from_ticks(50)));

    assert!(fw.run_once(Instant::from_ticks(59)).is_empty());
    assert_eq!(fw.run_once(Instant::from_ticks(60)), vec![READ_SENSOR_EVENT]);
}

#[test]
fn sensor_not_ready_reschedules_the_read() {
    let mut fw = turret();
    fw.run_once(Instant::from_ticks(50));
    fw.on_start_ranging(Instant::from_ticks(50));
    fw.run_once(Instant::from_ticks(60));

    let eff = fw.on_read_sensor(Instant::from_ticks(60), false, 0).expect("read");
    assert_eq!(eff.outcome, ReadOutcome::NotReady);
    assert!(!eff.sensor_stop);

    // The retry comes one retry delay later, not a full budget.
    assert_eq!(fw.run_once(Instant::from_ticks(61)), vec![READ_SENSOR_EVENT]);
}

#[test]
fn calibration_pass_feeds_the_window_and_advances() {
    let mut fw = turret();
    assert_eq!(fw.run_once(Instant::from_ticks(50)), vec![START_RANGING_EVENT]);
    fw.on_start_ranging(Instant::from_ticks(50));
    assert_eq!(fw.run_once(Instant::from_ticks(60)), vec![READ_SENSOR_EVENT]);
    let mut now = 60u32;

    for (i, s) in [100u16, 102, 98, 101, 99].iter().enumerate() {
        let eff = fw.on_read_sensor(Instant::from_ticks(now), true, *s).expect("read");
        if i < 4 {
            assert_eq!(eff.outcome, ReadOutcome::CalibrationContinues);
            // The next reading comes one inter-measurement period later.
            assert_eq!(fw.run_once(Instant::from_ticks(now + 12)), vec![READ_SENSOR_EVENT]);
            now += 12;
        } else {
            // The window is complete: stop the sensor, step the servo, and
            // start the next measurement after the settle delay.
            match eff.outcome {
                ReadOutcome::Advanced { report, moved } => {
                    assert_eq!(report, None);
                    assert_eq!(moved, MoveResult::SameDirection);
                }
                o => panic!("expected an advance, got {:?}", o),
            }
            assert!(eff.sensor_stop);
            assert_eq!(eff.sweep_servo, Some(ServoTarget { numer: 1, denom: 10 }));
            assert_eq!(fw.run_once(Instant::from_ticks(now + 10)), vec![START_RANGING_EVENT]);
        }
    }
}

#[test]
fn scan_contact_acquires_a_lock_and_arms_the_laser_timer() {
    let mut fw = turret();
    let mut now = 100u32;

    // Calibrate all ten positions.
    for _ in 0..10 {
        for s in [100u16, 102, 98, 101, 99] {
            fw.on_read_sensor(Instant::from_ticks(now), true, s).expect("read");
            now += 12;
        }
    }

    // The sweep now scans downward from step 9. Contacts at 9 down to 2
    // accumulate no lock (the extent never equals the lock width)...
    for _ in 0..8 {
        let eff = fw.on_read_sensor(Instant::from_ticks(now), true, 10).expect("read");
        match eff.outcome {
            ReadOutcome::Advanced { report, .. } => {
                let rep = report.expect("scan report");
                assert!(rep.contact);
            }
            o => panic!("expected an advance, got {:?}", o),
        }
        let te = eff.report.expect("targeting effects");
        assert!(te.led);
        assert_eq!(te.aim, None);
        now += 10;
    }

    // ...until the contact at step 1, exactly eight steps from the first:
    // the lock servo aims at the midpoint, the laser-off timer is armed,
    // and a sound request reaches the audio machine.
    let eff = fw.on_read_sensor(Instant::from_ticks(now), true, 10).expect("read");
    let te = eff.report.expect("targeting effects");
    assert_eq!(te.aim, Some(ServoTarget { numer: 5, denom: 10 }));
    assert!(te.sound.is_some());
    assert!(matches!(eff.play, Some(PlayOutcome::Started { .. })));

    // The laser-off timer fires 5 s later.
    let due = fw.run_once(Instant::from_ticks(now + 500));
    assert!(due.contains(&LASER_OFF_EVENT));
    let played = fw.on_laser_off(Instant::from_ticks(now + 500)).expect("laser off");
    // A clip may still be streaming; the request itself must not fail.
    assert!(matches!(played, PlayOutcome::Started { .. } | PlayOutcome::Busy));
}

#[test]
fn posted_buffer_event_reaches_the_audio_machine() {
    let mut fw = turret();
    assert_eq!(fw.play(sentry::audio::Sound::Startup).map(|o| matches!(o, PlayOutcome::Started { .. })), Ok(true));

    // The transfer-complete interrupt posts the buffer event; the next scan
    // dispatches it.
    fw.post(PLAY_NEXT_BUFFER_EVENT);
    let due = fw.run_once(Instant::from_ticks(1));
    assert_eq!(due, vec![PLAY_NEXT_BUFFER_EVENT]);
    fw.on_play_next_buffer().expect("audio step");
}
