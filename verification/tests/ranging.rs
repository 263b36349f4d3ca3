use sentry::ranging::{
    get_num_steps_from_angle_scale, Error, MoveResult, Ranging, ReadOutcome, Report,
};

const WINDOW: [u16; 5] = [100, 102, 98, 101, 99];

/// Drive the machine through the full calibration pass: every position gets
/// its five-sample window, and at the top edge the sweep flips downward.
fn run_baseline_pass(r: &mut Ranging, total: usize) {
    for p in 0..total {
        for (i, s) in WINDOW.iter().enumerate() {
            match r.read_sensor(true, *s) {
                ReadOutcome::CalibrationContinues => assert!(i < 4),
                ReadOutcome::Advanced { report, moved } => {
                    assert_eq!(i, 4);
                    assert_eq!(report, None);
                    if p + 1 == total {
                        assert_eq!(moved, MoveResult::ChangeDirection);
                    } else {
                        assert_eq!(moved, MoveResult::SameDirection);
                    }
                }
                ReadOutcome::NotReady => panic!("reading was ready"),
            }
        }
        assert_eq!(r.baseline_at(p), 97);
    }
}

#[test]
fn direction_reversal_at_both_edges() {
    let mut r = Ranging::new(50);
    run_baseline_pass(&mut r, 50);
    assert!(r.is_scan_down());
    assert_eq!(r.current_step(), 49);

    // Walk down to step zero.
    for expected in (0..49).rev() {
        assert_eq!(r.move_servo(), MoveResult::SameDirection);
        assert_eq!(r.current_step(), expected);
        assert!(r.is_scan_down());
    }

    // At step 0 scanning down: flip to scanning up without moving.
    assert_eq!(r.move_servo(), MoveResult::ChangeDirection);
    assert!(r.is_scan_up());
    assert_eq!(r.current_step(), 0);

    // Walk up to the top step.
    for expected in 1..50 {
        assert_eq!(r.move_servo(), MoveResult::SameDirection);
        assert_eq!(r.current_step(), expected);
    }

    // At step 49 scanning up: flip to scanning down without moving.
    assert_eq!(r.move_servo(), MoveResult::ChangeDirection);
    assert!(r.is_scan_down());
    assert_eq!(r.current_step(), 49);
}

#[test]
fn scan_reports_contact_against_baseline() {
    let mut r = Ranging::new(3);
    run_baseline_pass(&mut r, 3);
    assert!(r.is_scan_down());
    assert_eq!(r.current_step(), 2);

    // A reading below the stored threshold of 97 is a contact.
    match r.read_sensor(true, 50) {
        ReadOutcome::Advanced { report, moved } => {
            assert_eq!(report, Some(Report { position: 2, contact: true }));
            assert_eq!(moved, MoveResult::SameDirection);
        }
        _ => panic!("expected an advance"),
    }
    assert_eq!(r.current_step(), 1);

    // A reading at or above the threshold is not.
    match r.read_sensor(true, 97) {
        ReadOutcome::Advanced { report, .. } => {
            assert_eq!(report, Some(Report { position: 1, contact: false }));
        }
        _ => panic!("expected an advance"),
    }
}

#[test]
fn not_ready_reading_changes_nothing() {
    let mut r = Ranging::new(10);
    assert_eq!(r.read_sensor(false, 1234), ReadOutcome::NotReady);
    assert_eq!(r.current_step(), 0);
    assert!(r.is_baseline());
}

#[test]
fn recalibration_restarts_per_position() {
    let mut r = Ranging::new(2);
    for s in WINDOW {
        r.read_sensor(true, s);
    }
    // Position 0 calibrated; position 1 starts a fresh window.
    assert!(r.is_baseline());
    assert_eq!(r.current_step(), 1);
    assert_eq!(r.read_sensor(true, 100), ReadOutcome::CalibrationContinues);
}

#[test]
fn step_count_from_potentiometer_ratio() {
    assert_eq!(get_num_steps_from_angle_scale(1, 2), Ok(50));
    assert_eq!(get_num_steps_from_angle_scale(1, 1), Ok(100));
    assert_eq!(get_num_steps_from_angle_scale(1, 3), Ok(33));
    assert_eq!(get_num_steps_from_angle_scale(0, 7), Ok(0));
    assert_eq!(get_num_steps_from_angle_scale(101, 100), Err(Error::InvalidScale));
}
