use sentry::audio::Sound;
use sentry::servo::ServoTarget;
use sentry::targeting::{TargetState, Targeting};
use sentry::time::Instant;

#[test]
fn lock_acquisition_and_direction_aware_break() {
    let now = Instant::from_ticks(0);
    let mut t = Targeting::new(50);

    // Contact at 10: early contact.
    let eff = t.report(10, true, now);
    assert!(eff.led);
    assert_eq!(eff.aim, None);
    assert_eq!(t.state(), TargetState::EarlyContact { start_position: 10 });

    // Contact at 18 (exactly 8 apart): lock with the servo aimed at 14.
    let eff = t.report(18, true, now);
    assert_eq!(t.state(), TargetState::Lock { start_position: 10, end_position: 18 });
    assert_eq!(eff.aim, Some(ServoTarget { numer: 14, denom: 50 }));
    assert!(eff.sound.is_some());

    // No contact at 23 (five beyond the end, outward): the lock breaks.
    let eff = t.report(23, false, now);
    assert!(!eff.led);
    assert_eq!(t.state(), TargetState::NoContact);

    // Re-acquire the same lock.
    t.report(10, true, now);
    t.report(18, true, now);
    assert_eq!(t.state(), TargetState::Lock { start_position: 10, end_position: 18 });

    // No contact at 15 (inward, toward the start): the lock holds.
    t.report(15, false, now);
    assert_eq!(t.state(), TargetState::Lock { start_position: 10, end_position: 18 });

    // Three beyond the end is still within the break width; four breaks.
    t.report(21, false, now);
    assert_eq!(t.state(), TargetState::Lock { start_position: 10, end_position: 18 });
    t.report(22, false, now);
    assert_eq!(t.state(), TargetState::NoContact);
}

#[test]
fn downward_lock_breaks_on_the_far_side() {
    let now = Instant::from_ticks(0);
    let mut t = Targeting::new(50);

    t.report(18, true, now);
    let eff = t.report(10, true, now);
    assert_eq!(t.state(), TargetState::Lock { start_position: 18, end_position: 10 });
    assert_eq!(eff.aim, Some(ServoTarget { numer: 14, denom: 50 }));

    // Inward (toward the start at 18): the lock holds.
    t.report(14, false, now);
    assert_eq!(t.state(), TargetState::Lock { start_position: 18, end_position: 10 });

    // Outward, four below the end: the lock breaks.
    t.report(6, false, now);
    assert_eq!(t.state(), TargetState::NoContact);
}

#[test]
fn tracking_recenters_the_lock() {
    let now = Instant::from_ticks(0);
    let mut t = Targeting::new(50);
    t.report(10, true, now);
    t.report(18, true, now);

    // A further contact re-centers the end of the arc and re-aims.
    let eff = t.report(20, true, now);
    assert_eq!(t.state(), TargetState::Lock { start_position: 10, end_position: 20 });
    assert_eq!(eff.aim, Some(ServoTarget { numer: 15, denom: 50 }));
    assert_eq!(eff.sound, None);
}

#[test]
fn acquisition_sound_depends_on_time_since_release() {
    // Within the cooldown of the last release the restored-contact cue
    // plays; past it, the full acquisition cue.
    let mut t = Targeting::new(50);
    let soon = Instant::from_ticks(100);
    t.report(10, true, soon);
    let eff = t.report(18, true, soon);
    assert_eq!(eff.sound, Some(Sound::ContactRestored));

    let mut t = Targeting::new(50);
    let late = Instant::from_ticks(4000);
    t.report(10, true, late);
    let eff = t.report(18, true, late);
    assert_eq!(eff.sound, Some(Sound::TargetAcquired));
}

#[test]
fn false_start_reverts_to_no_contact() {
    let now = Instant::from_ticks(0);
    let mut t = Targeting::new(50);
    t.report(10, true, now);
    t.report(12, false, now);
    assert_eq!(t.state(), TargetState::NoContact);
}

#[test]
fn reset_forces_no_contact() {
    let now = Instant::from_ticks(0);
    let mut t = Targeting::new(50);
    t.report(10, true, now);
    t.report(18, true, now);
    t.reset();
    assert_eq!(t.state(), TargetState::NoContact);
}

#[test]
fn deferred_timers_play_their_sounds() {
    let mut t = Targeting::new(50);
    let now = Instant::from_ticks(777);
    assert_eq!(t.laser_off(now), Sound::ContactLost);
    assert_eq!(t.last_lock(), now);
    assert_eq!(t.target_lost(), Sound::TargetLost);
}
