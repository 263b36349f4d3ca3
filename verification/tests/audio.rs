use sentry::audio::{Audio, AudioStep, PlayOutcome, Sound};
use sentry::fsbuild::SimpleFsBuilder;
use sentry::simplefs::RamStorage;

const CAPACITY: usize = 4096 * 128;

/// An image with all clips present. The clip for the contact-lost cue (the
/// only single-candidate cue) gets `contact_lost_len` bytes of data; every
/// other clip gets four bytes.
fn clip_store(contact_lost_len: usize) -> RamStorage {
    let mut builder = SimpleFsBuilder::new(CAPACITY);
    for i in 0..25usize {
        let data = if i == 13 {
            (0..contact_lost_len).map(|j| (j % 251) as u8).collect()
        } else {
            vec![i as u8; 4]
        };
        builder.add_file(format!("clip{}", i).into_bytes(), data);
    }
    RamStorage::new(builder.finalize().expect("clip image"))
}

#[test]
fn play_streams_a_clip_through_both_buffers() {
    // 2500 bytes: blocks of 1024, 1024 and 452.
    let mut audio = Audio::new(clip_store(2500), fastrand::Rng::with_seed(7)).expect("mount");
    assert!(audio.is_idle());

    let outcome = audio.play(Sound::ContactLost).expect("play");
    assert_eq!(outcome, PlayOutcome::Started { file_index: 13, play_buffer: 0, play_len: 1024 });
    assert!(!audio.is_idle());
    assert_eq!(audio.buffer(0)[0], 0);
    assert_eq!(audio.buffer(0)[250], 250);
    assert_eq!(audio.buffer(0)[251], 0);

    // First transfer-complete: buffer one plays while buffer zero refills.
    let step = audio.play_next_buffer().expect("step");
    assert_eq!(step, AudioStep::Played { buffer_index: 1, len: 1024 });

    // Second: the 452-byte tail plays; the refill hits the end of the clip.
    let step = audio.play_next_buffer().expect("step");
    assert_eq!(step, AudioStep::Played { buffer_index: 0, len: 452 });

    // Third: the last block finished; playback stops.
    let step = audio.play_next_buffer().expect("step");
    assert_eq!(step, AudioStep::Stopped);
    assert!(audio.is_idle());
}

#[test]
fn play_while_playing_is_a_noop() {
    let mut audio = Audio::new(clip_store(2500), fastrand::Rng::with_seed(7)).expect("mount");
    let first = audio.play(Sound::ContactLost).expect("play");
    assert!(matches!(first, PlayOutcome::Started { .. }));

    // A second request while playing selects no clip and opens no file.
    let second = audio.play(Sound::Startup).expect("play");
    assert_eq!(second, PlayOutcome::Busy);
    let third = audio.play(Sound::ContactLost).expect("play");
    assert_eq!(third, PlayOutcome::Busy);

    // Once idle again, requests work.
    loop {
        if audio.play_next_buffer().expect("step") == AudioStep::Stopped {
            break;
        }
    }
    let again = audio.play(Sound::ContactLost).expect("play");
    assert!(matches!(again, PlayOutcome::Started { .. }));
}

#[test]
fn empty_clip_leaves_playback_idle() {
    let mut audio = Audio::new(clip_store(0), fastrand::Rng::with_seed(7)).expect("mount");
    let outcome = audio.play(Sound::ContactLost).expect("play");
    assert_eq!(outcome, PlayOutcome::EmptyClip);
    assert!(audio.is_idle());
}

#[test]
fn missing_clip_reports_file_not_found() {
    // A store with only five files: the contact-lost clip (index 13) is
    // beyond the directory, and playback stays idle.
    let mut builder = SimpleFsBuilder::new(CAPACITY);
    for i in 0..5usize {
        builder.add_file(format!("clip{}", i).into_bytes(), vec![i as u8; 4]);
    }
    let storage = RamStorage::new(builder.finalize().expect("image"));
    let mut audio = Audio::new(storage, fastrand::Rng::with_seed(2)).expect("mount");
    match audio.play(Sound::ContactLost) {
        Err(sentry::simplefs::Error::FileNotFound) => (),
        o => panic!("expected a missing clip, got {:?}", o),
    }
    assert!(audio.is_idle());
}

#[test]
fn buffer_consumed_while_idle_is_ignored() {
    let mut audio = Audio::new(clip_store(8), fastrand::Rng::with_seed(7)).expect("mount");
    assert_eq!(audio.play_next_buffer().expect("step"), AudioStep::Noop);
}

#[test]
fn chosen_clip_comes_from_the_cue_set() {
    // The begin-scan cue maps to clips 2 through 6; whatever the generator
    // yields, the chosen file index stays in that set.
    for seed in 0..20u64 {
        let mut audio = Audio::new(clip_store(8), fastrand::Rng::with_seed(seed)).expect("mount");
        match audio.play(Sound::BeginScan).expect("play") {
            PlayOutcome::Started { file_index, .. } => {
                assert!((2..=6).contains(&file_index));
            }
            o => panic!("expected playback to start, got {:?}", o),
        }
    }
}

#[test]
fn short_clip_fits_one_buffer() {
    let mut audio = Audio::new(clip_store(10), fastrand::Rng::with_seed(1)).expect("mount");
    let outcome = audio.play(Sound::ContactLost).expect("play");
    assert_eq!(outcome, PlayOutcome::Started { file_index: 13, play_buffer: 0, play_len: 10 });
    // The refill inside play already hit the end of the clip.
    assert_eq!(audio.play_next_buffer().expect("step"), AudioStep::Stopped);
    assert!(audio.is_idle());
}
