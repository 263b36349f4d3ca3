//! Audio playback: logical sound cues, their candidate clips, and the
//! double-buffered streaming state machine.
//!
//! A play request picks one clip at random from the cue's candidate set,
//! opens it from the filesystem and fills the first buffer; each
//! buffer-consumed signal then swaps buffers, refilling the one that just
//! finished while the other plays. The hardware actions — starting,
//! feeding and stopping the output — are returned as plain values for the
//! caller to perform.
use vstd::prelude::*;

use crate::simplefs::{Error, File, FileSystem, Storage};

verus! {

/// Size of each of the two streaming buffers.
pub const BUF_SIZE: usize = 1024;

/// A logical sound cue. Each cue maps to a non-empty set of candidate audio
/// clips, one of which is chosen at random per play request.
#[derive(Clone, Copy, Debug, PartialEq, Eq, Structural)]
pub enum Sound {
    /// Power-on chime.
    Startup,
    /// A sweep pass is starting.
    BeginScan,
    /// A target lock was acquired after a quiet spell.
    TargetAcquired,
    /// The laser was switched off after a lock lapsed.
    ContactLost,
    /// A target lock was re-acquired shortly after the last one.
    ContactRestored,
    /// No new lock arrived within the target-lost window.
    TargetLost,
    /// The device was picked up.
    PickedUp,
}

/// One stored audio clip. Clips are numbered by their position in the
/// filesystem image, in declaration order.
#[derive(Clone, Copy, Debug, PartialEq, Eq, Structural)]
#[allow(missing_docs)]
pub enum Clip {
    SfxDeploy,
    SfxActive,
    Searching,
    Activated,
    SentryModeActivated,
    CouldYouComeOverHere,
    Deploying,
    HelloFriend,
    WhoIsThere,
    TargetAcquired,
    Gotcha,
    ISeeYou,
    ThereYouAre,
    SfxRetract,
    SfxPing,
    Hi,
    SfxAlert,
    IsAnyoneThere,
    Hellooooo,
    AreYouStillThere,
    TargetLost,
    Malfunctioning,
    PutMeDown,
    WhoAreYou,
    PleasePutMeDown,
}

/// The filesystem index of a clip: its position in declaration order.
pub open spec fn clip_index_spec(c: Clip) -> int {
    match c {
        Clip::SfxDeploy => 0,
        Clip::SfxActive => 1,
        Clip::Searching => 2,
        Clip::Activated => 3,
        Clip::SentryModeActivated => 4,
        Clip::CouldYouComeOverHere => 5,
        Clip::Deploying => 6,
        Clip::HelloFriend => 7,
        Clip::WhoIsThere => 8,
        Clip::TargetAcquired => 9,
        Clip::Gotcha => 10,
        Clip::ISeeYou => 11,
        Clip::ThereYouAre => 12,
        Clip::SfxRetract => 13,
        Clip::SfxPing => 14,
        Clip::Hi => 15,
        Clip::SfxAlert => 16,
        Clip::IsAnyoneThere => 17,
        Clip::Hellooooo => 18,
        Clip::AreYouStillThere => 19,
        Clip::TargetLost => 20,
        Clip::Malfunctioning => 21,
        Clip::PutMeDown => 22,
        Clip::WhoAreYou => 23,
        Clip::PleasePutMeDown => 24,
    }
}

impl Clip {
    /// The index of the file holding this clip.
    pub fn file_index(self) -> (r: u16)
        ensures
            r == clip_index_spec(self),
    {
        match self {
            Clip::SfxDeploy => 0,
            Clip::SfxActive => 1,
            Clip::Searching => 2,
            Clip::Activated => 3,
            Clip::SentryModeActivated => 4,
            Clip::CouldYouComeOverHere => 5,
            Clip::Deploying => 6,
            Clip::HelloFriend => 7,
            Clip::WhoIsThere => 8,
            Clip::TargetAcquired => 9,
            Clip::Gotcha => 10,
            Clip::ISeeYou => 11,
            Clip::ThereYouAre => 12,
            Clip::SfxRetract => 13,
            Clip::SfxPing => 14,
            Clip::Hi => 15,
            Clip::SfxAlert => 16,
            Clip::IsAnyoneThere => 17,
            Clip::Hellooooo => 18,
            Clip::AreYouStillThere => 19,
            Clip::TargetLost => 20,
            Clip::Malfunctioning => 21,
            Clip::PutMeDown => 22,
            Clip::WhoAreYou => 23,
            Clip::PleasePutMeDown => 24,
        }
    }
}

/// The candidate clips of a sound cue; never empty.
pub open spec fn clips_spec(sound: Sound) -> Seq<Clip> {
    match sound {
        Sound::Startup => seq![Clip::SfxDeploy, Clip::SfxActive],
        Sound::BeginScan => seq![
            Clip::Searching,
            Clip::Activated,
            Clip::SentryModeActivated,
            Clip::CouldYouComeOverHere,
            Clip::Deploying,
        ],
        Sound::TargetAcquired => seq![
            Clip::HelloFriend,
            Clip::WhoIsThere,
            Clip::TargetAcquired,
            Clip::Gotcha,
            Clip::ISeeYou,
            Clip::ThereYouAre,
        ],
        Sound::ContactLost => seq![Clip::SfxRetract],
        Sound::ContactRestored => seq![Clip::SfxPing, Clip::Hi, Clip::SfxAlert],
        Sound::TargetLost => seq![
            Clip::IsAnyoneThere,
            Clip::Hellooooo,
            Clip::AreYouStillThere,
            Clip::TargetLost,
        ],
        Sound::PickedUp => seq![
            Clip::Malfunctioning,
            Clip::PutMeDown,
            Clip::WhoAreYou,
            Clip::PleasePutMeDown,
        ],
    }
}

/// The candidate clips of a sound cue.
pub fn clips_for(sound: Sound) -> (r: Vec<Clip>)
    ensures
        r@ =~= clips_spec(sound),
        r@.len() >= 1,
{
    match sound {
        Sound::Startup => vec![Clip::SfxDeploy, Clip::SfxActive],
        Sound::BeginScan => vec![
            Clip::Searching,
            Clip::Activated,
            Clip::SentryModeActivated,
            Clip::CouldYouComeOverHere,
            Clip::Deploying,
        ],
        Sound::TargetAcquired => vec![
            Clip::HelloFriend,
            Clip::WhoIsThere,
            Clip::TargetAcquired,
            Clip::Gotcha,
            Clip::ISeeYou,
            Clip::ThereYouAre,
        ],
        Sound::ContactLost => vec![Clip::SfxRetract],
        Sound::ContactRestored => vec![Clip::SfxPing, Clip::Hi, Clip::SfxAlert],
        Sound::TargetLost => vec![
            Clip::IsAnyoneThere,
            Clip::Hellooooo,
            Clip::AreYouStillThere,
            Clip::TargetLost,
        ],
        Sound::PickedUp => vec![
            Clip::Malfunctioning,
            Clip::PutMeDown,
            Clip::WhoAreYou,
            Clip::PleasePutMeDown,
        ],
    }
}

#[verifier::external_type_specification]
#[verifier::external_body]
/// The pseudo-random generator used for clip selection, declared so values
/// of it can be held and passed around; nothing is assumed of the numbers
/// it yields.
pub struct ExRng(fastrand::Rng);

/// Relies on fastrand::Rng::usize over the range `0..bound`: the drawn value
/// is below `bound`; the range is non-empty, so the call does not panic.
/// Nothing else can be promised of a random draw.
#[verifier::external_body]
fn pick_index(rng: &mut fastrand::Rng, bound: usize) -> (r: usize)
    requires
        bound >= 1,
    ensures
        r < bound,
{
    rng.usize(0..bound)
}

/// Playback state.
pub enum PlayState {
    /// Nothing is playing.
    Idle,
    /// A clip is streaming.
    Playing {
        /// Cursor into the clip being streamed.
        file: File,
        /// The buffer the next buffer-consumed signal will start playing.
        next_buffer_index: usize,
        /// How many bytes of that buffer are valid.
        bytes_in_next_buffer: usize,
    },
    /// The clip is exhausted; the final buffer is still playing.
    LastBlock,
}

/// What a play request led to.
#[derive(Clone, Copy, Debug, PartialEq, Eq, Structural)]
pub enum PlayOutcome {
    /// Playback was already running; the request is ignored.
    Busy,
    /// The chosen clip holds no data; nothing to play.
    EmptyClip,
    /// Playback began: enable the output hardware and feed it `play_len`
    /// bytes of the buffer `play_buffer`.
    Started {
        /// Filesystem index of the chosen clip.
        file_index: u16,
        /// Buffer to start playing.
        play_buffer: usize,
        /// Valid bytes in that buffer.
        play_len: usize,
    },
}

/// What one buffer-consumed signal led to.
#[derive(Clone, Copy, Debug, PartialEq, Eq, Structural)]
pub enum AudioStep {
    /// Nothing was playing; the signal is ignored.
    Noop,
    /// Feed the hardware `len` bytes of buffer `buffer_index`; the other
    /// buffer was refilled meanwhile.
    Played {
        /// Buffer to play next.
        buffer_index: usize,
        /// Valid bytes in that buffer.
        len: usize,
    },
    /// The clip is done: disable the output hardware.
    Stopped,
}

/// Image offset of the directory entry of the clip at `file_index`.
pub open spec fn clip_entry(file_index: int) -> int {
    crate::simplefs::HEADER_BYTES + crate::simplefs::DIRENTRY_BYTES * file_index
}

/// Why a play request for `sound` may fail on a player in state `pre`: some
/// candidate clip of the cue is missing from the directory, its directory
/// entry lies outside the image, or the backing device is unreliable. A
/// reliable, fully-stocked store admits no error.
pub open spec fn play_error<S: Storage>(pre: Audio<S>, sound: Sound, e: Error<S::Error>) -> bool {
    match e {
        Error::FileNotFound => exists|k: int|
            0 <= k < clips_spec(sound).len() && clip_index_spec(#[trigger] clips_spec(sound)[k])
                >= pre.num_files_spec(),
        Error::InconsistentData => exists|k: int|
            {
                let entry = clip_entry(clip_index_spec(#[trigger] clips_spec(sound)[k]));
                &&& 0 <= k < clips_spec(sound).len()
                &&& clip_index_spec(clips_spec(sound)[k]) < pre.num_files_spec()
                &&& (entry + crate::simplefs::DIRENTRY_BYTES > pre.fs_bytes_spec().len()
                    || crate::simplefs::parse_entry_offset_spec(pre.fs_bytes_spec(), entry)
                    + crate::simplefs::parse_entry_length_spec(pre.fs_bytes_spec(), entry)
                    > pre.fs_bytes_spec().len())
            },
        Error::Storage(_) => !pre.reliable_spec(),
        Error::InvalidSignature => false,
    }
}

/// The full characterization of one play request: what [`Audio::play`]
/// returns and how it changes the player, reused by the firmware handlers
/// that forward sound requests.
pub open spec fn play_post<S: Storage>(
    pre: Audio<S>,
    post: Audio<S>,
    sound: Sound,
    r: Result<PlayOutcome, Error<S::Error>>,
) -> bool {
    &&& post.fs_bytes_spec() == pre.fs_bytes_spec()
    &&& post.num_files_spec() == pre.num_files_spec()
    &&& post.reliable_spec() == pre.reliable_spec()
    &&& (!(pre.state_spec() is Idle) ==> r == Ok::<PlayOutcome, Error<S::Error>>(
        PlayOutcome::Busy,
    ) && post == pre)
    &&& (r matches Err(e) ==> (post.state_spec() is Idle) && play_error(pre, sound, e))
    &&& (r matches Ok(o) ==> match o {
        PlayOutcome::Busy => !(pre.state_spec() is Idle),
        PlayOutcome::EmptyClip => {
            &&& (pre.state_spec() is Idle)
            &&& (post.state_spec() is Idle)
            &&& (exists|k: int|
                {
                    let entry = clip_entry(clip_index_spec(#[trigger] clips_spec(sound)[k]));
                    &&& 0 <= k < clips_spec(sound).len()
                    &&& clip_index_spec(clips_spec(sound)[k]) < pre.num_files_spec()
                    &&& entry + crate::simplefs::DIRENTRY_BYTES <= pre.fs_bytes_spec().len()
                    &&& crate::simplefs::parse_entry_length_spec(pre.fs_bytes_spec(), entry) == 0
                })
        },
        PlayOutcome::Started { file_index, play_buffer, play_len } => {
            let entry = clip_entry(file_index as int);
            let off = crate::simplefs::parse_entry_offset_spec(pre.fs_bytes_spec(), entry);
            let len = crate::simplefs::parse_entry_length_spec(pre.fs_bytes_spec(), entry);
            &&& (pre.state_spec() is Idle)
            &&& file_index < pre.num_files_spec()
            &&& (exists|k: int|
                0 <= k < clips_spec(sound).len() && file_index == clip_index_spec(
                    #[trigger] clips_spec(sound)[k],
                ))
            &&& play_buffer == 0
            &&& 1 <= play_len <= BUF_SIZE
            &&& play_len == (if len < BUF_SIZE {
                len
            } else {
                BUF_SIZE as int
            })
            &&& post.buffer_spec(0).take(play_len as int) == pre.fs_bytes_spec().subrange(
                off,
                off + play_len,
            )
            &&& (len <= BUF_SIZE ==> post.state_spec() is LastBlock)
            &&& (len > BUF_SIZE ==> {
                let m2 = if len - BUF_SIZE < BUF_SIZE {
                    len - BUF_SIZE
                } else {
                    BUF_SIZE as int
                };
                &&& post.state_spec() matches PlayState::Playing {
                    file: f2,
                    next_buffer_index: n2,
                    bytes_in_next_buffer: b2,
                }
                &&& f2.offset_spec() == off + BUF_SIZE + m2
                &&& f2.remaining_spec() == len - BUF_SIZE - m2
                &&& n2 == 1
                &&& b2 == m2
                &&& post.buffer_spec(1).take(m2) == pre.fs_bytes_spec().subrange(
                    off + BUF_SIZE,
                    off + BUF_SIZE + m2,
                )
            })
        },
    })
}

/// The audio playback machine: the mounted clip store, the clip-selection
/// generator, the playback state, and the two streaming buffers.
pub struct Audio<S: Storage> {
    fs: FileSystem<S>,
    random: fastrand::Rng,
    play_state: PlayState,
    buffer_a: Vec<u8>,
    buffer_b: Vec<u8>,
}

impl<S: Storage> Audio<S> {
    /// Current playback state.
    pub closed spec fn state_spec(&self) -> PlayState {
        self.play_state
    }

    /// The clip store's content.
    pub closed spec fn fs_bytes_spec(&self) -> Seq<u8> {
        self.fs.bytes_spec()
    }

    /// Number of clips in the store.
    pub closed spec fn num_files_spec(&self) -> u16 {
        self.fs.num_files_spec()
    }

    /// Whether the backing device serves every in-bounds read.
    pub closed spec fn reliable_spec(&self) -> bool {
        self.fs.reliable_spec()
    }

    /// The two streaming buffers.
    pub closed spec fn buffer_spec(&self, index: int) -> Seq<u8> {
        if index == 0 {
            self.buffer_a@
        } else {
            self.buffer_b@
        }
    }

    /// The store is mounted, the buffers hold their fixed size, and a
    /// streaming cursor stays inside the store.
    pub open spec fn wf(&self) -> bool {
        &&& self.buffer_spec(0).len() == BUF_SIZE
        &&& self.buffer_spec(1).len() == BUF_SIZE
        &&& (self.state_spec() matches PlayState::Playing { file, next_buffer_index, bytes_in_next_buffer }
            ==> (file.offset_spec() + file.remaining_spec() <= self.fs_bytes_spec().len()
            && file.offset_spec() + file.remaining_spec() <= usize::MAX && next_buffer_index < 2
            && bytes_in_next_buffer <= BUF_SIZE))
    }

    /// Mount the clip store and set up an idle player. Fails exactly as
    /// [`FileSystem::mount`] does.
    pub fn new(storage: S, random: fastrand::Rng) -> (r: Result<Audio<S>, Error<S::Error>>)
        ensures
            match r {
                Ok(a) => {
                    &&& a.wf()
                    &&& a.state_spec() is Idle
                    &&& a.fs_bytes_spec() == storage.bytes_spec()
                    &&& a.reliable_spec() == storage.reliable()
                },
                Err(Error::InconsistentData) => storage.bytes_spec().len()
                    < crate::simplefs::HEADER_BYTES,
                Err(Error::InvalidSignature) => storage.bytes_spec().len()
                    >= crate::simplefs::HEADER_BYTES && crate::simplefs::parse_header_spec(
                    storage.bytes_spec(),
                ).signature != crate::simplefs::SIGNATURE,
                Err(Error::Storage(_)) => !storage.reliable(),
                Err(Error::FileNotFound) => false,
            },
    {
        let fs = match FileSystem::mount(storage) {
            Ok(fs) => fs,
            Err(e) => {
                return Err(e);
            },
        };
        let mut buffer_a: Vec<u8> = Vec::new();
        let mut buffer_b: Vec<u8> = Vec::new();
        let mut i: usize = 0;
        while i < BUF_SIZE
            invariant
                i <= BUF_SIZE,
                buffer_a@.len() == i,
                buffer_b@.len() == i,
            decreases BUF_SIZE - i,
        {
            buffer_a.push(0);
            buffer_b.push(0);
            i = i + 1;
        }
        Ok(Audio { fs, random, play_state: PlayState::Idle, buffer_a, buffer_b })
    }

    /// One of the two streaming buffers.
    pub fn buffer(&self, index: usize) -> (r: &Vec<u8>)
        requires
            index < 2,
        ensures
            r@ == self.buffer_spec(index as int),
    {
        if index == 0 {
            &self.buffer_a
        } else {
            &self.buffer_b
        }
    }

    /// Whether playback is idle.
    pub fn is_idle(&self) -> (r: bool)
        ensures
            r == (self.state_spec() is Idle),
    {
        matches!(self.play_state, PlayState::Idle)
    }

    /// Request a sound cue. A no-op while a clip is already playing or the
    /// chosen clip is empty; otherwise one clip is chosen at random from the
    /// cue's candidates, its first block is loaded into buffer zero for the
    /// hardware to start on, and its second block is preloaded into buffer
    /// one. Any error while starting tears playback down to idle before
    /// propagating.
    pub fn play(&mut self, sound: Sound) -> (r: Result<PlayOutcome, Error<S::Error>>)
        requires
            old(self).wf(),
        ensures
            final(self).wf(),
            play_post(*old(self), *final(self), sound, r),
    {
        if !self.is_idle() {
            return Ok(PlayOutcome::Busy);
        }

        let clips = clips_for(sound);
        let pick = pick_index(&mut self.random, clips.len());
        let clip = clips[pick];
        let file_index = clip.file_index();
        proof {
            assert(clips@[pick as int] == clips_spec(sound)[pick as int]);
            assert(0 <= pick < clips_spec(sound).len() && file_index == clip_index_spec(
                clips_spec(sound)[pick as int],
            ));
        }

        let mut file = match self.fs.open_and(file_index) {
            Ok(f) => f,
            Err(e) => {
                proof {
                    assert(play_error(*old(self), sound, e)) by {
                        match e {
                            Error::FileNotFound => {
                                assert(clip_index_spec(clips_spec(sound)[pick as int]) >= old(
                                    self,
                                ).num_files_spec());
                            },
                            Error::InconsistentData => {
                                assert(clip_index_spec(clips_spec(sound)[pick as int]) < old(
                                    self,
                                ).num_files_spec());
                            },
                            _ => {},
                        }
                    }
                }
                return Err(e);
            },
        };

        let bytes_read = match file.read(&mut self.fs, &mut self.buffer_a) {
            Ok(n) => n,
            Err(e) => {
                return Err(e);
            },
        };

        if bytes_read == 0 {
            proof {
                assert(crate::simplefs::parse_entry_length_spec(
                    old(self).fs_bytes_spec(),
                    clip_entry(clip_index_spec(clips_spec(sound)[pick as int])),
                ) == 0);
            }
            return Ok(PlayOutcome::EmptyClip);
        }

        self.play_state = PlayState::Playing {
            file,
            next_buffer_index: 0,
            bytes_in_next_buffer: bytes_read,
        };

        match self.play_next_buffer() {
            Ok(_) => (),
            Err(e) => {
                self.end_playback();
                return Err(e);
            },
        }

        proof {
            let entry = clip_entry(file_index as int);
            let off = crate::simplefs::parse_entry_offset_spec(old(self).fs_bytes_spec(), entry);
            assert(self.buffer_a@.take(bytes_read as int) =~= old(self).fs_bytes_spec().subrange(
                off,
                off + bytes_read,
            ));
        }
        Ok(PlayOutcome::Started { file_index, play_buffer: 0, play_len: bytes_read })
    }

    /// Handle one buffer-consumed signal: start playing the buffer loaded
    /// last, and refill the buffer that just finished from the clip. A
    /// refill that returns no bytes marks the last block; the signal after
    /// that stops playback. Ignored while idle.
    pub fn play_next_buffer(&mut self) -> (r: Result<AudioStep, Error<S::Error>>)
        requires
            old(self).wf(),
        ensures
            final(self).wf(),
            final(self).fs_bytes_spec() == old(self).fs_bytes_spec(),
            final(self).num_files_spec() == old(self).num_files_spec(),
            final(self).reliable_spec() == old(self).reliable_spec(),
            match r {
                Ok(step) => match old(self).state_spec() {
                    PlayState::Idle => step == AudioStep::Noop && *final(self) == *old(self),
                    PlayState::Playing { file, next_buffer_index, bytes_in_next_buffer } => {
                        let m = if BUF_SIZE < file.remaining_spec() {
                            BUF_SIZE as int
                        } else {
                            file.remaining_spec() as int
                        };
                        &&& step == (AudioStep::Played {
                            buffer_index: next_buffer_index,
                            len: bytes_in_next_buffer,
                        })
                        &&& final(self).buffer_spec(1 - next_buffer_index as int).take(m)
                            == old(self).fs_bytes_spec().subrange(
                            file.offset_spec() as int,
                            file.offset_spec() + m,
                        )
                        &&& final(self).buffer_spec(next_buffer_index as int) == old(
                            self,
                        ).buffer_spec(next_buffer_index as int)
                        &&& (m == 0 ==> final(self).state_spec() is LastBlock)
                        &&& (m > 0 ==> {
                            &&& final(self).state_spec() matches PlayState::Playing {
                                file: f2,
                                next_buffer_index: n2,
                                bytes_in_next_buffer: b2,
                            }
                            &&& f2.offset_spec() == file.offset_spec() + m
                            &&& f2.remaining_spec() == file.remaining_spec() - m
                            &&& n2 == 1 - next_buffer_index
                            &&& b2 == m
                        })
                    },
                    PlayState::LastBlock => step == AudioStep::Stopped && (final(self).state_spec() is Idle),
                },
                Err(Error::Storage(_)) => final(self).state_spec() == old(self).state_spec()
                    && !old(self).reliable_spec(),
                Err(_) => false,
            },
    {
        let mut state = PlayState::Idle;
        core::mem::swap(&mut state, &mut self.play_state);

        match state {
            PlayState::Idle => {
                self.play_state = PlayState::Idle;
                Ok(AudioStep::Noop)
            },
            PlayState::Playing { mut file, next_buffer_index, bytes_in_next_buffer } => {
                let play_buffer_index = next_buffer_index;
                let refill_index = if play_buffer_index == 0 {
                    1
                } else {
                    0
                };

                let read_res = if refill_index == 0 {
                    file.read(&mut self.fs, &mut self.buffer_a)
                } else {
                    file.read(&mut self.fs, &mut self.buffer_b)
                };
                let n = match read_res {
                    Ok(n) => n,
                    Err(e) => {
                        self.play_state = PlayState::Playing {
                            file,
                            next_buffer_index,
                            bytes_in_next_buffer,
                        };
                        return Err(e);
                    },
                };

                if n == 0 {
                    self.play_state = PlayState::LastBlock;
                } else {
                    self.play_state = PlayState::Playing {
                        file,
                        next_buffer_index: refill_index,
                        bytes_in_next_buffer: n,
                    };
                }
                Ok(AudioStep::Played { buffer_index: play_buffer_index, len: bytes_in_next_buffer })
            },
            PlayState::LastBlock => {
                self.play_state = PlayState::Idle;
                Ok(AudioStep::Stopped)
            },
        }
    }

    /// Tear playback down to idle. The caller disables the output hardware.
    pub fn end_playback(&mut self)
        ensures
            final(self).state_spec() is Idle,
            final(self).fs_bytes_spec() == old(self).fs_bytes_spec(),
            final(self).num_files_spec() == old(self).num_files_spec(),
            final(self).reliable_spec() == old(self).reliable_spec(),
            final(self).buffer_spec(0) == old(self).buffer_spec(0),
            final(self).buffer_spec(1) == old(self).buffer_spec(1),
            old(self).wf() ==> final(self).wf(),
    {
        self.play_state = PlayState::Idle;
    }
}

} // verus!
