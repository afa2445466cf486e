//! Player facade state machine.
//!
//! The facade owns the player's visible state — stopped, playing or
//! paused, the seeking substate, the media dimensions — and the video
//! frame queue. The shell around the library wires it to the decoder
//! thread, the audio sink and the presentation surface: each method says
//! in its result what the shell must do (start or pause the sink, send a
//! command), and its contract says what happened to the state, the queue
//! and the clock.

use vstd::prelude::*;

use crate::clock::{advance_spec, advanced_position, set_position_spec, AudioClock, ClockModel};
use crate::decoder::MediaInfo;
use crate::video::{
    DecodedVideoFrame, VideoFrameQueue, DROP_THRESHOLD_US, HOLD_THRESHOLD_US, SEEK_TOLERANCE_US,
};

use crossbeam_channel::Receiver;

verus! {

/// How close to the duration the clock must be, in microseconds, for a
/// drained queue to count as the end of the stream.
pub const END_OF_STREAM_SLACK_US: u64 = 100_000;

/// Full scale of a volume level, in per-mille.
pub const VOLUME_FULL: u32 = 1000;

/// Volume level in per-mille of full scale.
#[derive(Clone, Copy, Debug, PartialEq, Eq, Structural)]
pub struct Volume(u32);

impl Volume {
    /// The level carried, in per-mille of full scale.
    pub closed spec fn level(&self) -> u32 {
        self.0
    }

    #[verifier::type_invariant]
    spec fn in_range(self) -> bool {
        self.0 <= VOLUME_FULL
    }

    /// A volume level; a value above full scale is refused.
    pub fn new(value: u32) -> (volume: Option<Volume>)
        ensures
            (volume is Some) == (value <= VOLUME_FULL),
            volume matches Some(v) ==> v.level() == value,
    {
        if value <= VOLUME_FULL {
            Some(Volume(value))
        } else {
            None
        }
    }

    /// The inner value, never above full scale.
    pub fn get(self) -> (value: u32)
        ensures
            value == self.level(),
            value <= VOLUME_FULL,
    {
        proof {
            use_type_invariant(self);
        }
        self.0
    }
}

/// How the presentation layer scales the video; decoding is unaffected.
#[derive(Clone, Copy, Debug, PartialEq, Eq, Structural)]
pub enum DisplayMode {
    FitToWindow,
    NativeSize,
}

/// The player's lifecycle state.
#[derive(Clone, Copy, Debug, PartialEq, Eq, Structural)]
pub enum PlayerState {
    Stopped,
    Playing,
    Paused,
}

/// The other display mode.
pub open spec fn toggle_mode_spec(mode: DisplayMode) -> DisplayMode {
    match mode {
        DisplayMode::FitToWindow => DisplayMode::NativeSize,
        DisplayMode::NativeSize => DisplayMode::FitToWindow,
    }
}

/// Pausing affects only a playing player.
pub open spec fn pause_transition(state: PlayerState) -> PlayerState {
    if state == PlayerState::Playing {
        PlayerState::Paused
    } else {
        state
    }
}

/// Starting playback always lands in the playing state.
pub open spec fn play_transition(state: PlayerState) -> PlayerState {
    PlayerState::Playing
}

/// The clock reading handed to frame selection, saturated to the signed
/// range that presentation times use.
pub open spec fn clock_reading_i64(position_us: u64) -> i64 {
    if position_us > i64::MAX as u64 {
        i64::MAX
    } else {
        position_us as i64
    }
}

/// What one per-frame tick decided, and what the shell must do about it.
#[derive(Clone, Copy, Debug, PartialEq, Eq, Structural)]
pub enum UpdateOutcome {
    /// A seek is underway and its frame has not arrived yet: repaint and
    /// ask again.
    SeekWaiting,
    /// The post-seek frame arrived and is on screen; the clock adopted
    /// its presentation time. When `resume_audio` holds, the shell must
    /// let the audio sink play again.
    SeekCompleted { resume_audio: bool },
    /// A playing tick: the frame on screen, if any, is current; blit it.
    Shown,
    /// The stream has drained and the clock reached the end: the player
    /// stopped, and the shell must pause the audio sink.
    EndOfStream,
    /// Stopped or paused outside a seek: nothing to do.
    Idle,
}

/// The verified core of the video player: lifecycle state, seeking
/// substate, media dimensions, and the video frame queue. The shell owns
/// the decoder thread, the audio sink and the texture around it.
pub struct PlayerCore {
    state: PlayerState,
    display_mode: DisplayMode,
    seeking: bool,
    seek_target_us: u64,
    width: u32,
    height: u32,
    duration_us: u64,
    frame_queue: VideoFrameQueue,
    error_receiver: Receiver<String>,
}

impl PlayerCore {
    /// The lifecycle state.
    pub closed spec fn state_spec(&self) -> PlayerState {
        self.state
    }

    /// The display mode.
    pub closed spec fn display_mode_spec(&self) -> DisplayMode {
        self.display_mode
    }

    /// Whether a seek is underway.
    pub closed spec fn seeking_spec(&self) -> bool {
        self.seeking
    }

    /// The last seek target, clamped to the duration.
    pub closed spec fn seek_target_spec(&self) -> u64 {
        self.seek_target_us
    }

    /// Natural video width.
    pub closed spec fn width_spec(&self) -> u32 {
        self.width
    }

    /// Natural video height.
    pub closed spec fn height_spec(&self) -> u32 {
        self.height
    }

    /// Media duration in microseconds.
    pub closed spec fn duration_spec(&self) -> u64 {
        self.duration_us
    }

    /// The queue's buffered lookahead frames.
    pub closed spec fn frames(&self) -> Seq<DecodedVideoFrame> {
        self.frame_queue.frames()
    }

    /// The frame on screen.
    pub closed spec fn current(&self) -> Option<DecodedVideoFrame> {
        self.frame_queue.current()
    }

    /// While a seek is underway nothing from before it stays on screen,
    /// the target never exceeds the duration, and the duration fits the
    /// signed microsecond range that presentation times use.
    pub open spec fn wf(&self) -> bool {
        &&& self.seeking_spec() ==> self.current() is None
        &&& self.seek_target_spec() <= self.duration_spec()
        &&& self.duration_spec() <= i64::MAX as u64
    }

    /// The media-fixed parts are untouched.
    pub open spec fn same_media(&self, other: &PlayerCore) -> bool {
        &&& other.width_spec() == self.width_spec()
        &&& other.height_spec() == self.height_spec()
        &&& other.duration_spec() == self.duration_spec()
    }

    /// A freshly opened player: stopped, fit-to-window, not seeking,
    /// sized and timed by the probe, reading frames from the given queue
    /// and error reports from the given channel.
    pub fn new(
        info: &MediaInfo,
        frame_queue: VideoFrameQueue,
        error_receiver: Receiver<String>,
    ) -> (core: PlayerCore)
        requires
            info.duration_us <= i64::MAX as u64,
        ensures
            core.wf(),
            core.state_spec() == PlayerState::Stopped,
            core.display_mode_spec() == DisplayMode::FitToWindow,
            !core.seeking_spec(),
            core.seek_target_spec() == 0u64,
            core.width_spec() == info.width,
            core.height_spec() == info.height,
            core.duration_spec() == info.duration_us,
            core.frames() == frame_queue.frames(),
            core.current() == frame_queue.current(),
    {
        PlayerCore {
            state: PlayerState::Stopped,
            display_mode: DisplayMode::FitToWindow,
            seeking: false,
            seek_target_us: 0,
            width: info.width,
            height: info.height,
            duration_us: info.duration_us,
            frame_queue,
            error_receiver,
        }
    }

    /// Start or resume playback. Returns whether the shell must start
    /// the audio sink and send a resume command: it must unless playback
    /// was already running.
    pub fn play(&mut self) -> (start: bool)
        requires
            old(self).wf(),
        ensures
            final(self).wf(),
            final(self).state_spec() == play_transition(old(self).state_spec()),
            start == (old(self).state_spec() != PlayerState::Playing),
            final(self).display_mode_spec() == old(self).display_mode_spec(),
            final(self).seeking_spec() == old(self).seeking_spec(),
            final(self).seek_target_spec() == old(self).seek_target_spec(),
            old(self).same_media(final(self)),
            final(self).frames() == old(self).frames(),
            final(self).current() == old(self).current(),
    {
        if self.state != PlayerState::Playing {
            self.state = PlayerState::Playing;
            true
        } else {
            false
        }
    }

    /// Pause playback. Returns whether the shell must pause the audio
    /// sink and send a pause command: it must exactly when playback was
    /// running.
    pub fn pause(&mut self) -> (emit: bool)
        requires
            old(self).wf(),
        ensures
            final(self).wf(),
            final(self).state_spec() == pause_transition(old(self).state_spec()),
            emit == (old(self).state_spec() == PlayerState::Playing),
            final(self).display_mode_spec() == old(self).display_mode_spec(),
            final(self).seeking_spec() == old(self).seeking_spec(),
            final(self).seek_target_spec() == old(self).seek_target_spec(),
            old(self).same_media(final(self)),
            final(self).frames() == old(self).frames(),
            final(self).current() == old(self).current(),
    {
        if self.state == PlayerState::Playing {
            self.state = PlayerState::Paused;
            true
        } else {
            false
        }
    }

    /// Seek: the target is clamped to the duration — both zero and the
    /// duration itself are accepted — the seeking substate begins, the
    /// frame queue is emptied so nothing from the old timeline survives,
    /// and the clock adopts the target, raising its buffer-clear request.
    /// Returns the clamped target; the shell pauses the audio sink (so
    /// the clock stops advancing) and sends the worker a seek command for
    /// this target.
    pub fn seek(&mut self, clock: &mut AudioClock, target_us: u64) -> (clamped: u64)
        requires
            old(self).wf(),
            old(clock).wf(),
        ensures
            final(self).wf(),
            final(clock).wf(),
            clamped == if target_us <= old(self).duration_spec() {
                target_us
            } else {
                old(self).duration_spec()
            },
            final(self).seeking_spec(),
            final(self).seek_target_spec() == clamped,
            final(self).state_spec() == old(self).state_spec(),
            final(self).display_mode_spec() == old(self).display_mode_spec(),
            old(self).same_media(final(self)),
            final(self).frames().len() == 0,
            final(self).current() is None,
            final(clock)@ == set_position_spec(old(clock)@, clamped),
    {
        let clamped = if target_us <= self.duration_us {
            target_us
        } else {
            self.duration_us
        };
        self.seeking = true;
        self.seek_target_us = clamped;
        self.frame_queue.clear();
        clock.set_position(clamped);
        clamped
    }

    /// Stop playback and rewind to the origin. The shell pauses the
    /// audio sink and sends the worker a pause command and a seek to
    /// zero.
    pub fn stop(&mut self, clock: &mut AudioClock)
        requires
            old(self).wf(),
            old(clock).wf(),
        ensures
            final(self).wf(),
            final(clock).wf(),
            final(self).state_spec() == PlayerState::Stopped,
            final(self).seeking_spec(),
            final(self).seek_target_spec() == 0u64,
            final(self).display_mode_spec() == old(self).display_mode_spec(),
            old(self).same_media(final(self)),
            final(self).frames().len() == 0,
            final(self).current() is None,
            final(clock)@ == set_position_spec(old(clock)@, 0),
    {
        self.state = PlayerState::Stopped;
        let _ = self.seek(clock, 0);
    }

    /// Per-frame tick. While seeking, adopt the first post-seek frame:
    /// publish it, realign the clock to its presentation time, leave the
    /// seeking substate, and tell the shell to resume audio if playback
    /// was running. While playing, select the display frame against the
    /// clock, and stop once the stream has drained with the clock at the
    /// end. Otherwise do nothing.
    pub fn update(&mut self, clock: &mut AudioClock) -> (outcome: UpdateOutcome)
        requires
            old(self).wf(),
            old(clock).wf(),
        ensures
            final(self).wf(),
            final(clock).wf(),
            final(self).display_mode_spec() == old(self).display_mode_spec(),
            old(self).same_media(final(self)),
            final(self).seek_target_spec() == old(self).seek_target_spec(),
            old(self).seeking_spec() ==> match outcome {
                UpdateOutcome::SeekWaiting => {
                    &&& final(self).seeking_spec()
                    &&& final(self).state_spec() == old(self).state_spec()
                    &&& final(self).current() is None
                    &&& final(clock)@ == old(clock)@
                },
                UpdateOutcome::SeekCompleted { resume_audio } => {
                    &&& !final(self).seeking_spec()
                    &&& final(self).state_spec() == old(self).state_spec()
                    &&& resume_audio == (old(self).state_spec() == PlayerState::Playing)
                    &&& final(self).current() matches Some(f) ==> {
                        &&& f.pts_us >= old(self).seek_target_spec() - SEEK_TOLERANCE_US as int
                        &&& final(clock)@ == set_position_spec(
                            old(clock)@,
                            if f.pts_us >= 0 {
                                f.pts_us as u64
                            } else {
                                0u64
                            },
                        )
                    }
                    &&& final(self).current() is Some
                },
                _ => false,
            },
            !old(self).seeking_spec() ==> !final(self).seeking_spec(),
            (!old(self).seeking_spec() && old(self).state_spec() != PlayerState::Playing) ==> {
                &&& outcome == UpdateOutcome::Idle
                &&& *final(self) == *old(self)
                &&& final(clock)@ == old(clock)@
            },
            (!old(self).seeking_spec() && old(self).state_spec() == PlayerState::Playing) ==> {
                &&& final(clock)@ == old(clock)@
                &&& match outcome {
                    UpdateOutcome::Shown => final(self).state_spec() == PlayerState::Playing,
                    UpdateOutcome::EndOfStream => {
                        &&& final(self).state_spec() == PlayerState::Stopped
                        &&& final(self).frames().len() == 0
                        &&& final(self).current() is None
                        &&& old(clock)@.position_us + END_OF_STREAM_SLACK_US >= old(
                            self,
                        ).duration_spec()
                    },
                    _ => false,
                }
                &&& match final(self).current() {
                    Some(f) => (clock_reading_i64(old(clock)@.position_us) - DROP_THRESHOLD_US as int
                        <= f.pts_us && f.pts_us <= clock_reading_i64(old(clock)@.position_us)
                        + HOLD_THRESHOLD_US as int) || old(self).current() == Some(f),
                    None => old(self).current() is None,
                }
            },
    {
        if self.seeking {
            let target = self.seek_target_us;
            let target_i64: i64 = target as i64;
            let pts_opt: Option<i64> = match self.frame_queue.get_first_frame_after_seek(
                target_i64,
            ) {
                Some(frame) => Some(frame.pts_us),
                None => None,
            };
            match pts_opt {
                Some(pts_us) => {
                    // Align the master clock to the frame that actually
                    // arrived: the demuxer lands on an indexable
                    // boundary, not exactly on the request.
                    let adopted: u64 = if pts_us >= 0 {
                        pts_us as u64
                    } else {
                        0
                    };
                    clock.set_position(adopted);
                    self.seeking = false;
                    let resume_audio = self.state == PlayerState::Playing;
                    UpdateOutcome::SeekCompleted { resume_audio }
                },
                None => UpdateOutcome::SeekWaiting,
            }
        } else if self.state != PlayerState::Playing {
            UpdateOutcome::Idle
        } else {
            let position_us = clock.position();
            let reading: i64 = if position_us > i64::MAX as u64 {
                i64::MAX
            } else {
                position_us as i64
            };
            let _ = self.frame_queue.get_display_frame(reading);
            let near_end: bool = if self.duration_us <= END_OF_STREAM_SLACK_US {
                true
            } else {
                position_us >= self.duration_us - END_OF_STREAM_SLACK_US
            };
            if self.frame_queue.is_empty() && near_end {
                self.state = PlayerState::Stopped;
                UpdateOutcome::EndOfStream
            } else {
                UpdateOutcome::Shown
            }
        }
    }

    /// The frame on screen, for the shell to blit.
    pub fn current_frame(&self) -> (frame: Option<&DecodedVideoFrame>)
        ensures
            match frame {
                Some(f) => self.current() == Some(*f),
                None => self.current() is None,
            },
    {
        self.frame_queue.current_frame()
    }

    /// Whether a seek is underway.
    pub fn is_seeking(&self) -> (seeking: bool)
        ensures
            seeking == self.seeking_spec(),
    {
        self.seeking
    }

    /// Flip between fit-to-window and native size.
    pub fn toggle_display_mode(&mut self)
        requires
            old(self).wf(),
        ensures
            final(self).wf(),
            final(self).display_mode_spec() == toggle_mode_spec(old(self).display_mode_spec()),
            final(self).state_spec() == old(self).state_spec(),
            final(self).seeking_spec() == old(self).seeking_spec(),
            final(self).seek_target_spec() == old(self).seek_target_spec(),
            old(self).same_media(final(self)),
            final(self).frames() == old(self).frames(),
            final(self).current() == old(self).current(),
    {
        self.display_mode = match self.display_mode {
            DisplayMode::FitToWindow => DisplayMode::NativeSize,
            DisplayMode::NativeSize => DisplayMode::FitToWindow,
        };
    }

    /// The display mode.
    pub fn display_mode(&self) -> (mode: DisplayMode)
        ensures
            mode == self.display_mode_spec(),
    {
        self.display_mode
    }

    /// Natural video dimensions.
    pub fn video_size(&self) -> (size: (u32, u32))
        ensures
            size.0 == self.width_spec(),
            size.1 == self.height_spec(),
    {
        (self.width, self.height)
    }

    /// Media duration in microseconds.
    pub fn duration(&self) -> (duration_us: u64)
        ensures
            duration_us == self.duration_spec(),
    {
        self.duration_us
    }

    /// Current playback position in microseconds. While seeking, the
    /// position shown is the seek target, not the clock, so the timeline
    /// does not jump back while the demuxer works.
    pub fn position(&self, clock: &AudioClock) -> (position_us: u64)
        ensures
            position_us == if self.seeking_spec() {
                self.seek_target_spec()
            } else {
                clock@.position_us
            },
    {
        if self.seeking {
            self.seek_target_us
        } else {
            clock.position()
        }
    }

    /// Whether playback is running.
    pub fn is_playing(&self) -> (playing: bool)
        ensures
            playing == (self.state_spec() == PlayerState::Playing),
    {
        self.state == PlayerState::Playing
    }

    /// The lifecycle state.
    pub fn state(&self) -> (state: PlayerState)
        ensures
            state == self.state_spec(),
    {
        self.state
    }

    /// Poll for a decoder error report without blocking. What arrives
    /// depends on the decoder thread; nothing more is known of it.
    pub fn error(&self) -> Option<String> {
        match self.error_receiver.try_recv() {
            Ok(report) => Some(report),
            Err(_) => None,
        }
    }
}

/// Law: pausing and then starting playback again restores the playing
/// state; a paused clock holds still, and once resumed it advances again
/// from the position where it stopped.
pub proof fn lemma_pause_play_round_trip(state: PlayerState, c: ClockModel, samples: u64)
    requires
        c.sample_rate >= 1,
        c.channels >= 1,
    ensures
        play_transition(pause_transition(state)) == PlayerState::Playing,
        advance_spec(ClockModel { paused: true, ..c }, samples) == (ClockModel {
            paused: true,
            ..c
        }),
        ({
            let resumed = ClockModel { paused: false, ..ClockModel { paused: true, ..c } };
            &&& !resumed.paused
            &&& resumed.position_us == c.position_us
            &&& advance_spec(resumed, samples).position_us == advanced_position(resumed, samples)
        }),
{
}

/// Law: seeking twice to the same target is the same as seeking once.
/// All other effects of a seek are absolute — the seeking flag raised,
/// the target clamped to the fixed duration, the queue emptied — so only
/// the clock carries state between the two, and a repeated realignment
/// changes nothing.
pub proof fn lemma_seek_idempotent(c: ClockModel, target_us: u64)
    ensures
        set_position_spec(set_position_spec(c, target_us), target_us) == set_position_spec(
            c,
            target_us,
        ),
{
}

} // verus!
