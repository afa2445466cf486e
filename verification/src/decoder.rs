//! Control state machine of the decoder worker.
//!
//! The worker is a long-running thread that demuxes packets, decodes two
//! streams, scales video to RGBA and resamples audio. The decoding
//! backend does that work outside this library; everything the worker
//! decides — how commands change its state and the clock, how a pending
//! seek is coalesced and completed, when to idle, when to give up on a
//! full frame channel — is verified here. The unverified shell runs the
//! loop: it reads packets, calls the codec, sleeps, and consults these
//! functions between steps.

use vstd::prelude::*;

use crate::clock::{set_position_spec, AudioClock, ClockModel, MICROS_PER_SECOND};
use crate::video::DecodedVideoFrame;

use crossbeam_channel::{Receiver, Sender, TryRecvError, TrySendError};

verus! {

/// Commands sent to the decoder worker. Seek targets are in
/// microseconds.
#[derive(Clone, Copy, Debug, PartialEq, Eq, Structural)]
pub enum DecoderCommand {
    Seek(u64),
    Pause,
    Resume,
    Stop,
}

/// Sample rate used when the container carries no audio stream.
pub const DEFAULT_SAMPLE_RATE: u32 = 44_100;

/// Channel count used when the container carries no audio stream.
pub const DEFAULT_CHANNELS: u16 = 2;

/// Greatest number of commands drained in one poll; the command channel
/// is sized to it.
pub const COMMAND_BURST: usize = 16;

/// Media info extracted from the file, immutable after probing.
/// Durations are in microseconds.
#[derive(Clone, Copy, Debug, PartialEq, Eq, Structural)]
pub struct MediaInfo {
    pub width: u32,
    pub height: u32,
    pub duration_us: u64,
    pub sample_rate: u32,
    pub channels: u16,
}

/// Shape a probe's raw findings into media info: a missing or unusable
/// audio stream falls back to the default clock rate, and an unset
/// container duration reads as zero.
pub fn media_info_from_probe(
    width: u32,
    height: u32,
    raw_duration_us: i64,
    audio: Option<(u32, u16)>,
) -> (info: MediaInfo)
    ensures
        info.width == width,
        info.height == height,
        info.duration_us == if raw_duration_us > 0 {
            raw_duration_us as u64
        } else {
            0u64
        },
        match audio {
            Some((rate, channels)) => {
                &&& info.sample_rate == if rate >= 1 {
                    rate
                } else {
                    DEFAULT_SAMPLE_RATE
                }
                &&& info.channels == if channels >= 1 {
                    channels
                } else {
                    DEFAULT_CHANNELS
                }
            },
            None => info.sample_rate == DEFAULT_SAMPLE_RATE && info.channels == DEFAULT_CHANNELS,
        },
        info.sample_rate >= 1,
        info.channels >= 1,
{
    let (sample_rate, channels): (u32, u16) = match audio {
        Some((rate, channels)) => {
            (
                if rate >= 1 {
                    rate
                } else {
                    DEFAULT_SAMPLE_RATE
                },
                if channels >= 1 {
                    channels
                } else {
                    DEFAULT_CHANNELS
                },
            )
        },
        None => (DEFAULT_SAMPLE_RATE, DEFAULT_CHANNELS),
    };
    let duration_us: u64 = if raw_duration_us > 0 {
        raw_duration_us as u64
    } else {
        0
    };
    MediaInfo { width, height, duration_us, sample_rate, channels }
}

/// The worker's control state: whether decoding is paused, the latest
/// seek not yet served, and whether the demuxer has reached the end of
/// the file.
#[derive(Clone, Copy, Debug, PartialEq, Eq, Structural)]
pub struct WorkerState {
    pub paused: bool,
    pub pending_seek: Option<u64>,
    pub at_eof: bool,
}

/// What one step of the frame-delivery retry loop decided.
pub enum DeliverStep {
    /// The frame went out.
    Sent,
    /// The channel was full: here is the frame back; retry after a short
    /// sleep.
    Retry(DecodedVideoFrame),
    /// A seek arrived: the frame is stale and was abandoned; serve the
    /// seek.
    SeekRequested,
    /// Stop was commanded or a channel endpoint is gone: exit the worker.
    Exit,
}

impl WorkerState {
    /// The state a worker starts in: paused, with nothing pending.
    pub fn new() -> (state: WorkerState)
        ensures
            state == (WorkerState { paused: true, pending_seek: None, at_eof: false }),
    {
        WorkerState { paused: true, pending_seek: None, at_eof: false }
    }

    /// How one command changes the control state. A later seek replaces
    /// an earlier one still pending: only the latest target is served.
    pub open spec fn apply_command_spec(self, cmd: DecoderCommand) -> WorkerState {
        match cmd {
            DecoderCommand::Pause => WorkerState { paused: true, ..self },
            DecoderCommand::Resume => WorkerState { paused: false, ..self },
            DecoderCommand::Seek(target_us) => WorkerState {
                pending_seek: Some(target_us),
                ..self
            },
            DecoderCommand::Stop => self,
        }
    }

    /// Handle one command: pause and resume act on the state and the
    /// clock together, a seek is recorded for coalescing, and stop asks
    /// the caller to exit.
    pub fn apply_command(&mut self, clock: &mut AudioClock, cmd: DecoderCommand) -> (exit: bool)
        requires
            old(clock).wf(),
        ensures
            final(clock).wf(),
            exit == (cmd == DecoderCommand::Stop),
            *final(self) == old(self).apply_command_spec(cmd),
            final(clock)@ == match cmd {
                DecoderCommand::Pause => (ClockModel { paused: true, ..old(clock)@ }),
                DecoderCommand::Resume => (ClockModel { paused: false, ..old(clock)@ }),
                _ => old(clock)@,
            },
    {
        match cmd {
            DecoderCommand::Stop => true,
            DecoderCommand::Pause => {
                self.paused = true;
                clock.pause();
                false
            },
            DecoderCommand::Resume => {
                self.paused = false;
                clock.resume();
                false
            },
            DecoderCommand::Seek(target_us) => {
                self.pending_seek = Some(target_us);
                false
            },
        }
    }

    /// Drain pending commands without blocking. Returns true when the
    /// worker must exit, on a stop command or a gone channel. Command
    /// handling never moves the clock's position or its buffer-clear
    /// flag, and keeps the worker's pause flag in step with the clock's.
    pub fn poll_commands(
        &mut self,
        commands: &Receiver<DecoderCommand>,
        clock: &mut AudioClock,
    ) -> (exit: bool)
        requires
            old(clock).wf(),
        ensures
            final(clock).wf(),
            final(clock)@.position_us == old(clock)@.position_us,
            final(clock)@.clear_buffer == old(clock)@.clear_buffer,
            final(clock)@.sample_rate == old(clock)@.sample_rate,
            final(clock)@.channels == old(clock)@.channels,
            final(self).at_eof == old(self).at_eof,
            old(self).paused == old(clock)@.paused ==> final(self).paused
                == final(clock)@.paused,
            old(self).pending_seek is Some ==> final(self).pending_seek is Some,
    {
        let mut polled: usize = 0;
        while polled < COMMAND_BURST
            invariant
                polled <= COMMAND_BURST,
                clock.wf(),
                clock@.position_us == old(clock)@.position_us,
                clock@.clear_buffer == old(clock)@.clear_buffer,
                clock@.sample_rate == old(clock)@.sample_rate,
                clock@.channels == old(clock)@.channels,
                self.at_eof == old(self).at_eof,
                old(self).paused == old(clock)@.paused ==> self.paused == clock@.paused,
                old(self).pending_seek is Some ==> self.pending_seek is Some,
            decreases COMMAND_BURST - polled,
        {
            match commands.try_recv() {
                Ok(cmd) => {
                    if self.apply_command(clock, cmd) {
                        return true;
                    }
                },
                Err(TryRecvError::Empty) => {
                    break ;
                },
                Err(TryRecvError::Disconnected) => {
                    return true;
                },
            }
            polled = polled + 1;
        }
        false
    }

    /// Take the coalesced seek target, leaving none pending. The shell
    /// then asks the demuxer to seek and, on success, calls
    /// `complete_seek`.
    pub fn take_pending_seek(&mut self) -> (target: Option<u64>)
        ensures
            target == old(self).pending_seek,
            final(self).pending_seek is None,
            final(self).paused == old(self).paused,
            final(self).at_eof == old(self).at_eof,
    {
        let target = self.pending_seek;
        self.pending_seek = None;
        target
    }

    /// After the demuxer sought and the decoders were flushed: the clock
    /// adopts the target and raises its buffer-clear request, and the
    /// end-of-file mark is lifted so reading resumes.
    pub fn complete_seek(&mut self, clock: &mut AudioClock, target_us: u64)
        requires
            old(clock).wf(),
        ensures
            final(clock).wf(),
            final(clock)@ == set_position_spec(old(clock)@, target_us),
            *final(self) == (WorkerState { at_eof: false, ..*old(self) }),
    {
        clock.set_position(target_us);
        self.at_eof = false;
    }

    /// Whether the worker should sleep instead of reading a packet:
    /// while paused, or at the end of the file waiting for a seek.
    pub fn should_idle(&self) -> (idle: bool)
        ensures
            idle == (self.paused || self.at_eof),
    {
        self.paused || self.at_eof
    }

    /// The demuxer reported the end of the file: stop reading until a
    /// seek lifts the mark. End of file is not an error.
    pub fn mark_eof(&mut self)
        ensures
            *final(self) == (WorkerState { at_eof: true, ..*old(self) }),
    {
        self.at_eof = true;
    }

    /// One step of delivering a decoded frame to a possibly full
    /// channel: commands are polled first — a stop exits, a seek
    /// abandons the stale frame — then the send is attempted. A full
    /// channel hands the frame back unchanged for the next attempt, so
    /// no frame is lost to backpressure.
    pub fn try_deliver_frame(
        &mut self,
        commands: &Receiver<DecoderCommand>,
        frames: &Sender<DecodedVideoFrame>,
        clock: &mut AudioClock,
        frame: DecodedVideoFrame,
    ) -> (step: DeliverStep)
        requires
            old(clock).wf(),
        ensures
            final(clock).wf(),
            final(clock)@.position_us == old(clock)@.position_us,
            final(clock)@.clear_buffer == old(clock)@.clear_buffer,
            final(clock)@.sample_rate == old(clock)@.sample_rate,
            final(clock)@.channels == old(clock)@.channels,
            final(self).at_eof == old(self).at_eof,
            old(self).paused == old(clock)@.paused ==> final(self).paused
                == final(clock)@.paused,
            match step {
                DeliverStep::Sent => final(self).pending_seek == old(self).pending_seek,
                DeliverStep::Retry(returned) => returned == frame && final(self).pending_seek
                    == old(self).pending_seek,
                DeliverStep::SeekRequested => final(self).pending_seek is Some,
                DeliverStep::Exit => true,
            },
    {
        // Commands take priority: a seek makes this frame stale.
        match commands.try_recv() {
            Ok(DecoderCommand::Stop) => {
                return DeliverStep::Exit;
            },
            Ok(DecoderCommand::Pause) => {
                self.paused = true;
                clock.pause();
            },
            Ok(DecoderCommand::Resume) => {
                self.paused = false;
                clock.resume();
            },
            Ok(DecoderCommand::Seek(target_us)) => {
                self.pending_seek = Some(target_us);
                return DeliverStep::SeekRequested;
            },
            Err(TryRecvError::Empty) => {},
            Err(TryRecvError::Disconnected) => {
                return DeliverStep::Exit;
            },
        }
        match frames.try_send(frame) {
            Ok(()) => DeliverStep::Sent,
            Err(TrySendError::Full(returned)) => DeliverStep::Retry(returned),
            Err(TrySendError::Disconnected(_)) => DeliverStep::Exit,
        }
    }
}

/// Saturate an exact integer time to the representable range.
pub open spec fn clamp_to_i64(v: int) -> i64 {
    if v > i64::MAX {
        i64::MAX
    } else if v < i64::MIN {
        i64::MIN
    } else {
        v as i64
    }
}

/// Exact presentation time in microseconds of a raw timestamp counted in
/// units of the stream's time base `tb_num / tb_den` seconds, truncated
/// toward zero.
pub open spec fn pts_micros_exact(raw_pts: i64, tb_num: i32, tb_den: i32) -> int {
    if raw_pts >= 0 {
        (raw_pts as int * tb_num as int * MICROS_PER_SECOND as int) / tb_den as int
    } else {
        -((-(raw_pts as int) * tb_num as int * MICROS_PER_SECOND as int) / tb_den as int)
    }
}

/// Convert a stream timestamp to microseconds under its time base,
/// saturating at the representable range. Real time bases have a
/// positive denominator and a non-negative numerator.
pub fn pts_to_micros(raw_pts: i64, tb_num: i32, tb_den: i32) -> (pts_us: i64)
    requires
        tb_num >= 0,
        tb_den >= 1,
    ensures
        pts_us == clamp_to_i64(pts_micros_exact(raw_pts, tb_num, tb_den)),
{
    let raw = raw_pts as i128;
    let magnitude: i128 = if raw < 0 {
        -raw
    } else {
        raw
    };
    proof {
        vstd::arithmetic::mul::lemma_mul_nonnegative(magnitude as int, tb_num as int);
        vstd::arithmetic::mul::lemma_mul_upper_bound(
            magnitude as int,
            0x8000_0000_0000_0000,
            tb_num as int,
            0x8000_0000,
        );
        vstd::arithmetic::mul::lemma_mul_nonnegative(
            magnitude as int * tb_num as int,
            MICROS_PER_SECOND as int,
        );
        vstd::arithmetic::mul::lemma_mul_upper_bound(
            magnitude as int * tb_num as int,
            0x4000_0000_0000_0000_0000_0000,
            MICROS_PER_SECOND as int,
            MICROS_PER_SECOND as int,
        );
        vstd::arithmetic::div_mod::lemma_div_pos_is_pos(
            magnitude as int * tb_num as int * MICROS_PER_SECOND as int,
            tb_den as int,
        );
        vstd::arithmetic::div_mod::lemma_div_is_ordered_by_denominator(
            magnitude as int * tb_num as int * MICROS_PER_SECOND as int,
            1,
            tb_den as int,
        );
    }
    let scaled: i128 = magnitude * (tb_num as i128) * (MICROS_PER_SECOND as i128) / (
    tb_den as i128);
    let signed: i128 = if raw < 0 {
        -scaled
    } else {
        scaled
    };
    if signed > i64::MAX as i128 {
        i64::MAX
    } else if signed < i64::MIN as i128 {
        i64::MIN
    } else {
        signed as i64
    }
}

/// The packed RGBA word of four bytes, red in the low byte.
pub open spec fn rgba_word(r: u8, g: u8, b: u8, a: u8) -> u32 {
    (r as int + g as int * 0x100 + b as int * 0x10000 + a as int * 0x1000000) as u32
}

/// The packed pixel at index `i` of a tightly packed RGBA byte stream.
pub open spec fn rgba_pixel_at(bytes: Seq<u8>, i: int) -> u32 {
    rgba_word(bytes[4 * i], bytes[4 * i + 1], bytes[4 * i + 2], bytes[4 * i + 3])
}

/// Build a displayable frame from the scaler's RGBA byte stream by an
/// explicit single-pass copy into packed 32-bit pixels. A stream whose
/// length does not cover the frame's dimensions yields nothing.
pub fn frame_from_rgba(bytes: &[u8], width: u32, height: u32, pts_us: i64) -> (frame: Option<
    DecodedVideoFrame,
>)
    ensures
        (frame is Some) == (bytes@.len() == 4 * (width as int * height as int)),
        frame matches Some(f) ==> {
            &&& f.wf()
            &&& f.width == width
            &&& f.height == height
            &&& f.pts_us == pts_us
            &&& f.pixels@.len() == width as int * height as int
            &&& forall|i: int|
                0 <= i < f.pixels@.len() ==> f.pixels@[i] == rgba_pixel_at(bytes@, i)
        },
{
    let len = bytes.len();
    proof {
        vstd::arithmetic::mul::lemma_mul_nonnegative(width as int, height as int);
        vstd::arithmetic::mul::lemma_mul_upper_bound(
            width as int,
            0xFFFF_FFFF,
            height as int,
            0xFFFF_FFFF,
        );
    }
    let area: u128 = (width as u128) * (height as u128);
    if (len as u128) != area * 4 {
        return None;
    }
    let count = len / 4;
    proof {
        assert(len as int == (width as int * height as int) * 4);
        vstd::arithmetic::div_mod::lemma_div_multiples_vanish(
            width as int * height as int,
            4,
        );
        assert(count as int == width as int * height as int);
        assert(4 * count as int == bytes@.len());
    }
    let mut pixels: Vec<u32> = Vec::new();
    let mut i: usize = 0;
    while i < count
        invariant
            i <= count,
            4 * count as int == bytes@.len(),
            4 * count as int <= usize::MAX as int,
            count as int == width as int * height as int,
            pixels@.len() == i,
            forall|j: int| 0 <= j < i ==> pixels@[j] == rgba_pixel_at(bytes@, j),
        decreases count - i,
    {
        let base = 4 * i;
        let red = bytes[base];
        let green = bytes[base + 1];
        let blue = bytes[base + 2];
        let alpha = bytes[base + 3];
        let word: u32 = (red as u32) + (green as u32) * 0x100 + (blue as u32) * 0x10000 + (
        alpha as u32) * 0x1000000;
        pixels.push(word);
        i = i + 1;
    }
    Some(DecodedVideoFrame { pixels, width, height, pts_us })
}

/// Law: seek commands coalesce — of several seeks pending at once, only
/// the latest target is served, whatever else is interleaved among the
/// commands that keep a seek pending.
pub proof fn lemma_seek_commands_coalesce(s: WorkerState, first_us: u64, second_us: u64)
    ensures
        s.apply_command_spec(DecoderCommand::Seek(first_us)).apply_command_spec(
            DecoderCommand::Seek(second_us),
        ) == s.apply_command_spec(DecoderCommand::Seek(second_us)),
        s.apply_command_spec(DecoderCommand::Seek(second_us)).pending_seek == Some(second_us),
{
}

} // verus!
