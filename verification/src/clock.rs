//! The audio master clock.
//!
//! Audio playback position is the master timeline of the player: video
//! frames are scheduled against it. The clock advances only on confirmed
//! sample consumption and only while not paused. A one-shot `clear_buffer`
//! flag lets the owner of the clock order the audio consumer to drop its
//! buffered samples after a seek; exactly one observer sees the flag up.
//!
//! Positions are measured in integer microseconds.

use vstd::prelude::*;

verus! {

/// Number of microseconds in one second.
pub const MICROS_PER_SECOND: u64 = 1_000_000;

/// The abstract state of an [`AudioClock`].
pub ghost struct ClockModel {
    /// Playback position in microseconds.
    pub position_us: u64,
    /// Whether the clock is paused; a paused clock does not advance.
    pub paused: bool,
    /// One-shot request to the audio consumer to drop buffered samples.
    pub clear_buffer: bool,
    /// Sample rate of the audio stream, in samples per second per channel.
    pub sample_rate: u32,
    /// Number of interleaved audio channels.
    pub channels: u16,
}

/// The state after a seek of the playback position: the position is
/// overwritten and the buffer-clear request is raised.
pub open spec fn set_position_spec(c: ClockModel, position_us: u64) -> ClockModel {
    ClockModel {
        position_us: position_us,
        paused: c.paused,
        clear_buffer: true,
        sample_rate: c.sample_rate,
        channels: c.channels,
    }
}

/// The state after one observation of the buffer-clear flag: the flag is
/// down, whatever it was before.
pub open spec fn ack_clear_spec(c: ClockModel) -> ClockModel {
    ClockModel {
        position_us: c.position_us,
        paused: c.paused,
        clear_buffer: false,
        sample_rate: c.sample_rate,
        channels: c.channels,
    }
}

/// Microseconds covered by `samples` interleaved samples at the given
/// rate and channel count, truncated to whole microseconds.
pub open spec fn sample_delta_us(samples: u64, sample_rate: u32, channels: u16) -> int {
    (samples as int * MICROS_PER_SECOND as int) / (sample_rate as int * channels as int)
}

/// The position after advancing, saturating at the largest representable
/// position.
pub open spec fn advanced_position(c: ClockModel, samples: u64) -> u64 {
    let moved = c.position_us + sample_delta_us(samples, c.sample_rate, c.channels);
    if moved > u64::MAX {
        u64::MAX
    } else {
        moved as u64
    }
}

/// The state after `samples` consumed samples: the position advances by
/// the time they cover, unless the clock is paused.
pub open spec fn advance_spec(c: ClockModel, samples: u64) -> ClockModel {
    if c.paused {
        c
    } else {
        ClockModel {
            position_us: advanced_position(c, samples),
            paused: c.paused,
            clear_buffer: c.clear_buffer,
            sample_rate: c.sample_rate,
            channels: c.channels,
        }
    }
}

/// The state after a wall-driven advance of `delta_us` microseconds:
/// the position moves by the elapsed time, saturating at the largest
/// representable position, unless the clock is paused.
pub open spec fn advance_micros_spec(c: ClockModel, delta_us: u64) -> ClockModel {
    if c.paused {
        c
    } else {
        ClockModel {
            position_us: if c.position_us + delta_us > u64::MAX {
                u64::MAX
            } else {
                (c.position_us + delta_us) as u64
            },
            paused: c.paused,
            clear_buffer: c.clear_buffer,
            sample_rate: c.sample_rate,
            channels: c.channels,
        }
    }
}

/// Master clock for audio/video synchronisation, driven by consumed audio
/// samples. Sample rate and channel count are fixed at construction.
pub struct AudioClock {
    position_us: u64,
    paused: bool,
    clear_buffer: bool,
    sample_rate: u32,
    channels: u16,
}

impl View for AudioClock {
    type V = ClockModel;

    closed spec fn view(&self) -> ClockModel {
        ClockModel {
            position_us: self.position_us,
            paused: self.paused,
            clear_buffer: self.clear_buffer,
            sample_rate: self.sample_rate,
            channels: self.channels,
        }
    }
}

impl AudioClock {
    /// A clock with at least one channel at a positive sample rate.
    pub open spec fn wf(self) -> bool {
        &&& self@.sample_rate >= 1
        &&& self@.channels >= 1
    }

    /// A fresh clock: at the origin, paused, with no pending buffer clear.
    pub fn new(sample_rate: u32, channels: u16) -> (clock: AudioClock)
        requires
            sample_rate >= 1,
            channels >= 1,
        ensures
            clock.wf(),
            clock@ == (ClockModel {
                position_us: 0,
                paused: true,
                clear_buffer: false,
                sample_rate: sample_rate,
                channels: channels,
            }),
    {
        AudioClock { position_us: 0, paused: true, clear_buffer: false, sample_rate, channels }
    }

    /// Current playback position in microseconds.
    pub fn position(&self) -> (p: u64)
        ensures
            p == self@.position_us,
    {
        self.position_us
    }

    /// Overwrite the playback position (used during seek) and raise the
    /// buffer-clear request, so that stale samples from before the seek
    /// are never heard.
    pub fn set_position(&mut self, position_us: u64)
        ensures
            final(self)@ == set_position_spec(old(self)@, position_us),
            final(self).wf() == old(self).wf(),
    {
        self.position_us = position_us;
        self.clear_buffer = true;
    }

    /// Observe and lower the buffer-clear flag. Returns true exactly when
    /// the flag was up, so of any run of observations after one seek,
    /// only the first is told to clear.
    pub fn should_clear_buffer(&mut self) -> (clear: bool)
        ensures
            clear == old(self)@.clear_buffer,
            final(self)@ == ack_clear_spec(old(self)@),
            final(self).wf() == old(self).wf(),
    {
        let clear = self.clear_buffer;
        self.clear_buffer = false;
        clear
    }

    /// Advance the clock by the time covered by `samples` consumed
    /// interleaved samples. A paused clock stays still; an unpaused clock
    /// never moves backwards.
    pub fn advance_samples(&mut self, samples: u64)
        requires
            old(self).wf(),
        ensures
            final(self)@ == advance_spec(old(self)@, samples),
            final(self)@.position_us >= old(self)@.position_us,
            old(self)@.paused ==> final(self)@ == old(self)@,
            final(self).wf(),
    {
        if !self.paused {
            proof {
                assert(self.sample_rate as int * self.channels as int >= 1) by (nonlinear_arith)
                    requires
                        self.sample_rate >= 1,
                        self.channels >= 1,
                ;
                assert(self.sample_rate as int * self.channels as int <= u32::MAX as int
                    * u16::MAX as int) by (nonlinear_arith)
                    requires
                        self.sample_rate <= u32::MAX,
                        self.channels <= u16::MAX,
                ;
            }
            let denom_u128: u128 = (self.sample_rate as u128) * (self.channels as u128);
            proof {
                vstd::arithmetic::mul::lemma_mul_upper_bound(
                    samples as int,
                    u64::MAX as int,
                    MICROS_PER_SECOND as int,
                    MICROS_PER_SECOND as int,
                );
            }
            let delta: u128 = (samples as u128) * (MICROS_PER_SECOND as u128) / denom_u128;
            let delta_u64: u64 = if delta > u64::MAX as u128 {
                u64::MAX
            } else {
                delta as u64
            };
            self.position_us = if self.position_us <= u64::MAX - delta_u64 {
                self.position_us + delta_u64
            } else {
                u64::MAX
            };
        }
    }

    /// Advance the clock by elapsed wall time. For media without an
    /// audio stream nothing consumes samples, so the timeline would
    /// stand still; the owner of the clock then drives it from a wall
    /// timer instead. A paused clock stays still here too.
    pub fn advance_micros(&mut self, delta_us: u64)
        ensures
            final(self)@ == advance_micros_spec(old(self)@, delta_us),
            final(self)@.position_us >= old(self)@.position_us,
            old(self)@.paused ==> final(self)@ == old(self)@,
            final(self).wf() == old(self).wf(),
    {
        if !self.paused {
            self.position_us = if self.position_us <= u64::MAX - delta_us {
                self.position_us + delta_us
            } else {
                u64::MAX
            };
        }
    }

    /// Whether the clock is paused.
    pub fn is_paused(&self) -> (p: bool)
        ensures
            p == self@.paused,
    {
        self.paused
    }

    /// Stop the clock from advancing.
    pub fn pause(&mut self)
        ensures
            final(self)@ == (ClockModel { paused: true, ..old(self)@ }),
            final(self).wf() == old(self).wf(),
    {
        self.paused = true;
    }

    /// Let the clock advance again.
    pub fn resume(&mut self)
        ensures
            final(self)@ == (ClockModel { paused: false, ..old(self)@ }),
            final(self).wf() == old(self).wf(),
    {
        self.paused = false;
    }

    /// Sample rate fixed at construction.
    pub fn sample_rate(&self) -> (r: u32)
        ensures
            r == self@.sample_rate,
    {
        self.sample_rate
    }

    /// Channel count fixed at construction.
    pub fn channels(&self) -> (c: u16)
        ensures
            c == self@.channels,
    {
        self.channels
    }
}

/// Law: the position is monotonically non-decreasing under sample
/// consumption, and stable while paused.
pub proof fn lemma_position_monotone(c: ClockModel, samples: u64)
    requires
        c.sample_rate >= 1,
        c.channels >= 1,
    ensures
        advance_spec(c, samples).position_us >= c.position_us,
        c.paused ==> advance_spec(c, samples) == c,
{
    if !c.paused {
        let num = samples as int * MICROS_PER_SECOND as int;
        let denom = c.sample_rate as int * c.channels as int;
        vstd::arithmetic::mul::lemma_mul_nonnegative(samples as int, MICROS_PER_SECOND as int);
        vstd::arithmetic::mul::lemma_mul_strictly_positive(c.sample_rate as int, c.channels as int);
        vstd::arithmetic::div_mod::lemma_div_pos_is_pos(num, denom);
    }
}

/// Law: the buffer-clear flag is one-shot. After a seek, the first
/// observation is told to clear; every further observation before the
/// next seek is not.
pub proof fn lemma_clear_flag_one_shot(c: ClockModel, position_us: u64)
    ensures
        set_position_spec(c, position_us).clear_buffer,
        !ack_clear_spec(set_position_spec(c, position_us)).clear_buffer,
        !ack_clear_spec(ack_clear_spec(set_position_spec(c, position_us))).clear_buffer,
{
}

} // verus!
