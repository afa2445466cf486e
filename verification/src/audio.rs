//! Pull side of the audio path.
//!
//! The audio backend asks for one sample at a time. Each pull first
//! honours a pending buffer-clear request from the clock (raised by a
//! seek), then pops the oldest sample from the shared circular buffer.
//! The clock advances once per batch of consumed samples; it never
//! advances on an underrun, so silence does not move the timeline.
//!
//! A pull never blocks and never fails: when no sample is available the
//! caller plays silence.

use vstd::prelude::*;

use crate::circular_buffer::CircularBuffer;
use crate::clock::{ack_clear_spec, advance_spec, AudioClock};

verus! {

/// Number of consumed samples between clock updates.
pub const CLOCK_BATCH: u64 = 256;

/// The consumed-sample counter after one more sample, wrapping at the
/// type's end.
pub open spec fn next_consumed(n: u64) -> u64 {
    if n == u64::MAX {
        0
    } else {
        (n + 1) as u64
    }
}

/// Pull-side sample cursor bridging the circular buffer to the audio
/// backend. Its only state is the count of samples consumed since the
/// last buffer clear, used to advance the clock in batches.
pub struct AudioSource {
    samples_consumed: u64,
}

impl View for AudioSource {
    type V = u64;

    closed spec fn view(&self) -> u64 {
        self.samples_consumed
    }
}

impl AudioSource {
    /// A cursor that has consumed nothing yet.
    pub fn new() -> (source: AudioSource)
        ensures
            source@ == 0u64,
    {
        AudioSource { samples_consumed: 0 }
    }

    /// Produce the next sample for the audio backend, or nothing when the
    /// backend must play silence. Exactly one of three things happens:
    /// a pending buffer-clear request drains the buffer and yields one
    /// silence gap; a buffered sample is consumed and the clock advances
    /// once per full batch; or an underrun yields silence and leaves the
    /// clock untouched.
    pub fn next_sample<T: Copy>(
        &mut self,
        clock: &mut AudioClock,
        buffer: &mut CircularBuffer<T>,
    ) -> (sample: Option<T>)
        requires
            old(clock).wf(),
            old(buffer).wf(),
        ensures
            final(clock).wf(),
            final(buffer).wf(),
            final(buffer).cap() == old(buffer).cap(),
            old(clock)@.clear_buffer ==> {
                &&& sample is None
                &&& final(buffer)@ == Seq::<T>::empty()
                &&& final(self)@ == 0u64
                &&& final(clock)@ == ack_clear_spec(old(clock)@)
            },
            !old(clock)@.clear_buffer && old(buffer)@.len() == 0 ==> {
                &&& sample is None
                &&& final(buffer)@ == old(buffer)@
                &&& final(self)@ == old(self)@
                &&& final(clock)@ == ack_clear_spec(old(clock)@)
            },
            !old(clock)@.clear_buffer && old(buffer)@.len() > 0 ==> {
                &&& sample == Some(old(buffer)@[0])
                &&& final(buffer)@ == old(buffer)@.drop_first()
                &&& final(self)@ == next_consumed(old(self)@)
                &&& final(clock)@ == if next_consumed(old(self)@) % CLOCK_BATCH == 0 {
                    advance_spec(ack_clear_spec(old(clock)@), CLOCK_BATCH)
                } else {
                    ack_clear_spec(old(clock)@)
                }
            },
            final(clock)@.position_us >= old(clock)@.position_us,
    {
        if clock.should_clear_buffer() {
            // A seek happened: stale samples must never be heard.
            buffer.clear();
            self.samples_consumed = 0;
            return None;
        }
        match buffer.try_pop() {
            Some(sample) => {
                self.samples_consumed = if self.samples_consumed == u64::MAX {
                    0
                } else {
                    self.samples_consumed + 1
                };
                if self.samples_consumed % CLOCK_BATCH == 0 {
                    clock.advance_samples(CLOCK_BATCH);
                }
                Some(sample)
            },
            None => None,
        }
    }
}

} // verus!
