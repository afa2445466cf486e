//! Video frame queue with drop/hold synchronisation against the audio
//! clock.
//!
//! Decoded frames arrive over a bounded channel in presentation order.
//! The queue keeps a bounded lookahead buffer plus the frame currently on
//! screen. On each tick it drops frames that are already late (behind the
//! clock by more than the drop threshold), and advances to the next frame
//! once the clock has caught up to it (within the hold threshold). After
//! a seek, selection is more lenient: the first frame no older than the
//! seek tolerance is adopted, regardless of the sync windows.

use std::collections::VecDeque;
use vstd::prelude::*;

use crossbeam_channel::Receiver;

verus! {

/// Frames this far behind the clock are dropped, in microseconds.
pub const DROP_THRESHOLD_US: i64 = 20_000;

/// Frames at most this far ahead of the clock are shown, in microseconds.
pub const HOLD_THRESHOLD_US: i64 = 20_000;

/// After a seek, frames older than the target by more than this are
/// discarded, in microseconds. The slack absorbs keyframe quantisation:
/// a demuxer seek rarely lands exactly on the requested time.
pub const SEEK_TOLERANCE_US: i64 = 500_000;

/// A decoded video frame ready for display: a tightly packed buffer of
/// 32-bit RGBA pixels plus presentation metadata. Presentation time is
/// in microseconds relative to the container's origin.
pub struct DecodedVideoFrame {
    /// Packed RGBA pixels, one 32-bit word per pixel, row-major.
    pub pixels: Vec<u32>,
    /// Natural width in pixels.
    pub width: u32,
    /// Natural height in pixels.
    pub height: u32,
    /// Presentation time in microseconds.
    pub pts_us: i64,
}

impl DecodedVideoFrame {
    /// The pixel buffer covers exactly the frame's dimensions.
    pub open spec fn wf(&self) -> bool {
        self.pixels@.len() == self.width as int * self.height as int
    }
}

/// Frames stand in non-decreasing presentation order.
pub open spec fn sorted_by_pts(frames: Seq<DecodedVideoFrame>) -> bool {
    forall|i: int, j: int|
        #![trigger frames[i], frames[j]]
        0 <= i < j < frames.len() ==> frames[i].pts_us <= frames[j].pts_us
}

/// The longest prefix of frames older than `cutoff` is discarded.
pub open spec fn drop_stale_spec(frames: Seq<DecodedVideoFrame>, cutoff: int) -> Seq<
    DecodedVideoFrame,
>
    decreases frames.len(),
{
    if frames.len() == 0 {
        frames
    } else if (frames[0].pts_us as int) < cutoff {
        drop_stale_spec(frames.drop_first(), cutoff)
    } else {
        frames
    }
}

/// The outcome of one selection tick: the remaining lookahead buffer,
/// the frame now on screen, and the frame newly moved on screen by this
/// tick, if any.
pub ghost struct SelectionStep {
    pub frames: Seq<DecodedVideoFrame>,
    pub current: Option<DecodedVideoFrame>,
    pub presented: Option<DecodedVideoFrame>,
}

/// One display tick against clock reading `audio_time_us`: late frames
/// are dropped, then the front frame is moved on screen if the clock has
/// reached it (within the hold threshold). At most one frame advances
/// per tick.
pub open spec fn display_select_spec(
    frames: Seq<DecodedVideoFrame>,
    current: Option<DecodedVideoFrame>,
    audio_time_us: int,
) -> SelectionStep {
    let remaining = drop_stale_spec(frames, audio_time_us - DROP_THRESHOLD_US as int);
    if remaining.len() > 0 && remaining[0].pts_us as int <= audio_time_us
        + HOLD_THRESHOLD_US as int {
        SelectionStep {
            frames: remaining.drop_first(),
            current: Some(remaining[0]),
            presented: Some(remaining[0]),
        }
    } else {
        SelectionStep { frames: remaining, current: current, presented: None }
    }
}

/// Post-seek selection against `target_us`: frames older than the seek
/// tolerance are dropped and the first remaining frame is adopted,
/// irrespective of the sync windows.
pub open spec fn seek_select_spec(
    frames: Seq<DecodedVideoFrame>,
    current: Option<DecodedVideoFrame>,
    target_us: int,
) -> SelectionStep {
    let remaining = drop_stale_spec(frames, target_us - SEEK_TOLERANCE_US as int);
    if remaining.len() > 0 {
        SelectionStep {
            frames: remaining.drop_first(),
            current: Some(remaining[0]),
            presented: Some(remaining[0]),
        }
    } else {
        SelectionStep { frames: remaining, current: current, presented: None }
    }
}

/// Queue that manages decoded video frames and their synchronisation to
/// the audio clock. It owns the receive end of the frame channel, a
/// bounded lookahead buffer, and the frame currently on screen.
pub struct VideoFrameQueue {
    receiver: Receiver<DecodedVideoFrame>,
    buffer: VecDeque<DecodedVideoFrame>,
    current_frame: Option<DecodedVideoFrame>,
    max_buffer_size: usize,
}

impl VideoFrameQueue {
    /// The buffered lookahead frames, oldest first.
    pub closed spec fn frames(&self) -> Seq<DecodedVideoFrame> {
        self.buffer@
    }

    /// The frame currently on screen.
    pub closed spec fn current(&self) -> Option<DecodedVideoFrame> {
        self.current_frame
    }

    /// Bound on the lookahead buffer.
    pub closed spec fn max_size(&self) -> nat {
        self.max_buffer_size as nat
    }

    /// An empty queue reading from `receiver`, buffering at most
    /// `max_buffer_size` frames ahead.
    pub fn new(receiver: Receiver<DecodedVideoFrame>, max_buffer_size: usize) -> (queue:
        VideoFrameQueue)
        ensures
            queue.frames() == Seq::<DecodedVideoFrame>::empty(),
            queue.current() is None,
            queue.max_size() == max_buffer_size,
    {
        VideoFrameQueue {
            receiver,
            buffer: VecDeque::with_capacity(max_buffer_size),
            current_frame: None,
            max_buffer_size,
        }
    }

    /// Pull frames from the channel, without blocking, until the
    /// lookahead buffer is full or the channel has nothing more. Frames
    /// already buffered keep their places; arrivals append in order.
    pub fn receive_frames(&mut self)
        ensures
            final(self).current() == old(self).current(),
            final(self).max_size() == old(self).max_size(),
            final(self).frames().len() >= old(self).frames().len(),
            final(self).frames().subrange(0, old(self).frames().len() as int) == old(
                self,
            ).frames(),
            old(self).frames().len() < old(self).max_size() ==> final(self).frames().len() <= old(
                self,
            ).max_size(),
            old(self).frames().len() >= old(self).max_size() ==> final(self).frames() == old(
                self,
            ).frames(),
    {
        loop
            invariant
                self.current_frame == old(self).current(),
                self.max_buffer_size == old(self).max_size(),
                self.buffer@.len() >= old(self).frames().len(),
                self.buffer@.subrange(0, old(self).frames().len() as int) == old(self).frames(),
                old(self).frames().len() < old(self).max_size() ==> self.buffer@.len() <= old(
                    self,
                ).max_size(),
                old(self).frames().len() >= old(self).max_size() ==> self.buffer@ == old(
                    self,
                ).frames(),
            decreases self.max_buffer_size - self.buffer@.len() + 1,
        {
            if self.buffer.len() >= self.max_buffer_size {
                break ;
            }
            match self.receiver.try_recv() {
                Ok(frame) => {
                    self.buffer.push_back(frame);
                    proof {
                        assert(self.buffer@.subrange(0, old(self).frames().len() as int)
                            =~= old(self).frames());
                    }
                },
                Err(_) => {
                    break ;
                },
            }
        }
    }

    /// Select the frame to display for the given clock reading, pulling
    /// newly decoded frames first. Frames behind the clock by more than
    /// the drop threshold are dropped, never presented; the front frame
    /// moves on screen once the clock is within the hold threshold of it.
    /// Returns the frame on screen after the tick.
    pub fn get_display_frame(&mut self, audio_time_us: i64) -> (frame: Option<&DecodedVideoFrame>)
        ensures
            final(self).max_size() == old(self).max_size(),
            exists|received: Seq<DecodedVideoFrame>|
                #![trigger display_select_spec(old(self).frames() + received, old(self).current(), audio_time_us as int)]
                {
                    let step = display_select_spec(
                        old(self).frames() + received,
                        old(self).current(),
                        audio_time_us as int,
                    );
                    &&& final(self).frames() == step.frames
                    &&& final(self).current() == step.current
                },
            match final(self).current() {
                Some(f) => (audio_time_us - DROP_THRESHOLD_US as int <= f.pts_us
                    && f.pts_us <= audio_time_us + HOLD_THRESHOLD_US as int) || old(self).current()
                    == Some(f),
                None => old(self).current() is None,
            },
            match frame {
                Some(f) => final(self).current() == Some(*f),
                None => final(self).current() is None,
            },
    {
        self.receive_frames();
        let ghost refilled = self.buffer@;
        let ghost received = refilled.skip(old(self).frames().len() as int);
        proof {
            assert(old(self).frames() + received =~= refilled);
        }
        let ghost cutoff = audio_time_us as int - DROP_THRESHOLD_US as int;

        // Drop frames that are too late.
        loop
            invariant
                cutoff == audio_time_us as int - DROP_THRESHOLD_US as int,
                self.current_frame == old(self).current(),
                self.max_buffer_size == old(self).max_size(),
                drop_stale_spec(self.buffer@, cutoff) == drop_stale_spec(refilled, cutoff),
            ensures
                self.current_frame == old(self).current(),
                self.max_buffer_size == old(self).max_size(),
                drop_stale_spec(self.buffer@, cutoff) == drop_stale_spec(refilled, cutoff),
                self.buffer@.len() > 0 ==> self.buffer@[0].pts_us as int >= cutoff,
            decreases self.buffer@.len(),
        {
            if self.buffer.len() == 0 {
                break ;
            }
            let late = (self.buffer[0].pts_us as i128) < (audio_time_us as i128) - (
            DROP_THRESHOLD_US as i128);
            if !late {
                break ;
            }
            let ghost before = self.buffer@;
            self.buffer.pop_front();
            proof {
                assert(self.buffer@ =~= before.drop_first());
                assert(drop_stale_spec(before, cutoff) == drop_stale_spec(self.buffer@, cutoff));
            }
        }
        proof {
            assert(drop_stale_spec(self.buffer@, cutoff) == self.buffer@);
        }

        // Show the front frame if the clock has reached it.
        if self.buffer.len() > 0 {
            let show = (self.buffer[0].pts_us as i128) <= (audio_time_us as i128) + (
            HOLD_THRESHOLD_US as i128);
            if show {
                self.current_frame = self.buffer.pop_front();
            }
        }
        proof {
            let step = display_select_spec(
                old(self).frames() + received,
                old(self).current(),
                audio_time_us as int,
            );
            assert(self.buffer@ == step.frames && self.current_frame == step.current);
        }
        self.current_frame.as_ref()
    }

    /// The frame on screen, without advancing.
    pub fn current_frame(&self) -> (frame: Option<&DecodedVideoFrame>)
        ensures
            match frame {
                Some(f) => self.current() == Some(*f),
                None => self.current() is None,
            },
    {
        self.current_frame.as_ref()
    }

    /// Select the first available frame after a seek, pulling newly
    /// decoded frames first. Frames older than the target by more than
    /// the seek tolerance are discarded; the first remaining frame is
    /// adopted irrespective of the sync windows, so a frame on screen
    /// afterwards is never older than the tolerance allows.
    pub fn get_first_frame_after_seek(&mut self, seek_target_us: i64) -> (frame: Option<
        &DecodedVideoFrame,
    >)
        ensures
            final(self).max_size() == old(self).max_size(),
            exists|received: Seq<DecodedVideoFrame>|
                #![trigger seek_select_spec(old(self).frames() + received, old(self).current(), seek_target_us as int)]
                {
                    let step = seek_select_spec(
                        old(self).frames() + received,
                        old(self).current(),
                        seek_target_us as int,
                    );
                    &&& final(self).frames() == step.frames
                    &&& final(self).current() == step.current
                },
            match final(self).current() {
                Some(f) => f.pts_us >= seek_target_us - SEEK_TOLERANCE_US as int || old(
                    self,
                ).current() == Some(f),
                None => old(self).current() is None,
            },
            match frame {
                Some(f) => final(self).current() == Some(*f),
                None => final(self).current() is None,
            },
    {
        self.receive_frames();
        let ghost refilled = self.buffer@;
        let ghost received = refilled.skip(old(self).frames().len() as int);
        proof {
            assert(old(self).frames() + received =~= refilled);
        }
        let ghost cutoff = seek_target_us as int - SEEK_TOLERANCE_US as int;

        // Drop frames from before the seek target, minus the tolerance.
        loop
            invariant
                cutoff == seek_target_us as int - SEEK_TOLERANCE_US as int,
                self.current_frame == old(self).current(),
                self.max_buffer_size == old(self).max_size(),
                drop_stale_spec(self.buffer@, cutoff) == drop_stale_spec(refilled, cutoff),
            ensures
                self.current_frame == old(self).current(),
                self.max_buffer_size == old(self).max_size(),
                drop_stale_spec(self.buffer@, cutoff) == drop_stale_spec(refilled, cutoff),
                self.buffer@.len() > 0 ==> self.buffer@[0].pts_us as int >= cutoff,
            decreases self.buffer@.len(),
        {
            if self.buffer.len() == 0 {
                break ;
            }
            let stale = (self.buffer[0].pts_us as i128) < (seek_target_us as i128) - (
            SEEK_TOLERANCE_US as i128);
            if !stale {
                break ;
            }
            let ghost before = self.buffer@;
            self.buffer.pop_front();
            proof {
                assert(self.buffer@ =~= before.drop_first());
                assert(drop_stale_spec(before, cutoff) == drop_stale_spec(self.buffer@, cutoff));
            }
        }
        proof {
            assert(drop_stale_spec(self.buffer@, cutoff) == self.buffer@);
        }

        // Take the first available frame.
        if self.buffer.len() > 0 {
            self.current_frame = self.buffer.pop_front();
        }
        proof {
            let step = seek_select_spec(
                old(self).frames() + received,
                old(self).current(),
                seek_target_us as int,
            );
            assert(self.buffer@ == step.frames && self.current_frame == step.current);
        }
        self.current_frame.as_ref()
    }

    /// Discard the lookahead buffer, the frame on screen, and everything
    /// still in the channel. Called before a seek so that no frame from
    /// the old timeline survives.
    pub fn clear(&mut self)
        ensures
            final(self).frames() == Seq::<DecodedVideoFrame>::empty(),
            final(self).current() is None,
            final(self).max_size() == old(self).max_size(),
    {
        self.buffer.clear();
        self.current_frame = None;
        // Drain what the decoder already sent. One pass over the
        // lookahead bound suffices: the channel is sized to it, and any
        // frame that races in afterwards is dropped by the next
        // selection as stale.
        let mut drained: usize = 0;
        while drained < self.max_buffer_size
            invariant
                drained <= self.max_buffer_size,
                self.buffer@.len() == 0,
                self.current_frame is None,
                self.max_buffer_size == old(self).max_size(),
            decreases self.max_buffer_size - drained,
        {
            match self.receiver.try_recv() {
                Ok(_) => {},
                Err(_) => {
                    break ;
                },
            }
            drained = drained + 1;
        }
    }

    /// Whether nothing is buffered, nothing is on screen and the channel
    /// has nothing pending: the end of the stream has drained through.
    /// A buffered frame or one on screen settles the answer by itself;
    /// only with both gone does the channel's momentary snapshot, of
    /// which nothing can be said here, decide.
    pub fn is_empty(&self) -> (empty: bool)
        ensures
            empty ==> self.frames().len() == 0 && self.current() is None,
            self.frames().len() > 0 ==> !empty,
            self.current() is Some ==> !empty,
    {
        self.buffer.len() == 0 && self.current_frame.is_none() && self.receiver.is_empty()
    }
}

/// Law: once a frame survives the stale-frame drop, it is no older than
/// the cutoff.
pub proof fn lemma_drop_stale_head(frames: Seq<DecodedVideoFrame>, cutoff: int)
    ensures
        drop_stale_spec(frames, cutoff).len() > 0 ==> drop_stale_spec(frames, cutoff)[0].pts_us
            >= cutoff,
    decreases frames.len(),
{
    if frames.len() > 0 && (frames[0].pts_us as int) < cutoff {
        lemma_drop_stale_head(frames.drop_first(), cutoff);
    }
}

/// The stale-frame drop removed exactly the first `k` frames: what
/// remains is a suffix of the input, every frame in its place and order,
/// and every removed frame was indeed older than the cutoff.
pub open spec fn dropped_prefix(frames: Seq<DecodedVideoFrame>, cutoff: int, k: int) -> bool {
    &&& 0 <= k <= frames.len()
    &&& drop_stale_spec(frames, cutoff) == frames.skip(k)
    &&& forall|i: int| 0 <= i < k ==> (#[trigger] frames[i]).pts_us < cutoff
}

/// Law: the stale-frame drop removes a prefix, and only frames older
/// than the cutoff — a frame on time is never dropped, only presented or
/// kept.
pub proof fn lemma_drop_stale_is_suffix(frames: Seq<DecodedVideoFrame>, cutoff: int)
    ensures
        exists|k: int| dropped_prefix(frames, cutoff, k),
    decreases frames.len(),
{
    if frames.len() == 0 {
        assert(drop_stale_spec(frames, cutoff) =~= frames.skip(0));
        assert(dropped_prefix(frames, cutoff, 0));
    } else if (frames[0].pts_us as int) < cutoff {
        lemma_drop_stale_is_suffix(frames.drop_first(), cutoff);
        let k = choose|k: int| dropped_prefix(frames.drop_first(), cutoff, k);
        assert(frames.drop_first().skip(k) =~= frames.skip(k + 1));
        assert forall|i: int| 0 <= i < k + 1 implies (#[trigger] frames[i]).pts_us < cutoff by {
            if i > 0 {
                assert(frames.drop_first()[i - 1].pts_us < cutoff);
            }
        }
        assert(dropped_prefix(frames, cutoff, k + 1));
    } else {
        assert(drop_stale_spec(frames, cutoff) =~= frames.skip(0));
        assert(dropped_prefix(frames, cutoff, 0));
    }
}

/// Law: a frame presented by display selection lies inside the sync
/// window of the clock reading: not behind it by more than the drop
/// threshold, not ahead of it by more than the hold threshold.
pub proof fn lemma_display_selection_window(
    frames: Seq<DecodedVideoFrame>,
    current: Option<DecodedVideoFrame>,
    audio_time_us: int,
)
    ensures
        display_select_spec(frames, current, audio_time_us).presented matches Some(p)
            ==> audio_time_us - DROP_THRESHOLD_US as int <= p.pts_us && p.pts_us <= audio_time_us
            + HOLD_THRESHOLD_US as int,
{
    lemma_drop_stale_head(frames, audio_time_us - DROP_THRESHOLD_US as int);
}

/// Law: against a monotone clock and a buffer in presentation order,
/// display selection presents frames in presentation order, each at most
/// once — every advance consumes the presented frame, and any frame
/// presented by a later tick sits strictly deeper in the buffer, so its
/// presentation time is no earlier.
pub proof fn lemma_presented_in_pts_order(
    frames: Seq<DecodedVideoFrame>,
    current: Option<DecodedVideoFrame>,
    t1: int,
    t2: int,
)
    requires
        sorted_by_pts(frames),
        t1 <= t2,
    ensures
        ({
            let s1 = display_select_spec(frames, current, t1);
            let s2 = display_select_spec(s1.frames, s1.current, t2);
            &&& (s1.presented is Some ==> s1.frames.len() + 1 == drop_stale_spec(
                frames,
                t1 - DROP_THRESHOLD_US as int,
            ).len())
            &&& (s1.presented matches Some(p1) ==> s2.presented matches Some(p2) ==> p1.pts_us
                <= p2.pts_us)
        }),
{
    let cutoff1 = t1 - DROP_THRESHOLD_US as int;
    let cutoff2 = t2 - DROP_THRESHOLD_US as int;
    let s1 = display_select_spec(frames, current, t1);
    if s1.presented is Some {
        lemma_drop_stale_is_suffix(frames, cutoff1);
        let k1 = choose|k: int| dropped_prefix(frames, cutoff1, k);
        let rem1 = drop_stale_spec(frames, cutoff1);
        assert(rem1.drop_first() =~= frames.skip(k1 + 1));
        let s2 = display_select_spec(s1.frames, s1.current, t2);
        if s2.presented is Some {
            lemma_drop_stale_is_suffix(s1.frames, cutoff2);
            let k2 = choose|k: int| dropped_prefix(s1.frames, cutoff2, k);
            let rem2 = drop_stale_spec(s1.frames, cutoff2);
            assert(rem2[0] == frames[k1 + 1 + k2]);
            assert(frames[k1].pts_us <= frames[k1 + 1 + k2].pts_us);
        }
    }
}

/// Law: a frame adopted by post-seek selection is never from before the
/// seek target minus the tolerance.
pub proof fn lemma_seek_selection_tolerance(
    frames: Seq<DecodedVideoFrame>,
    current: Option<DecodedVideoFrame>,
    target_us: int,
)
    ensures
        seek_select_spec(frames, current, target_us).presented matches Some(p) ==> p.pts_us
            >= target_us - SEEK_TOLERANCE_US as int,
{
    lemma_drop_stale_head(frames, target_us - SEEK_TOLERANCE_US as int);
}

} // verus!
