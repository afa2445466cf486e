//! Core of a real-time audio/video playback engine.
//!
//! The library holds the verified logic of the player: the overwriting
//! audio sample buffer, the audio master clock, the pull-side sample
//! iterator, the video frame queue with its drop/hold synchronisation
//! policy, the decoder worker's control state machine, and the player
//! facade state machine. Time is measured in integer microseconds
//! throughout. The decoding, audio output and rendering backends are
//! driven by an unverified shell around this crate.

pub mod audio;
pub mod channel;
pub mod circular_buffer;
pub mod clock;
pub mod decoder;
pub mod player;
pub mod timecode;
pub mod video;

pub use audio::AudioSource;
pub use circular_buffer::CircularBuffer;
pub use clock::AudioClock;
pub use decoder::{DecoderCommand, MediaInfo, WorkerState};
pub use player::{DisplayMode, PlayerCore, PlayerState, UpdateOutcome, Volume};
pub use timecode::format_time;
pub use video::{DecodedVideoFrame, VideoFrameQueue};
