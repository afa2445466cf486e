use crossbeam_channel::{bounded, Receiver, Sender};
use video_player::{
    AudioClock, DecodedVideoFrame, DisplayMode, MediaInfo, PlayerCore, PlayerState,
    UpdateOutcome, VideoFrameQueue, Volume,
};

fn test_frame(pts_us: i64) -> DecodedVideoFrame {
    DecodedVideoFrame {
        pixels: vec![0u32; 1920 * 4],
        width: 1920,
        height: 4,
        pts_us,
    }
}

fn test_media() -> MediaInfo {
    MediaInfo {
        width: 1920,
        height: 1080,
        duration_us: 10_000_000,
        sample_rate: 48_000,
        channels: 2,
    }
}

fn open_player() -> (PlayerCore, AudioClock, Sender<DecodedVideoFrame>, Sender<String>) {
    let info = test_media();
    let clock = AudioClock::new(info.sample_rate, info.channels);
    let (frame_sender, frame_receiver) = bounded::<DecodedVideoFrame>(30);
    let queue = VideoFrameQueue::new(frame_receiver, 30);
    let (error_sender, error_receiver): (Sender<String>, Receiver<String>) = bounded(4);
    let core = PlayerCore::new(&info, queue, error_receiver);
    (core, clock, frame_sender, error_sender)
}

#[test]
fn opening_reports_the_probed_media() {
    let (core, clock, _frames, _errors) = open_player();
    assert_eq!(core.state(), PlayerState::Stopped);
    assert_eq!(core.display_mode(), DisplayMode::FitToWindow);
    assert_eq!(core.video_size(), (1920, 1080));
    assert_eq!(core.duration(), 10_000_000);
    assert!(!core.is_seeking());
    assert!(!core.is_playing());
    assert_eq!(core.position(&clock), 0);
    assert!(core.error().is_none());
}

#[test]
fn poster_frame_shows_while_still_stopped() {
    let (mut core, mut clock, frames, _errors) = open_player();
    // Opening issues a seek to the origin to capture the first frame.
    let clamped = core.seek(&mut clock, 0);
    assert_eq!(clamped, 0);
    assert_eq!(core.update(&mut clock), UpdateOutcome::SeekWaiting);
    frames.try_send(test_frame(0)).unwrap();
    assert_eq!(
        core.update(&mut clock),
        UpdateOutcome::SeekCompleted { resume_audio: false }
    );
    assert_eq!(core.current_frame().unwrap().pts_us, 0);
    assert_eq!(core.state(), PlayerState::Stopped);
    assert_eq!(core.position(&clock), 0);
}

#[test]
fn pause_then_play_restores_playing() {
    let (mut core, _clock, _frames, _errors) = open_player();
    assert!(core.play());
    assert!(core.is_playing());
    // Playing again is a no-op for the shell.
    assert!(!core.play());
    assert!(core.pause());
    assert_eq!(core.state(), PlayerState::Paused);
    // Pausing a paused player asks nothing of the shell.
    assert!(!core.pause());
    assert!(core.play());
    assert_eq!(core.state(), PlayerState::Playing);
}

#[test]
fn pausing_freezes_the_reported_position() {
    let (core, mut clock, _frames, _errors) = open_player();
    clock.resume();
    clock.advance_samples(96_000);
    let before = core.position(&clock);
    clock.pause();
    clock.advance_samples(96_000);
    assert_eq!(core.position(&clock), before);
    clock.resume();
    clock.advance_samples(96_000);
    assert!(core.position(&clock) > before);
}

#[test]
fn seek_clamps_to_the_duration() {
    let (mut core, mut clock, _frames, _errors) = open_player();
    // Both the origin and the duration itself are accepted.
    assert_eq!(core.seek(&mut clock, 0), 0);
    assert_eq!(core.seek(&mut clock, 10_000_000), 10_000_000);
    // Beyond the end, the target clamps to the duration.
    assert_eq!(core.seek(&mut clock, 25_000_000), 10_000_000);
    assert!(core.is_seeking());
    assert_eq!(core.position(&clock), 10_000_000);
}

#[test]
fn seeking_twice_to_a_target_equals_seeking_once() {
    let (mut core, mut clock, frames, _errors) = open_player();
    let first = core.seek(&mut clock, 4_000_000);
    let again = core.seek(&mut clock, 4_000_000);
    assert_eq!(first, again);
    assert!(core.is_seeking());
    assert_eq!(core.position(&clock), 4_000_000);
    assert_eq!(clock.position(), 4_000_000);
    // The one-shot clear request survives as after a single seek.
    assert!(clock.should_clear_buffer());
    assert!(!clock.should_clear_buffer());
    drop(frames);
}

#[test]
fn seek_mid_play_adopts_the_arrived_frame() {
    let (mut core, mut clock, frames, _errors) = open_player();
    core.play();
    clock.resume();
    clock.advance_samples(192_000);  // about two seconds in
    let clamped = core.seek(&mut clock, 8_000_000);
    assert_eq!(clamped, 8_000_000);
    assert_eq!(core.position(&clock), 8_000_000);
    // A leftover frame from the old timeline is filtered out.
    frames.try_send(test_frame(2_000_000)).unwrap();
    frames.try_send(test_frame(7_966_633)).unwrap();
    let outcome = core.update(&mut clock);
    assert_eq!(outcome, UpdateOutcome::SeekCompleted { resume_audio: true });
    let shown = core.current_frame().unwrap().pts_us;
    assert!(7_500_000 <= shown && shown <= 8_500_000);
    // The clock realigned to the frame that actually arrived.
    assert_eq!(clock.position(), 7_966_633);
    assert!(!core.is_seeking());
}

#[test]
fn rapid_seeks_serve_only_the_last_target() {
    let (mut core, mut clock, frames, _errors) = open_player();
    core.play();
    core.seek(&mut clock, 1_000_000);
    core.seek(&mut clock, 5_000_000);
    core.seek(&mut clock, 9_000_000);
    assert_eq!(core.position(&clock), 9_000_000);
    // Frames of the abandoned earlier targets never reach the screen.
    frames.try_send(test_frame(1_000_000)).unwrap();
    frames.try_send(test_frame(5_000_000)).unwrap();
    frames.try_send(test_frame(9_000_000)).unwrap();
    let outcome = core.update(&mut clock);
    assert_eq!(outcome, UpdateOutcome::SeekCompleted { resume_audio: true });
    assert_eq!(core.current_frame().unwrap().pts_us, 9_000_000);
}

#[test]
fn pause_during_seek_completes_the_seek_then_rests() {
    let (mut core, mut clock, frames, _errors) = open_player();
    core.play();
    core.seek(&mut clock, 5_000_000);
    assert!(core.pause());
    frames.try_send(test_frame(5_000_000)).unwrap();
    let outcome = core.update(&mut clock);
    // The frame at the target shows, but audio must not resume.
    assert_eq!(outcome, UpdateOutcome::SeekCompleted { resume_audio: false });
    assert_eq!(core.current_frame().unwrap().pts_us, 5_000_000);
    assert_eq!(core.state(), PlayerState::Paused);
    assert_eq!(core.position(&clock), 5_000_000);
}

#[test]
fn stop_rewinds_to_the_origin() {
    let (mut core, mut clock, _frames, _errors) = open_player();
    core.play();
    clock.advance_samples(96_000);
    core.stop(&mut clock);
    assert_eq!(core.state(), PlayerState::Stopped);
    assert!(core.is_seeking());
    assert_eq!(core.position(&clock), 0);
    assert_eq!(clock.position(), 0);
}

#[test]
fn end_of_stream_stops_playback() {
    let (mut core, mut clock, frames, _errors) = open_player();
    core.play();
    // The queue has drained and the clock is within the slack of the end.
    clock.set_position(9_950_000);
    let _ = clock.should_clear_buffer();
    drop(frames);
    let outcome = core.update(&mut clock);
    assert_eq!(outcome, UpdateOutcome::EndOfStream);
    assert_eq!(core.state(), PlayerState::Stopped);
}

#[test]
fn playback_is_not_stopped_before_the_end() {
    let (mut core, mut clock, frames, _errors) = open_player();
    core.play();
    // The queue is empty but the clock is far from the end: keep playing,
    // the decoder is only behind.
    clock.set_position(2_000_000);
    let _ = clock.should_clear_buffer();
    let outcome = core.update(&mut clock);
    assert_eq!(outcome, UpdateOutcome::Shown);
    assert_eq!(core.state(), PlayerState::Playing);
    drop(frames);
}

#[test]
fn play_to_completion_presents_most_frames() {
    let (mut core, mut clock, frames, _errors) = open_player();
    core.play();
    clock.resume();
    // A 0.2 s tail of the stream at 25 fps.
    clock.set_position(9_800_000);
    let _ = clock.should_clear_buffer();
    for i in 0..5i64 {
        frames.try_send(test_frame(9_800_000 + i * 40_000)).unwrap();
    }
    drop(frames);
    let mut presented = Vec::new();
    for _ in 0..100 {
        let outcome = core.update(&mut clock);
        assert_eq!(outcome, UpdateOutcome::Shown);
        if let Some(frame) = core.current_frame() {
            if presented.last() != Some(&frame.pts_us) {
                presented.push(frame.pts_us);
            }
        }
        // One tick of display time: 10 ms of samples at 96 kHz interleaved.
        clock.advance_samples(960);
    }
    // All five frames of the tail were presented, in order, none twice.
    assert_eq!(
        presented,
        vec![9_800_000, 9_840_000, 9_880_000, 9_920_000, 9_960_000]
    );
    // The last frame stays on screen; stopping rewinds and releases it.
    core.stop(&mut clock);
    assert_eq!(core.state(), PlayerState::Stopped);
    assert!(core.current_frame().is_none());
}

#[test]
fn audio_less_media_uses_the_default_clock() {
    let info = video_player::decoder::media_info_from_probe(640, 480, 3_000_000, None);
    let mut clock = AudioClock::new(info.sample_rate, info.channels);
    assert_eq!(clock.sample_rate(), 44_100);
    assert_eq!(clock.channels(), 2);
    // The clock still advances when driven, so the timeline cannot stall.
    clock.resume();
    clock.advance_samples(88_200);
    assert_eq!(clock.position(), 1_000_000);
    // Volume controls remain valid no-ops.
    let volume = Volume::new(500).unwrap();
    assert_eq!(volume.get(), 500);
}

#[test]
fn toggling_the_display_mode_flips_between_the_two() {
    let (mut core, _clock, _frames, _errors) = open_player();
    assert_eq!(core.display_mode(), DisplayMode::FitToWindow);
    core.toggle_display_mode();
    assert_eq!(core.display_mode(), DisplayMode::NativeSize);
    core.toggle_display_mode();
    assert_eq!(core.display_mode(), DisplayMode::FitToWindow);
}

#[test]
fn volume_accepts_full_scale_and_refuses_beyond() {
    assert!(Volume::new(0).is_some());
    assert!(Volume::new(1000).is_some());
    assert!(Volume::new(1001).is_none());
    assert_eq!(Volume::new(1000).unwrap().get(), 1000);
}

#[test]
fn decoder_errors_reach_the_facade() {
    let (core, _clock, _frames, errors) = open_player();
    assert!(core.error().is_none());
    errors.try_send(String::from("decode failed")).unwrap();
    assert_eq!(core.error().unwrap(), "decode failed");
    assert!(core.error().is_none());
}
