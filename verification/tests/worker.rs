use crossbeam_channel::bounded;
use video_player::decoder::{
    frame_from_rgba, media_info_from_probe, pts_to_micros, DeliverStep,
};
use video_player::{AudioClock, DecodedVideoFrame, DecoderCommand, WorkerState};

fn test_frame(pts_us: i64) -> DecodedVideoFrame {
    DecodedVideoFrame { pixels: vec![0u32; 4], width: 2, height: 2, pts_us }
}

#[test]
fn worker_starts_paused_with_nothing_pending() {
    let state = WorkerState::new();
    assert!(state.paused);
    assert_eq!(state.pending_seek, None);
    assert!(!state.at_eof);
    assert!(state.should_idle());
}

#[test]
fn pause_and_resume_commands_act_on_state_and_clock() {
    let mut state = WorkerState::new();
    let mut clock = AudioClock::new(44_100, 2);
    assert!(!state.apply_command(&mut clock, DecoderCommand::Resume));
    assert!(!state.paused);
    assert!(!clock.is_paused());
    assert!(!state.apply_command(&mut clock, DecoderCommand::Pause));
    assert!(state.paused);
    assert!(clock.is_paused());
    assert!(state.apply_command(&mut clock, DecoderCommand::Stop));
}

#[test]
fn rapid_seeks_coalesce_to_the_latest_target() {
    let mut state = WorkerState::new();
    let mut clock = AudioClock::new(44_100, 2);
    assert!(!state.apply_command(&mut clock, DecoderCommand::Seek(1_000_000)));
    assert!(!state.apply_command(&mut clock, DecoderCommand::Seek(5_000_000)));
    assert!(!state.apply_command(&mut clock, DecoderCommand::Seek(9_000_000)));
    assert_eq!(state.take_pending_seek(), Some(9_000_000));
    assert_eq!(state.take_pending_seek(), None);
}

#[test]
fn poll_commands_drains_the_channel() {
    let (sender, receiver) = bounded::<DecoderCommand>(16);
    let mut state = WorkerState::new();
    let mut clock = AudioClock::new(44_100, 2);
    sender.try_send(DecoderCommand::Resume).unwrap();
    sender.try_send(DecoderCommand::Seek(2_000_000)).unwrap();
    assert!(!state.poll_commands(&receiver, &mut clock));
    assert!(!state.paused);
    assert_eq!(state.pending_seek, Some(2_000_000));
    // A stop command makes the worker exit.
    sender.try_send(DecoderCommand::Stop).unwrap();
    assert!(state.poll_commands(&receiver, &mut clock));
}

#[test]
fn polling_never_loses_a_pending_seek() {
    let (sender, receiver) = bounded::<DecoderCommand>(16);
    let mut state = WorkerState::new();
    let mut clock = AudioClock::new(44_100, 2);
    sender.try_send(DecoderCommand::Seek(3_000_000)).unwrap();
    assert!(!state.poll_commands(&receiver, &mut clock));
    // Pause and resume arriving later leave the seek pending.
    sender.try_send(DecoderCommand::Pause).unwrap();
    sender.try_send(DecoderCommand::Resume).unwrap();
    assert!(!state.poll_commands(&receiver, &mut clock));
    assert_eq!(state.pending_seek, Some(3_000_000));
}

#[test]
fn poll_commands_exits_when_senders_are_gone() {
    let (sender, receiver) = bounded::<DecoderCommand>(16);
    let mut state = WorkerState::new();
    let mut clock = AudioClock::new(44_100, 2);
    drop(sender);
    assert!(state.poll_commands(&receiver, &mut clock));
}

#[test]
fn completing_a_seek_realigns_clock_and_lifts_eof() {
    let mut state = WorkerState::new();
    let mut clock = AudioClock::new(44_100, 2);
    state.mark_eof();
    assert!(state.should_idle());
    assert!(!state.apply_command(&mut clock, DecoderCommand::Seek(4_000_000)));
    let target = state.take_pending_seek().unwrap();
    state.complete_seek(&mut clock, target);
    assert!(!state.at_eof);
    assert_eq!(clock.position(), 4_000_000);
    assert!(clock.should_clear_buffer());
}

#[test]
fn delivery_hands_a_full_channel_its_frame_back() {
    let (command_sender, command_receiver) = bounded::<DecoderCommand>(16);
    let (frame_sender, _frame_receiver) = bounded::<DecodedVideoFrame>(1);
    let mut state = WorkerState::new();
    let mut clock = AudioClock::new(44_100, 2);
    let step = state.try_deliver_frame(
        &command_receiver,
        &frame_sender,
        &mut clock,
        test_frame(0),
    );
    assert!(matches!(step, DeliverStep::Sent));
    let step = state.try_deliver_frame(
        &command_receiver,
        &frame_sender,
        &mut clock,
        test_frame(40_000),
    );
    match step {
        DeliverStep::Retry(frame) => assert_eq!(frame.pts_us, 40_000),
        _ => panic!("a full channel must hand the frame back"),
    }
    drop(command_sender);
}

#[test]
fn delivery_abandons_the_frame_when_a_seek_arrives() {
    let (command_sender, command_receiver) = bounded::<DecoderCommand>(16);
    let (frame_sender, _frame_receiver) = bounded::<DecodedVideoFrame>(4);
    let mut state = WorkerState::new();
    let mut clock = AudioClock::new(44_100, 2);
    command_sender.try_send(DecoderCommand::Seek(9_000_000)).unwrap();
    let step = state.try_deliver_frame(
        &command_receiver,
        &frame_sender,
        &mut clock,
        test_frame(2_000_000),
    );
    assert!(matches!(step, DeliverStep::SeekRequested));
    assert_eq!(state.pending_seek, Some(9_000_000));
    // The stale frame was not sent.
    assert!(_frame_receiver.is_empty());
}

#[test]
fn delivery_exits_on_stop_or_gone_consumer() {
    let (command_sender, command_receiver) = bounded::<DecoderCommand>(16);
    let (frame_sender, frame_receiver) = bounded::<DecodedVideoFrame>(4);
    let mut state = WorkerState::new();
    let mut clock = AudioClock::new(44_100, 2);
    command_sender.try_send(DecoderCommand::Stop).unwrap();
    let step = state.try_deliver_frame(
        &command_receiver,
        &frame_sender,
        &mut clock,
        test_frame(0),
    );
    assert!(matches!(step, DeliverStep::Exit));
    drop(frame_receiver);
    let step = state.try_deliver_frame(
        &command_receiver,
        &frame_sender,
        &mut clock,
        test_frame(0),
    );
    assert!(matches!(step, DeliverStep::Exit));
}

#[test]
fn probe_defaults_apply_without_an_audio_stream() {
    let info = media_info_from_probe(1920, 1080, 10_000_000, None);
    assert_eq!(info.width, 1920);
    assert_eq!(info.height, 1080);
    assert_eq!(info.duration_us, 10_000_000);
    assert_eq!(info.sample_rate, 44_100);
    assert_eq!(info.channels, 2);
}

#[test]
fn probe_keeps_a_usable_audio_stream() {
    let info = media_info_from_probe(1280, 720, 5_500_000, Some((48_000, 6)));
    assert_eq!(info.sample_rate, 48_000);
    assert_eq!(info.channels, 6);
}

#[test]
fn probe_reads_an_unset_duration_as_zero() {
    let info = media_info_from_probe(640, 480, -1, Some((48_000, 2)));
    assert_eq!(info.duration_us, 0);
}

#[test]
fn pts_conversion_is_exact_under_the_time_base() {
    // 3003 ticks of a 1001/30000 time base: 100.2001 seconds.
    assert_eq!(pts_to_micros(3003, 1001, 30_000), 100_200_100);
    // One tick of a 1/1000 base is one millisecond.
    assert_eq!(pts_to_micros(1, 1, 1000), 1_000);
    // Negative timestamps keep their sign, truncated toward zero.
    assert_eq!(pts_to_micros(-1, 1, 1000), -1_000);
    assert_eq!(pts_to_micros(0, 1, 90_000), 0);
    // 90 kHz base, typical for transport streams.
    assert_eq!(pts_to_micros(90_000, 1, 90_000), 1_000_000);
}

#[test]
fn frame_packing_keeps_every_channel_in_place() {
    // Two pixels: red opaque, then a grey with translucency.
    let bytes = [255u8, 0, 0, 255, 16, 32, 48, 64];
    let frame = frame_from_rgba(&bytes, 2, 1, 7_000).unwrap();
    assert_eq!(frame.width, 2);
    assert_eq!(frame.height, 1);
    assert_eq!(frame.pts_us, 7_000);
    assert_eq!(frame.pixels.len(), 2);
    assert_eq!(frame.pixels[0], 0xFF_00_00_FF);
    assert_eq!(frame.pixels[1], 0x40_30_20_10);
}

#[test]
fn frame_packing_rejects_a_short_byte_stream() {
    let bytes = [0u8; 7];
    assert!(frame_from_rgba(&bytes, 2, 1, 0).is_none());
    let bytes = [0u8; 8];
    assert!(frame_from_rgba(&bytes, 3, 1, 0).is_none());
}
