use screen_recorder::command::{
    Command, Event, Failure, FrameOrder, OpenOrder, PixelLayout, ScalingFilter, SpeedPreset,
    TimeBase, VideoCodec,
};
use screen_recorder::encoder::{Awaiting, Phase, VideoEncoder, MAX_SETTING, RATE_FACTOR};
use screen_recorder::error::RecorderError;
use screen_recorder::frame::Frame;

fn opened(width: u32, height: u32, fps: u32, stream: usize) -> VideoEncoder {
    let mut encoder = VideoEncoder::new(width, height, fps).unwrap();
    assert!(matches!(encoder.open(), Ok(Command::Open(_))));
    assert_eq!(encoder.advance(Event::Opened { stream }), Ok(Command::Idle));
    encoder
}

fn frame(width: u32, height: u32) -> Frame {
    Frame { width, height, raw: vec![0u8; (width * height * 4) as usize] }
}

fn order(pts: i64, width: u32, height: u32) -> Command {
    Command::SubmitFrame(FrameOrder {
        pts,
        width,
        height,
        source: PixelLayout::Bgra,
        target: PixelLayout::Yuv420p,
        filter: ScalingFilter::Bilinear,
    })
}

fn encode_one(encoder: &mut VideoEncoder, frame: &Frame, packets: usize) {
    assert!(matches!(encoder.encode_frame(frame), Ok(Command::SubmitFrame(_))));
    assert_eq!(encoder.advance(Event::Done), Ok(Command::ReceivePacket));
    for _ in 0..packets {
        assert!(matches!(
            encoder.advance(Event::PacketReady),
            Ok(Command::WritePacket { .. })
        ));
        assert_eq!(encoder.advance(Event::Done), Ok(Command::ReceivePacket));
    }
    assert_eq!(encoder.advance(Event::Drained), Ok(Command::Idle));
}

#[test]
fn new_starts_created_with_zero_frames() {
    let encoder = VideoEncoder::new(1920, 1080, 30).unwrap();
    assert_eq!(encoder.phase(), Phase::Created);
    assert_eq!(encoder.awaiting(), Awaiting::Nothing);
    assert_eq!(encoder.frame_count(), 0);
    assert_eq!(encoder.width(), 1920);
    assert_eq!(encoder.height(), 1080);
    assert_eq!(encoder.fps(), 30);
    assert!(!encoder.is_accepting());
    assert!(!encoder.is_playable());
}

#[test]
fn new_rejects_zero_settings() {
    assert_eq!(VideoEncoder::new(0, 1080, 30).err(), Some(RecorderError::ConfigError));
    assert_eq!(VideoEncoder::new(1920, 0, 30).err(), Some(RecorderError::ConfigError));
    assert_eq!(VideoEncoder::new(1920, 1080, 0).err(), Some(RecorderError::ConfigError));
}

#[test]
fn new_rejects_settings_beyond_the_codec_range() {
    assert_eq!(MAX_SETTING, 2_147_483_647);
    assert!(VideoEncoder::new(MAX_SETTING, MAX_SETTING, MAX_SETTING).is_ok());
    assert_eq!(
        VideoEncoder::new(MAX_SETTING + 1, 1080, 30).err(),
        Some(RecorderError::ConfigError)
    );
    assert_eq!(
        VideoEncoder::new(1920, MAX_SETTING + 1, 30).err(),
        Some(RecorderError::ConfigError)
    );
    assert_eq!(VideoEncoder::new(1920, 1080, u32::MAX).err(), Some(RecorderError::ConfigError));
}

#[test]
fn open_asks_for_the_real_time_settings() {
    let mut encoder = VideoEncoder::new(1280, 720, 25).unwrap();
    let expected = OpenOrder {
        codec: VideoCodec::H264,
        width: 1280,
        height: 720,
        layout: PixelLayout::Yuv420p,
        time_base: TimeBase { num: 1, den: 25 },
        preset: SpeedPreset::Fast,
        rate_factor: 23,
    };
    assert_eq!(RATE_FACTOR, 23);
    assert_eq!(encoder.open_order(), expected);
    assert_eq!(encoder.open(), Ok(Command::Open(expected)));
    assert_eq!(encoder.awaiting(), Awaiting::Open);
    assert_eq!(encoder.phase(), Phase::Created);
}

#[test]
fn opening_twice_is_refused() {
    let mut encoder = VideoEncoder::new(4, 4, 30).unwrap();
    assert!(encoder.open().is_ok());
    assert_eq!(encoder.open(), Err(RecorderError::InvalidState));
    assert_eq!(encoder.awaiting(), Awaiting::Open);
}

#[test]
fn opened_keeps_the_stream_index() {
    let encoder = opened(4, 4, 30, 3);
    assert_eq!(encoder.phase(), Phase::Opened);
    assert_eq!(encoder.video_stream(), 3);
    assert!(encoder.is_accepting());
    assert!(!encoder.is_playable());
}

#[test]
fn missing_codec_closes_the_encoder() {
    let mut encoder = VideoEncoder::new(4, 4, 30).unwrap();
    encoder.open().unwrap();
    assert_eq!(encoder.advance(Event::CodecNotFound), Err(RecorderError::CodecUnavailable));
    assert_eq!(encoder.phase(), Phase::Closed);
    assert!(!encoder.is_playable());
}

#[test]
fn unwritable_output_is_an_io_error() {
    let mut encoder = VideoEncoder::new(4, 4, 30).unwrap();
    encoder.open().unwrap();
    assert_eq!(
        encoder.advance(Event::Failed(Failure::Container)),
        Err(RecorderError::IoError)
    );
    assert_eq!(encoder.phase(), Phase::Closed);
}

#[test]
fn settings_refused_by_the_codec_are_a_config_error() {
    let mut encoder = VideoEncoder::new(3, 3, 30).unwrap();
    encoder.open().unwrap();
    assert_eq!(encoder.advance(Event::Failed(Failure::Codec)), Err(RecorderError::ConfigError));
    assert_eq!(encoder.phase(), Phase::Closed);
}

#[test]
fn frame_before_opening_is_refused() {
    let mut encoder = VideoEncoder::new(2, 2, 30).unwrap();
    assert_eq!(encoder.encode_frame(&frame(2, 2)), Err(RecorderError::InvalidState));
    assert_eq!(encoder.phase(), Phase::Created);
    assert_eq!(encoder.finish(), Err(RecorderError::InvalidState));
}

#[test]
fn valid_frame_counts_once() {
    let mut encoder = opened(2, 2, 30, 0);
    assert_eq!(encoder.encode_frame(&frame(2, 2)), Ok(order(0, 2, 2)));
    assert_eq!(encoder.phase(), Phase::Encoding);
    assert_eq!(encoder.frame_count(), 0);
    assert_eq!(encoder.advance(Event::Done), Ok(Command::ReceivePacket));
    assert_eq!(encoder.frame_count(), 0);
    assert_eq!(encoder.advance(Event::Drained), Ok(Command::Idle));
    assert_eq!(encoder.frame_count(), 1);
    assert!(encoder.is_accepting());
}

#[test]
fn packets_do_not_move_the_counter() {
    let mut encoder = opened(2, 2, 30, 1);
    encoder.encode_frame(&frame(2, 2)).unwrap();
    encoder.advance(Event::Done).unwrap();
    for _ in 0..5 {
        assert_eq!(
            encoder.advance(Event::PacketReady),
            Ok(Command::WritePacket { stream: 1, time_base: TimeBase { num: 1, den: 30 } })
        );
        assert_eq!(encoder.awaiting(), Awaiting::Write);
        assert_eq!(encoder.advance(Event::Done), Ok(Command::ReceivePacket));
        assert_eq!(encoder.frame_count(), 0);
    }
    assert_eq!(encoder.advance(Event::Drained), Ok(Command::Idle));
    assert_eq!(encoder.frame_count(), 1);
}

#[test]
fn failed_receive_is_an_error_and_counts_nothing() {
    let mut encoder = opened(2, 2, 30, 0);
    encoder.encode_frame(&frame(2, 2)).unwrap();
    encoder.advance(Event::Done).unwrap();
    assert_eq!(
        encoder.advance(Event::Failed(Failure::Codec)),
        Err(RecorderError::SubmissionFailed)
    );
    assert_eq!(encoder.frame_count(), 0);
    assert_eq!(encoder.phase(), Phase::Encoding);
    assert!(encoder.is_accepting());
    assert_eq!(encoder.finish(), Ok(Command::SendEof));
}

#[test]
fn failed_receive_after_a_written_packet_counts_nothing() {
    let mut encoder = opened(2, 2, 30, 0);
    encode_one(&mut encoder, &frame(2, 2), 1);
    encoder.encode_frame(&frame(2, 2)).unwrap();
    encoder.advance(Event::Done).unwrap();
    encoder.advance(Event::PacketReady).unwrap();
    encoder.advance(Event::Done).unwrap();
    assert_eq!(
        encoder.advance(Event::Failed(Failure::Container)),
        Err(RecorderError::IoError)
    );
    assert_eq!(encoder.frame_count(), 1);
    assert!(encoder.is_accepting());
}

#[test]
fn failed_receive_while_finishing_closes_without_trailer() {
    let mut encoder = opened(2, 2, 30, 0);
    encoder.finish().unwrap();
    encoder.advance(Event::Done).unwrap();
    assert_eq!(
        encoder.advance(Event::Failed(Failure::Codec)),
        Err(RecorderError::SubmissionFailed)
    );
    assert_eq!(encoder.phase(), Phase::Closed);
    assert!(!encoder.is_playable());
}

#[test]
fn timestamps_follow_submission_order() {
    let mut encoder = opened(2, 2, 30, 0);
    let image = frame(2, 2);
    for expected in 0..20i64 {
        assert_eq!(encoder.encode_frame(&image), Ok(order(expected, 2, 2)));
        assert_eq!(encoder.advance(Event::Done), Ok(Command::ReceivePacket));
        assert_eq!(encoder.advance(Event::Drained), Ok(Command::Idle));
        assert_eq!(encoder.frame_count(), expected + 1);
    }
}

#[test]
fn frame_keeps_its_own_dimensions() {
    let mut encoder = opened(1920, 1080, 30, 0);
    assert_eq!(encoder.encode_frame(&frame(4, 2)), Ok(order(0, 4, 2)));
}

#[test]
fn mismatched_frame_is_rejected_and_counts_nothing() {
    let mut encoder = opened(2, 2, 30, 0);
    encode_one(&mut encoder, &frame(2, 2), 1);
    let bad = Frame { width: 2, height: 2, raw: vec![0u8; 15] };
    assert_eq!(
        encoder.encode_frame(&bad),
        Err(RecorderError::FrameSizeMismatch { expected: 16, actual: 15 })
    );
    assert_eq!(encoder.frame_count(), 1);
    assert_eq!(encoder.phase(), Phase::Encoding);
    assert!(encoder.is_accepting());
    encode_one(&mut encoder, &frame(2, 2), 0);
    assert_eq!(encoder.frame_count(), 2);
}

#[test]
fn mismatched_frame_is_reported_in_every_state() {
    let bad = Frame { width: 2, height: 2, raw: vec![0u8; 17] };
    let expected = Err(RecorderError::FrameSizeMismatch { expected: 16, actual: 17 });
    let mut created = VideoEncoder::new(2, 2, 30).unwrap();
    assert_eq!(created.encode_frame(&bad), expected);
    assert_eq!(created.phase(), Phase::Created);
    let mut fresh = opened(2, 2, 30, 0);
    assert_eq!(fresh.encode_frame(&bad), expected);
    assert_eq!(fresh.phase(), Phase::Opened);
    assert_eq!(fresh.frame_count(), 0);
    let mut closed = opened(2, 2, 30, 0);
    closed.finish().unwrap();
    closed.advance(Event::Failed(Failure::Codec)).unwrap_err();
    assert_eq!(closed.encode_frame(&bad), expected);
    assert_eq!(closed.phase(), Phase::Closed);
}

#[test]
fn refused_submission_counts_nothing() {
    let mut encoder = opened(2, 2, 30, 0);
    encoder.encode_frame(&frame(2, 2)).unwrap();
    assert_eq!(
        encoder.advance(Event::Failed(Failure::Codec)),
        Err(RecorderError::SubmissionFailed)
    );
    assert_eq!(encoder.frame_count(), 0);
    assert_eq!(encoder.phase(), Phase::Encoding);
    assert!(encoder.is_accepting());
}

#[test]
fn failed_write_counts_nothing() {
    let mut encoder = opened(2, 2, 30, 0);
    encoder.encode_frame(&frame(2, 2)).unwrap();
    encoder.advance(Event::Done).unwrap();
    encoder.advance(Event::PacketReady).unwrap();
    assert_eq!(
        encoder.advance(Event::Failed(Failure::Container)),
        Err(RecorderError::IoError)
    );
    assert_eq!(encoder.frame_count(), 0);
    assert!(encoder.is_accepting());
    assert!(matches!(encoder.finish(), Ok(Command::SendEof)));
}

#[test]
fn second_frame_while_one_is_in_flight_is_refused() {
    let mut encoder = opened(2, 2, 30, 0);
    encoder.encode_frame(&frame(2, 2)).unwrap();
    assert_eq!(encoder.encode_frame(&frame(2, 2)), Err(RecorderError::InvalidState));
    assert_eq!(encoder.finish(), Err(RecorderError::InvalidState));
    assert_eq!(encoder.awaiting(), Awaiting::Submit);
}

#[test]
fn event_out_of_place_changes_nothing() {
    let mut encoder = opened(2, 2, 30, 0);
    assert_eq!(encoder.advance(Event::Done), Err(RecorderError::InvalidState));
    assert_eq!(encoder.advance(Event::Drained), Err(RecorderError::InvalidState));
    encoder.encode_frame(&frame(2, 2)).unwrap();
    assert_eq!(encoder.advance(Event::PacketReady), Err(RecorderError::InvalidState));
    assert_eq!(encoder.advance(Event::Opened { stream: 9 }), Err(RecorderError::InvalidState));
    assert_eq!(encoder.advance(Event::CodecNotFound), Err(RecorderError::InvalidState));
    assert_eq!(encoder.awaiting(), Awaiting::Submit);
    assert_eq!(encoder.video_stream(), 0);
}

#[test]
fn finish_without_frames_seals_the_container() {
    let mut encoder = opened(2, 2, 30, 0);
    assert_eq!(encoder.finish(), Ok(Command::SendEof));
    assert_eq!(encoder.phase(), Phase::Finishing);
    assert_eq!(encoder.advance(Event::Done), Ok(Command::ReceivePacket));
    assert_eq!(encoder.advance(Event::Drained), Ok(Command::WriteTrailer));
    assert!(!encoder.is_playable());
    assert_eq!(encoder.advance(Event::Done), Ok(Command::Idle));
    assert_eq!(encoder.phase(), Phase::Closed);
    assert!(encoder.is_playable());
    assert_eq!(encoder.frame_count(), 0);
}

#[test]
fn finish_flushes_buffered_packets_before_the_trailer() {
    let mut encoder = opened(2, 2, 30, 2);
    for _ in 0..3 {
        encode_one(&mut encoder, &frame(2, 2), 0);
    }
    assert_eq!(encoder.finish(), Ok(Command::SendEof));
    assert_eq!(encoder.advance(Event::Done), Ok(Command::ReceivePacket));
    for _ in 0..3 {
        assert_eq!(
            encoder.advance(Event::PacketReady),
            Ok(Command::WritePacket { stream: 2, time_base: TimeBase { num: 1, den: 30 } })
        );
        assert_eq!(encoder.advance(Event::Done), Ok(Command::ReceivePacket));
    }
    assert_eq!(encoder.advance(Event::Drained), Ok(Command::WriteTrailer));
    assert_eq!(encoder.advance(Event::Done), Ok(Command::Idle));
    assert!(encoder.is_playable());
    assert_eq!(encoder.frame_count(), 3);
}

#[test]
fn refused_end_of_stream_closes_without_trailer() {
    let mut encoder = opened(2, 2, 30, 0);
    encoder.finish().unwrap();
    assert_eq!(
        encoder.advance(Event::Failed(Failure::Codec)),
        Err(RecorderError::SubmissionFailed)
    );
    assert_eq!(encoder.phase(), Phase::Closed);
    assert!(!encoder.is_playable());
}

#[test]
fn failed_flush_write_closes_without_trailer() {
    let mut encoder = opened(2, 2, 30, 0);
    encoder.finish().unwrap();
    encoder.advance(Event::Done).unwrap();
    encoder.advance(Event::PacketReady).unwrap();
    assert_eq!(encoder.advance(Event::Failed(Failure::Codec)), Err(RecorderError::IoError));
    assert_eq!(encoder.phase(), Phase::Closed);
    assert!(!encoder.is_playable());
}

#[test]
fn failed_trailer_is_an_io_error() {
    let mut encoder = opened(2, 2, 30, 0);
    encoder.finish().unwrap();
    encoder.advance(Event::Done).unwrap();
    encoder.advance(Event::Drained).unwrap();
    assert_eq!(
        encoder.advance(Event::Failed(Failure::Container)),
        Err(RecorderError::IoError)
    );
    assert_eq!(encoder.phase(), Phase::Closed);
    assert!(!encoder.is_playable());
}

#[test]
fn closed_encoder_refuses_everything() {
    let mut encoder = opened(2, 2, 30, 0);
    encoder.finish().unwrap();
    encoder.advance(Event::Done).unwrap();
    encoder.advance(Event::Drained).unwrap();
    encoder.advance(Event::Done).unwrap();
    assert_eq!(encoder.phase(), Phase::Closed);
    assert_eq!(encoder.open(), Err(RecorderError::InvalidState));
    assert_eq!(encoder.encode_frame(&frame(2, 2)), Err(RecorderError::InvalidState));
    assert_eq!(encoder.finish(), Err(RecorderError::InvalidState));
    assert_eq!(encoder.advance(Event::Done), Err(RecorderError::InvalidState));
    assert_eq!(encoder.phase(), Phase::Closed);
    assert!(encoder.is_playable());
}

#[test]
fn time_base_is_one_tick_per_frame() {
    let encoder = VideoEncoder::new(2, 2, 60).unwrap();
    assert_eq!(encoder.time_base(), TimeBase { num: 1, den: 60 });
    let fastest = VideoEncoder::new(2, 2, MAX_SETTING).unwrap();
    assert_eq!(fastest.time_base(), TimeBase { num: 1, den: i32::MAX });
}
