use screen_recorder::command::{Command, Event, Failure, TimeBase};
use screen_recorder::encode_loop::{EncodeLoop, LoopCommand, LoopStage};
use screen_recorder::encoder::VideoEncoder;
use screen_recorder::error::RecorderError;
use screen_recorder::frame::Frame;
use screen_recorder::session::nominal_duration;

fn started(width: u32, height: u32, fps: u32) -> EncodeLoop {
    let mut encoder = VideoEncoder::new(width, height, fps).unwrap();
    encoder.open().unwrap();
    encoder.advance(Event::Opened { stream: 0 }).unwrap();
    EncodeLoop::new(encoder).unwrap()
}

fn seal(encode: &mut EncodeLoop, packets: usize) {
    assert_eq!(encode.on_event(Event::Done), Ok(LoopCommand::Perform(Command::ReceivePacket)));
    for _ in 0..packets {
        assert!(matches!(
            encode.on_event(Event::PacketReady),
            Ok(LoopCommand::Perform(Command::WritePacket { .. }))
        ));
        assert_eq!(
            encode.on_event(Event::Done),
            Ok(LoopCommand::Perform(Command::ReceivePacket))
        );
    }
    assert_eq!(
        encode.on_event(Event::Drained),
        Ok(LoopCommand::Perform(Command::WriteTrailer))
    );
    assert_eq!(encode.on_event(Event::Done), Ok(LoopCommand::Exit));
}

#[test]
fn loop_needs_an_open_encoder() {
    let created = VideoEncoder::new(2, 2, 30).unwrap();
    assert_eq!(EncodeLoop::new(created).err(), Some(RecorderError::InvalidState));
    let mut opening = VideoEncoder::new(2, 2, 30).unwrap();
    opening.open().unwrap();
    assert_eq!(EncodeLoop::new(opening).err(), Some(RecorderError::InvalidState));
    let encode = started(2, 2, 30);
    assert_eq!(encode.stage(), LoopStage::Receiving);
    assert_eq!(encode.error(), None);
    assert_eq!(encode.frames_encoded(), 0);
}

#[test]
fn hundred_and_fifty_full_hd_frames_make_five_seconds() {
    let mut encode = started(1920, 1080, 30);
    let image = Frame { width: 1920, height: 1080, raw: vec![0u8; 1920 * 1080 * 4] };
    for index in 0..150u64 {
        match encode.on_frame(&image) {
            Ok(LoopCommand::Perform(Command::SubmitFrame(order))) => {
                assert_eq!(order.pts, index as i64);
                assert_eq!(order.width, 1920);
                assert_eq!(order.height, 1080);
            }
            other => panic!("frame {} was answered with {:?}", index, other),
        }
        assert_eq!(encode.stage(), LoopStage::Encoding);
        assert_eq!(
            encode.on_event(Event::Done),
            Ok(LoopCommand::Perform(Command::ReceivePacket))
        );
        if index >= 2 {
            assert_eq!(
                encode.on_event(Event::PacketReady),
                Ok(LoopCommand::Perform(Command::WritePacket {
                    stream: 0,
                    time_base: TimeBase { num: 1, den: 30 }
                }))
            );
            assert_eq!(
                encode.on_event(Event::Done),
                Ok(LoopCommand::Perform(Command::ReceivePacket))
            );
        }
        assert_eq!(encode.on_event(Event::Drained), Ok(LoopCommand::Receive));
        assert_eq!(encode.frames_encoded(), index + 1);
    }
    assert_eq!(encode.on_closed(), Ok(LoopCommand::Perform(Command::SendEof)));
    seal(&mut encode, 2);
    assert_eq!(encode.stage(), LoopStage::Done);
    assert_eq!(encode.frames_encoded(), 150);
    assert!(encode.is_playable());
    assert_eq!(encode.error(), None);
    let played = nominal_duration(encode.frames_encoded(), 30);
    assert_eq!(played.secs, 5);
    assert_eq!(played.millis, 0);
}

#[test]
fn closure_while_receiving_goes_straight_to_finalizing() {
    let mut encode = started(2, 2, 30);
    assert_eq!(encode.stage(), LoopStage::Receiving);
    assert_eq!(encode.on_closed(), Ok(LoopCommand::Perform(Command::SendEof)));
    assert_eq!(encode.stage(), LoopStage::Finalizing);
    assert_eq!(encode.error(), None);
    seal(&mut encode, 0);
    assert_eq!(encode.stage(), LoopStage::Done);
    assert!(encode.is_playable());
    assert_eq!(encode.frames_encoded(), 0);
}

#[test]
fn mismatched_frame_ends_the_loop_and_the_file_is_still_closed() {
    let mut encode = started(2, 2, 30);
    let good = Frame { width: 2, height: 2, raw: vec![0u8; 16] };
    let bad = Frame { width: 2, height: 2, raw: vec![0u8; 12] };
    encode.on_frame(&good).unwrap();
    encode.on_event(Event::Done).unwrap();
    assert_eq!(encode.on_event(Event::Drained), Ok(LoopCommand::Receive));
    assert_eq!(encode.on_frame(&bad), Ok(LoopCommand::Perform(Command::SendEof)));
    assert_eq!(encode.stage(), LoopStage::Finalizing);
    assert_eq!(
        encode.error(),
        Some(RecorderError::FrameSizeMismatch { expected: 16, actual: 12 })
    );
    assert_eq!(encode.on_frame(&good), Err(RecorderError::InvalidState));
    seal(&mut encode, 1);
    assert_eq!(encode.frames_encoded(), 1);
    assert!(encode.is_playable());
    assert_eq!(
        encode.error(),
        Some(RecorderError::FrameSizeMismatch { expected: 16, actual: 12 })
    );
}

#[test]
fn refused_submission_ends_the_loop() {
    let mut encode = started(2, 2, 30);
    let good = Frame { width: 2, height: 2, raw: vec![0u8; 16] };
    encode.on_frame(&good).unwrap();
    assert_eq!(
        encode.on_event(Event::Failed(Failure::Codec)),
        Ok(LoopCommand::Perform(Command::SendEof))
    );
    assert_eq!(encode.error(), Some(RecorderError::SubmissionFailed));
    assert_eq!(encode.frames_encoded(), 0);
    assert_eq!(encode.on_frame(&good), Err(RecorderError::InvalidState));
    seal(&mut encode, 0);
    assert!(encode.is_playable());
}

#[test]
fn failed_receive_ends_the_loop_and_the_stream_is_still_finished() {
    let mut encode = started(2, 2, 30);
    let good = Frame { width: 2, height: 2, raw: vec![0u8; 16] };
    encode.on_frame(&good).unwrap();
    encode.on_event(Event::Done).unwrap();
    assert_eq!(
        encode.on_event(Event::Failed(Failure::Codec)),
        Ok(LoopCommand::Perform(Command::SendEof))
    );
    assert_eq!(encode.error(), Some(RecorderError::SubmissionFailed));
    assert_eq!(encode.frames_encoded(), 0);
    assert_eq!(encode.stage(), LoopStage::Finalizing);
    assert_eq!(encode.on_frame(&good), Err(RecorderError::InvalidState));
    seal(&mut encode, 0);
    assert!(encode.is_playable());
    assert_eq!(encode.error(), Some(RecorderError::SubmissionFailed));
}

#[test]
fn failed_receive_while_finalizing_leaves_no_trailer() {
    let mut encode = started(2, 2, 30);
    encode.on_closed().unwrap();
    encode.on_event(Event::Done).unwrap();
    assert_eq!(encode.on_event(Event::Failed(Failure::Codec)), Ok(LoopCommand::Exit));
    assert_eq!(encode.stage(), LoopStage::Done);
    assert_eq!(encode.error(), Some(RecorderError::SubmissionFailed));
    assert!(!encode.is_playable());
}

#[test]
fn failed_write_ends_the_loop() {
    let mut encode = started(2, 2, 30);
    let good = Frame { width: 2, height: 2, raw: vec![0u8; 16] };
    encode.on_frame(&good).unwrap();
    encode.on_event(Event::Done).unwrap();
    encode.on_event(Event::PacketReady).unwrap();
    assert_eq!(
        encode.on_event(Event::Failed(Failure::Container)),
        Ok(LoopCommand::Perform(Command::SendEof))
    );
    assert_eq!(encode.error(), Some(RecorderError::IoError));
    assert_eq!(encode.stage(), LoopStage::Finalizing);
}

#[test]
fn first_error_is_kept_when_finalizing_fails_too() {
    let mut encode = started(2, 2, 30);
    let bad = Frame { width: 1, height: 1, raw: Vec::new() };
    encode.on_frame(&bad).unwrap();
    assert_eq!(encode.on_event(Event::Failed(Failure::Codec)), Ok(LoopCommand::Exit));
    assert_eq!(encode.stage(), LoopStage::Done);
    assert!(!encode.is_playable());
    assert_eq!(
        encode.error(),
        Some(RecorderError::FrameSizeMismatch { expected: 4, actual: 0 })
    );
}

#[test]
fn failed_trailer_is_reported() {
    let mut encode = started(2, 2, 30);
    encode.on_closed().unwrap();
    encode.on_event(Event::Done).unwrap();
    encode.on_event(Event::Drained).unwrap();
    assert_eq!(encode.on_event(Event::Failed(Failure::Container)), Ok(LoopCommand::Exit));
    assert_eq!(encode.error(), Some(RecorderError::IoError));
    assert!(!encode.is_playable());
}

#[test]
fn calls_out_of_place_are_refused() {
    let mut encode = started(2, 2, 30);
    let good = Frame { width: 2, height: 2, raw: vec![0u8; 16] };
    assert_eq!(encode.on_event(Event::Done), Err(RecorderError::InvalidState));
    encode.on_frame(&good).unwrap();
    assert_eq!(encode.on_frame(&good), Err(RecorderError::InvalidState));
    assert_eq!(encode.on_closed(), Err(RecorderError::InvalidState));
    assert_eq!(encode.on_event(Event::PacketReady), Err(RecorderError::InvalidState));
    assert_eq!(encode.stage(), LoopStage::Encoding);
    assert_eq!(encode.error(), None);
    encode.on_event(Event::Done).unwrap();
    encode.on_event(Event::Drained).unwrap();
    encode.on_closed().unwrap();
    seal(&mut encode, 0);
    assert_eq!(encode.on_closed(), Err(RecorderError::InvalidState));
    assert_eq!(encode.on_frame(&good), Err(RecorderError::InvalidState));
    assert_eq!(encode.on_event(Event::Done), Err(RecorderError::InvalidState));
    assert_eq!(encode.stage(), LoopStage::Done);
}
