use screen_recorder::capture::{
    CaptureCommand, CaptureEvent, CaptureLoop, CaptureStage, ExitCause,
};
use screen_recorder::error::RecorderError;

fn deliver(capture: &mut CaptureLoop) -> Result<CaptureCommand, RecorderError> {
    assert_eq!(capture.on_event(CaptureEvent::Delivered), Ok(CaptureCommand::HandOff));
    capture.on_event(CaptureEvent::HandedOff)
}

#[test]
fn loop_begins_by_polling() {
    let capture = CaptureLoop::new(None, 50);
    assert_eq!(capture.first_command(), CaptureCommand::Poll { wait_ms: 50 });
    assert_eq!(capture.stage(), CaptureStage::Polling);
    assert_eq!(capture.frames_received(), 0);
    assert_eq!(capture.cause(), None);
    assert_eq!(capture.error(), None);
}

#[test]
fn hand_off_counts_the_frame() {
    let mut capture = CaptureLoop::new(None, 100);
    assert_eq!(capture.on_event(CaptureEvent::Delivered), Ok(CaptureCommand::HandOff));
    assert_eq!(capture.stage(), CaptureStage::HandingOff);
    assert_eq!(capture.frames_received(), 0);
    assert_eq!(
        capture.on_event(CaptureEvent::HandedOff),
        Ok(CaptureCommand::Poll { wait_ms: 100 })
    );
    assert_eq!(capture.frames_received(), 1);
    assert_eq!(capture.stage(), CaptureStage::Polling);
}

#[test]
fn target_of_150_frames_ends_the_loop_by_itself() {
    let mut capture = CaptureLoop::new(Some(150), 50);
    for count in 1..150u64 {
        assert_eq!(deliver(&mut capture), Ok(CaptureCommand::Poll { wait_ms: 50 }));
        assert_eq!(capture.frames_received(), count);
    }
    assert_eq!(deliver(&mut capture), Ok(CaptureCommand::Exit { raise_stop: true }));
    assert_eq!(capture.frames_received(), 150);
    assert_eq!(capture.stage(), CaptureStage::Exited);
    assert_eq!(capture.cause(), Some(ExitCause::TargetReached));
    assert_eq!(capture.error(), None);
    assert_eq!(capture.on_event(CaptureEvent::Delivered), Err(RecorderError::InvalidState));
    assert_eq!(capture.frames_received(), 150);
}

#[test]
fn target_of_zero_is_met_by_the_first_frame() {
    let mut capture = CaptureLoop::new(Some(0), 50);
    assert_eq!(deliver(&mut capture), Ok(CaptureCommand::Exit { raise_stop: true }));
    assert_eq!(capture.frames_received(), 1);
}

#[test]
fn time_out_without_stop_request_polls_again() {
    let mut capture = CaptureLoop::new(Some(10), 75);
    for _ in 0..30 {
        assert_eq!(
            capture.on_event(CaptureEvent::TimedOut { stop_requested: false }),
            Ok(CaptureCommand::Poll { wait_ms: 75 })
        );
    }
    assert_eq!(capture.stage(), CaptureStage::Polling);
    assert_eq!(capture.frames_received(), 0);
}

#[test]
fn time_out_with_stop_request_ends_the_loop() {
    let mut capture = CaptureLoop::new(None, 100);
    deliver(&mut capture).unwrap();
    assert_eq!(
        capture.on_event(CaptureEvent::TimedOut { stop_requested: true }),
        Ok(CaptureCommand::Exit { raise_stop: false })
    );
    assert_eq!(capture.cause(), Some(ExitCause::StopRequested));
    assert_eq!(capture.error(), None);
    assert_eq!(capture.frames_received(), 1);
}

#[test]
fn lost_source_ends_the_loop_at_once() {
    let mut capture = CaptureLoop::new(None, 100);
    deliver(&mut capture).unwrap();
    deliver(&mut capture).unwrap();
    assert_eq!(
        capture.on_event(CaptureEvent::Disconnected),
        Ok(CaptureCommand::Exit { raise_stop: false })
    );
    assert_eq!(capture.cause(), Some(ExitCause::SourceDisconnected));
    assert_eq!(capture.error(), Some(RecorderError::SourceDisconnected));
    assert_eq!(capture.frames_received(), 2);
}

#[test]
fn lost_consumer_ends_the_loop_without_counting() {
    let mut capture = CaptureLoop::new(None, 100);
    deliver(&mut capture).unwrap();
    capture.on_event(CaptureEvent::Delivered).unwrap();
    assert_eq!(
        capture.on_event(CaptureEvent::ConsumerGone),
        Ok(CaptureCommand::Exit { raise_stop: false })
    );
    assert_eq!(capture.cause(), Some(ExitCause::ConsumerGone));
    assert_eq!(capture.error(), Some(RecorderError::ChannelClosed));
    assert_eq!(capture.frames_received(), 1);
}

#[test]
fn events_out_of_place_are_refused() {
    let mut capture = CaptureLoop::new(None, 100);
    assert_eq!(capture.on_event(CaptureEvent::HandedOff), Err(RecorderError::InvalidState));
    assert_eq!(capture.on_event(CaptureEvent::ConsumerGone), Err(RecorderError::InvalidState));
    capture.on_event(CaptureEvent::Delivered).unwrap();
    assert_eq!(capture.on_event(CaptureEvent::Delivered), Err(RecorderError::InvalidState));
    assert_eq!(
        capture.on_event(CaptureEvent::TimedOut { stop_requested: true }),
        Err(RecorderError::InvalidState)
    );
    assert_eq!(capture.on_event(CaptureEvent::Disconnected), Err(RecorderError::InvalidState));
    assert_eq!(capture.stage(), CaptureStage::HandingOff);
    assert_eq!(capture.frames_received(), 0);
}
