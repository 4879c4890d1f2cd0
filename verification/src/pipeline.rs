//! Whole recordings: what the capture loop, the encode loop and the
//! session come to when they run side by side, with a codec and a container
//! that do as asked.

use vstd::prelude::*;
use crate::capture::{CaptureCommand, CaptureEvent, CaptureModel, CaptureStage, ExitCause};
use crate::command::{Command, Event};
use crate::encode_loop::{
    loop_after_drain, theorem_clean_closure_seals, theorem_loop_counts_frame, LoopCommand,
    LoopModel,
};
use crate::encoder::{valid_setting, EncoderModel, MAX_FRAME_COUNT};
use crate::error::RecorderError;
use crate::frame::Frame;
use crate::session::{
    stop_due, verdict_of, LoopResults, SessionCommand, SessionEvent, SessionModel, SessionStage,
    StopCondition, Verdict, TICK_MS,
};

verus! {

/// The capture loop after the source delivered `hand_offs` images and the
/// channel took each of them.
pub open spec fn capture_after(m: CaptureModel, hand_offs: nat) -> CaptureModel
    decreases hand_offs,
{
    if hand_offs == 0 {
        m
    } else {
        capture_after(m, (hand_offs - 1) as nat).on_event(CaptureEvent::Delivered).next.on_event(
            CaptureEvent::HandedOff,
        ).next
    }
}

/// The encoder once the output is open.
pub open spec fn opened_encoder(width: u32, height: u32, fps: u32, stream: usize) -> EncoderModel {
    EncoderModel::created(width, height, fps).on_open().next.on_event(
        Event::Opened { stream },
    ).next
}

/// The encode loop as it starts on an encoder that has just been opened.
pub open spec fn fresh_loop(width: u32, height: u32, fps: u32, stream: usize) -> LoopModel {
    LoopModel { encoder: opened_encoder(width, height, fps, stream), error: None }
}

/// The encode loop after the first `n` of `frames` came out of the channel
/// and went through, the `i`-th yielding `packets[i]` packets.
pub open spec fn loop_after_frames(
    m: LoopModel,
    frames: Seq<Frame>,
    packets: Seq<nat>,
    n: nat,
) -> LoopModel
    decreases n,
{
    if n == 0 {
        m
    } else {
        loop_after_drain(
            loop_after_frames(m, frames, packets, (n - 1) as nat).on_frame(
                frames[n - 1],
            ).next.on_event(Event::Done).next,
            packets[n - 1],
        )
    }
}

/// The encode loop after the channel closed, the codec flushed `packets`
/// packets and the trailer was written.
pub open spec fn loop_after_closure(m: LoopModel, packets: nat) -> LoopModel {
    loop_after_drain(m.on_closed().next.on_event(Event::Done).next, packets).on_event(
        Event::Done,
    ).next
}

/// What two loops that have ended hand back.
pub open spec fn results_of(capture: CaptureModel, encode: LoopModel) -> LoopResults {
    LoopResults {
        frames_received: capture.frames_received as u64,
        capture_cause: capture.cause,
        frames_encoded: encode.encoder.frame_count as u64,
        encode_error: encode.error,
        playable: encode.encoder.playable(),
    }
}

/// A running session with the given stop condition.
pub open spec fn running_session(fps: u32, condition: StopCondition) -> SessionModel {
    SessionModel { fps, condition, stage: SessionStage::Running, start_failed: false }
}

/// A capture loop with a target of at least one frame hands on exactly that
/// many: below the target it goes on polling, at the target it leaves and
/// sets the stop flag itself, and after that it takes no further image.
pub proof fn theorem_capture_hands_on_exactly_the_target(target: u64, wait_ms: u64, k: nat)
    requires
        1 <= target,
        k <= target,
    ensures
        ({
            let m = capture_after(CaptureModel::started(Some(target), wait_ms), k);
            &&& m.wf()
            &&& m.target == Some(target)
            &&& m.wait_ms == wait_ms
            &&& m.frames_received == k
            &&& k < target ==> {
                &&& m.stage is Polling
                &&& m.on_event(CaptureEvent::Delivered).reply == Ok::<
                    CaptureCommand,
                    RecorderError,
                >(CaptureCommand::HandOff)
                &&& m.on_event(CaptureEvent::Delivered).next.on_event(
                    CaptureEvent::HandedOff,
                ).reply == Ok::<CaptureCommand, RecorderError>(
                    if k + 1 == target {
                        CaptureCommand::Exit { raise_stop: true }
                    } else {
                        CaptureCommand::Poll { wait_ms }
                    },
                )
            }
            &&& k == target ==> {
                &&& m.stage is Exited
                &&& m.cause == Some(ExitCause::TargetReached)
                &&& m.on_event(CaptureEvent::Delivered) == m.refuse()
            }
        }),
    decreases k,
{
    if k > 0 {
        theorem_capture_hands_on_exactly_the_target(target, wait_ms, (k - 1) as nat);
    }
}

/// A capture loop whose source stays silent never hands anything on: each
/// time-out without a stop request leaves it as it was, polling; the first
/// one that finds the stop flag set ends it, with nothing received.
pub proof fn theorem_silent_source_hands_on_nothing(m: CaptureModel)
    requires
        m.wf(),
        m.stage is Polling,
    ensures
        m.on_event(CaptureEvent::TimedOut { stop_requested: false }).next == m,
        m.on_event(CaptureEvent::TimedOut { stop_requested: false }).reply == Ok::<
            CaptureCommand,
            RecorderError,
        >(CaptureCommand::Poll { wait_ms: m.wait_ms }),
        m.on_event(CaptureEvent::TimedOut { stop_requested: true }).reply == Ok::<
            CaptureCommand,
            RecorderError,
        >(CaptureCommand::Exit { raise_stop: false }),
        m.on_event(CaptureEvent::TimedOut { stop_requested: true }).next == (CaptureModel {
            stage: CaptureStage::Exited,
            cause: Some(ExitCause::StopRequested),
            ..m
        }),
{
}

/// An encoder that has just been opened is well formed, open and idle, and
/// has counted nothing.
pub proof fn lemma_opened_encoder(width: u32, height: u32, fps: u32, stream: usize)
    requires
        valid_setting(width),
        valid_setting(height),
        valid_setting(fps),
    ensures
        opened_encoder(width, height, fps, stream).wf(),
        opened_encoder(width, height, fps, stream).accepting(),
        opened_encoder(width, height, fps, stream).header_written,
        opened_encoder(width, height, fps, stream).frame_count == 0,
        opened_encoder(width, height, fps, stream).video_stream == stream,
        fresh_loop(width, height, fps, stream).wf(),
        fresh_loop(width, height, fps, stream).stage() is Receiving,
{
}

/// Frames of the right size that come out of the channel one after another
/// are each submitted, stamped in the order in which they came, and
/// counted: after `n` of them the loop is receiving again, with `n` more
/// frames encoded and no error.
pub proof fn theorem_loop_encodes_in_order(
    m: LoopModel,
    frames: Seq<Frame>,
    packets: Seq<nat>,
    n: nat,
)
    requires
        m.wf(),
        m.stage() is Receiving,
        n <= frames.len(),
        frames.len() == packets.len(),
        m.encoder.frame_count + n <= MAX_FRAME_COUNT,
        forall|i: int| 0 <= i < frames.len() ==> (#[trigger] frames[i]).size_matches(),
    ensures
        loop_after_frames(m, frames, packets, n).wf(),
        loop_after_frames(m, frames, packets, n).stage() is Receiving,
        loop_after_frames(m, frames, packets, n).error == m.error,
        loop_after_frames(m, frames, packets, n).encoder.frame_count == m.encoder.frame_count
            + n,
        n < frames.len() && m.encoder.frame_count + n < MAX_FRAME_COUNT ==> loop_after_frames(
            m,
            frames,
            packets,
            n,
        ).on_frame(frames[n as int]).reply == Ok::<LoopCommand, RecorderError>(
            LoopCommand::Perform(
                Command::SubmitFrame(
                    (EncoderModel {
                        frame_count: m.encoder.frame_count + n,
                        ..m.encoder
                    }).frame_order(frames[n as int].width, frames[n as int].height),
                ),
            ),
        ),
    decreases n,
{
    if n > 0 {
        let before = (n - 1) as nat;
        theorem_loop_encodes_in_order(m, frames, packets, before);
        theorem_loop_counts_frame(
            loop_after_frames(m, frames, packets, before),
            frames[n - 1],
            packets[n - 1],
        );
    }
}

/// A session that is to stop after `target` frames, with a source that
/// keeps delivering frames of the right size: the capture loop hands on
/// exactly `target` frames and sets the stop flag itself; the session goes
/// on waiting below the target and turns to shutting down at it; the encode
/// loop encodes the `target` frames in order and, on closure, finishes the
/// stream once; and the report tells of `target` frames received and
/// encoded in a closed container, with nothing amiss.
pub proof fn theorem_target_session_records_exactly_the_target(
    width: u32,
    height: u32,
    fps: u32,
    stream: usize,
    target: u64,
    wait_ms: u64,
    frames: Seq<Frame>,
    packets: Seq<nat>,
    flushed: nat,
    seen: u64,
    elapsed_ms: u64,
)
    requires
        valid_setting(width),
        valid_setting(height),
        valid_setting(fps),
        1 <= target <= MAX_FRAME_COUNT,
        frames.len() == target,
        packets.len() == target,
        forall|i: int| 0 <= i < frames.len() ==> (#[trigger] frames[i]).size_matches(),
    ensures
        ({
            let capture = capture_after(CaptureModel::started(Some(target), wait_ms), target as nat);
            let received = loop_after_frames(
                fresh_loop(width, height, fps, stream),
                frames,
                packets,
                target as nat,
            );
            let encode = loop_after_closure(received, flushed);
            let session = running_session(fps, StopCondition::TargetFrameCount(target));
            let tick = session.on_event(
                SessionEvent::Tick {
                    frames_received: seen,
                    elapsed_ms,
                    stop_requested: false,
                    capture_ended: false,
                },
            );
            let results = results_of(capture, encode);
            &&& capture.stage is Exited
            &&& capture.cause == Some(ExitCause::TargetReached)
            &&& capture.frames_received == target
            &&& seen < target ==> tick.reply == Ok::<SessionCommand, RecorderError>(
                SessionCommand::Wait { wait_ms: TICK_MS },
            ) && tick.next == session
            &&& seen >= target ==> tick.reply == Ok::<SessionCommand, RecorderError>(
                SessionCommand::RaiseStop,
            )
            &&& received.stage() is Receiving
            &&& received.on_closed().reply == Ok::<LoopCommand, RecorderError>(
                LoopCommand::Perform(Command::SendEof),
            )
            &&& encode.stage() is Done
            &&& encode.encoder.frame_count == target
            &&& encode.encoder.playable()
            &&& encode.error is None
            &&& encode.on_closed() == encode.refuse()
            &&& results.frames_received == target
            &&& results.frames_encoded == target
            &&& results.playable
            &&& verdict_of(false, results) == Verdict::Complete
        }),
{
    theorem_capture_hands_on_exactly_the_target(target, wait_ms, target as nat);
    lemma_opened_encoder(width, height, fps, stream);
    let fresh = fresh_loop(width, height, fps, stream);
    theorem_loop_encodes_in_order(fresh, frames, packets, target as nat);
    let received = loop_after_frames(fresh, frames, packets, target as nat);
    theorem_clean_closure_seals(received, flushed);
}

/// A session with a wall-clock limit and a source that never delivers: the
/// capture loop hands on nothing and leaves when it finds the stop flag
/// set; the session goes on waiting up to the limit and turns to shutting
/// down at the first look after it; the encode loop, which was offered no
/// frame, finishes the stream on closure; and the report tells of no frame
/// received or encoded, a closed container, and nothing amiss.
pub proof fn theorem_timeout_session_with_silent_source_ends_empty(
    width: u32,
    height: u32,
    fps: u32,
    stream: usize,
    limit_ms: u64,
    wait_ms: u64,
    flushed: nat,
    elapsed_ms: u64,
)
    requires
        valid_setting(width),
        valid_setting(height),
        valid_setting(fps),
    ensures
        ({
            let polling = CaptureModel::started(None, wait_ms);
            let capture = polling.on_event(CaptureEvent::TimedOut { stop_requested: true }).next;
            let fresh = fresh_loop(width, height, fps, stream);
            let encode = loop_after_closure(fresh, flushed);
            let session = running_session(fps, StopCondition::WallClockTimeout(limit_ms));
            let tick = session.on_event(
                SessionEvent::Tick {
                    frames_received: 0,
                    elapsed_ms,
                    stop_requested: false,
                    capture_ended: false,
                },
            );
            let results = results_of(capture, encode);
            &&& polling.on_event(CaptureEvent::TimedOut { stop_requested: false }).next == polling
            &&& capture.stage is Exited
            &&& capture.cause == Some(ExitCause::StopRequested)
            &&& capture.frames_received == 0
            &&& elapsed_ms <= limit_ms ==> tick.reply == Ok::<SessionCommand, RecorderError>(
                SessionCommand::Wait { wait_ms: TICK_MS },
            ) && tick.next == session
            &&& elapsed_ms > limit_ms ==> tick.reply == Ok::<SessionCommand, RecorderError>(
                SessionCommand::RaiseStop,
            )
            &&& stop_due(session.condition, 0, elapsed_ms, false, false) == (elapsed_ms
                > limit_ms)
            &&& fresh.on_closed().reply == Ok::<LoopCommand, RecorderError>(
                LoopCommand::Perform(Command::SendEof),
            )
            &&& encode.stage() is Done
            &&& encode.encoder.frame_count == 0
            &&& encode.encoder.playable()
            &&& encode.error is None
            &&& results.frames_received == 0
            &&& results.frames_encoded == 0
            &&& results.playable
            &&& verdict_of(false, results) == Verdict::Complete
        }),
{
    theorem_silent_source_hands_on_nothing(CaptureModel::started(None, wait_ms));
    lemma_opened_encoder(width, height, fps, stream);
    theorem_clean_closure_seals(fresh_loop(width, height, fps, stream), flushed);
}

} // verus!
