//! The recording session: when to stop, in what order to shut down, and
//! what to report.

use vstd::prelude::*;
use vstd::arithmetic::div_mod::{lemma_fundamental_div_mod, lemma_fundamental_div_mod_converse};
use crate::capture::{CaptureLoop, CaptureModel, ExitCause};
use crate::encode_loop::EncodeLoop;
use crate::encoder::{valid_setting, EncoderModel, VideoEncoder, MAX_SETTING};
use crate::error::RecorderError;

verus! {

/// How long the orchestrator sleeps between two looks at the counters.
pub const TICK_MS: u64 = 100;

/// What ends a recording.
#[derive(Clone, Copy, Debug, PartialEq, Eq)]
pub enum StopCondition {
    /// This many frames were received.
    TargetFrameCount(u64),
    /// More than this many milliseconds have passed.
    WallClockTimeout(u64),
    /// Only a request from outside.
    External,
}

/// The options of a session.
#[derive(Debug)]
pub struct SessionConfig {
    pub output_path: String,
    pub width: u32,
    pub height: u32,
    pub fps: u32,
    pub stop_condition: StopCondition,
}

/// Whether a session in this situation is to stop: on request, when the
/// condition is met, and when the capture loop has ended and nothing more
/// can arrive.
pub open spec fn stop_due(
    condition: StopCondition,
    frames_received: u64,
    elapsed_ms: u64,
    stop_requested: bool,
    capture_ended: bool,
) -> bool {
    stop_requested || capture_ended || match condition {
        StopCondition::TargetFrameCount(target) => frames_received >= target,
        StopCondition::WallClockTimeout(limit) => elapsed_ms > limit,
        StopCondition::External => false,
    }
}

impl SessionConfig {
    /// Width, height and frame rate are ones the codec can take.
    pub open spec fn valid(&self) -> bool {
        valid_setting(self.width) && valid_setting(self.height) && valid_setting(self.fps)
    }

    /// Checks the options.
    pub fn validate(&self) -> (checked: Result<(), RecorderError>)
        ensures
            checked == (if self.valid() {
                Ok::<(), RecorderError>(())
            } else {
                Err::<(), RecorderError>(RecorderError::ConfigError)
            }),
    {
        if self.width == 0 || self.height == 0 || self.fps == 0 || self.width > MAX_SETTING
            || self.height > MAX_SETTING || self.fps > MAX_SETTING {
            Err(RecorderError::ConfigError)
        } else {
            Ok(())
        }
    }

    /// The number of frames after which the capture loop leaves by itself.
    pub fn capture_target(&self) -> (target: Option<u64>)
        ensures
            target == (match self.stop_condition {
                StopCondition::TargetFrameCount(count) => Some(count),
                _ => None::<u64>,
            }),
    {
        match self.stop_condition {
            StopCondition::TargetFrameCount(count) => Some(count),
            _ => None,
        }
    }

    /// An encoder for these options.
    pub fn encoder(&self) -> (made: Result<VideoEncoder, RecorderError>)
        ensures
            self.valid() ==> (made matches Ok(encoder) && encoder@
                == EncoderModel::created(self.width, self.height, self.fps)),
            !self.valid() ==> made matches Err(RecorderError::ConfigError),
    {
        VideoEncoder::new(self.width, self.height, self.fps)
    }

    /// A capture loop for these options.
    pub fn capture_loop(&self, wait_ms: u64) -> (made: CaptureLoop)
        ensures
            made@ == CaptureModel::started(
                match self.stop_condition {
                    StopCondition::TargetFrameCount(count) => Some(count),
                    _ => None::<u64>,
                },
                wait_ms,
            ),
    {
        CaptureLoop::new(self.capture_target(), wait_ms)
    }
}

/// Where the session stands.
#[derive(Clone, Copy, Debug, PartialEq, Eq)]
pub enum SessionStage {
    Idle,
    /// The channel, the loops and the capture source are being started.
    Starting,
    Running,
    RaisingStop,
    StoppingSource,
    ClosingChannel,
    Joining,
    /// Both loops have ended; the report is due.
    Joined,
    Finished,
}

/// The next thing to do on the session's behalf.
#[derive(Clone, Copy, Debug, PartialEq, Eq)]
pub enum SessionCommand {
    /// Create the channel, start both loops and the capture source.
    Start,
    /// Sleep, then report the counters, the time passed and the stop request.
    Wait { wait_ms: u64 },
    /// Set the stop flag.
    RaiseStop,
    /// Stop the capture source.
    StopSource,
    /// Drop the session's own sender, so that the channel can close.
    CloseChannel,
    /// Wait for both loops to end.
    JoinLoops,
    /// Hand the loops' results to `conclude`.
    Conclude,
}

/// What became of the last command.
#[derive(Clone, Copy, Debug, PartialEq, Eq)]
pub enum SessionEvent {
    Done,
    Failed,
    /// The situation after a wait: the frames received, the time passed,
    /// the stop flag, and whether the capture loop has ended.
    Tick { frames_received: u64, elapsed_ms: u64, stop_requested: bool, capture_ended: bool },
}

/// How a session ended.
#[derive(Clone, Copy, Debug, PartialEq, Eq)]
pub enum Verdict {
    /// Nothing went wrong.
    Complete,
    /// The recording is usable but ended early.
    Partial(RecorderError),
    /// The session failed.
    Failed(RecorderError),
}

/// Seconds and milliseconds.
#[derive(Clone, Copy, Debug, PartialEq, Eq)]
pub struct NominalDuration {
    pub secs: u64,
    pub millis: u32,
}

impl NominalDuration {
    pub open spec fn total_ms(self) -> int {
        self.secs * 1000 + self.millis
    }
}

/// What a session tells its caller.
#[derive(Clone, Copy, Debug, PartialEq, Eq)]
pub struct SessionReport {
    pub frames_received: u64,
    pub frames_encoded: u64,
    /// Wall-clock time from start to the end of both loops.
    pub elapsed_ms: u64,
    /// Playing time of the encoded frames at the configured rate.
    pub nominal: NominalDuration,
    /// The output holds a header and a trailer.
    pub playable: bool,
    pub verdict: Verdict,
}

/// What the two loops hand back when they have ended.
#[derive(Clone, Copy, Debug, PartialEq, Eq)]
pub struct LoopResults {
    pub frames_received: u64,
    /// Why the capture loop ended; `None` if it never ran.
    pub capture_cause: Option<ExitCause>,
    pub frames_encoded: u64,
    /// The error that ended the encode loop, if any.
    pub encode_error: Option<RecorderError>,
    pub playable: bool,
}

impl LoopResults {
    /// The results of two loops that have ended.
    pub fn of(capture: &CaptureLoop, encode: &EncodeLoop) -> (results: LoopResults)
        ensures
            results == (LoopResults {
                frames_received: capture@.frames_received as u64,
                capture_cause: capture@.cause,
                frames_encoded: encode@.encoder.frame_count as u64,
                encode_error: encode@.error,
                playable: encode@.encoder.playable(),
            }),
    {
        LoopResults {
            frames_received: capture.frames_received(),
            capture_cause: capture.cause(),
            frames_encoded: encode.frames_encoded(),
            encode_error: encode.error(),
            playable: encode.is_playable(),
        }
    }

    /// The results of a session whose encoder could not be opened: there is
    /// no output.
    pub fn without_output(capture: &CaptureLoop, error: RecorderError) -> (results: LoopResults)
        ensures
            results == (LoopResults {
                frames_received: capture@.frames_received as u64,
                capture_cause: capture@.cause,
                frames_encoded: 0,
                encode_error: Some(error),
                playable: false,
            }),
    {
        LoopResults {
            frames_received: capture.frames_received(),
            capture_cause: capture.cause(),
            frames_encoded: 0,
            encode_error: Some(error),
            playable: false,
        }
    }
}

/// How a session with these results ended. An error on the encoding side
/// is fatal. A lost capture source leaves a partial recording, unless no
/// frame was ever received. A capture loop that found its consumer gone has
/// nothing to add to what the encoding side reports.
pub open spec fn verdict_of(start_failed: bool, results: LoopResults) -> Verdict {
    match results.encode_error {
        Some(error) => Verdict::Failed(error),
        None => if start_failed {
            Verdict::Failed(RecorderError::SourceDisconnected)
        } else if results.capture_cause == Some(ExitCause::SourceDisconnected) {
            if results.frames_received == 0 {
                Verdict::Failed(RecorderError::SourceDisconnected)
            } else {
                Verdict::Partial(RecorderError::SourceDisconnected)
            }
        } else {
            Verdict::Complete
        },
    }
}

/// The playing time of `frames` frames at `fps` frames per second, in whole
/// milliseconds.
pub open spec fn nominal_ms(frames: u64, fps: u32) -> int {
    frames * 1000 / (fps as int)
}

/// The session as a mathematical value.
pub struct SessionModel {
    pub fps: u32,
    pub condition: StopCondition,
    pub stage: SessionStage,
    /// The capture source could not be started.
    pub start_failed: bool,
}

/// A transition: the state that follows and the answer given.
pub struct SessionStep {
    pub next: SessionModel,
    pub reply: Result<SessionCommand, RecorderError>,
}

impl SessionModel {
    pub open spec fn wf(self) -> bool {
        &&& valid_setting(self.fps)
        &&& self.start_failed ==> !(self.stage is Idle || self.stage is Starting
            || self.stage is Running)
    }

    /// The call or event is out of place: nothing changes.
    pub open spec fn refuse(self) -> SessionStep {
        SessionStep { next: self, reply: Err(RecorderError::InvalidState) }
    }

    /// The session moves to `stage` and asks for `command`.
    pub open spec fn go(self, stage: SessionStage, command: SessionCommand) -> SessionStep {
        SessionStep { next: SessionModel { stage, ..self }, reply: Ok(command) }
    }

    /// A request to start recording.
    pub open spec fn on_begin(self) -> SessionStep {
        if self.stage is Idle {
            self.go(SessionStage::Starting, SessionCommand::Start)
        } else {
            self.refuse()
        }
    }

    /// The result of the command handed out last. Once the session is
    /// stopping, a step that fails does not hold up the steps after it.
    pub open spec fn on_event(self, event: SessionEvent) -> SessionStep {
        match (self.stage, event) {
            (SessionStage::Starting, SessionEvent::Done) => self.go(
                SessionStage::Running,
                SessionCommand::Wait { wait_ms: TICK_MS },
            ),
            (SessionStage::Starting, SessionEvent::Failed) => SessionModel {
                start_failed: true,
                ..self
            }.go(SessionStage::RaisingStop, SessionCommand::RaiseStop),
            (
                SessionStage::Running,
                SessionEvent::Tick { frames_received, elapsed_ms, stop_requested, capture_ended },
            ) => if stop_due(
                self.condition,
                frames_received,
                elapsed_ms,
                stop_requested,
                capture_ended,
            ) {
                self.go(SessionStage::RaisingStop, SessionCommand::RaiseStop)
            } else {
                self.go(SessionStage::Running, SessionCommand::Wait { wait_ms: TICK_MS })
            },
            (SessionStage::RaisingStop, SessionEvent::Done) | (
                SessionStage::RaisingStop,
                SessionEvent::Failed,
            ) => self.go(SessionStage::StoppingSource, SessionCommand::StopSource),
            (SessionStage::StoppingSource, SessionEvent::Done) | (
                SessionStage::StoppingSource,
                SessionEvent::Failed,
            ) => self.go(SessionStage::ClosingChannel, SessionCommand::CloseChannel),
            (SessionStage::ClosingChannel, SessionEvent::Done) | (
                SessionStage::ClosingChannel,
                SessionEvent::Failed,
            ) => self.go(SessionStage::Joining, SessionCommand::JoinLoops),
            (SessionStage::Joining, SessionEvent::Done) | (
                SessionStage::Joining,
                SessionEvent::Failed,
            ) => self.go(SessionStage::Joined, SessionCommand::Conclude),
            _ => self.refuse(),
        }
    }

    /// The report on a session whose loops ended with `results` after
    /// `elapsed_ms` milliseconds.
    pub open spec fn report(self, results: LoopResults, elapsed_ms: u64, report: SessionReport) -> bool {
        &&& report.frames_received == results.frames_received
        &&& report.frames_encoded == results.frames_encoded
        &&& report.elapsed_ms == elapsed_ms
        &&& report.playable == results.playable
        &&& report.nominal.total_ms() == nominal_ms(results.frames_encoded, self.fps)
        &&& report.nominal.millis < 1000
        &&& report.verdict == verdict_of(self.start_failed, results)
    }
}

/// The playing time of `frames` frames at `fps` frames per second.
pub fn nominal_duration(frames: u64, fps: u32) -> (duration: NominalDuration)
    requires
        fps > 0,
    ensures
        duration.total_ms() == nominal_ms(frames, fps),
        duration.millis < 1000,
        duration.secs == frames / (fps as u64),
{
    let rate: u64 = fps as u64;
    let secs: u64 = frames / rate;
    let rest: u64 = frames % rate;
    assert(rest * 1000 <= 0xffff_ffff * 1000) by (nonlinear_arith)
        requires
            rest <= 0xffff_ffff,
    ;
    let millis: u64 = rest * 1000 / rate;
    proof {
        let f = frames as int;
        let d = rate as int;
        let q = secs as int;
        let r = rest as int;
        lemma_fundamental_div_mod(f, d);
        lemma_fundamental_div_mod(r * 1000, d);
        let m = (r * 1000) / d;
        let s = (r * 1000) % d;
        assert(f * 1000 == d * (q * 1000 + m) + s) by (nonlinear_arith)
            requires
                f == d * q + r,
                r * 1000 == d * m + s,
        ;
        assert(m < 1000) by (nonlinear_arith)
            requires
                r * 1000 == d * m + s,
                0 <= s,
                0 <= r < d,
        ;
        assert(0 <= m) by (nonlinear_arith)
            requires
                r * 1000 == d * m + s,
                s < d,
                0 <= r,
                0 < d,
        ;
        lemma_fundamental_div_mod_converse(f * 1000, d, q * 1000 + m, s);
    }
    NominalDuration { secs, millis: millis as u32 }
}

/// The orchestrating side of a recording.
#[derive(Debug)]
pub struct RecordingSession {
    fps: u32,
    condition: StopCondition,
    stage: SessionStage,
    start_failed: bool,
}

impl View for RecordingSession {
    type V = SessionModel;

    closed spec fn view(&self) -> SessionModel {
        SessionModel {
            fps: self.fps,
            condition: self.condition,
            stage: self.stage,
            start_failed: self.start_failed,
        }
    }
}

impl RecordingSession {
    /// Holds of every session.
    #[verifier::type_invariant]
    pub open spec fn inv(&self) -> bool {
        self@.wf()
    }

    /// A session with the given options; invalid options are refused.
    pub fn new(config: &SessionConfig) -> (made: Result<RecordingSession, RecorderError>)
        ensures
            config.valid() ==> (made matches Ok(session) && session@ == SessionModel {
                fps: config.fps,
                condition: config.stop_condition,
                stage: SessionStage::Idle,
                start_failed: false,
            }),
            !config.valid() ==> made matches Err(RecorderError::ConfigError),
    {
        match config.validate() {
            Ok(()) => Ok(
                RecordingSession {
                    fps: config.fps,
                    condition: config.stop_condition,
                    stage: SessionStage::Idle,
                    start_failed: false,
                },
            ),
            Err(error) => Err(error),
        }
    }

    /// Whether a session in this situation is to stop.
    pub fn should_stop(
        &self,
        frames_received: u64,
        elapsed_ms: u64,
        stop_requested: bool,
        capture_ended: bool,
    ) -> (stop: bool)
        ensures
            stop == stop_due(
                self@.condition,
                frames_received,
                elapsed_ms,
                stop_requested,
                capture_ended,
            ),
    {
        stop_requested || capture_ended || match self.condition {
            StopCondition::TargetFrameCount(target) => frames_received >= target,
            StopCondition::WallClockTimeout(limit) => elapsed_ms > limit,
            StopCondition::External => false,
        }
    }

    /// Asks for the recording to be started.
    pub fn begin(&mut self) -> (reply: Result<SessionCommand, RecorderError>)
        ensures
            final(self)@ == old(self)@.on_begin().next,
            reply == old(self)@.on_begin().reply,
    {
        proof {
            use_type_invariant(&*self);
        }
        match self.stage {
            SessionStage::Idle => Ok(self.go(SessionStage::Starting, SessionCommand::Start)),
            _ => Err(RecorderError::InvalidState),
        }
    }

    /// Takes the result of the command handed out last and answers with the
    /// next one.
    pub fn on_event(&mut self, event: SessionEvent) -> (reply: Result<
        SessionCommand,
        RecorderError,
    >)
        ensures
            final(self)@ == old(self)@.on_event(event).next,
            reply == old(self)@.on_event(event).reply,
    {
        proof {
            use_type_invariant(&*self);
        }
        match (self.stage, event) {
            (SessionStage::Starting, SessionEvent::Done) => Ok(
                self.go(SessionStage::Running, SessionCommand::Wait { wait_ms: TICK_MS }),
            ),
            (SessionStage::Starting, SessionEvent::Failed) => {
                *self = RecordingSession {
                    stage: SessionStage::RaisingStop,
                    start_failed: true,
                    ..*self
                };
                Ok(SessionCommand::RaiseStop)
            },
            (
                SessionStage::Running,
                SessionEvent::Tick { frames_received, elapsed_ms, stop_requested, capture_ended },
            ) => {
                if self.should_stop(frames_received, elapsed_ms, stop_requested, capture_ended) {
                    Ok(self.go(SessionStage::RaisingStop, SessionCommand::RaiseStop))
                } else {
                    Ok(SessionCommand::Wait { wait_ms: TICK_MS })
                }
            },
            (SessionStage::RaisingStop, SessionEvent::Done) | (
                SessionStage::RaisingStop,
                SessionEvent::Failed,
            ) => Ok(self.go(SessionStage::StoppingSource, SessionCommand::StopSource)),
            (SessionStage::StoppingSource, SessionEvent::Done) | (
                SessionStage::StoppingSource,
                SessionEvent::Failed,
            ) => Ok(self.go(SessionStage::ClosingChannel, SessionCommand::CloseChannel)),
            (SessionStage::ClosingChannel, SessionEvent::Done) | (
                SessionStage::ClosingChannel,
                SessionEvent::Failed,
            ) => Ok(self.go(SessionStage::Joining, SessionCommand::JoinLoops)),
            (SessionStage::Joining, SessionEvent::Done) | (
                SessionStage::Joining,
                SessionEvent::Failed,
            ) => Ok(self.go(SessionStage::Joined, SessionCommand::Conclude)),
            _ => Err(RecorderError::InvalidState),
        }
    }

    fn go(&mut self, stage: SessionStage, command: SessionCommand) -> (handed: SessionCommand)
        requires
            old(self).start_failed ==> !(stage is Idle || stage is Starting || stage is Running),
        ensures
            final(self)@ == old(self)@.go(stage, command).next,
            handed == command,
    {
        proof {
            use_type_invariant(&*self);
        }
        *self = RecordingSession { stage, ..*self };
        command
    }

    /// Ends the session with the loops' results and the time that has
    /// passed, and reports. Accepted once, when both loops have ended.
    pub fn conclude(&mut self, results: LoopResults, elapsed_ms: u64) -> (reply: Result<
        SessionReport,
        RecorderError,
    >)
        ensures
            old(self)@.stage is Joined ==> (reply matches Ok(report) && old(self)@.report(
                results,
                elapsed_ms,
                report,
            ) && final(self)@ == SessionModel { stage: SessionStage::Finished, ..old(self)@ }),
            !(old(self)@.stage is Joined) ==> (reply matches Err(RecorderError::InvalidState))
                && final(self)@ == old(self)@,
    {
        proof {
            use_type_invariant(&*self);
        }
        match self.stage {
            SessionStage::Joined => {},
            _ => {
                return Err(RecorderError::InvalidState);
            },
        }
        let verdict = match results.encode_error {
            Some(error) => Verdict::Failed(error),
            None => if self.start_failed {
                Verdict::Failed(RecorderError::SourceDisconnected)
            } else {
                match results.capture_cause {
                    Some(ExitCause::SourceDisconnected) => if results.frames_received == 0 {
                        Verdict::Failed(RecorderError::SourceDisconnected)
                    } else {
                        Verdict::Partial(RecorderError::SourceDisconnected)
                    },
                    _ => Verdict::Complete,
                }
            },
        };
        let report = SessionReport {
            frames_received: results.frames_received,
            frames_encoded: results.frames_encoded,
            elapsed_ms,
            nominal: nominal_duration(results.frames_encoded, self.fps),
            playable: results.playable,
            verdict,
        };
        *self = RecordingSession { stage: SessionStage::Finished, ..*self };
        Ok(report)
    }

    /// Where the session stands.
    pub fn stage(&self) -> (stage: SessionStage)
        ensures
            stage == self@.stage,
    {
        self.stage
    }
}

/// The place of a stage in the session's life.
pub open spec fn session_rank(stage: SessionStage) -> nat {
    match stage {
        SessionStage::Idle => 0,
        SessionStage::Starting => 1,
        SessionStage::Running => 2,
        SessionStage::RaisingStop => 3,
        SessionStage::StoppingSource => 4,
        SessionStage::ClosingChannel => 5,
        SessionStage::Joining => 6,
        SessionStage::Joined => 7,
        SessionStage::Finished => 8,
    }
}

/// The command that a stage of the shutdown asks for.
pub open spec fn shutdown_command(stage: SessionStage) -> SessionCommand {
    match stage {
        SessionStage::RaisingStop => SessionCommand::RaiseStop,
        SessionStage::StoppingSource => SessionCommand::StopSource,
        SessionStage::ClosingChannel => SessionCommand::CloseChannel,
        SessionStage::Joining => SessionCommand::JoinLoops,
        _ => SessionCommand::Conclude,
    }
}

/// Every transition keeps the session well formed.
pub proof fn lemma_session_steps_keep_wf(m: SessionModel, event: SessionEvent)
    requires
        m.wf(),
    ensures
        m.on_begin().next.wf(),
        m.on_event(event).next.wf(),
{
}

/// A running session goes on waiting exactly as long as nothing calls for a
/// stop, and then sets the stop flag.
pub proof fn theorem_session_stops_when_due(
    m: SessionModel,
    frames_received: u64,
    elapsed_ms: u64,
    stop_requested: bool,
    capture_ended: bool,
)
    requires
        m.wf(),
        m.stage is Running,
    ensures
        ({
            let step = m.on_event(
                SessionEvent::Tick { frames_received, elapsed_ms, stop_requested, capture_ended },
            );
            if stop_due(m.condition, frames_received, elapsed_ms, stop_requested, capture_ended) {
                step.reply == Ok::<SessionCommand, RecorderError>(SessionCommand::RaiseStop)
                    && step.next.stage is RaisingStop
            } else {
                step.reply == Ok::<SessionCommand, RecorderError>(
                    SessionCommand::Wait { wait_ms: TICK_MS },
                ) && step.next == m
            }
        }),
{
}

/// Once a session is stopping, each step is followed by the next, whether
/// it succeeded or not: the stop flag, the capture source, the channel, the
/// loops, and then the report.
pub proof fn theorem_shutdown_runs_in_order(m: SessionModel, event: SessionEvent)
    requires
        m.wf(),
        m.stage is RaisingStop || m.stage is StoppingSource || m.stage is ClosingChannel
            || m.stage is Joining,
        event is Done || event is Failed,
    ensures
        session_rank(m.on_event(event).next.stage) == session_rank(m.stage) + 1,
        m.on_event(event).reply == Ok::<SessionCommand, RecorderError>(
            shutdown_command(m.on_event(event).next.stage),
        ),
{
}

/// No transition takes a session back, and none skips a step of the
/// shutdown.
pub proof fn theorem_session_moves_forward(m: SessionModel, event: SessionEvent)
    requires
        m.wf(),
    ensures
        session_rank(m.on_begin().next.stage) >= session_rank(m.stage),
        session_rank(m.on_event(event).next.stage) >= session_rank(m.stage),
        session_rank(m.stage) >= 3 ==> session_rank(m.on_event(event).next.stage)
            <= session_rank(m.stage) + 1,
{
}

} // verus!
