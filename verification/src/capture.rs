//! The producing side of the frame channel: the capture source is polled
//! with a bounded wait, each image is handed on, and the loop leaves on a
//! stop request, on reaching its target, or when either neighbour is gone.

use vstd::prelude::*;
use crate::error::RecorderError;

verus! {

/// The largest value of the frame counter.
pub const MAX_FRAMES: u64 = 0xffff_ffff_ffff_ffff;

/// Where the loop stands.
#[derive(Clone, Copy, Debug, PartialEq, Eq)]
pub enum CaptureStage {
    /// Waiting for the source.
    Polling,
    /// An image is being handed to the channel.
    HandingOff,
    /// The loop has ended.
    Exited,
}

/// Why the loop ended.
#[derive(Clone, Copy, Debug, PartialEq, Eq)]
pub enum ExitCause {
    /// The configured number of frames was handed on, or the counter is full.
    TargetReached,
    /// The stop flag was found set.
    StopRequested,
    /// The channel has no consumer left.
    ConsumerGone,
    /// The capture source went away.
    SourceDisconnected,
}

/// What the capture source or the channel reported.
#[derive(Clone, Copy, Debug, PartialEq, Eq)]
pub enum CaptureEvent {
    /// The source delivered an image.
    Delivered,
    /// The wait ran out; `stop_requested` is the stop flag as read then.
    TimedOut { stop_requested: bool },
    /// The source went away.
    Disconnected,
    /// The channel took the frame.
    HandedOff,
    /// The channel refused the frame: its consumer is gone.
    ConsumerGone,
}

/// The next thing to do on the loop's behalf.
#[derive(Clone, Copy, Debug, PartialEq, Eq)]
pub enum CaptureCommand {
    /// Wait for the source, `wait_ms` milliseconds at most.
    Poll { wait_ms: u64 },
    /// Wrap the image as a frame and send it into the channel.
    HandOff,
    /// Leave the loop, setting the stop flag first if `raise_stop`.
    Exit { raise_stop: bool },
}

/// The loop as a mathematical value.
pub struct CaptureModel {
    pub frames_received: nat,
    pub target: Option<u64>,
    pub wait_ms: u64,
    pub stage: CaptureStage,
    pub cause: Option<ExitCause>,
}

/// A transition: the state that follows and the answer given.
pub struct CaptureStep {
    pub next: CaptureModel,
    pub reply: Result<CaptureCommand, RecorderError>,
}

/// The error that a cause of leaving stands for, if it is one.
pub open spec fn cause_error(cause: ExitCause) -> Option<RecorderError> {
    match cause {
        ExitCause::TargetReached => None,
        ExitCause::StopRequested => None,
        ExitCause::ConsumerGone => Some(RecorderError::ChannelClosed),
        ExitCause::SourceDisconnected => Some(RecorderError::SourceDisconnected),
    }
}

impl CaptureModel {
    /// The states a loop can be in: while it runs the counter has room.
    pub open spec fn wf(self) -> bool {
        &&& self.frames_received <= MAX_FRAMES
        &&& !(self.stage is Exited) ==> self.frames_received < MAX_FRAMES
        &&& self.cause is Some <==> self.stage is Exited
    }

    /// A loop that has not polled yet.
    pub open spec fn started(target: Option<u64>, wait_ms: u64) -> CaptureModel {
        CaptureModel {
            frames_received: 0,
            target,
            wait_ms,
            stage: CaptureStage::Polling,
            cause: None,
        }
    }

    /// With `count` frames handed on there is nothing left to capture.
    pub open spec fn target_met(self, count: nat) -> bool {
        count >= MAX_FRAMES || (self.target matches Some(target) && count >= target)
    }

    /// The event is out of place: nothing changes.
    pub open spec fn refuse(self) -> CaptureStep {
        CaptureStep { next: self, reply: Err(RecorderError::InvalidState) }
    }

    /// The loop goes on polling.
    pub open spec fn poll(self) -> CaptureStep {
        CaptureStep {
            next: CaptureModel { stage: CaptureStage::Polling, ..self },
            reply: Ok(CaptureCommand::Poll { wait_ms: self.wait_ms }),
        }
    }

    /// The loop ends for `cause`.
    pub open spec fn exit(self, cause: ExitCause) -> CaptureStep {
        CaptureStep {
            next: CaptureModel { stage: CaptureStage::Exited, cause: Some(cause), ..self },
            reply: Ok(CaptureCommand::Exit { raise_stop: cause is TargetReached }),
        }
    }

    /// The frame went into the channel: it counts, and the target is looked
    /// at.
    pub open spec fn handed_off(self) -> CaptureStep {
        let counted = CaptureModel { frames_received: self.frames_received + 1, ..self };
        if self.target_met(counted.frames_received) {
            counted.exit(ExitCause::TargetReached)
        } else {
            counted.poll()
        }
    }

    pub open spec fn on_event(self, event: CaptureEvent) -> CaptureStep {
        match (self.stage, event) {
            (CaptureStage::Polling, CaptureEvent::Delivered) => CaptureStep {
                next: CaptureModel { stage: CaptureStage::HandingOff, ..self },
                reply: Ok(CaptureCommand::HandOff),
            },
            (CaptureStage::Polling, CaptureEvent::TimedOut { stop_requested }) => if stop_requested {
                self.exit(ExitCause::StopRequested)
            } else {
                self.poll()
            },
            (CaptureStage::Polling, CaptureEvent::Disconnected) => self.exit(
                ExitCause::SourceDisconnected,
            ),
            (CaptureStage::HandingOff, CaptureEvent::HandedOff) => self.handed_off(),
            (CaptureStage::HandingOff, CaptureEvent::ConsumerGone) => self.exit(
                ExitCause::ConsumerGone,
            ),
            _ => self.refuse(),
        }
    }
}

/// The capture loop: a counter, a target and a stage.
#[derive(Debug)]
pub struct CaptureLoop {
    frames_received: u64,
    target: Option<u64>,
    wait_ms: u64,
    stage: CaptureStage,
    cause: Option<ExitCause>,
}

impl View for CaptureLoop {
    type V = CaptureModel;

    closed spec fn view(&self) -> CaptureModel {
        CaptureModel {
            frames_received: self.frames_received as nat,
            target: self.target,
            wait_ms: self.wait_ms,
            stage: self.stage,
            cause: self.cause,
        }
    }
}

impl CaptureLoop {
    /// Holds of every loop.
    #[verifier::type_invariant]
    pub open spec fn inv(&self) -> bool {
        self@.wf()
    }

    /// A loop that leaves after `target` frames, if a target is given, and
    /// waits `wait_ms` milliseconds for the source each time.
    pub fn new(target: Option<u64>, wait_ms: u64) -> (made: CaptureLoop)
        ensures
            made@ == CaptureModel::started(target, wait_ms),
    {
        CaptureLoop {
            frames_received: 0,
            target,
            wait_ms,
            stage: CaptureStage::Polling,
            cause: None,
        }
    }

    /// The command with which the loop begins, and to which it returns
    /// while it polls.
    pub fn first_command(&self) -> (command: CaptureCommand)
        ensures
            command == (CaptureCommand::Poll { wait_ms: self@.wait_ms }),
    {
        CaptureCommand::Poll { wait_ms: self.wait_ms }
    }

    /// Takes what the source or the channel reported and answers with the
    /// next command.
    pub fn on_event(&mut self, event: CaptureEvent) -> (reply: Result<
        CaptureCommand,
        RecorderError,
    >)
        ensures
            final(self)@ == old(self)@.on_event(event).next,
            reply == old(self)@.on_event(event).reply,
    {
        proof {
            use_type_invariant(&*self);
        }
        match (self.stage, event) {
            (CaptureStage::Polling, CaptureEvent::Delivered) => {
                *self = CaptureLoop { stage: CaptureStage::HandingOff, ..*self };
                Ok(CaptureCommand::HandOff)
            },
            (CaptureStage::Polling, CaptureEvent::TimedOut { stop_requested }) => {
                if stop_requested {
                    Ok(self.exit(ExitCause::StopRequested))
                } else {
                    Ok(CaptureCommand::Poll { wait_ms: self.wait_ms })
                }
            },
            (CaptureStage::Polling, CaptureEvent::Disconnected) => Ok(
                self.exit(ExitCause::SourceDisconnected),
            ),
            (CaptureStage::HandingOff, CaptureEvent::HandedOff) => {
                let count: u64 = self.frames_received + 1;
                let met = count == MAX_FRAMES || match self.target {
                    Some(target) => count >= target,
                    None => false,
                };
                if met {
                    *self = CaptureLoop {
                        frames_received: count,
                        stage: CaptureStage::Exited,
                        cause: Some(ExitCause::TargetReached),
                        ..*self
                    };
                    Ok(CaptureCommand::Exit { raise_stop: true })
                } else {
                    *self = CaptureLoop {
                        frames_received: count,
                        stage: CaptureStage::Polling,
                        ..*self
                    };
                    Ok(CaptureCommand::Poll { wait_ms: self.wait_ms })
                }
            },
            (CaptureStage::HandingOff, CaptureEvent::ConsumerGone) => Ok(
                self.exit(ExitCause::ConsumerGone),
            ),
            _ => Err(RecorderError::InvalidState),
        }
    }

    fn exit(&mut self, cause: ExitCause) -> (command: CaptureCommand)
        requires
            !(old(self).stage is Exited),
            !(cause is TargetReached),
        ensures
            final(self)@ == old(self)@.exit(cause).next,
            Ok::<CaptureCommand, RecorderError>(command) == old(self)@.exit(cause).reply,
    {
        proof {
            use_type_invariant(&*self);
        }
        *self = CaptureLoop { stage: CaptureStage::Exited, cause: Some(cause), ..*self };
        CaptureCommand::Exit { raise_stop: false }
    }

    /// Frames handed to the channel so far.
    pub fn frames_received(&self) -> (count: u64)
        ensures
            count == self@.frames_received,
    {
        self.frames_received
    }

    /// Where the loop stands.
    pub fn stage(&self) -> (stage: CaptureStage)
        ensures
            stage == self@.stage,
    {
        self.stage
    }

    /// Why the loop ended, once it has.
    pub fn cause(&self) -> (cause: Option<ExitCause>)
        ensures
            cause == self@.cause,
    {
        self.cause
    }

    /// The error that the loop ended in, if it ended in one.
    pub fn error(&self) -> (error: Option<RecorderError>)
        ensures
            error == (match self@.cause {
                Some(cause) => cause_error(cause),
                None => None,
            }),
    {
        match self.cause {
            Some(ExitCause::ConsumerGone) => Some(RecorderError::ChannelClosed),
            Some(ExitCause::SourceDisconnected) => Some(RecorderError::SourceDisconnected),
            _ => None,
        }
    }
}

/// Every transition keeps the loop well formed.
pub proof fn lemma_capture_steps_keep_wf(m: CaptureModel, event: CaptureEvent)
    requires
        m.wf(),
    ensures
        m.on_event(event).next.wf(),
{
}

/// The counter moves only when the channel has taken a frame, and then by
/// exactly one.
pub proof fn theorem_counts_hand_offs(m: CaptureModel, event: CaptureEvent)
    requires
        m.wf(),
    ensures
        m.on_event(event).next.frames_received == m.frames_received + (if m.stage is HandingOff
            && event is HandedOff {
            1nat
        } else {
            0nat
        }),
{
}

/// A loop with a target leaves as soon as the target is reached, setting
/// the stop flag, and never counts beyond a target that it started below.
pub proof fn theorem_target_ends_loop(m: CaptureModel, target: u64)
    requires
        m.wf(),
        m.target == Some(target),
        m.stage is HandingOff,
    ensures
        m.frames_received + 1 >= target ==> m.on_event(CaptureEvent::HandedOff).reply == Ok::<
            CaptureCommand,
            RecorderError,
        >(CaptureCommand::Exit { raise_stop: true }),
        m.frames_received + 1 < target ==> m.on_event(CaptureEvent::HandedOff).reply == Ok::<
            CaptureCommand,
            RecorderError,
        >(CaptureCommand::Poll { wait_ms: m.wait_ms }),
        m.frames_received < target ==> m.on_event(CaptureEvent::HandedOff).next.frames_received
            <= target,
{
}

/// A time-out ends the loop exactly when the stop flag is set; a lost source
/// or consumer ends it at once. None of these sets the stop flag.
pub proof fn theorem_stop_is_cooperative(m: CaptureModel, stop_requested: bool)
    requires
        m.wf(),
    ensures
        m.stage is Polling ==> (m.on_event(CaptureEvent::TimedOut { stop_requested }).next.stage
            is Exited) == stop_requested,
        m.stage is Polling ==> m.on_event(CaptureEvent::Disconnected).reply == Ok::<
            CaptureCommand,
            RecorderError,
        >(CaptureCommand::Exit { raise_stop: false }),
        m.stage is HandingOff ==> m.on_event(CaptureEvent::ConsumerGone).reply == Ok::<
            CaptureCommand,
            RecorderError,
        >(CaptureCommand::Exit { raise_stop: false }),
        m.stage is HandingOff ==> m.on_event(CaptureEvent::ConsumerGone).next.frames_received
            == m.frames_received,
{
}

/// A loop that has ended stays as it is.
pub proof fn theorem_exit_is_final(m: CaptureModel, event: CaptureEvent)
    requires
        m.wf(),
        m.stage is Exited,
    ensures
        m.on_event(event) == m.refuse(),
{
}

} // verus!
