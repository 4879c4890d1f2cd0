//! The consuming side of the frame channel: frames are encoded in the order
//! received, the first error ends the loop, and the stream is finished
//! whichever way the loop ends.

use vstd::prelude::*;
use crate::command::{Command, Event};
use crate::encoder::{Awaiting, EncoderModel, Phase, VideoEncoder, MAX_FRAME_COUNT};
use crate::error::RecorderError;
use crate::frame::Frame;

verus! {

/// Where the loop stands. It follows from the encoder's state.
#[derive(Clone, Copy, Debug, PartialEq, Eq)]
pub enum LoopStage {
    /// Waiting for the next frame or for the channel to close.
    Receiving,
    /// A frame is with the codec.
    Encoding,
    /// The stream is being finished.
    Finalizing,
    /// The loop has ended.
    Done,
}

/// The next thing to do on the loop's behalf.
#[derive(Clone, Copy, Debug, PartialEq, Eq)]
pub enum LoopCommand {
    /// Wait for the next frame.
    Receive,
    /// Carry out the encoder's command and report its result.
    Perform(Command),
    /// Leave the loop.
    Exit,
}

/// The loop as a mathematical value.
pub struct LoopModel {
    pub encoder: EncoderModel,
    /// The first error met, if any.
    pub error: Option<RecorderError>,
}

/// A transition: the state that follows and the answer given.
pub struct LoopStep {
    pub next: LoopModel,
    pub reply: Result<LoopCommand, RecorderError>,
}

impl LoopModel {
    pub open spec fn stage(self) -> LoopStage {
        if self.encoder.phase is Closed {
            LoopStage::Done
        } else if self.encoder.phase is Finishing {
            LoopStage::Finalizing
        } else if self.encoder.awaiting is Nothing {
            LoopStage::Receiving
        } else {
            LoopStage::Encoding
        }
    }

    /// The states a loop can be in: its encoder has been opened, and an
    /// error has ended the receiving of frames.
    pub open spec fn wf(self) -> bool {
        &&& self.encoder.wf()
        &&& self.encoder.header_written
        &&& self.error is Some ==> self.stage() is Finalizing || self.stage() is Done
    }

    /// The call or event is out of place: nothing changes.
    pub open spec fn refuse(self) -> LoopStep {
        LoopStep { next: self, reply: Err(RecorderError::InvalidState) }
    }

    /// The encoder is told to finish; `error` is what ended the loop.
    pub open spec fn finalize(self, error: Option<RecorderError>) -> LoopStep {
        LoopStep {
            next: LoopModel { encoder: self.encoder.on_finish().next, error },
            reply: Ok(LoopCommand::Perform(Command::SendEof)),
        }
    }

    /// A frame came out of the channel.
    pub open spec fn on_frame(self, frame: Frame) -> LoopStep {
        if self.stage() is Receiving {
            let step = self.encoder.on_frame(frame);
            match step.reply {
                Ok(command) => LoopStep {
                    next: LoopModel { encoder: step.next, ..self },
                    reply: Ok(LoopCommand::Perform(command)),
                },
                Err(error) => self.finalize(Some(error)),
            }
        } else {
            self.refuse()
        }
    }

    /// The channel is empty and has no producer left.
    pub open spec fn on_closed(self) -> LoopStep {
        if self.stage() is Receiving {
            self.finalize(None)
        } else {
            self.refuse()
        }
    }

    /// The result of the command that the loop handed out last.
    pub open spec fn on_event(self, event: Event) -> LoopStep {
        let step = self.encoder.on_event(event);
        let moved = LoopModel { encoder: step.next, ..self };
        match self.stage() {
            LoopStage::Encoding => match step.reply {
                Ok(Command::Idle) => LoopStep { next: moved, reply: Ok(LoopCommand::Receive) },
                Ok(command) => LoopStep { next: moved, reply: Ok(LoopCommand::Perform(command)) },
                Err(RecorderError::InvalidState) => self.refuse(),
                Err(error) => moved.finalize(Some(error)),
            },
            LoopStage::Finalizing => match step.reply {
                Ok(Command::Idle) => LoopStep { next: moved, reply: Ok(LoopCommand::Exit) },
                Ok(command) => LoopStep { next: moved, reply: Ok(LoopCommand::Perform(command)) },
                Err(RecorderError::InvalidState) => self.refuse(),
                Err(error) => LoopStep {
                    next: LoopModel {
                        encoder: step.next,
                        error: if self.error is Some {
                            self.error
                        } else {
                            Some(error)
                        },
                    },
                    reply: Ok(LoopCommand::Exit),
                },
            },
            _ => self.refuse(),
        }
    }
}

/// The encode loop. It owns the encoder for the length of the session.
#[derive(Debug)]
pub struct EncodeLoop {
    encoder: VideoEncoder,
    error: Option<RecorderError>,
}

impl View for EncodeLoop {
    type V = LoopModel;

    closed spec fn view(&self) -> LoopModel {
        LoopModel { encoder: self.encoder@, error: self.error }
    }
}

impl EncodeLoop {
    /// Holds of every loop.
    #[verifier::type_invariant]
    pub open spec fn inv(&self) -> bool {
        self@.wf()
    }

    /// Starts a loop on an encoder that is open and idle; any other encoder
    /// is refused.
    pub fn new(encoder: VideoEncoder) -> (made: Result<EncodeLoop, RecorderError>)
        ensures
            encoder@.accepting() ==> (made matches Ok(started) && started@ == LoopModel {
                encoder: encoder@,
                error: None,
            }),
            !encoder@.accepting() ==> made matches Err(RecorderError::InvalidState),
    {
        proof {
            use_type_invariant(&encoder);
        }
        if encoder.is_accepting() {
            Ok(EncodeLoop { encoder, error: None })
        } else {
            Err(RecorderError::InvalidState)
        }
    }

    /// Takes a frame out of the channel. The encoder's command is passed
    /// on; if the encoder refuses the frame the loop turns to finishing the
    /// stream and keeps the error.
    pub fn on_frame(&mut self, frame: &Frame) -> (reply: Result<LoopCommand, RecorderError>)
        ensures
            final(self)@ == old(self)@.on_frame(*frame).next,
            reply == old(self)@.on_frame(*frame).reply,
    {
        proof {
            use_type_invariant(&*self);
        }
        match self.stage() {
            LoopStage::Receiving => {},
            _ => {
                return Err(RecorderError::InvalidState);
            },
        }
        match self.encoder.encode_frame(frame) {
            Ok(command) => Ok(LoopCommand::Perform(command)),
            Err(error) => self.finalize(Some(error)),
        }
    }

    /// Takes note that the channel is closed and turns to finishing the
    /// stream.
    pub fn on_closed(&mut self) -> (reply: Result<LoopCommand, RecorderError>)
        ensures
            final(self)@ == old(self)@.on_closed().next,
            reply == old(self)@.on_closed().reply,
    {
        match self.stage() {
            LoopStage::Receiving => self.finalize(None),
            _ => Err(RecorderError::InvalidState),
        }
    }

    /// Takes the result of the command handed out last.
    pub fn on_event(&mut self, event: Event) -> (reply: Result<LoopCommand, RecorderError>)
        ensures
            final(self)@ == old(self)@.on_event(event).next,
            reply == old(self)@.on_event(event).reply,
    {
        proof {
            use_type_invariant(&*self);
        }
        match self.stage() {
            LoopStage::Encoding => match self.encoder.advance(event) {
                Ok(Command::Idle) => Ok(LoopCommand::Receive),
                Ok(command) => Ok(LoopCommand::Perform(command)),
                Err(RecorderError::InvalidState) => Err(RecorderError::InvalidState),
                Err(error) => self.finalize(Some(error)),
            },
            LoopStage::Finalizing => match self.encoder.advance(event) {
                Ok(Command::Idle) => Ok(LoopCommand::Exit),
                Ok(command) => Ok(LoopCommand::Perform(command)),
                Err(RecorderError::InvalidState) => Err(RecorderError::InvalidState),
                Err(error) => {
                    if self.error.is_none() {
                        self.error = Some(error);
                    }
                    Ok(LoopCommand::Exit)
                },
            },
            _ => Err(RecorderError::InvalidState),
        }
    }

    fn finalize(&mut self, error: Option<RecorderError>) -> (reply: Result<
        LoopCommand,
        RecorderError,
    >)
        requires
            old(self)@.stage() is Receiving,
        ensures
            final(self)@ == old(self)@.finalize(error).next,
            reply == old(self)@.finalize(error).reply,
    {
        proof {
            use_type_invariant(&*self);
        }
        match self.encoder.finish() {
            Ok(command) => {
                self.error = error;
                Ok(LoopCommand::Perform(command))
            },
            Err(refused) => Err(refused),
        }
    }

    /// Where the loop stands.
    pub fn stage(&self) -> (stage: LoopStage)
        ensures
            stage == self@.stage(),
    {
        match (self.encoder.phase(), self.encoder.awaiting()) {
            (Phase::Closed, _) => LoopStage::Done,
            (Phase::Finishing, _) => LoopStage::Finalizing,
            (_, Awaiting::Nothing) => LoopStage::Receiving,
            _ => LoopStage::Encoding,
        }
    }

    /// The first error met, if any.
    pub fn error(&self) -> (error: Option<RecorderError>)
        ensures
            error == self@.error,
    {
        self.error
    }

    /// Frames that the codec has taken and whose packets are written.
    pub fn frames_encoded(&self) -> (count: u64)
        ensures
            count == self@.encoder.frame_count,
    {
        proof {
            use_type_invariant(self);
        }
        self.encoder.frame_count() as u64
    }

    /// The output holds a header and a trailer.
    pub fn is_playable(&self) -> (playable: bool)
        ensures
            playable == self@.encoder.playable(),
    {
        self.encoder.is_playable()
    }
}

/// The place of a stage in the loop's life; receiving and encoding alternate.
pub open spec fn stage_rank(stage: LoopStage) -> nat {
    match stage {
        LoopStage::Receiving => 0,
        LoopStage::Encoding => 0,
        LoopStage::Finalizing => 1,
        LoopStage::Done => 2,
    }
}

/// The loop after the codec handed out `packets` packets, each of which was
/// written, and then had none left.
pub open spec fn loop_after_drain(m: LoopModel, packets: nat) -> LoopModel
    decreases packets,
{
    if packets == 0 {
        m.on_event(Event::Drained).next
    } else {
        loop_after_drain(
            m.on_event(Event::PacketReady).next.on_event(Event::Done).next,
            (packets - 1) as nat,
        )
    }
}

/// Every transition keeps the loop well formed.
pub proof fn lemma_loop_steps_keep_wf(m: LoopModel, frame: Frame, event: Event)
    requires
        m.wf(),
    ensures
        m.on_frame(frame).next.wf(),
        m.on_closed().next.wf(),
        m.on_event(event).next.wf(),
{
}

/// A loop that is waiting for a frame when the channel closes turns to
/// finishing the stream at once, with no error.
pub proof fn theorem_closure_starts_finalizing(m: LoopModel)
    requires
        m.wf(),
        m.stage() is Receiving,
    ensures
        m.on_closed().reply == Ok::<LoopCommand, RecorderError>(
            LoopCommand::Perform(Command::SendEof),
        ),
        m.on_closed().next.stage() is Finalizing,
        m.on_closed().next.error is None,
        m.on_closed().next.encoder.frame_count == m.encoder.frame_count,
{
}

/// A frame that the encoder refuses ends the receiving of frames: the loop
/// keeps the error, counts nothing, and turns to finishing the stream.
pub proof fn theorem_refused_frame_ends_loop(m: LoopModel, frame: Frame)
    requires
        m.wf(),
        m.stage() is Receiving,
        m.encoder.on_frame(frame).reply is Err,
    ensures
        m.on_frame(frame).reply == Ok::<LoopCommand, RecorderError>(
            LoopCommand::Perform(Command::SendEof),
        ),
        m.on_frame(frame).next.stage() is Finalizing,
        m.on_frame(frame).next.error == Some(m.encoder.on_frame(frame).reply->Err_0),
        m.on_frame(frame).next.encoder.frame_count == m.encoder.frame_count,
{
}

/// A failure while a frame is with the codec ends the receiving of frames in
/// the same way: the frame does not count and the stream is finished.
pub proof fn theorem_failure_ends_loop(m: LoopModel, event: Event)
    requires
        m.wf(),
        m.stage() is Encoding,
        m.encoder.on_event(event).reply is Err,
        m.encoder.on_event(event).reply != Err::<Command, RecorderError>(
            RecorderError::InvalidState,
        ),
    ensures
        m.on_event(event).reply == Ok::<LoopCommand, RecorderError>(
            LoopCommand::Perform(Command::SendEof),
        ),
        m.on_event(event).next.stage() is Finalizing,
        m.on_event(event).next.error == Some(m.encoder.on_event(event).reply->Err_0),
        m.on_event(event).next.encoder.frame_count == m.encoder.frame_count,
{
}

/// Once an error is kept, no further frame is taken.
pub proof fn theorem_no_frame_after_error(m: LoopModel, frame: Frame)
    requires
        m.wf(),
        m.error is Some,
    ensures
        m.on_frame(frame) == m.refuse(),
{
}

/// The loop never goes back: it ends only out of finalizing, and finalizing
/// is entered once. The first error is never replaced.
pub proof fn theorem_loop_ends_through_finalizing(m: LoopModel, frame: Frame, event: Event)
    requires
        m.wf(),
    ensures
        stage_rank(m.on_frame(frame).next.stage()) >= stage_rank(m.stage()),
        stage_rank(m.on_closed().next.stage()) >= stage_rank(m.stage()),
        stage_rank(m.on_event(event).next.stage()) >= stage_rank(m.stage()),
        !(m.on_frame(frame).next.stage() is Done) || m.stage() is Done,
        !(m.on_closed().next.stage() is Done) || m.stage() is Done,
        m.on_event(event).next.stage() is Done ==> m.stage() is Finalizing || m.stage() is Done,
        m.error is Some ==> m.on_frame(frame).next.error == m.error && m.on_closed().next.error
            == m.error && m.on_event(event).next.error == m.error,
{
}

/// However many packets the codec hands out before it runs dry, the outcome
/// is that of running dry at once.
pub proof fn theorem_loop_drain_ignores_packets(m: LoopModel, packets: nat)
    requires
        m.wf(),
        m.encoder.awaiting is Packet,
    ensures
        loop_after_drain(m, packets) == m.on_event(Event::Drained).next,
    decreases packets,
{
    if packets > 0 {
        assert(m.on_event(Event::PacketReady).next.on_event(Event::Done).next == m);
        theorem_loop_drain_ignores_packets(m, (packets - 1) as nat);
    }
}

/// A frame of the right size taken while receiving, with a codec and a
/// container that do as asked, counts once and leaves the loop receiving.
pub proof fn theorem_loop_counts_frame(m: LoopModel, frame: Frame, packets: nat)
    requires
        m.wf(),
        m.stage() is Receiving,
        m.encoder.frame_count < MAX_FRAME_COUNT,
        frame.size_matches(),
    ensures
        m.on_frame(frame).reply == Ok::<LoopCommand, RecorderError>(
            LoopCommand::Perform(
                Command::SubmitFrame(m.encoder.frame_order(frame.width, frame.height)),
            ),
        ),
        m.on_frame(frame).next.on_event(Event::Done).reply == Ok::<LoopCommand, RecorderError>(
            LoopCommand::Perform(Command::ReceivePacket),
        ),
        loop_after_drain(m.on_frame(frame).next.on_event(Event::Done).next, packets).stage()
            is Receiving,
        loop_after_drain(
            m.on_frame(frame).next.on_event(Event::Done).next,
            packets,
        ).encoder.frame_count == m.encoder.frame_count + 1,
        loop_after_drain(m.on_frame(frame).next.on_event(Event::Done).next, packets).error
            == m.error,
        loop_after_drain(m.on_frame(frame).next.on_event(Event::Done).next, packets).wf(),
{
    theorem_loop_drain_ignores_packets(
        m.on_frame(frame).next.on_event(Event::Done).next,
        packets,
    );
}

/// A loop whose channel closes, with a codec and a container that do as
/// asked, ends with a container that holds header and trailer, and with no
/// error, whether or not any frame was encoded.
pub proof fn theorem_clean_closure_seals(m: LoopModel, packets: nat)
    requires
        m.wf(),
        m.stage() is Receiving,
    ensures
        ({
            let flushed = loop_after_drain(
                m.on_closed().next.on_event(Event::Done).next,
                packets,
            );
            let ended = flushed.on_event(Event::Done);
            &&& ended.reply == Ok::<LoopCommand, RecorderError>(LoopCommand::Exit)
            &&& ended.next.stage() is Done
            &&& ended.next.encoder.playable()
            &&& ended.next.error is None
            &&& ended.next.encoder.frame_count == m.encoder.frame_count
        }),
{
    theorem_loop_drain_ignores_packets(m.on_closed().next.on_event(Event::Done).next, packets);
}

/// A loop that ends after an error, with a codec and a container that do
/// as asked from then on, still ends with header and trailer in place.
pub proof fn theorem_error_still_seals(m: LoopModel, frame: Frame, packets: nat)
    requires
        m.wf(),
        m.stage() is Receiving,
        m.encoder.on_frame(frame).reply is Err,
    ensures
        ({
            let flushed = loop_after_drain(
                m.on_frame(frame).next.on_event(Event::Done).next,
                packets,
            );
            let ended = flushed.on_event(Event::Done);
            &&& ended.reply == Ok::<LoopCommand, RecorderError>(LoopCommand::Exit)
            &&& ended.next.encoder.playable()
            &&& ended.next.error == Some(m.encoder.on_frame(frame).reply->Err_0)
        }),
{
    theorem_loop_drain_ignores_packets(
        m.on_frame(frame).next.on_event(Event::Done).next,
        packets,
    );
}

} // verus!
