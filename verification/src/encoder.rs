//! The video encoder's lifecycle: which command follows which event, when a
//! frame counts, and when the container is closed.

use vstd::prelude::*;
use crate::command::{
    Command, Event, Failure, FrameOrder, OpenOrder, PixelLayout, ScalingFilter, SpeedPreset,
    TimeBase, VideoCodec,
};
use crate::error::RecorderError;
use crate::frame::Frame;

verus! {

/// The largest width, height or frame rate: the codec takes these as signed
/// 32-bit numbers.
pub const MAX_SETTING: u32 = 0x7fff_ffff;

/// The quality target handed to the codec.
pub const RATE_FACTOR: u8 = 23;

/// The largest value of the frame counter.
pub const MAX_FRAME_COUNT: i64 = 0x7fff_ffff_ffff_ffff;

/// A width, height or frame rate that the codec can take.
pub open spec fn valid_setting(value: u32) -> bool {
    0 < value <= MAX_SETTING
}

/// The five phases of an encoder's life.
#[derive(Clone, Copy, Debug, PartialEq, Eq)]
pub enum Phase {
    /// Configured; nothing has been opened.
    Created,
    /// The header is written and no frame has been accepted.
    Opened,
    /// At least one frame has been accepted.
    Encoding,
    /// The end of the stream has been announced; the codec is being flushed.
    Finishing,
    /// Terminal.
    Closed,
}

/// The command whose result the encoder is waiting for.
#[derive(Clone, Copy, Debug, PartialEq, Eq)]
pub enum Awaiting {
    Nothing,
    Open,
    Submit,
    Packet,
    Write,
    Eof,
    Trailer,
}

/// The error that a failure amounts to while `awaiting` is outstanding.
pub open spec fn failure_error(awaiting: Awaiting, failure: Failure) -> RecorderError {
    match failure {
        Failure::Container => RecorderError::IoError,
        Failure::Codec => if awaiting is Open {
            RecorderError::ConfigError
        } else {
            RecorderError::SubmissionFailed
        },
    }
}

/// The encoder as a mathematical value.
pub struct EncoderModel {
    pub width: u32,
    pub height: u32,
    pub fps: u32,
    pub phase: Phase,
    pub awaiting: Awaiting,
    pub video_stream: usize,
    /// Frames that the codec has taken and whose packets are written.
    pub frame_count: int,
    pub header_written: bool,
    pub trailer_written: bool,
}

/// A transition: the state that follows and the answer given.
pub struct Step {
    pub next: EncoderModel,
    pub reply: Result<Command, RecorderError>,
}

impl EncoderModel {
    /// The states an encoder can be in.
    pub open spec fn wf(self) -> bool {
        &&& valid_setting(self.width)
        &&& valid_setting(self.height)
        &&& valid_setting(self.fps)
        &&& 0 <= self.frame_count <= MAX_FRAME_COUNT
        &&& self.trailer_written ==> self.header_written && self.phase is Closed
        &&& match self.phase {
            Phase::Created => {
                &&& self.awaiting is Nothing || self.awaiting is Open
                &&& !self.header_written
                &&& self.frame_count == 0
            },
            Phase::Opened => {
                &&& self.awaiting is Nothing
                &&& self.header_written
                &&& self.frame_count == 0
            },
            Phase::Encoding => {
                &&& self.awaiting is Nothing || self.awaiting is Submit || self.awaiting is Packet
                    || self.awaiting is Write
                &&& self.header_written
                &&& !(self.awaiting is Nothing) ==> self.frame_count < MAX_FRAME_COUNT
            },
            Phase::Finishing => {
                &&& self.awaiting is Eof || self.awaiting is Packet || self.awaiting is Write
                    || self.awaiting is Trailer
                &&& self.header_written
            },
            Phase::Closed => self.awaiting is Nothing,
        }
    }

    /// The state of an encoder that has just been configured.
    pub open spec fn created(width: u32, height: u32, fps: u32) -> EncoderModel {
        EncoderModel {
            width,
            height,
            fps,
            phase: Phase::Created,
            awaiting: Awaiting::Nothing,
            video_stream: 0,
            frame_count: 0,
            header_written: false,
            trailer_written: false,
        }
    }

    /// The output is open and no command is outstanding.
    pub open spec fn accepting(self) -> bool {
        (self.phase is Opened || self.phase is Encoding) && self.awaiting is Nothing
    }

    /// The output holds a header and a trailer.
    pub open spec fn playable(self) -> bool {
        self.header_written && self.trailer_written
    }

    /// The codec's time base: one tick per frame.
    pub open spec fn time_base(self) -> TimeBase {
        TimeBase { num: 1, den: self.fps as i32 }
    }

    /// How the codec and container are to be opened.
    pub open spec fn open_order(self) -> OpenOrder {
        OpenOrder {
            codec: VideoCodec::H264,
            width: self.width,
            height: self.height,
            layout: PixelLayout::Yuv420p,
            time_base: self.time_base(),
            preset: SpeedPreset::Fast,
            rate_factor: RATE_FACTOR,
        }
    }

    /// How a frame of the given dimensions is to be submitted next.
    pub open spec fn frame_order(self, width: u32, height: u32) -> FrameOrder {
        FrameOrder {
            pts: self.frame_count as i64,
            width,
            height,
            source: PixelLayout::Bgra,
            target: PixelLayout::Yuv420p,
            filter: ScalingFilter::Bilinear,
        }
    }

    /// The call or event is out of place: nothing changes.
    pub open spec fn refuse(self) -> Step {
        Step { next: self, reply: Err(RecorderError::InvalidState) }
    }

    /// The encoder stops waiting and fails with `error`.
    pub open spec fn fail(self, error: RecorderError) -> Step {
        Step { next: EncoderModel { awaiting: Awaiting::Nothing, ..self }, reply: Err(error) }
    }

    /// The encoder closes without a trailer and fails with `error`.
    pub open spec fn abort(self, error: RecorderError) -> Step {
        Step {
            next: EncoderModel { phase: Phase::Closed, awaiting: Awaiting::Nothing, ..self },
            reply: Err(error),
        }
    }

    /// The encoder waits for the result of `command`.
    pub open spec fn wait(self, awaiting: Awaiting, command: Command) -> Step {
        Step { next: EncoderModel { awaiting, ..self }, reply: Ok(command) }
    }

    /// A request to open the output.
    pub open spec fn on_open(self) -> Step {
        if self.phase is Created && self.awaiting is Nothing {
            self.wait(Awaiting::Open, Command::Open(self.open_order()))
        } else {
            self.refuse()
        }
    }

    /// A frame offered for encoding. Its size is checked before anything
    /// else; it is stamped with the current frame count.
    pub open spec fn on_frame(self, frame: Frame) -> Step {
        if !frame.size_matches() {
            Step { next: self, reply: Err(frame.size_check()->Err_0) }
        } else if self.accepting() && self.frame_count < MAX_FRAME_COUNT {
            EncoderModel { phase: Phase::Encoding, ..self }.wait(
                Awaiting::Submit,
                Command::SubmitFrame(self.frame_order(frame.width, frame.height)),
            )
        } else {
            self.refuse()
        }
    }

    /// A request to end the stream.
    pub open spec fn on_finish(self) -> Step {
        if self.accepting() {
            EncoderModel { phase: Phase::Finishing, ..self }.wait(Awaiting::Eof, Command::SendEof)
        } else {
            self.refuse()
        }
    }

    /// The codec has handed out all it had: a frame in flight now counts,
    /// and a stream that is being finished gets its trailer.
    pub open spec fn on_drained(self) -> Step {
        if self.phase is Finishing {
            self.wait(Awaiting::Trailer, Command::WriteTrailer)
        } else {
            EncoderModel { frame_count: self.frame_count + 1, ..self }.wait(
                Awaiting::Nothing,
                Command::Idle,
            )
        }
    }

    /// A failure is answered with its error, whichever command it befell.
    /// While a frame is in flight the frame does not count and the encoder
    /// stays open, so that the stream can still be finished; while the
    /// stream is being opened or finished the encoder closes.
    pub open spec fn on_failure(self, failure: Failure) -> Step {
        let error = failure_error(self.awaiting, failure);
        if self.phase is Encoding {
            self.fail(error)
        } else {
            self.abort(error)
        }
    }

    /// The result of the outstanding command.
    pub open spec fn on_event(self, event: Event) -> Step {
        match (self.awaiting, event) {
            (Awaiting::Open, Event::Opened { stream }) => EncoderModel {
                phase: Phase::Opened,
                video_stream: stream,
                header_written: true,
                ..self
            }.wait(Awaiting::Nothing, Command::Idle),
            (Awaiting::Open, Event::CodecNotFound) => self.abort(RecorderError::CodecUnavailable),
            (Awaiting::Open, Event::Failed(failure)) => self.on_failure(failure),
            (Awaiting::Submit, Event::Done) => self.wait(Awaiting::Packet, Command::ReceivePacket),
            (Awaiting::Submit, Event::Failed(failure)) => self.on_failure(failure),
            (Awaiting::Packet, Event::PacketReady) => self.wait(
                Awaiting::Write,
                Command::WritePacket { stream: self.video_stream, time_base: self.time_base() },
            ),
            (Awaiting::Packet, Event::Drained) => self.on_drained(),
            (Awaiting::Packet, Event::Failed(failure)) => self.on_failure(failure),
            (Awaiting::Write, Event::Done) => self.wait(Awaiting::Packet, Command::ReceivePacket),
            (Awaiting::Write, Event::Failed(_)) => self.on_failure(Failure::Container),
            (Awaiting::Eof, Event::Done) => self.wait(Awaiting::Packet, Command::ReceivePacket),
            (Awaiting::Eof, Event::Failed(failure)) => self.on_failure(failure),
            (Awaiting::Trailer, Event::Done) => Step {
                next: EncoderModel {
                    phase: Phase::Closed,
                    awaiting: Awaiting::Nothing,
                    trailer_written: true,
                    ..self
                },
                reply: Ok(Command::Idle),
            },
            (Awaiting::Trailer, Event::Failed(_)) => self.on_failure(Failure::Container),
            _ => self.refuse(),
        }
    }
}

/// The encoder: a frame counter and a lifecycle. It performs nothing itself.
/// Each call answers with the command to carry out next, and `advance`
/// takes the result of that command.
#[derive(Debug)]
pub struct VideoEncoder {
    width: u32,
    height: u32,
    fps: u32,
    video_stream: usize,
    frame_count: i64,
    phase: Phase,
    awaiting: Awaiting,
    header_written: bool,
    trailer_written: bool,
}

impl View for VideoEncoder {
    type V = EncoderModel;

    closed spec fn view(&self) -> EncoderModel {
        EncoderModel {
            width: self.width,
            height: self.height,
            fps: self.fps,
            phase: self.phase,
            awaiting: self.awaiting,
            video_stream: self.video_stream,
            frame_count: self.frame_count as int,
            header_written: self.header_written,
            trailer_written: self.trailer_written,
        }
    }
}

impl VideoEncoder {
    /// Holds of every encoder.
    #[verifier::type_invariant]
    pub open spec fn inv(&self) -> bool {
        self@.wf()
    }

    /// Configures an encoder. Width, height and frame rate must each be
    /// positive and fit a signed 32-bit number.
    pub fn new(width: u32, height: u32, fps: u32) -> (made: Result<VideoEncoder, RecorderError>)
        ensures
            valid_setting(width) && valid_setting(height) && valid_setting(fps) ==> (made matches Ok(
                encoder,
            ) && encoder@ == EncoderModel::created(width, height, fps)),
            !(valid_setting(width) && valid_setting(height) && valid_setting(fps)) ==> made
                matches Err(RecorderError::ConfigError),
    {
        if width == 0 || height == 0 || fps == 0 || width > MAX_SETTING || height > MAX_SETTING
            || fps > MAX_SETTING {
            return Err(RecorderError::ConfigError);
        }
        Ok(
            VideoEncoder {
                width,
                height,
                fps,
                video_stream: 0,
                frame_count: 0,
                phase: Phase::Created,
                awaiting: Awaiting::Nothing,
                header_written: false,
                trailer_written: false,
            },
        )
    }

    /// Asks for the output to be opened.
    pub fn open(&mut self) -> (reply: Result<Command, RecorderError>)
        ensures
            final(self)@ == old(self)@.on_open().next,
            reply == old(self)@.on_open().reply,
        no_unwind
    {
        proof {
            use_type_invariant(&*self);
        }
        match (self.phase, self.awaiting) {
            (Phase::Created, Awaiting::Nothing) => {
                let order = self.open_order();
                *self = VideoEncoder {
                    awaiting: Awaiting::Open,
                    ..*self
                };
                Ok(Command::Open(order))
            },
            _ => Err(RecorderError::InvalidState),
        }
    }

    /// Offers a frame. A frame of the wrong size is refused whatever the
    /// encoder's state, and changes nothing. Otherwise the frame is stamped
    /// with the current count; it counts once its packets are written.
    pub fn encode_frame(&mut self, frame: &Frame) -> (reply: Result<Command, RecorderError>)
        ensures
            final(self)@ == old(self)@.on_frame(*frame).next,
            reply == old(self)@.on_frame(*frame).reply,
        no_unwind
    {
        proof {
            use_type_invariant(&*self);
        }
        match frame.check_size() {
            Err(e) => {
                return Err(e);
            },
            Ok(()) => {},
        }
        if self.is_accepting() && self.frame_count < MAX_FRAME_COUNT {
            let order = FrameOrder {
                pts: self.frame_count,
                width: frame.width,
                height: frame.height,
                source: PixelLayout::Bgra,
                target: PixelLayout::Yuv420p,
                filter: ScalingFilter::Bilinear,
            };
            *self = VideoEncoder {
                phase: Phase::Encoding,
                awaiting: Awaiting::Submit,
                ..*self
            };
            Ok(Command::SubmitFrame(order))
        } else {
            Err(RecorderError::InvalidState)
        }
    }

    /// Asks for the stream to be ended and the container closed.
    pub fn finish(&mut self) -> (reply: Result<Command, RecorderError>)
        ensures
            final(self)@ == old(self)@.on_finish().next,
            reply == old(self)@.on_finish().reply,
        no_unwind
    {
        proof {
            use_type_invariant(&*self);
        }
        if self.is_accepting() {
            *self = VideoEncoder {
                phase: Phase::Finishing,
                awaiting: Awaiting::Eof,
                ..*self
            };
            Ok(Command::SendEof)
        } else {
            Err(RecorderError::InvalidState)
        }
    }

    /// Takes the result of the outstanding command and answers with the
    /// next one, `Idle` when the operation is complete, or the error that
    /// ends it.
    pub fn advance(&mut self, event: Event) -> (reply: Result<Command, RecorderError>)
        ensures
            final(self)@ == old(self)@.on_event(event).next,
            reply == old(self)@.on_event(event).reply,
        no_unwind
    {
        proof {
            use_type_invariant(&*self);
        }
        match (self.awaiting, event) {
            (Awaiting::Open, Event::Opened { stream }) => {
                *self = VideoEncoder {
                    phase: Phase::Opened,
                    awaiting: Awaiting::Nothing,
                    video_stream: stream,
                    header_written: true,
                    ..*self
                };
                Ok(Command::Idle)
            },
            (Awaiting::Open, Event::CodecNotFound) => {
                *self = VideoEncoder {
                    phase: Phase::Closed,
                    awaiting: Awaiting::Nothing,
                    ..*self
                };
                Err(RecorderError::CodecUnavailable)
            },
            (Awaiting::Open, Event::Failed(failure)) => self.failed(failure),
            (Awaiting::Submit, Event::Done) => {
                *self = VideoEncoder {
                    awaiting: Awaiting::Packet,
                    ..*self
                };
                Ok(Command::ReceivePacket)
            },
            (Awaiting::Submit, Event::Failed(failure)) => self.failed(failure),
            (Awaiting::Packet, Event::PacketReady) => {
                let time_base = self.time_base();
                *self = VideoEncoder {
                    awaiting: Awaiting::Write,
                    ..*self
                };
                Ok(Command::WritePacket { stream: self.video_stream, time_base })
            },
            (Awaiting::Packet, Event::Drained) => Ok(self.drained()),
            (Awaiting::Packet, Event::Failed(failure)) => self.failed(failure),
            (Awaiting::Write, Event::Done) => {
                *self = VideoEncoder {
                    awaiting: Awaiting::Packet,
                    ..*self
                };
                Ok(Command::ReceivePacket)
            },
            (Awaiting::Write, Event::Failed(_)) => self.failed(Failure::Container),
            (Awaiting::Eof, Event::Done) => {
                *self = VideoEncoder {
                    awaiting: Awaiting::Packet,
                    ..*self
                };
                Ok(Command::ReceivePacket)
            },
            (Awaiting::Eof, Event::Failed(failure)) => self.failed(failure),
            (Awaiting::Trailer, Event::Done) => {
                *self = VideoEncoder {
                    phase: Phase::Closed,
                    awaiting: Awaiting::Nothing,
                    trailer_written: true,
                    ..*self
                };
                Ok(Command::Idle)
            },
            (Awaiting::Trailer, Event::Failed(_)) => self.failed(Failure::Container),
            _ => Err(RecorderError::InvalidState),
        }
    }

    fn drained(&mut self) -> (command: Command)
        requires
            old(self).awaiting is Packet,
        ensures
            final(self)@ == old(self)@.on_drained().next,
            Ok::<Command, RecorderError>(command) == old(self)@.on_drained().reply,
        no_unwind
    {
        proof {
            use_type_invariant(&*self);
        }
        match self.phase {
            Phase::Finishing => {
                *self = VideoEncoder {
                    awaiting: Awaiting::Trailer,
                    ..*self
                };
                Command::WriteTrailer
            },
            _ => {
                *self = VideoEncoder {
                    frame_count: self.frame_count + 1,
                    awaiting: Awaiting::Nothing,
                    ..*self
                };
                Command::Idle
            },
        }
    }

    fn failed(&mut self, failure: Failure) -> (reply: Result<Command, RecorderError>)
        requires
            !(old(self).awaiting is Nothing),
        ensures
            final(self)@ == old(self)@.on_failure(failure).next,
            reply == old(self)@.on_failure(failure).reply,
        no_unwind
    {
        proof {
            use_type_invariant(&*self);
        }
        let error = match failure {
            Failure::Container => RecorderError::IoError,
            Failure::Codec => match self.awaiting {
                Awaiting::Open => RecorderError::ConfigError,
                _ => RecorderError::SubmissionFailed,
            },
        };
        let phase = match self.phase {
            Phase::Encoding => Phase::Encoding,
            _ => Phase::Closed,
        };
        *self = VideoEncoder { phase, awaiting: Awaiting::Nothing, ..*self };
        Err(error)
    }

    /// The output is open and no command is outstanding.
    pub fn is_accepting(&self) -> (accepting: bool)
        ensures
            accepting == self@.accepting(),
        no_unwind
    {
        let open = match self.phase {
            Phase::Opened => true,
            Phase::Encoding => true,
            _ => false,
        };
        let idle = match self.awaiting {
            Awaiting::Nothing => true,
            _ => false,
        };
        open && idle
    }

    /// The settings with which the output is to be opened.
    pub fn open_order(&self) -> (order: OpenOrder)
        ensures
            order == self@.open_order(),
        no_unwind
    {
        OpenOrder {
            codec: VideoCodec::H264,
            width: self.width,
            height: self.height,
            layout: PixelLayout::Yuv420p,
            time_base: self.time_base(),
            preset: SpeedPreset::Fast,
            rate_factor: RATE_FACTOR,
        }
    }

    /// The codec's time base: one tick per frame.
    pub fn time_base(&self) -> (time_base: TimeBase)
        ensures
            time_base == self@.time_base(),
        no_unwind
    {
        proof {
            use_type_invariant(self);
        }
        TimeBase { num: 1, den: self.fps as i32 }
    }

    /// Frames that the codec has taken and whose packets are written. This
    /// is also the timestamp of the next frame.
    pub fn frame_count(&self) -> (count: i64)
        ensures
            count == self@.frame_count,
    {
        self.frame_count
    }

    pub fn phase(&self) -> (phase: Phase)
        ensures
            phase == self@.phase,
    {
        self.phase
    }

    pub fn awaiting(&self) -> (awaiting: Awaiting)
        ensures
            awaiting == self@.awaiting,
    {
        self.awaiting
    }

    pub fn width(&self) -> (width: u32)
        ensures
            width == self@.width,
    {
        self.width
    }

    pub fn height(&self) -> (height: u32)
        ensures
            height == self@.height,
    {
        self.height
    }

    pub fn fps(&self) -> (fps: u32)
        ensures
            fps == self@.fps,
    {
        self.fps
    }

    /// The index of the video stream, as the container reported it.
    pub fn video_stream(&self) -> (stream: usize)
        ensures
            stream == self@.video_stream,
    {
        self.video_stream
    }

    /// The output holds a header and a trailer.
    pub fn is_playable(&self) -> (playable: bool)
        ensures
            playable == self@.playable(),
    {
        self.header_written && self.trailer_written
    }
}

/// Every transition keeps the encoder well formed.
pub proof fn lemma_steps_keep_wf(m: EncoderModel, frame: Frame, event: Event)
    requires
        m.wf(),
    ensures
        m.on_open().next.wf(),
        m.on_frame(frame).next.wf(),
        m.on_finish().next.wf(),
        m.on_event(event).next.wf(),
{
}

} // verus!
