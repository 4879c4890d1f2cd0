//! What holds of every encoder, whatever the codec answers.

use vstd::prelude::*;
use crate::command::{Command, Event, Failure};
use crate::encoder::{failure_error, Awaiting, EncoderModel, Phase, MAX_FRAME_COUNT};
use crate::error::RecorderError;
use crate::frame::{packed_len, Frame};

verus! {

/// The state after the codec handed out `packets` packets, each of which was
/// written, and then had none left.
pub open spec fn after_drain(m: EncoderModel, packets: nat) -> EncoderModel
    decreases packets,
{
    if packets == 0 {
        m.on_event(Event::Drained).next
    } else {
        after_drain(
            m.on_event(Event::PacketReady).next.on_event(Event::Done).next,
            (packets - 1) as nat,
        )
    }
}

/// The state after a frame was accepted, taken by the codec, and its
/// `packets` packets were written.
pub open spec fn after_frame(m: EncoderModel, frame: Frame, packets: nat) -> EncoderModel {
    after_drain(m.on_frame(frame).next.on_event(Event::Done).next, packets)
}

/// The state after the first `n` of `frames` went through, the `i`-th
/// yielding `packets[i]` packets.
pub open spec fn after_frames(
    m: EncoderModel,
    frames: Seq<Frame>,
    packets: Seq<nat>,
    n: nat,
) -> EncoderModel
    decreases n,
{
    if n == 0 {
        m
    } else {
        after_frame(
            after_frames(m, frames, packets, (n - 1) as nat),
            frames[n - 1],
            packets[n - 1],
        )
    }
}

/// The state after the stream was ended, the codec flushed `packets`
/// packets, and the trailer was written.
pub open spec fn after_finish(m: EncoderModel, packets: nat) -> EncoderModel {
    after_drain(m.on_finish().next.on_event(Event::Done).next, packets).on_event(
        Event::Done,
    ).next
}

/// Writing one packet is asked for with the stream's index and the codec's
/// time base, and leaves the encoder where it was: waiting for the next
/// packet.
pub proof fn theorem_packet_round_trip(m: EncoderModel)
    requires
        m.wf(),
        m.awaiting is Packet,
    ensures
        m.on_event(Event::PacketReady).reply == Ok::<Command, RecorderError>(
            Command::WritePacket { stream: m.video_stream, time_base: m.time_base() },
        ),
        m.on_event(Event::PacketReady).next.on_event(Event::Done).reply == Ok::<
            Command,
            RecorderError,
        >(Command::ReceivePacket),
        m.on_event(Event::PacketReady).next.on_event(Event::Done).next == m,
{
}

/// However many packets the codec hands out before it runs dry, the outcome
/// is that of running dry at once.
pub proof fn theorem_drain_ignores_packets(m: EncoderModel, packets: nat)
    requires
        m.wf(),
        m.awaiting is Packet,
    ensures
        after_drain(m, packets) == m.on_drained().next,
    decreases packets,
{
    if packets > 0 {
        theorem_packet_round_trip(m);
        theorem_drain_ignores_packets(m, (packets - 1) as nat);
    }
}

/// A frame of the right size, offered to an open and idle encoder whose
/// counter has room, is accepted and stamped with the counter; once the
/// codec has taken it and its packets are written, the counter has grown by
/// exactly one, however many packets there were, and the encoder is ready
/// for the next frame.
pub proof fn theorem_valid_frame_counts_once(m: EncoderModel, frame: Frame, packets: nat)
    requires
        m.wf(),
        m.accepting(),
        m.frame_count < MAX_FRAME_COUNT,
        frame.size_matches(),
    ensures
        m.on_frame(frame).reply == Ok::<Command, RecorderError>(
            Command::SubmitFrame(m.frame_order(frame.width, frame.height)),
        ),
        m.frame_order(frame.width, frame.height).pts == m.frame_count,
        m.on_frame(frame).next.on_event(Event::Done).reply == Ok::<Command, RecorderError>(
            Command::ReceivePacket,
        ),
        after_frame(m, frame, packets).frame_count == m.frame_count + 1,
        after_frame(m, frame, packets) == (EncoderModel {
            phase: Phase::Encoding,
            frame_count: m.frame_count + 1,
            ..m
        }),
        after_frame(m, frame, packets).accepting(),
        after_frame(m, frame, packets).wf(),
{
    let sent = m.on_frame(frame).next.on_event(Event::Done).next;
    theorem_drain_ignores_packets(sent, packets);
}

/// A frame of the wrong size is refused with both lengths, in every state,
/// and nothing changes.
pub proof fn theorem_bad_frame_changes_nothing(m: EncoderModel, frame: Frame)
    requires
        !frame.size_matches(),
    ensures
        m.on_frame(frame).reply == Err::<Command, RecorderError>(
            RecorderError::FrameSizeMismatch {
                expected: packed_len(frame.width, frame.height) as u128,
                actual: frame.raw@.len() as usize,
            },
        ),
        m.on_frame(frame).next == m,
{
}

/// Frames that go through one after another are stamped with consecutive
/// timestamps, in the order in which they were offered.
pub proof fn theorem_timestamps_follow_order(
    m: EncoderModel,
    frames: Seq<Frame>,
    packets: Seq<nat>,
    n: nat,
)
    requires
        m.wf(),
        m.accepting(),
        n <= frames.len(),
        frames.len() == packets.len(),
        m.frame_count + n <= MAX_FRAME_COUNT,
        forall|i: int| 0 <= i < frames.len() ==> (#[trigger] frames[i]).size_matches(),
    ensures
        after_frames(m, frames, packets, n).wf(),
        after_frames(m, frames, packets, n).accepting(),
        after_frames(m, frames, packets, n).frame_count == m.frame_count + n,
        n < frames.len() && m.frame_count + n < MAX_FRAME_COUNT ==> after_frames(
            m,
            frames,
            packets,
            n,
        ).on_frame(frames[n as int]).reply == Ok::<Command, RecorderError>(
            Command::SubmitFrame(
                (EncoderModel { frame_count: m.frame_count + n, ..m }).frame_order(
                    frames[n as int].width,
                    frames[n as int].height,
                ),
            ),
        ),
    decreases n,
{
    if n > 0 {
        let before = (n - 1) as nat;
        theorem_timestamps_follow_order(m, frames, packets, before);
        theorem_valid_frame_counts_once(
            after_frames(m, frames, packets, before),
            frames[n - 1],
            packets[n - 1],
        );
    }
}

/// The counter never goes down, and only the end of a frame's drain moves
/// it; a failure never does.
pub proof fn theorem_counter_moves_only_forward(m: EncoderModel, frame: Frame, event: Event)
    requires
        m.wf(),
    ensures
        m.on_open().next.frame_count == m.frame_count,
        m.on_frame(frame).next.frame_count == m.frame_count,
        m.on_finish().next.frame_count == m.frame_count,
        m.on_event(event).next.frame_count == m.frame_count + (if completes_frame(m, event) {
            1int
        } else {
            0int
        }),
{
}

/// The event ends the drain that follows a frame.
pub open spec fn completes_frame(m: EncoderModel, event: Event) -> bool {
    m.phase is Encoding && m.awaiting is Packet && event is Drained
}

/// A failure of the outstanding command, whichever it is, is answered with
/// an error and never counts a frame. While a frame is in flight the
/// encoder stays open and idle, so that the stream can still be finished;
/// otherwise it closes, without a trailer.
pub proof fn theorem_failure_is_surfaced(m: EncoderModel, failure: Failure)
    requires
        m.wf(),
        !(m.awaiting is Nothing),
    ensures
        m.on_event(Event::Failed(failure)).reply is Err,
        m.on_event(Event::Failed(failure)).reply != Err::<Command, RecorderError>(
            RecorderError::InvalidState,
        ),
        m.on_event(Event::Failed(failure)).next.frame_count == m.frame_count,
        !m.on_event(Event::Failed(failure)).next.trailer_written,
        m.phase is Encoding ==> m.on_event(Event::Failed(failure)).next.accepting(),
        !(m.phase is Encoding) ==> m.on_event(Event::Failed(failure)).next.phase is Closed,
        m.awaiting is Packet ==> m.on_event(Event::Failed(failure)).reply == Err::<
            Command,
            RecorderError,
        >(failure_error(Awaiting::Packet, failure)),
{
}

/// Ending the stream of an open and idle encoder, with a codec and a
/// container that do as asked, closes the container with header and
/// trailer, whether or not any frame was encoded.
pub proof fn theorem_finish_seals(m: EncoderModel, packets: nat)
    requires
        m.wf(),
        m.accepting(),
    ensures
        m.on_finish().reply == Ok::<Command, RecorderError>(Command::SendEof),
        m.on_finish().next.phase is Finishing,
        m.on_finish().next.on_event(Event::Done).reply == Ok::<Command, RecorderError>(
            Command::ReceivePacket,
        ),
        after_drain(m.on_finish().next.on_event(Event::Done).next, packets).awaiting is Trailer,
        after_finish(m, packets).phase is Closed,
        after_finish(m, packets).playable(),
        after_finish(m, packets).frame_count == m.frame_count,
        after_finish(m, packets).wf(),
{
    let flushing = m.on_finish().next.on_event(Event::Done).next;
    theorem_drain_ignores_packets(flushing, packets);
}

/// A closed encoder refuses everything but a frame of the wrong size, which
/// it reports as such, and never changes again.
pub proof fn theorem_closed_is_terminal(m: EncoderModel, frame: Frame, event: Event)
    requires
        m.wf(),
        m.phase is Closed,
    ensures
        m.on_open() == m.refuse(),
        m.on_finish() == m.refuse(),
        m.on_event(event) == m.refuse(),
        m.on_frame(frame).next == m,
        m.on_frame(frame).reply is Err,
{
}

/// An encoder whose header is written closes only out of the finishing
/// phase, and a trailer is written only there.
pub proof fn theorem_closing_goes_through_finishing(m: EncoderModel, frame: Frame, event: Event)
    requires
        m.wf(),
        m.header_written,
        !(m.phase is Closed),
    ensures
        !(m.on_open().next.phase is Closed),
        !(m.on_frame(frame).next.phase is Closed),
        !(m.on_finish().next.phase is Closed),
        m.on_event(event).next.phase is Closed ==> m.phase is Finishing,
        m.on_event(event).next.trailer_written ==> m.phase is Finishing && m.awaiting is Trailer
            && event is Done,
{
}

/// The phases follow one another in the order created, opened, encoding,
/// finishing, closed: no transition goes back.
pub proof fn theorem_phases_advance(m: EncoderModel, frame: Frame, event: Event)
    requires
        m.wf(),
    ensures
        phase_rank(m.on_open().next.phase) >= phase_rank(m.phase),
        phase_rank(m.on_frame(frame).next.phase) >= phase_rank(m.phase),
        phase_rank(m.on_finish().next.phase) >= phase_rank(m.phase),
        phase_rank(m.on_event(event).next.phase) >= phase_rank(m.phase),
{
}

/// The place of a phase in the encoder's life.
pub open spec fn phase_rank(phase: Phase) -> nat {
    match phase {
        Phase::Created => 0,
        Phase::Opened => 1,
        Phase::Encoding => 2,
        Phase::Finishing => 3,
        Phase::Closed => 4,
    }
}

/// The header is written exactly when the opening succeeds, and stays.
pub proof fn theorem_header_stays(m: EncoderModel, frame: Frame, event: Event)
    requires
        m.wf(),
    ensures
        m.on_open().next.header_written == m.header_written,
        m.on_frame(frame).next.header_written == m.header_written,
        m.on_finish().next.header_written == m.header_written,
        m.on_event(event).next.header_written == (m.header_written || (m.awaiting is Open
            && event is Opened)),
{
}

} // verus!
