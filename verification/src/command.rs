//! What the encoder asks of the codec and container, and what it is told
//! in return.

use vstd::prelude::*;

verus! {

/// The unit in which timestamps are counted: `num / den` seconds.
#[derive(Clone, Copy, Debug, PartialEq, Eq)]
pub struct TimeBase {
    pub num: i32,
    pub den: i32,
}

/// The compressed format of the stream.
#[derive(Clone, Copy, Debug, PartialEq, Eq)]
pub enum VideoCodec {
    H264,
}

/// How the bytes of an image are laid out.
#[derive(Clone, Copy, Debug, PartialEq, Eq)]
pub enum PixelLayout {
    /// Packed, four bytes per pixel: blue, green, red, alpha.
    Bgra,
    /// Planar, one luma plane and two chroma planes at half resolution.
    Yuv420p,
}

/// The codec's trade between speed and compression.
#[derive(Clone, Copy, Debug, PartialEq, Eq)]
pub enum SpeedPreset {
    Fast,
}

/// The filter used when an image is converted.
#[derive(Clone, Copy, Debug, PartialEq, Eq)]
pub enum ScalingFilter {
    Bilinear,
}

/// Everything needed to open the codec and the container.
#[derive(Clone, Copy, Debug, PartialEq, Eq)]
pub struct OpenOrder {
    pub codec: VideoCodec,
    pub width: u32,
    pub height: u32,
    pub layout: PixelLayout,
    pub time_base: TimeBase,
    pub preset: SpeedPreset,
    /// Constant rate factor: the quality target.
    pub rate_factor: u8,
}

/// One frame to convert and hand to the codec.
#[derive(Clone, Copy, Debug, PartialEq, Eq)]
pub struct FrameOrder {
    /// Presentation timestamp, in units of the codec's time base.
    pub pts: i64,
    pub width: u32,
    pub height: u32,
    pub source: PixelLayout,
    pub target: PixelLayout,
    pub filter: ScalingFilter,
}

/// The next thing to do on the encoder's behalf.
#[derive(Clone, Copy, Debug, PartialEq, Eq)]
pub enum Command {
    /// Find the codec, create the output with one video stream, open the
    /// codec and write the container's header.
    Open(OpenOrder),
    /// Convert the frame at hand and send it to the codec.
    SubmitFrame(FrameOrder),
    /// Ask the codec for a packet.
    ReceivePacket,
    /// Assign the packet to the stream, rescale its timestamps from
    /// `time_base` to the stream's own, and write it.
    WritePacket { stream: usize, time_base: TimeBase },
    /// Tell the codec that no frame follows.
    SendEof,
    /// Write the container's trailer.
    WriteTrailer,
    /// Nothing is outstanding.
    Idle,
}

/// Which side a failure came from.
#[derive(Clone, Copy, Debug, PartialEq, Eq)]
pub enum Failure {
    /// The codec or the pixel conversion.
    Codec,
    /// The container or the file underneath it.
    Container,
}

/// What became of the last command.
#[derive(Clone, Copy, Debug, PartialEq, Eq)]
pub enum Event {
    /// The output is open and its header written; `stream` is the index of
    /// the video stream.
    Opened { stream: usize },
    /// No codec of the requested kind exists.
    CodecNotFound,
    /// The command was carried out.
    Done,
    /// The codec handed out a packet.
    PacketReady,
    /// The codec has no packet to hand out: it wants more input first, or
    /// the stream has ended. Not a failure.
    Drained,
    /// The command failed. A receive that fails for any reason other than
    /// the two named under `Drained` is reported so.
    Failed(Failure),
}

} // verus!
