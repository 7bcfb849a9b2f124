//! Video frames and the bookkeeping of the video decoder.
//!
//! The decoder itself belongs to the program around the library: it hands in what
//! came of each step and is told what to do next.
use vstd::prelude::*;

verus! {

/// Bytes per pixel of BGRA data.
pub const BYTES_PER_PIXEL_BGRA: u32 = 4;

/// Why decoding failed.
#[derive(Debug)]
pub enum DecoderError {
    /// The decoder could not be set up.
    InitFailed(String),
    /// There is no decoder for the codec.
    UnsupportedCodec(String),
    /// A frame could not be decoded.
    DecodeFailed(String),
    /// The data are no frame.
    InvalidData(String),
}

/// The view of `DecoderError`.
pub enum DecoderErrorView {
    /// The decoder could not be set up.
    InitFailed(Seq<char>),
    /// There is no decoder for the codec.
    UnsupportedCodec(Seq<char>),
    /// A frame could not be decoded.
    DecodeFailed(Seq<char>),
    /// The data are no frame.
    InvalidData(Seq<char>),
}

impl View for DecoderError {
    type V = DecoderErrorView;

    open spec fn view(&self) -> DecoderErrorView {
        match *self {
            DecoderError::InitFailed(s) => DecoderErrorView::InitFailed(s@),
            DecoderError::UnsupportedCodec(s) => DecoderErrorView::UnsupportedCodec(s@),
            DecoderError::DecodeFailed(s) => DecoderErrorView::DecodeFailed(s@),
            DecoderError::InvalidData(s) => DecoderErrorView::InvalidData(s@),
        }
    }
}

impl DecoderErrorView {
    /// The text of the error.
    pub open spec fn text(self) -> Seq<char> {
        match self {
            DecoderErrorView::InitFailed(s) => "Failed to initialize FFmpeg: "@ + s,
            DecoderErrorView::UnsupportedCodec(s) => "Unsupported codec: "@ + s,
            DecoderErrorView::DecodeFailed(s) => "Decode error: "@ + s,
            DecoderErrorView::InvalidData(s) => "Invalid frame data: "@ + s,
        }
    }
}

impl DecoderError {
    /// The text of the error.
    pub fn message(&self) -> (s: String)
        ensures
            s@ == self@.text(),
    {
        let mut s = String::new();
        match self {
            DecoderError::InitFailed(t) => {
                s.push_str("Failed to initialize FFmpeg: ");
                s.push_str(t.as_str());
            },
            DecoderError::UnsupportedCodec(t) => {
                s.push_str("Unsupported codec: ");
                s.push_str(t.as_str());
            },
            DecoderError::DecodeFailed(t) => {
                s.push_str("Decode error: ");
                s.push_str(t.as_str());
            },
            DecoderError::InvalidData(t) => {
                s.push_str("Invalid frame data: ");
                s.push_str(t.as_str());
            },
        }
        s
    }
}

/// The video codecs.
#[derive(Debug, Clone, Copy, PartialEq, Eq, Structural)]
pub enum VideoCodec {
    /// H.264.
    H264,
    /// H.265.
    H265,
}

impl VideoCodec {
    /// The name of the codec.
    pub open spec fn name(self) -> Seq<char> {
        match self {
            VideoCodec::H264 => "H.264/AVC"@,
            VideoCodec::H265 => "H.265/HEVC"@,
        }
    }

    /// The name of the codec.
    pub fn label(self) -> (s: &'static str)
        ensures
            s@ == self.name(),
    {
        match self {
            VideoCodec::H264 => "H.264/AVC",
            VideoCodec::H265 => "H.265/HEVC",
        }
    }
}

/// The pixels of a frame, or of a part of one.
#[derive(Debug, Clone)]
pub struct DecodedFrame {
    /// The pixels, in BGRA order.
    pub data: Vec<u8>,
    /// Width in pixels.
    pub width: u32,
    /// Height in pixels.
    pub height: u32,
    /// How far right on the desktop the frame stands.
    pub x: u32,
    /// How far down on the desktop the frame stands.
    pub y: u32,
    /// Bytes per row.
    pub stride: u32,
    /// When the frame is due, in microseconds.
    pub timestamp: Option<u64>,
}

/// The view of `DecodedFrame`.
pub struct FrameView {
    /// The pixels, in BGRA order.
    pub data: Seq<u8>,
    /// Width in pixels.
    pub width: u32,
    /// Height in pixels.
    pub height: u32,
    /// How far right on the desktop the frame stands.
    pub x: u32,
    /// How far down on the desktop the frame stands.
    pub y: u32,
    /// Bytes per row.
    pub stride: u32,
    /// When the frame is due, in microseconds.
    pub timestamp: Option<u64>,
}

impl View for DecodedFrame {
    type V = FrameView;

    open spec fn view(&self) -> FrameView {
        FrameView {
            data: self.data@,
            width: self.width,
            height: self.height,
            x: self.x,
            y: self.y,
            stride: self.stride,
            timestamp: self.timestamp,
        }
    }
}

/// The frame with the given pixels at the given place.
pub open spec fn frame_at(data: Seq<u8>, width: u32, height: u32, x: u32, y: u32) -> FrameView {
    FrameView { data, width, height, x, y, stride: (width * 4) as u32, timestamp: None }
}

impl DecodedFrame {
    /// A frame in the upper left corner.
    #[must_use]
    pub fn new(data: Vec<u8>, width: u32, height: u32) -> (f: DecodedFrame)
        requires
            width * 4 <= u32::MAX,
        ensures
            f@ == frame_at(data@, width, height, 0, 0),
    {
        DecodedFrame::with_position(data, width, height, 0, 0)
    }

    /// A frame at a place on the desktop.
    #[must_use]
    pub fn with_position(data: Vec<u8>, width: u32, height: u32, x: u32, y: u32) -> (f:
        DecodedFrame)
        requires
            width * 4 <= u32::MAX,
        ensures
            f@ == frame_at(data@, width, height, x, y),
    {
        let stride: u32 = width * BYTES_PER_PIXEL_BGRA;
        DecodedFrame { data, width, height, x, y, stride, timestamp: None }
    }

    /// The frame with a time.
    #[must_use]
    pub fn with_timestamp(self, timestamp: u64) -> (f: DecodedFrame)
        ensures
            f@ == (FrameView { timestamp: Some(timestamp), ..self@ }),
    {
        let mut f = self;
        f.timestamp = Some(timestamp);
        f
    }

    /// How many bytes a frame of this size has.
    #[must_use]
    pub fn expected_len(&self) -> (n: usize)
        requires
            self.stride * self.height <= u32::MAX,
        ensures
            n == self.stride * self.height,
    {
        (self.stride * self.height) as usize
    }

    /// Tests whether there are as many bytes as the size asks for.
    #[must_use]
    pub fn is_valid(&self) -> (b: bool)
        requires
            self.stride * self.height <= u32::MAX,
        ensures
            b == (self.data@.len() == self.stride * self.height),
    {
        self.data.len() == self.expected_len()
    }
}

/// What the decoder answers when it is asked for a frame.
#[derive(Debug)]
pub enum Received {
    /// A frame of the given size.
    Frame {
        /// Width in pixels.
        width: u32,
        /// Height in pixels.
        height: u32,
    },
    /// More data are needed.
    Again,
    /// The decoder failed.
    Failed(String),
}

/// The view of `Received`.
pub enum ReceivedView {
    /// A frame of the given size.
    Frame {
        /// Width in pixels.
        width: u32,
        /// Height in pixels.
        height: u32,
    },
    /// More data are needed.
    Again,
    /// The decoder failed.
    Failed(Seq<char>),
}

impl View for Received {
    type V = ReceivedView;

    open spec fn view(&self) -> ReceivedView {
        match *self {
            Received::Frame { width, height } => ReceivedView::Frame { width, height },
            Received::Again => ReceivedView::Again,
            Received::Failed(s) => ReceivedView::Failed(s@),
        }
    }
}

/// What to do next for a frame.
#[derive(Debug, Clone, Copy, PartialEq, Eq, Structural)]
pub enum FrameStep {
    /// There is no frame.
    Wait,
    /// Make a scaler for the size of the frame, then convert.
    MakeScaler,
    /// Convert with the scaler that is there.
    Convert,
}

/// The state of a video decoder.
#[derive(Debug)]
pub struct VideoDecoder {
    codec: VideoCodec,
    width: u32,
    height: u32,
    has_scaler: bool,
}

/// The view of `VideoDecoder`.
pub struct VideoDecoderView {
    /// The codec.
    pub codec: VideoCodec,
    /// The width of the latest frame.
    pub width: u32,
    /// The height of the latest frame.
    pub height: u32,
    /// A scaler was made.
    pub has_scaler: bool,
}

impl View for VideoDecoder {
    type V = VideoDecoderView;

    closed spec fn view(&self) -> VideoDecoderView {
        VideoDecoderView {
            codec: self.codec,
            width: self.width,
            height: self.height,
            has_scaler: self.has_scaler,
        }
    }
}

/// What setting a decoder up comes to: the library has to start, the codec has to
/// be there, and the codec has to open.
pub open spec fn decoder_setup(
    codec: VideoCodec,
    started: Result<(), Seq<char>>,
    found: bool,
    opened: Result<(), Seq<char>>,
) -> Result<VideoDecoderView, DecoderErrorView> {
    match started {
        Err(e) => Err(DecoderErrorView::InitFailed(e)),
        Ok(_) => if !found {
            Err(DecoderErrorView::UnsupportedCodec(codec.name()))
        } else {
            match opened {
                Err(e) => Err(DecoderErrorView::InitFailed(e)),
                Ok(_) => Ok(VideoDecoderView { codec, width: 0, height: 0, has_scaler: false }),
            }
        },
    }
}

/// What an answer of the decoder leads to.
pub open spec fn on_received(d: VideoDecoderView, received: ReceivedView) -> (
    VideoDecoderView,
    Result<FrameStep, DecoderErrorView>,
) {
    match received {
        ReceivedView::Again => (d, Ok(FrameStep::Wait)),
        ReceivedView::Failed(e) => (d, Err(DecoderErrorView::DecodeFailed(e))),
        ReceivedView::Frame { width, height } => if d.width != width || d.height != height {
            (VideoDecoderView { width, height, ..d }, Ok(FrameStep::MakeScaler))
        } else if d.has_scaler {
            (d, Ok(FrameStep::Convert))
        } else {
            (d, Err(DecoderErrorView::DecodeFailed("Scaler not initialized"@)))
        },
    }
}

/// What the making of a scaler leads to.
pub open spec fn on_scaler(d: VideoDecoderView, made: Result<(), Seq<char>>) -> (
    VideoDecoderView,
    Result<(), DecoderErrorView>,
) {
    match made {
        Ok(_) => (VideoDecoderView { has_scaler: true, ..d }, Ok(())),
        Err(e) => (d, Err(DecoderErrorView::DecodeFailed(e))),
    }
}

/// What a conversion leads to.
pub open spec fn on_converted(d: VideoDecoderView, data: Result<Seq<u8>, Seq<char>>) -> Result<
    FrameView,
    DecoderErrorView,
> {
    match data {
        Ok(pixels) => Ok(frame_at(pixels, d.width, d.height, 0, 0)),
        Err(e) => Err(DecoderErrorView::DecodeFailed(e)),
    }
}

/// The view of an outcome with a text for its failure.
pub open spec fn outcome(r: Result<(), String>) -> Result<(), Seq<char>> {
    match r {
        Ok(_) => Ok(()),
        Err(e) => Err(e@),
    }
}

impl VideoDecoder {
    /// A decoder for the codec, from what came of starting the library, finding
    /// the codec and opening it.
    pub fn new(
        codec: VideoCodec,
        started: Result<(), String>,
        found: bool,
        opened: Result<(), String>,
    ) -> (r: Result<VideoDecoder, DecoderError>)
        ensures
            crate::views::result_view(r) == decoder_setup(
                codec,
                outcome(started),
                found,
                outcome(opened),
            ),
    {
        match started {
            Err(e) => Err(DecoderError::InitFailed(e)),
            Ok(_) => if !found {
                Err(DecoderError::UnsupportedCodec(codec.label().to_owned()))
            } else {
                match opened {
                    Err(e) => Err(DecoderError::InitFailed(e)),
                    Ok(_) => Ok(VideoDecoder { codec, width: 0, height: 0, has_scaler: false }),
                }
            },
        }
    }

    /// Where there is no video library, no decoder can be had.
    pub fn unavailable() -> (e: DecoderError)
        ensures
            e@ == DecoderErrorView::InitFailed("Video decoding requires Linux with FFmpeg"@),
    {
        DecoderError::InitFailed("Video decoding requires Linux with FFmpeg".to_owned())
    }

    /// The codec.
    #[must_use]
    pub fn codec(&self) -> (c: VideoCodec)
        ensures
            c == self@.codec,
    {
        self.codec
    }

    /// Handles an answer of the decoder.
    pub fn receive(&mut self, received: Received) -> (r: Result<FrameStep, DecoderError>)
        ensures
            final(self)@ == on_received(old(self)@, received@).0,
            on_received(old(self)@, received@).1 == (match r {
                Ok(step) => Ok::<FrameStep, DecoderErrorView>(step),
                Err(e) => Err(e@),
            }),
    {
        match received {
            Received::Again => Ok(FrameStep::Wait),
            Received::Failed(e) => Err(DecoderError::DecodeFailed(e)),
            Received::Frame { width, height } => {
                if self.width != width || self.height != height {
                    self.width = width;
                    self.height = height;
                    Ok(FrameStep::MakeScaler)
                } else if self.has_scaler {
                    Ok(FrameStep::Convert)
                } else {
                    Err(DecoderError::DecodeFailed("Scaler not initialized".to_owned()))
                }
            },
        }
    }

    /// Notes what came of making a scaler: where it failed, an earlier scaler
    /// stays.
    pub fn scaler_made(&mut self, made: Result<(), String>) -> (r: Result<(), DecoderError>)
        ensures
            made is Ok ==> r is Ok && final(self)@ == (VideoDecoderView {
                has_scaler: true,
                ..old(self)@
            }),
            made matches Err(e) ==> r is Err && r->Err_0@ == DecoderErrorView::DecodeFailed(e@)
                && final(self)@ == old(self)@,
            final(self)@ == on_scaler(old(self)@, outcome(made)).0,
            on_scaler(old(self)@, outcome(made)).1 == (match r {
                Ok(_) => Ok::<(), DecoderErrorView>(()),
                Err(e) => Err(e@),
            }),
    {
        match made {
            Ok(_) => {
                self.has_scaler = true;
                Ok(())
            },
            Err(e) => Err(DecoderError::DecodeFailed(e)),
        }
    }

    /// The frame, from what came of converting it.
    pub fn converted(&self, data: Result<Vec<u8>, String>) -> (r: Result<
        DecodedFrame,
        DecoderError,
    >)
        requires
            self@.width * 4 <= u32::MAX,
        ensures
            data matches Ok(d) ==> r is Ok && r->Ok_0@ == frame_at(
                d@,
                self@.width,
                self@.height,
                0,
                0,
            ),
            data matches Err(e) ==> r is Err && r->Err_0@ == DecoderErrorView::DecodeFailed(e@),
            crate::views::result_view(r) == on_converted(
                self@,
                match data {
                    Ok(d) => Ok(d@),
                    Err(e) => Err(e@),
                },
            ),
    {
        match data {
            Ok(d) => Ok(DecodedFrame::new(d, self.width, self.height)),
            Err(e) => Err(DecoderError::DecodeFailed(e)),
        }
    }

    /// The width of the latest frame.
    #[must_use]
    pub fn frame_width(&self) -> (w: u32)
        ensures
            w == self@.width,
    {
        self.width
    }
}

/// Once a scaler was made for a size, frames of that size are converted with it.
pub proof fn law_scaler_is_kept(d: VideoDecoderView, width: u32, height: u32)
    requires
        d.has_scaler,
        d.width == width,
        d.height == height,
    ensures
        on_received(d, ReceivedView::Frame { width, height }) == (
            d,
            Ok::<FrameStep, DecoderErrorView>(FrameStep::Convert),
        ),
{
}

/// A frame whose data fill its rows is valid.
pub proof fn law_full_frame_is_valid(f: FrameView, data: Seq<u8>, width: u32, height: u32)
    requires
        width * 4 <= u32::MAX,
        f == frame_at(data, width, height, f.x, f.y),
    ensures
        f.data.len() == f.stride * f.height <==> data.len() == 4 * width * height,
{
    let w = width as int;
    let h = height as int;
    assert((w * 4) * h == 4 * w * h) by (nonlinear_arith);
}

/// A frame has the pixels, the size and the place that it was made with, and its
/// rows have four bytes for each pixel.
pub proof fn law_frame_keeps_its_parts(data: Seq<u8>, width: u32, height: u32, x: u32, y: u32)
    requires
        width * 4 <= u32::MAX,
    ensures
        ({
            let f = frame_at(data, width, height, x, y);
            &&& f.data == data && f.width == width && f.height == height
            &&& f.x == x && f.y == y
            &&& f.stride == 4 * width
            &&& f.timestamp is None
        }),
{
}

/// A decoder is there exactly where the library could be started, the codec was found
/// and the decoder was opened; it is for that codec, and saw no frame. What failed
/// first is reported, in the words of the failure or with the name of the codec.
pub proof fn law_decoder_needs_every_step(
    codec: VideoCodec,
    started: Result<(), Seq<char>>,
    found: bool,
    opened: Result<(), Seq<char>>,
)
    ensures
        match decoder_setup(codec, started, found, opened) {
            Ok(d) => {
                &&& started is Ok && found && opened is Ok
                &&& d.codec == codec && d.width == 0 && d.height == 0 && !d.has_scaler
            },
            Err(DecoderErrorView::InitFailed(e)) => started == Err::<(), Seq<char>>(e) || started
                is Ok && found && opened == Err::<(), Seq<char>>(e),
            Err(DecoderErrorView::UnsupportedCodec(name)) => started is Ok && !found && name
                == codec.name(),
            Err(_) => false,
        },
{
}

/// Frames are converted for their own size: the first frame of a size asks for a
/// scaler, and once there is one every frame of that size is converted, into a frame
/// of that size in the upper left corner.
pub proof fn law_frames_are_converted_at_their_size(
    d: VideoDecoderView,
    width: u32,
    height: u32,
    pixels: Seq<u8>,
)
    requires
        d.width != width || d.height != height,
        width * 4 <= u32::MAX,
    ensures
        ({
            let frame = ReceivedView::Frame { width, height };
            let (asked, first) = on_received(d, frame);
            let (made, outcome) = on_scaler(asked, Ok(()));
            let (again, second) = on_received(made, frame);
            &&& first == Ok::<FrameStep, DecoderErrorView>(FrameStep::MakeScaler)
            &&& outcome is Ok
            &&& asked.width == width && asked.height == height && asked.codec == d.codec
            &&& again == made
            &&& second == Ok::<FrameStep, DecoderErrorView>(FrameStep::Convert)
            &&& match on_converted(again, Ok(pixels)) {
                Ok(f) => f.width == width && f.height == height && f.data == pixels && f.x == 0
                    && f.y == 0 && f.stride == 4 * width,
                Err(_) => false,
            }
        }),
{
}

/// A decoder that needs more data waits, and one that failed says why; neither
/// changes what it knows.
pub proof fn law_decoder_failures_are_reported(d: VideoDecoderView, e: Seq<char>)
    ensures
        on_received(d, ReceivedView::Again) == (
            d,
            Ok::<FrameStep, DecoderErrorView>(FrameStep::Wait),
        ),
        on_received(d, ReceivedView::Failed(e)) == (
            d,
            Err::<FrameStep, DecoderErrorView>(DecoderErrorView::DecodeFailed(e)),
        ),
        on_scaler(d, Err(e)) == (
            d,
            Err::<(), DecoderErrorView>(DecoderErrorView::DecodeFailed(e)),
        ),
        on_converted(d, Err(e)) == Err::<FrameView, DecoderErrorView>(
            DecoderErrorView::DecodeFailed(e),
        ),
        !d.has_scaler ==> on_received(
            d,
            ReceivedView::Frame { width: d.width, height: d.height },
        ).1 is Err,
{
}

/// The text of an error of the decoder ends with its details.
pub proof fn law_decoder_error_has_details(s: Seq<char>)
    ensures
        s.is_suffix_of(DecoderErrorView::InitFailed(s).text()),
        s.is_suffix_of(DecoderErrorView::UnsupportedCodec(s).text()),
        s.is_suffix_of(DecoderErrorView::DecodeFailed(s).text()),
        s.is_suffix_of(DecoderErrorView::InvalidData(s).text()),
{
    let a = DecoderErrorView::InitFailed(s).text();
    let b = DecoderErrorView::UnsupportedCodec(s).text();
    let c = DecoderErrorView::DecodeFailed(s).text();
    let d = DecoderErrorView::InvalidData(s).text();
    assert(a.subrange(a.len() - s.len(), a.len() as int) =~= s);
    assert(b.subrange(b.len() - s.len(), b.len() as int) =~= s);
    assert(c.subrange(c.len() - s.len(), c.len() as int) =~= s);
    assert(d.subrange(d.len() - s.len(), d.len() as int) =~= s);
}

} // verus!
