//! The session: what the server sends, and what the main thread asks for.
use vstd::prelude::*;

use std::path::PathBuf;

use ironrdp::pdu::input::fast_path::FastPathInputEvent;

use crate::cliprdr::{ClipboardEvent, EventView};
use crate::connection::input;
use crate::connection::input::{HeldInput, InputState, InputView};
use crate::messages::{FromNetwork, NewsView, RequestView, ToNetwork};
use crate::video;
use crate::video::DecodedFrame;
use crate::views;

verus! {

/// A part of the picture, right and bottom edge included.
#[derive(Debug, Clone, Copy, PartialEq, Eq, Structural)]
pub struct UpdateRect {
    /// Left edge.
    pub left: u16,
    /// Top edge.
    pub top: u16,
    /// Right edge.
    pub right: u16,
    /// Bottom edge.
    pub bottom: u16,
}

impl UpdateRect {
    /// The sides can be counted in 16 bits.
    pub open spec fn countable(self) -> bool {
        0 <= self.right - self.left < u16::MAX && 0 <= self.bottom - self.top < u16::MAX
    }

    /// Tests whether the sides can be counted in 16 bits.
    pub fn is_countable(&self) -> (b: bool)
        ensures
            b == self.countable(),
    {
        self.left <= self.right && self.right - self.left < u16::MAX && self.top <= self.bottom
            && self.bottom - self.top < u16::MAX
    }
}

/// What processing a message of the server gives.
#[derive(Debug, Clone, Copy, PartialEq, Eq, Structural)]
pub enum StageOutput {
    /// Bytes to send to the server.
    Response,
    /// A part of the picture changed.
    Graphics(UpdateRect),
    /// The server ends the session.
    Terminate,
    /// The server wants to begin again.
    Deactivate,
    /// The pointer changed.
    Pointer,
}

/// What to do about it.
#[derive(Debug, Clone, Copy, PartialEq, Eq, Structural)]
pub enum OutputAction {
    /// Send the bytes.
    Send,
    /// Report the part of the picture.
    Draw {
        /// Left edge.
        x: u16,
        /// Top edge.
        y: u16,
        /// Width.
        width: u16,
        /// Height.
        height: u16,
    },
    /// Nothing.
    Skip,
    /// End the session.
    End,
}

/// What to do about an output: parts that do not lie in the picture are skipped,
/// and a session that the server wants to begin again is ended.
pub open spec fn output_step(o: StageOutput, picture_width: u16, picture_height: u16) -> OutputAction {
    match o {
        StageOutput::Response => OutputAction::Send,
        StageOutput::Graphics(r) => if r.right >= picture_width || r.bottom >= picture_height {
            OutputAction::Skip
        } else {
            OutputAction::Draw {
                x: r.left,
                y: r.top,
                width: (r.right - r.left + 1) as u16,
                height: (r.bottom - r.top + 1) as u16,
            }
        },
        StageOutput::Terminate => OutputAction::End,
        StageOutput::Deactivate => OutputAction::End,
        StageOutput::Pointer => OutputAction::Skip,
    }
}

/// What to do about an output of the session.
pub fn output_action(output: StageOutput, picture_width: u16, picture_height: u16) -> (a:
    OutputAction)
    requires
        output matches StageOutput::Graphics(r) ==> r.countable(),
    ensures
        a == output_step(output, picture_width, picture_height),
{
    match output {
        StageOutput::Response => OutputAction::Send,
        StageOutput::Graphics(r) => {
            let width: u16 = r.right - r.left + 1;
            let height: u16 = r.bottom - r.top + 1;
            if r.right >= picture_width || r.bottom >= picture_height {
                OutputAction::Skip
            } else {
                OutputAction::Draw { x: r.left, y: r.top, width, height }
            }
        },
        StageOutput::Terminate => OutputAction::End,
        StageOutput::Deactivate => OutputAction::End,
        StageOutput::Pointer => OutputAction::Skip,
    }
}

/// Row `k` of a picture: `len` bytes, with the rows `pitch` bytes apart.
pub open spec fn row_of(data: Seq<u8>, pitch: int, len: int, k: int) -> Seq<u8> {
    data.subrange(k * pitch, k * pitch + len)
}

/// The rows of a picture of `width` by `height` pixels, of four bytes each, that lie
/// `pitch` bytes apart in `data`, one directly after the other.
pub open spec fn is_packed(out: Seq<u8>, data: Seq<u8>, width: int, height: int, pitch: int) -> bool {
    &&& out.len() == 4 * width * height
    &&& forall|k: int|
        0 <= k < height ==> #[trigger] row_of(out, 4 * width, 4 * width, k) == row_of(
            data,
            pitch,
            4 * width,
            k,
        )
}

/// The rows of a part of the picture, four bytes for each pixel, one directly after
/// the other. In the data they lie `pitch` bytes apart.
pub fn packed_rows(data: &[u8], width: u16, height: u16, pitch: usize) -> (out: Vec<u8>)
    requires
        height > 0 ==> (height - 1) * pitch + 4 * width <= data@.len(),
    ensures
        is_packed(out@, data@, width as int, height as int, pitch as int),
        out@.len() == 4 * width * height,
        forall|k: int|
            0 <= k < height ==> #[trigger] row_of(out@, 4 * width, 4 * width, k) == row_of(
                data@,
                pitch as int,
                4 * width,
                k,
            ),
{
    let row: usize = 4 * (width as usize);
    let size: usize = data.len();
    let mut out: Vec<u8> = Vec::new();
    let mut at: usize = 0;
    let mut i: u16 = 0;
    while i < height
        invariant
            i <= height,
            row == 4 * width,
            size == data@.len(),
            height > 0 ==> (height - 1) * pitch + row <= size,
            i < height ==> at == i * pitch,
            out@.len() == i * row,
            forall|k: int|
                0 <= k < i ==> #[trigger] row_of(out@, row as int, row as int, k) == row_of(
                    data@,
                    pitch as int,
                    row as int,
                    k,
                ),
        decreases height - i,
    {
        proof {
            lemma_rows_before(i as int, height as int, pitch as int);
        }
        let ghost before = out@;
        out.extend_from_slice(&data[at..at + row]);
        proof {
            lemma_row_added(before, data@, pitch as int, row as int, i as int);
            assert(out@ == before + row_of(data@, pitch as int, row as int, i as int));
        }
        i = i + 1;
        if i < height {
            proof {
                lemma_rows_before(i as int, height as int, pitch as int);
                assert((i - 1) * pitch + pitch == i * pitch) by (nonlinear_arith);
            }
            at = at + pitch;
        }
    }
    assert(height * row == 4 * width * height) by (nonlinear_arith)
        requires
            row == 4 * width,
    ;
    out
}

/// A row begins no later than the last one.
proof fn lemma_rows_before(i: int, height: int, pitch: int)
    requires
        0 <= i < height,
        0 <= pitch,
    ensures
        0 <= i * pitch <= (height - 1) * pitch,
{
    assert(0 <= i * pitch <= (height - 1) * pitch) by (nonlinear_arith)
        requires
            0 <= i < height,
            0 <= pitch,
    ;
}

/// A row that is added after `i` others leaves those as they are.
proof fn lemma_row_added(out: Seq<u8>, data: Seq<u8>, pitch: int, row: int, i: int)
    requires
        0 <= i,
        0 <= row,
        0 <= i * pitch <= i * pitch + row <= data.len(),
        out.len() == i * row,
        forall|k: int|
            0 <= k < i ==> #[trigger] row_of(out, row, row, k) == row_of(data, pitch, row, k),
    ensures
        ({
            let longer = out + row_of(data, pitch, row, i);
            &&& longer.len() == (i + 1) * row
            &&& forall|k: int|
                0 <= k < i + 1 ==> #[trigger] row_of(longer, row, row, k) == row_of(
                    data,
                    pitch,
                    row,
                    k,
                )
        }),
{
    let longer = out + row_of(data, pitch, row, i);
    assert((i + 1) * row == i * row + row) by (nonlinear_arith);
    assert forall|k: int| 0 <= k < i + 1 implies #[trigger] row_of(longer, row, row, k) == row_of(
        data,
        pitch,
        row,
        k,
    ) by {
        if k < i {
            assert(0 <= k * row <= k * row + row <= i * row) by (nonlinear_arith)
                requires
                    0 <= k < i,
                    0 <= row,
            ;
            assert(row_of(longer, row, row, k) =~= row_of(out, row, row, k));
        } else {
            assert(row_of(longer, row, row, i) =~= row_of(data, pitch, row, i));
        }
    }
}

/// The report of a part of the picture.
pub open spec fn picture_news(data: Seq<u8>, x: u16, y: u16, width: u16, height: u16) -> NewsView {
    NewsView::Frame(video::frame_at(data, width as u32, height as u32, x as u32, y as u32))
}

/// The report of a part of the picture.
pub fn frame_report(data: Vec<u8>, x: u16, y: u16, width: u16, height: u16) -> (r: FromNetwork)
    ensures
        r@ == picture_news(data@, x, y, width, height),
        r@ == NewsView::Frame(
            video::frame_at(data@, width as u32, height as u32, x as u32, y as u32),
        ),
{
    FromNetwork::Frame(
        DecodedFrame::with_position(data, width as u32, height as u32, x as u32, y as u32),
    )
}

/// What is done on the shared clipboard.
#[derive(Debug)]
pub enum ClipboardCommand {
    /// Fetch the remote text.
    RequestText,
    /// Offer text.
    OfferText(String),
    /// Offer nothing.
    Clear,
    /// Offer files.
    OfferFiles(Vec<PathBuf>),
    /// Fetch the size of a remote file.
    RequestFileSize {
        /// The place of the file in the remote list.
        file_index: u32,
    },
    /// Fetch a part of a remote file.
    RequestFileContent {
        /// The place of the file in the remote list.
        file_index: u32,
        /// Where the part begins.
        offset: u64,
        /// How many bytes it has.
        length: u32,
    },
}

/// The view of `ClipboardCommand`.
pub enum ClipboardCommandView {
    /// Fetch the remote text.
    RequestText,
    /// Offer text.
    OfferText(Seq<char>),
    /// Offer nothing.
    Clear,
    /// Offer files.
    OfferFiles(Seq<PathBuf>),
    /// Fetch the size of a remote file.
    RequestFileSize {
        /// The place of the file in the remote list.
        file_index: u32,
    },
    /// Fetch a part of a remote file.
    RequestFileContent {
        /// The place of the file in the remote list.
        file_index: u32,
        /// Where the part begins.
        offset: u64,
        /// How many bytes it has.
        length: u32,
    },
}

impl View for ClipboardCommand {
    type V = ClipboardCommandView;

    open spec fn view(&self) -> ClipboardCommandView {
        match *self {
            ClipboardCommand::RequestText => ClipboardCommandView::RequestText,
            ClipboardCommand::OfferText(t) => ClipboardCommandView::OfferText(t@),
            ClipboardCommand::Clear => ClipboardCommandView::Clear,
            ClipboardCommand::OfferFiles(f) => ClipboardCommandView::OfferFiles(f@),
            ClipboardCommand::RequestFileSize { file_index } => {
                ClipboardCommandView::RequestFileSize { file_index }
            },
            ClipboardCommand::RequestFileContent { file_index, offset, length } => {
                ClipboardCommandView::RequestFileContent { file_index, offset, length }
            },
        }
    }
}

/// What a request asks of the shared clipboard.
pub open spec fn clipboard_command(r: RequestView) -> Option<ClipboardCommandView> {
    match r {
        RequestView::RequestClipboardText => Some(ClipboardCommandView::RequestText),
        RequestView::LocalClipboardText { text } => Some(ClipboardCommandView::OfferText(text)),
        RequestView::LocalClipboardCleared => Some(ClipboardCommandView::Clear),
        RequestView::LocalClipboardFiles { files } => Some(ClipboardCommandView::OfferFiles(files)),
        RequestView::RequestFileSize { file_index } => Some(
            ClipboardCommandView::RequestFileSize { file_index },
        ),
        RequestView::RequestFileContent { file_index, offset, length } => Some(
            ClipboardCommandView::RequestFileContent { file_index, offset, length },
        ),
        _ => None,
    }
}

/// What the main thread is told of the remote clipboard.
pub open spec fn clipboard_news_of(e: EventView) -> Seq<NewsView> {
    match e {
        EventView::FormatsAvailable { formats, has_text, has_files } => (if has_text {
            seq![NewsView::ClipboardTextAvailable { formats }]
        } else {
            Seq::empty()
        }) + (if has_files {
            seq![NewsView::ClipboardFilesAvailable { formats }]
        } else {
            Seq::empty()
        }),
        EventView::TextReceived { text } => seq![NewsView::ClipboardText { text }],
        EventView::RequestFailed => seq![NewsView::ClipboardRequestFailed],
        EventView::FilesReceived { files } => seq![NewsView::ClipboardFilesReceived { files }],
        EventView::FileContentReceived { stream_id, data } => seq![
            NewsView::ClipboardFileContentReceived { stream_id, data },
        ],
        EventView::FileSizeReceived { stream_id, size } => seq![
            NewsView::ClipboardFileSizeReceived { stream_id, size },
        ],
        EventView::FileTransferFailed { stream_id } => seq![
            NewsView::ClipboardFileTransferFailed { stream_id },
        ],
    }
}

/// A copy of numbers.
fn copy_numbers(numbers: &[u32]) -> (v: Vec<u32>)
    ensures
        v@ == numbers@,
{
    let mut v: Vec<u32> = Vec::new();
    let mut i: usize = 0;
    while i < numbers.len()
        invariant
            i <= numbers@.len(),
            v@ == numbers@.take(i as int),
        decreases numbers@.len() - i,
    {
        v.push(numbers[i]);
        i = i + 1;
    }
    v
}

/// What the main thread is told of the remote clipboard.
pub fn clipboard_news(event: ClipboardEvent) -> (news: Vec<FromNetwork>)
    ensures
        views::seq_view(news@) == clipboard_news_of(event@),
{
    let mut news: Vec<FromNetwork> = Vec::new();
    match event {
        ClipboardEvent::FormatsAvailable { formats, has_text, has_files } => {
            if has_text {
                news.push(
                    FromNetwork::ClipboardTextAvailable {
                        formats: copy_numbers(formats.as_slice()),
                    },
                );
            }
            if has_files {
                news.push(FromNetwork::ClipboardFilesAvailable { formats });
            }
        },
        ClipboardEvent::TextReceived { text } => {
            news.push(FromNetwork::ClipboardText { text });
        },
        ClipboardEvent::RequestFailed => {
            news.push(FromNetwork::ClipboardRequestFailed);
        },
        ClipboardEvent::FilesReceived { files } => {
            news.push(FromNetwork::ClipboardFilesReceived { files });
        },
        ClipboardEvent::FileContentReceived { stream_id, data } => {
            news.push(FromNetwork::ClipboardFileContentReceived { stream_id, data });
        },
        ClipboardEvent::FileSizeReceived { stream_id, size } => {
            news.push(FromNetwork::ClipboardFileSizeReceived { stream_id, size });
        },
        ClipboardEvent::FileTransferFailed { stream_id } => {
            news.push(FromNetwork::ClipboardFileTransferFailed { stream_id });
        },
    }
    assert(views::seq_view(news@) == clipboard_news_of(event@));
    news
}

/// What to do about a request of the main thread.
pub enum SessionAction {
    /// Send input to the server.
    SendInput(Vec<FastPathInputEvent>),
    /// Send what releases the keys and buttons, then end the session.
    ReleaseAndEnd(Vec<FastPathInputEvent>),
    /// End the session.
    End,
    /// Do something on the shared clipboard.
    Clipboard(ClipboardCommand),
    /// Nothing.
    Ignore,
}

/// The view of `SessionAction`.
pub enum SessionActionView {
    /// Send input to the server.
    SendInput(Seq<FastPathInputEvent>),
    /// Send what releases the keys and buttons, then end the session.
    ReleaseAndEnd(Seq<FastPathInputEvent>),
    /// End the session.
    End,
    /// Do something on the shared clipboard.
    Clipboard(ClipboardCommandView),
    /// Nothing.
    Ignore,
}

impl View for SessionAction {
    type V = SessionActionView;

    open spec fn view(&self) -> SessionActionView {
        match *self {
            SessionAction::SendInput(e) => SessionActionView::SendInput(e@),
            SessionAction::ReleaseAndEnd(e) => SessionActionView::ReleaseAndEnd(e@),
            SessionAction::End => SessionActionView::End,
            SessionAction::Clipboard(c) => SessionActionView::Clipboard(c@),
            SessionAction::Ignore => SessionActionView::Ignore,
        }
    }
}

/// What a request of the main thread leads to in a session, where `None` says
/// that the main thread is gone.
pub open spec fn on_request(s: InputView, request: Option<RequestView>) -> (
    InputView,
    SessionActionView,
) {
    match request {
        None => (s, SessionActionView::End),
        Some(r) => if input::is_input(r) {
            let ops = input::operations(r);
            (
                InputView {
                    held: input::held_after_all(s.held, ops),
                    pointer: input::pointer_after_all(s.pointer, ops),
                },
                SessionActionView::SendInput(input::operation_events(s.held, s.pointer, ops)),
            )
        } else if r is Disconnect {
            (
                InputView { held: Set::empty(), ..s },
                SessionActionView::ReleaseAndEnd(input::release_events(s.held, s.pointer)),
            )
        } else {
            match clipboard_command(r) {
                Some(c) => (s, SessionActionView::Clipboard(c)),
                None => (s, SessionActionView::Ignore),
            }
        },
    }
}

/// The view of a request that may not be there.
pub open spec fn request_view(request: Option<ToNetwork>) -> Option<RequestView> {
    match request {
        Some(r) => Some(r@),
        None => None,
    }
}

/// Decides on a request of the main thread in a session: input is passed on, a
/// connection that is already made is not made again, and before the session ends
/// at the user's wish nothing stays pressed on the server.
pub fn session_step(state: &mut InputState, request: Option<ToNetwork>) -> (a: SessionAction)
    ensures
        (final(state)@, a@) == on_request(old(state)@, request_view(request)),
        a matches SessionAction::SendInput(events) ==> (events@.len() > 0
            <==> input::some_worth_telling(
            old(state)@.held,
            old(state)@.pointer,
            input::operations(request->0@),
        )),
        a matches SessionAction::ReleaseAndEnd(events) ==> (events@.len() > 0 <==> exists|
            held: HeldInput,
        |
            old(state)@.held.contains(held)),
{
    match request {
        None => SessionAction::End,
        Some(ToNetwork::Disconnect) => SessionAction::ReleaseAndEnd(state.release_all()),
        Some(ToNetwork::RequestClipboardText) => {
            SessionAction::Clipboard(ClipboardCommand::RequestText)
        },
        Some(ToNetwork::LocalClipboardText { text }) => {
            SessionAction::Clipboard(ClipboardCommand::OfferText(text))
        },
        Some(ToNetwork::LocalClipboardCleared) => SessionAction::Clipboard(ClipboardCommand::Clear),
        Some(ToNetwork::LocalClipboardFiles { files }) => {
            SessionAction::Clipboard(ClipboardCommand::OfferFiles(files))
        },
        Some(ToNetwork::RequestFileSize { file_index }) => {
            SessionAction::Clipboard(ClipboardCommand::RequestFileSize { file_index })
        },
        Some(ToNetwork::RequestFileContent { file_index, offset, length }) => {
            SessionAction::Clipboard(
                ClipboardCommand::RequestFileContent { file_index, offset, length },
            )
        },
        Some(ToNetwork::Connect(_)) => SessionAction::Ignore,
        Some(ToNetwork::CertificateDecision(_)) => SessionAction::Ignore,
        Some(ToNetwork::UpdateMonitorLayout { .. }) => SessionAction::Ignore,
        Some(r) => SessionAction::SendInput(state.apply(&r)),
    }
}

/// When the user ends the session nothing stays pressed on the server: everything
/// that was held is released.
pub proof fn law_nothing_stays_pressed(s: InputView)
    ensures
        on_request(s, Some(RequestView::Disconnect)).0.held == Set::<HeldInput>::empty(),
        on_request(s, Some(RequestView::Disconnect)).1 is ReleaseAndEnd,
{
}

/// Only the user's wish, or the end of the main thread, ends a session from this
/// side.
pub proof fn law_session_ends_on_wish(s: InputView, request: Option<RequestView>)
    ensures
        on_request(s, request).1 is End || on_request(s, request).1 is ReleaseAndEnd <==> request
            == None::<RequestView> || request == Some(RequestView::Disconnect),
{
}

/// What is drawn lies in the picture.
pub proof fn law_drawn_part_lies_in_picture(
    o: StageOutput,
    picture_width: u16,
    picture_height: u16,
)
    requires
        o matches StageOutput::Graphics(r) ==> r.countable(),
    ensures
        output_step(o, picture_width, picture_height) matches OutputAction::Draw {
            x,
            y,
            width,
            height,
        } ==> width > 0 && height > 0 && x + width <= picture_width && y + height <= picture_height,
{
}

} // verus!
