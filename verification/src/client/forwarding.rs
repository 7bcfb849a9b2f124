//! What the user does in the window reaches the server, and what the server reports
//! reaches the user.
use vstd::prelude::*;

use std::path::PathBuf;

use crate::client::exit_codes;
use crate::client::window;
use crate::client::window::{
    MonitorGeometry, NewsActionView, SetupActionView, WindowActionView, WindowEvent, WindowState,
};
use crate::cliprdr::{EventView, FileInfoView};
use crate::connection::input;
use crate::connection::input::{HeldInput, InputOperation, InputView};
use crate::connection::session;
use crate::connection::session::{ClipboardCommandView, SessionActionView};
use crate::messages::{
    CertificateView, ConnectionErrorView, MouseButton, NewsView, RequestView,
};
use crate::monitors::DesktopSize;
use crate::video::FrameView;

verus! {

/// The operations on keyboard and mouse that the server is told of for an event.
pub open spec fn told_operations(w: WindowState, e: WindowEvent) -> Seq<InputOperation> {
    match window::on_window_event(w, e) {
        WindowActionView::Send(r) => input::operations(r),
        _ => Seq::empty(),
    }
}

/// What is held and where the pointer stands on the server after an event.
pub open spec fn input_after(w: WindowState, s: InputView, e: WindowEvent) -> InputView {
    match window::on_window_event(w, e) {
        WindowActionView::Send(r) => session::on_request(s, Some(r)).0,
        _ => s,
    }
}

/// The key of a scancode: the upper three bits say that it is an extended one, the
/// lower eight which one it is.
pub open spec fn scanned_key(scancode: u16) -> HeldInput {
    HeldInput::Key { extended: scancode >= 0xE000, code: (scancode % 256) as u8 }
}

/// The key of a scancode is that of its upper and its lower bits.
pub proof fn law_key_of_scancode(scancode: u16)
    ensures
        input::key_of(scancode).0 <==> scancode >= 0xE000,
        input::key_of(scancode).1 == scancode % 256,
{
}

/// A key that is pressed in the window is pressed on the server, and one that is
/// released is released there: just that is told, and just that key changes. After
/// both, what is held is what was held before, where the key was not held.
pub proof fn law_keys_reach_server(w: WindowState, s: InputView, scancode: u16)
    ensures
        told_operations(w, WindowEvent::KeyPressed { scancode }) == seq![
            InputOperation::KeyPressed((scancode >= 0xE000, (scancode % 256) as u8)),
        ],
        told_operations(w, WindowEvent::KeyReleased { scancode }) == seq![
            InputOperation::KeyReleased((scancode >= 0xE000, (scancode % 256) as u8)),
        ],
        input_after(w, s, WindowEvent::KeyPressed { scancode }) == (InputView {
            held: s.held.insert(scanned_key(scancode)),
            ..s
        }),
        input_after(w, s, WindowEvent::KeyReleased { scancode }) == (InputView {
            held: s.held.remove(scanned_key(scancode)),
            ..s
        }),
        !s.held.contains(scanned_key(scancode)) ==> input_after(
            w,
            input_after(w, s, WindowEvent::KeyPressed { scancode }),
            WindowEvent::KeyReleased { scancode },
        ) == s,
{
    lemma_one_operation(
        s,
        InputOperation::KeyPressed((scancode >= 0xE000, (scancode % 256) as u8)),
    );
    lemma_one_operation(
        s,
        InputOperation::KeyReleased((scancode >= 0xE000, (scancode % 256) as u8)),
    );
    let pressed = InputView { held: s.held.insert(scanned_key(scancode)), ..s };
    lemma_one_operation(
        pressed,
        InputOperation::KeyReleased((scancode >= 0xE000, (scancode % 256) as u8)),
    );
    if !s.held.contains(scanned_key(scancode)) {
        assert(pressed.held.remove(scanned_key(scancode)) =~= s.held);
    }
}

/// What one operation does.
proof fn lemma_one_operation(s: InputView, op: InputOperation)
    ensures
        input::held_after_all(s.held, seq![op]) == input::held_after(s.held, op),
        input::pointer_after_all(s.pointer, seq![op]) == input::pointer_after(s.pointer, op),
{
    reveal_with_fuel(input::held_after_all, 2);
    reveal_with_fuel(input::pointer_after_all, 2);
    assert(seq![op].drop_last() =~= Seq::<InputOperation>::empty());
}

/// What a move and another operation do.
proof fn lemma_two_operations(s: InputView, x: u16, y: u16, op: InputOperation)
    ensures
        input::held_after_all(s.held, seq![InputOperation::Move(x, y), op]) == input::held_after(
            s.held,
            op,
        ),
        input::pointer_after_all(s.pointer, seq![InputOperation::Move(x, y), op])
            == input::pointer_after((x, y), op),
{
    let ops = seq![InputOperation::Move(x, y), op];
    assert(ops.drop_last() =~= seq![InputOperation::Move(x, y)]);
    lemma_one_operation(s, InputOperation::Move(x, y));
}

/// A character that is typed in the window is pressed on the server, and released
/// there when it is released.
pub proof fn law_characters_reach_server(w: WindowState, s: InputView, character: char)
    ensures
        told_operations(w, WindowEvent::UnicodeKeyPressed { character }) == seq![
            InputOperation::CharacterPressed(character),
        ],
        told_operations(w, WindowEvent::UnicodeKeyReleased { character }) == seq![
            InputOperation::CharacterReleased(character),
        ],
        input_after(w, s, WindowEvent::UnicodeKeyPressed { character }) == (InputView {
            held: s.held.insert(HeldInput::Character(character)),
            ..s
        }),
        input_after(w, s, WindowEvent::UnicodeKeyReleased { character }) == (InputView {
            held: s.held.remove(HeldInput::Character(character)),
            ..s
        }),
{
    lemma_one_operation(s, InputOperation::CharacterPressed(character));
    lemma_one_operation(s, InputOperation::CharacterReleased(character));
}

/// The pointer on the server stands where it was moved to in the window.
pub proof fn law_pointer_reaches_server(w: WindowState, s: InputView, x: u16, y: u16)
    ensures
        told_operations(w, WindowEvent::MouseMove { x, y }) == seq![InputOperation::Move(x, y)],
        input_after(w, s, WindowEvent::MouseMove { x, y }) == (InputView {
            pointer: (x, y),
            ..s
        }),
{
    lemma_one_operation(s, InputOperation::Move(x, y));
}

/// The three mouse buttons have the numbers that the system gives them; no other
/// number is one.
pub proof fn law_button_numbers(number: u32)
    ensures
        window::button_of(number) == Some(MouseButton::Left) <==> number == 272,
        window::button_of(number) == Some(MouseButton::Right) <==> number == 273,
        window::button_of(number) == Some(MouseButton::Middle) <==> number == 274,
{
}

/// A mouse button that is pressed in the window is pressed on the server, where the
/// pointer is, and released there when it is released. A button that the server does
/// not know is not told.
pub proof fn law_buttons_reach_server(
    w: WindowState,
    s: InputView,
    number: u32,
    b: MouseButton,
    x: u16,
    y: u16,
)
    requires
        number == (match b {
            MouseButton::Left => 272u32,
            MouseButton::Right => 273u32,
            MouseButton::Middle => 274u32,
        }),
    ensures
        told_operations(w, WindowEvent::MouseButton { button: number, pressed: true, x, y })
            == seq![InputOperation::Move(x, y), InputOperation::ButtonPressed(b)],
        told_operations(w, WindowEvent::MouseButton { button: number, pressed: false, x, y })
            == seq![InputOperation::Move(x, y), InputOperation::ButtonReleased(b)],
        ({
            let held = HeldInput::Button(
                match b {
                    MouseButton::Left => 0,
                    MouseButton::Middle => 1,
                    MouseButton::Right => 2,
                },
            );
            &&& input_after(
                w,
                s,
                WindowEvent::MouseButton { button: number, pressed: true, x, y },
            ) == (InputView { held: s.held.insert(held), pointer: (x, y) })
            &&& input_after(
                w,
                s,
                WindowEvent::MouseButton { button: number, pressed: false, x, y },
            ) == (InputView { held: s.held.remove(held), pointer: (x, y) })
        }),
        forall|other: u32, pressed: bool|
            !(272 <= other <= 274) ==> #[trigger] window::on_window_event(
                w,
                WindowEvent::MouseButton { button: other, pressed, x, y },
            ) == WindowActionView::Nothing,
{
    lemma_two_operations(s, x, y, InputOperation::ButtonPressed(b));
    lemma_two_operations(s, x, y, InputOperation::ButtonReleased(b));
}

/// The wheel is turned on the server as far as in the window, in the same direction
/// and where the pointer is; where it was not turned, nothing is told.
pub proof fn law_wheel_reaches_server(
    w: WindowState,
    s: InputView,
    horizontal: bool,
    delta: i16,
    x: u16,
    y: u16,
)
    ensures
        ({
            let e = WindowEvent::MouseAxis { horizontal, delta, x, y };
            &&& delta != 0 ==> told_operations(w, e) == seq![
                InputOperation::Move(x, y),
                InputOperation::Wheel(!horizontal, delta),
            ]
            &&& delta != 0 ==> input_after(w, s, e) == (InputView { pointer: (x, y), ..s })
            &&& delta == 0 ==> window::on_window_event(w, e) == WindowActionView::Nothing
        }),
{
    lemma_two_operations(s, x, y, InputOperation::Wheel(!horizontal, delta));
}

/// A press is always told to the server, and a release where the key is held.
pub proof fn law_presses_are_told(s: InputView, scancode: u16, character: char)
    ensures
        input::some_worth_telling(
            s.held,
            s.pointer,
            input::operations(RequestView::KeyboardInput { scancode, pressed: true }),
        ),
        input::some_worth_telling(
            s.held,
            s.pointer,
            input::operations(RequestView::UnicodeInput { character, pressed: true }),
        ),
        s.held.contains(scanned_key(scancode)) ==> input::some_worth_telling(
            s.held,
            s.pointer,
            input::operations(RequestView::KeyboardInput { scancode, pressed: false }),
        ),
{
    reveal_with_fuel(input::some_worth_telling, 2);
    reveal_with_fuel(input::held_after_all, 2);
    let press = input::operations(RequestView::KeyboardInput { scancode, pressed: true });
    let typed = input::operations(RequestView::UnicodeInput { character, pressed: true });
    let release = input::operations(RequestView::KeyboardInput { scancode, pressed: false });
    assert(press.drop_last() =~= Seq::<InputOperation>::empty());
    assert(typed.drop_last() =~= Seq::<InputOperation>::empty());
    assert(release.drop_last() =~= Seq::<InputOperation>::empty());
}

/// What the network thread is asked for is passed to the clipboard as it was asked,
/// leaves the input alone, and does not end the session; input never reaches the
/// clipboard.
pub proof fn law_clipboard_requests_reach_handler(
    s: InputView,
    text: Seq<char>,
    files: Seq<PathBuf>,
    file_index: u32,
    offset: u64,
    length: u32,
)
    ensures
        session::on_request(s, Some(RequestView::LocalClipboardText { text })) == (
            s,
            SessionActionView::Clipboard(ClipboardCommandView::OfferText(text)),
        ),
        session::on_request(s, Some(RequestView::LocalClipboardFiles { files })) == (
            s,
            SessionActionView::Clipboard(ClipboardCommandView::OfferFiles(files)),
        ),
        session::on_request(s, Some(RequestView::LocalClipboardCleared)) == (
            s,
            SessionActionView::Clipboard(ClipboardCommandView::Clear),
        ),
        session::on_request(s, Some(RequestView::RequestClipboardText)) == (
            s,
            SessionActionView::Clipboard(ClipboardCommandView::RequestText),
        ),
        session::on_request(s, Some(RequestView::RequestFileSize { file_index })) == (
            s,
            SessionActionView::Clipboard(ClipboardCommandView::RequestFileSize { file_index }),
        ),
        session::on_request(
            s,
            Some(RequestView::RequestFileContent { file_index, offset, length }),
        ) == (
            s,
            SessionActionView::Clipboard(
                ClipboardCommandView::RequestFileContent { file_index, offset, length },
            ),
        ),
{
}

/// What is copied locally is offered to the server as it was copied.
pub proof fn law_local_copy_reaches_handler(w: WindowState, s: InputView, e: WindowEvent)
    ensures
        match e {
            WindowEvent::LocalClipboardChanged { text } => (window::on_window_event(w, e) matches
                WindowActionView::Send(r) && session::on_request(s, Some(r)) == (
                s,
                SessionActionView::Clipboard(ClipboardCommandView::OfferText(text@)),
            )),
            WindowEvent::LocalClipboardFilesChanged { files } => (window::on_window_event(w, e)
                matches WindowActionView::Send(r) && session::on_request(s, Some(r)) == (
                s,
                SessionActionView::Clipboard(ClipboardCommandView::OfferFiles(files@)),
            )),
            _ => true,
        },
{
}

/// When the monitors change, the network thread is told of each of them, in the same
/// order, with its place and size; the one at the origin is the primary one.
pub proof fn law_monitors_are_reported(w: WindowState, monitors: Vec<MonitorGeometry>)
    ensures
        match window::on_window_event(w, WindowEvent::MonitorLayoutChanged { monitors }) {
            WindowActionView::Send(RequestView::UpdateMonitorLayout { monitors: told }) => {
                &&& told.len() == monitors@.len()
                &&& forall|i: int|
                    0 <= i < told.len() ==> {
                        &&& (#[trigger] told[i]).id == monitors@[i].id
                        &&& told[i].x == monitors@[i].x && told[i].y == monitors@[i].y
                        &&& told[i].width == monitors@[i].width
                        &&& told[i].height == monitors@[i].height
                        &&& told[i].is_primary <==> monitors@[i].x == 0 && monitors@[i].y == 0
                    }
            },
            _ => false,
        },
{
}

/// However the user ends the connection, nothing stays pressed, and the program ends
/// with success where it ends.
pub proof fn law_user_ends_connection(w: WindowState, s: InputView)
    ensures
        window::on_window_event(w, WindowEvent::CloseRequested) matches
            WindowActionView::SendAndExit(r, code) && code == 0 && session::on_request(
            s,
            Some(r),
        ).1 is ReleaseAndEnd,
        window::on_window_event(w, WindowEvent::DisconnectRequested) matches
            WindowActionView::AbandonAndSend(r) && session::on_request(
            s,
            Some(r),
        ).1 is ReleaseAndEnd,
        window::on_window_event(w, WindowEvent::DisconnectShortcut) == WindowActionView::Exit(0),
{
}

/// What only concerns the window leaves the server alone: the placeholder is drawn
/// until there are frames, the screen is filled or no longer, the overlay gets new
/// content when it appears.
pub proof fn law_window_matters_stay_local(w: WindowState, flag: bool)
    ensures
        window::on_window_event(w, WindowEvent::Resized) == window::on_window_event(
            w,
            WindowEvent::RedrawRequested,
        ),
        window::on_window_event(w, WindowEvent::Resized) == WindowActionView::DrawPlaceholder
            <==> !w.has_frames,
        w.has_frames ==> window::on_window_event(w, WindowEvent::Resized)
            == WindowActionView::Nothing,
        window::on_window_event(
            w,
            WindowEvent::ToggleFullscreenShortcut { multi_monitor: flag },
        ) == (if flag {
            WindowActionView::ToggleAllFullscreen
        } else {
            WindowActionView::ToggleFullscreen
        }),
        window::on_window_event(w, WindowEvent::OverlayVisibilityChanged { visible: flag }) == (
        if flag {
            WindowActionView::RefreshOverlay
        } else {
            WindowActionView::Nothing
        }),
        window::on_window_event(w, WindowEvent::FullscreenChanged { is_fullscreen: flag })
            == WindowActionView::Nothing,
        window::on_window_event(w, WindowEvent::MonitorConnected) == WindowActionView::Nothing,
        window::on_window_event(w, WindowEvent::MonitorDisconnected) == WindowActionView::Nothing,
        window::on_window_event(w, WindowEvent::MonitorResolutionChanged)
            == WindowActionView::Nothing,
{
}

/// What the clipboard handler reports reaches the main thread: text is put on the
/// local clipboard, files are downloaded, sizes, parts and failures are handled under
/// the identifier that they came with.
pub proof fn law_remote_clipboard_reaches_user(
    w: WindowState,
    text: Seq<char>,
    files: Seq<FileInfoView>,
    stream_id: u32,
    size: u64,
    data: Seq<u8>,
    visible: bool,
)
    ensures
        reported(w, EventView::TextReceived { text }, visible) == Some(
            NewsActionView::SetClipboardText(text),
        ),
        reported(w, EventView::FilesReceived { files }, visible) == Some(
            NewsActionView::BeginDownloads(files),
        ),
        reported(w, EventView::FileSizeReceived { stream_id, size }, visible) == Some(
            NewsActionView::SizeArrived { stream_id, size },
        ),
        reported(w, EventView::FileContentReceived { stream_id, data }, visible) == Some(
            NewsActionView::ContentArrived { stream_id, data },
        ),
        reported(w, EventView::FileTransferFailed { stream_id }, visible) == Some(
            NewsActionView::DownloadFailed { stream_id },
        ),
        reported(w, EventView::RequestFailed, visible) == Some(NewsActionView::Nothing),
{
}

/// What the main thread does about an event of the clipboard handler, where it is
/// told of one thing.
pub open spec fn reported(w: WindowState, e: EventView, visible: bool) -> Option<NewsActionView> {
    let news = session::clipboard_news_of(e);
    if news.len() == 1 {
        let (next, action) = window::on_window_news(w, Some(news[0]), visible);
        if next == w {
            Some(action)
        } else {
            None
        }
    } else {
        None
    }
}

/// Of formats that the server has the main thread is told where they are text, and
/// where they are files, with the formats as they came.
pub proof fn law_remote_formats_are_reported(formats: Seq<u32>, has_text: bool, has_files: bool)
    ensures
        ({
            let news = session::clipboard_news_of(
                EventView::FormatsAvailable { formats, has_text, has_files },
            );
            &&& news.contains(NewsView::ClipboardTextAvailable { formats }) <==> has_text
            &&& news.contains(NewsView::ClipboardFilesAvailable { formats }) <==> has_files
            &&& news.len() == (if has_text {
                1int
            } else {
                0
            }) + (if has_files {
                1int
            } else {
                0
            })
        }),
{
    let news = session::clipboard_news_of(
        EventView::FormatsAvailable { formats, has_text, has_files },
    );
    if has_text {
        assert(news[0] == (NewsView::ClipboardTextAvailable { formats }));
    }
    if has_files {
        assert(news[news.len() - 1] == (NewsView::ClipboardFilesAvailable { formats }));
    }
}

/// A frame is drawn as it came, and from then on there are frames; a round trip is
/// remembered, and shown where the overlay is visible.
pub proof fn law_pictures_reach_user(w: WindowState, f: FrameView, rtt_ms: u32, visible: bool)
    ensures
        window::on_window_news(w, Some(NewsView::Frame(f)), visible) == (
            WindowState { has_frames: true, ..w },
            NewsActionView::Draw(f),
        ),
        window::on_window_news(w, Some(NewsView::LatencyUpdate { rtt_ms }), visible).0 == (
        WindowState { latest_rtt_ms: Some(rtt_ms), ..w }),
        window::on_window_news(w, Some(NewsView::LatencyUpdate { rtt_ms }), visible).1
            == NewsActionView::RefreshOverlay <==> visible,
        !visible ==> window::on_window_news(
            w,
            Some(NewsView::LatencyUpdate { rtt_ms }),
            visible,
        ).1 == NewsActionView::Nothing,
{
}

/// The user is asked about the certificate that the server showed, under the name of
/// that server, whether or not there is a window.
pub proof fn law_certificate_reaches_user(
    w: WindowState,
    server: Seq<char>,
    cert_info: CertificateView,
    visible: bool,
)
    ensures
        window::on_window_news(w, Some(NewsView::CertificateVerify { server, cert_info }), visible)
            == (w, NewsActionView::AskCertificate { server, cert_info }),
        window::on_setup_news(Some(NewsView::CertificateVerify { server, cert_info })) == (
        SetupActionView::AskCertificate { server, cert_info }),
        window::on_headless_news(Some(NewsView::CertificateVerify { server, cert_info })) == (
        SetupActionView::AskCertificate { server, cert_info }),
{
}

/// A window is made for the desktop that the server agreed to, and none without a
/// window system.
pub proof fn law_window_has_agreed_size(size: DesktopSize, news: Option<NewsView>)
    ensures
        window::on_setup_news(Some(NewsView::Connected(size))) == SetupActionView::Ready(size),
        window::on_setup_news(Some(NewsView::MonitorLayoutAccepted { desktop_size: size }))
            == SetupActionView::Ready(size),
        window::on_setup_news(news) is Ready ==> news is Some && (news->0 is Connected || news->0
            is MonitorLayoutAccepted),
        !(window::on_headless_news(news) is Ready),
        window::on_setup_news(news) is Ready ==> window::on_headless_news(news)
            == SetupActionView::Wait,
{
}

/// The end of a connection ends the program: with success where the server ended it,
/// with the code of the error where there was one, with that of a failed connection
/// where the network thread is gone; and the user is told why, in the words of the
/// error.
pub proof fn law_end_reaches_user(w: WindowState, e: ConnectionErrorView, visible: bool)
    ensures
        window::on_setup_news(None) == SetupActionView::Exit(1),
        window::on_setup_news(Some(NewsView::Disconnected)) == SetupActionView::Exit(0),
        window::on_window_news(w, None, visible) == (
            w,
            NewsActionView::Exit { code: 1, reason: None },
        ),
        window::on_window_news(w, Some(NewsView::Disconnected), visible) == (
            w,
            NewsActionView::Exit { code: 0, reason: Some("Connection closed"@) },
        ),
        ({
            let code: u8 = match e {
                ConnectionErrorView::AuthenticationFailed(_) => 2,
                ConnectionErrorView::Protocol(_) => 3,
                _ => 1,
            };
            &&& window::on_setup_news(Some(NewsView::Error(e))) == SetupActionView::Exit(code)
            &&& window::on_headless_news(Some(NewsView::Error(e))) == SetupActionView::Exit(code)
            &&& window::on_window_news(w, Some(NewsView::Error(e)), visible) == (
                w,
                NewsActionView::Exit { code, reason: Some(e.text()) },
            )
        }),
        exit_codes::SUCCESS == 0 && exit_codes::CONNECTION_ERROR == 1 && exit_codes::AUTH_ERROR
            == 2 && exit_codes::PROTOCOL_ERROR == 3,
{
}

/// Other news neither end the program nor change what it remembers.
pub proof fn law_other_news_are_ignored(w: WindowState, news: NewsView, visible: bool)
    requires
        news is Connecting || news is Connected || news is MonitorLayoutAccepted || news
            is MultiMonitorNotSupported || news is ClipboardTextAvailable || news
            is ClipboardFilesAvailable || news is ClipboardRequestFailed,
    ensures
        window::on_window_news(w, Some(news), visible) == (w, NewsActionView::Nothing),
        !(news is Connected || news is MonitorLayoutAccepted) ==> window::on_setup_news(Some(news))
            == SetupActionView::Wait,
{
}

/// What the server hears of anew: a move to where the pointer is not, a press of a
/// button that is not held, a release of what is held; any press of a key or a
/// character and any turn of the wheel.
pub proof fn law_changes_are_told(s: InputView, x: u16, y: u16, op: InputOperation)
    ensures
        input::worth_telling(s.held, s.pointer, InputOperation::Move(x, y)) <==> s.pointer != (
            x,
            y,
        ),
        op is ButtonPressed ==> (input::worth_telling(s.held, s.pointer, op)
            <==> !s.held.contains(input::pressed_by(op)->0)),
        op is KeyReleased || op is CharacterReleased || op is ButtonReleased ==> (
        input::worth_telling(s.held, s.pointer, op) <==> s.held.contains(
            input::released_by(op)->0,
        )),
        op is KeyPressed || op is CharacterPressed || op is Wheel ==> input::worth_telling(
            s.held,
            s.pointer,
            op,
        ),
        input::some_worth_telling(s.held, s.pointer, seq![op]) <==> input::worth_telling(
            s.held,
            s.pointer,
            op,
        ),
{
    reveal_with_fuel(input::some_worth_telling, 2);
    reveal_with_fuel(input::held_after_all, 2);
    reveal_with_fuel(input::pointer_after_all, 2);
    assert(seq![op].drop_last() =~= Seq::<InputOperation>::empty());
}

/// A press holds what its release lets go, and nothing else is held or let go; the
/// pointer stays where it is but for a move.
pub proof fn law_release_undoes_press(key: (bool, u8), c: char, b: MouseButton)
    ensures
        input::pressed_by(InputOperation::KeyPressed(key)) == input::released_by(
            InputOperation::KeyReleased(key),
        ),
        input::pressed_by(InputOperation::KeyPressed(key)) == Some(
            HeldInput::Key { extended: key.0, code: key.1 },
        ),
        input::pressed_by(InputOperation::CharacterPressed(c)) == input::released_by(
            InputOperation::CharacterReleased(c),
        ),
        input::pressed_by(InputOperation::CharacterPressed(c)) == Some(HeldInput::Character(c)),
        input::pressed_by(InputOperation::ButtonPressed(b)) == input::released_by(
            InputOperation::ButtonReleased(b),
        ),
        input::pressed_by(InputOperation::ButtonReleased(b)) is None,
        input::released_by(InputOperation::ButtonPressed(b)) is None,
{
}

} // verus!
