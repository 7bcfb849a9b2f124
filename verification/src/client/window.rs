//! The decisions of the main thread: before there is a window, with a window, and
//! without one.
use vstd::prelude::*;

use std::path::PathBuf;

use crate::client;
use crate::client::exit_codes;
use crate::cliprdr::{FileInfo, FileInfoView};
use crate::messages::{
    CertificateInfo, CertificateView, FromNetwork, MouseButton, NewsView, RequestView, ToNetwork,
};
use crate::monitors::{DesktopSize, RdpMonitorLayout};
use crate::video::{DecodedFrame, FrameView};
use crate::views;

verus! {

/// How long the event loop waits for events, in milliseconds.
pub const EVENT_LOOP_TIMEOUT_MS: u64 = 16;

/// How often events are waited for while monitors are found.
pub const MONITOR_DETECTION_ROUNDS: usize = 5;

/// How long events are waited for while monitors are found, in milliseconds.
pub const MONITOR_DETECTION_TIMEOUT_MS: u64 = 50;

/// Red, green and blue of the window before the first frame.
pub const PLACEHOLDER_LEVEL: u8 = 40;

/// What to do about news when there is no window.
pub enum SetupAction {
    /// Wait for more.
    Wait,
    /// The desktop has this size: make a window.
    Ready(DesktopSize),
    /// Ask the user about a certificate, and report the answer.
    AskCertificate {
        /// Host and port of the server.
        server: String,
        /// The certificate.
        cert_info: CertificateInfo,
    },
    /// End the program.
    Exit(u8),
}

/// The view of `SetupAction`.
pub enum SetupActionView {
    /// Wait for more.
    Wait,
    /// The desktop has this size: make a window.
    Ready(DesktopSize),
    /// Ask the user about a certificate, and report the answer.
    AskCertificate {
        /// Host and port of the server.
        server: Seq<char>,
        /// The certificate.
        cert_info: CertificateView,
    },
    /// End the program.
    Exit(u8),
}

impl View for SetupAction {
    type V = SetupActionView;

    open spec fn view(&self) -> SetupActionView {
        match *self {
            SetupAction::Wait => SetupActionView::Wait,
            SetupAction::Ready(size) => SetupActionView::Ready(size),
            SetupAction::AskCertificate { server, cert_info } => {
                SetupActionView::AskCertificate { server: server@, cert_info: cert_info@ }
            },
            SetupAction::Exit(code) => SetupActionView::Exit(code),
        }
    }
}

/// What news lead to before there is a window, where `None` says that the network
/// thread is gone.
pub open spec fn on_setup_news(news: Option<NewsView>) -> SetupActionView {
    match news {
        None => SetupActionView::Exit(1),
        Some(NewsView::Connected(size)) => SetupActionView::Ready(size),
        Some(NewsView::MonitorLayoutAccepted { desktop_size }) => SetupActionView::Ready(
            desktop_size,
        ),
        Some(NewsView::CertificateVerify { server, cert_info }) => {
            SetupActionView::AskCertificate { server, cert_info }
        },
        Some(NewsView::Disconnected) => SetupActionView::Exit(0),
        Some(NewsView::Error(e)) => SetupActionView::Exit(client::exit_code_of(e)),
        Some(_) => SetupActionView::Wait,
    }
}

/// What news lead to without a window: only certificates, errors and the end count.
pub open spec fn on_headless_news(news: Option<NewsView>) -> SetupActionView {
    match on_setup_news(news) {
        SetupActionView::Ready(_) => SetupActionView::Wait,
        action => action,
    }
}

/// The view of news that may not be there.
pub open spec fn news_view(news: Option<FromNetwork>) -> Option<NewsView> {
    match news {
        Some(n) => Some(n@),
        None => None,
    }
}

/// Decides on news before there is a window.
pub fn setup_step(news: Option<FromNetwork>) -> (a: SetupAction)
    ensures
        a@ == on_setup_news(news_view(news)),
{
    match news {
        None => SetupAction::Exit(exit_codes::CONNECTION_ERROR),
        Some(FromNetwork::Connected(size)) => SetupAction::Ready(size),
        Some(FromNetwork::MonitorLayoutAccepted { desktop_size }) => {
            SetupAction::Ready(desktop_size)
        },
        Some(FromNetwork::CertificateVerify { server, cert_info }) => {
            SetupAction::AskCertificate { server, cert_info }
        },
        Some(FromNetwork::Disconnected) => SetupAction::Exit(exit_codes::SUCCESS),
        Some(FromNetwork::Error(e)) => SetupAction::Exit(client::map_error_to_exit_code(&e)),
        Some(_) => SetupAction::Wait,
    }
}

/// Decides on news without a window.
pub fn headless_step(news: Option<FromNetwork>) -> (a: SetupAction)
    ensures
        a@ == on_headless_news(news_view(news)),
{
    match setup_step(news) {
        SetupAction::Ready(_) => SetupAction::Wait,
        action => action,
    }
}

/// What the overlay shows.
#[derive(Debug)]
pub struct OverlayContent {
    /// The connection is up.
    pub connected: bool,
    /// The server.
    pub server_name: String,
    /// How long the session lasts, in milliseconds.
    pub session_millis: u64,
    /// The latest round trip, in milliseconds.
    pub rtt_ms: Option<u32>,
    /// Why the connection ended.
    pub disconnect_reason: Option<String>,
}

/// The overlay of a connection that is up.
pub fn connected_overlay(server_name: &str, session_millis: u64, rtt_ms: Option<u32>) -> (o:
    OverlayContent)
    ensures
        o.connected,
        o.server_name@ == server_name@,
        o.session_millis == session_millis,
        o.rtt_ms == rtt_ms,
        o.disconnect_reason is None,
{
    OverlayContent {
        connected: true,
        server_name: server_name.to_owned(),
        session_millis,
        rtt_ms,
        disconnect_reason: None,
    }
}

/// The overlay of a connection that ended.
pub fn disconnected_overlay(server_name: &str, session_millis: u64, reason: String) -> (o:
    OverlayContent)
    ensures
        !o.connected,
        o.server_name@ == server_name@,
        o.session_millis == session_millis,
        o.rtt_ms is None,
        o.disconnect_reason == Some(reason),
{
    OverlayContent {
        connected: false,
        server_name: server_name.to_owned(),
        session_millis,
        rtt_ms: None,
        disconnect_reason: Some(reason),
    }
}

/// Tests whether the overlay is due for new content: while it is visible, once
/// each second.
pub fn overlay_due(visible: bool, seconds_since_update: u64) -> (b: bool)
    ensures
        b == (visible && seconds_since_update >= 1),
{
    visible && seconds_since_update >= 1
}

/// What to do about news when there is a window.
pub enum NewsAction {
    /// Nothing.
    Nothing,
    /// Show why the connection ended, where that is known, and end the program.
    Exit {
        /// The exit code.
        code: u8,
        /// Why the connection ended.
        reason: Option<String>,
    },
    /// Ask the user about a certificate, and report the answer.
    AskCertificate {
        /// Host and port of the server.
        server: String,
        /// The certificate.
        cert_info: CertificateInfo,
    },
    /// Draw.
    Draw(DecodedFrame),
    /// Give the overlay new content.
    RefreshOverlay,
    /// Put text on the local clipboard.
    SetClipboardText(String),
    /// Download files.
    BeginDownloads(Vec<FileInfo>),
    /// Handle the size of a file.
    SizeArrived {
        /// The number of the request.
        stream_id: u32,
        /// The size in bytes.
        size: u64,
    },
    /// Handle a part of a file.
    ContentArrived {
        /// The number of the request.
        stream_id: u32,
        /// The part.
        data: Vec<u8>,
    },
    /// Handle a failed download.
    DownloadFailed {
        /// The number of the request.
        stream_id: u32,
    },
}

/// The view of `NewsAction`.
pub enum NewsActionView {
    /// Nothing.
    Nothing,
    /// Show why the connection ended, where that is known, and end the program.
    Exit {
        /// The exit code.
        code: u8,
        /// Why the connection ended.
        reason: Option<Seq<char>>,
    },
    /// Ask the user about a certificate, and report the answer.
    AskCertificate {
        /// Host and port of the server.
        server: Seq<char>,
        /// The certificate.
        cert_info: CertificateView,
    },
    /// Draw.
    Draw(FrameView),
    /// Give the overlay new content.
    RefreshOverlay,
    /// Put text on the local clipboard.
    SetClipboardText(Seq<char>),
    /// Download files.
    BeginDownloads(Seq<FileInfoView>),
    /// Handle the size of a file.
    SizeArrived {
        /// The number of the request.
        stream_id: u32,
        /// The size in bytes.
        size: u64,
    },
    /// Handle a part of a file.
    ContentArrived {
        /// The number of the request.
        stream_id: u32,
        /// The part.
        data: Seq<u8>,
    },
    /// Handle a failed download.
    DownloadFailed {
        /// The number of the request.
        stream_id: u32,
    },
}

impl View for NewsAction {
    type V = NewsActionView;

    open spec fn view(&self) -> NewsActionView {
        match *self {
            NewsAction::Nothing => NewsActionView::Nothing,
            NewsAction::Exit { code, reason } => {
                NewsActionView::Exit { code, reason: views::option_view(reason) }
            },
            NewsAction::AskCertificate { server, cert_info } => {
                NewsActionView::AskCertificate { server: server@, cert_info: cert_info@ }
            },
            NewsAction::Draw(f) => NewsActionView::Draw(f@),
            NewsAction::RefreshOverlay => NewsActionView::RefreshOverlay,
            NewsAction::SetClipboardText(t) => NewsActionView::SetClipboardText(t@),
            NewsAction::BeginDownloads(files) => {
                NewsActionView::BeginDownloads(views::seq_view(files@))
            },
            NewsAction::SizeArrived { stream_id, size } => {
                NewsActionView::SizeArrived { stream_id, size }
            },
            NewsAction::ContentArrived { stream_id, data } => {
                NewsActionView::ContentArrived { stream_id, data: data@ }
            },
            NewsAction::DownloadFailed { stream_id } => {
                NewsActionView::DownloadFailed { stream_id }
            },
        }
    }
}

/// What the main thread remembers while there is a window.
#[derive(Debug, Clone, Copy, PartialEq, Eq, Structural)]
pub struct WindowState {
    /// Frames were drawn.
    pub has_frames: bool,
    /// The latest round trip, in milliseconds.
    pub latest_rtt_ms: Option<u32>,
}

/// What news lead to when there is a window, where `None` says that the network
/// thread is gone.
pub open spec fn on_window_news(
    s: WindowState,
    news: Option<NewsView>,
    overlay_visible: bool,
) -> (WindowState, NewsActionView) {
    match news {
        None => (s, NewsActionView::Exit { code: 1, reason: None }),
        Some(NewsView::Disconnected) => (
            s,
            NewsActionView::Exit { code: 0, reason: Some("Connection closed"@) },
        ),
        Some(NewsView::Error(e)) => (
            s,
            NewsActionView::Exit { code: client::exit_code_of(e), reason: Some(e.text()) },
        ),
        Some(NewsView::CertificateVerify { server, cert_info }) => (
            s,
            NewsActionView::AskCertificate { server, cert_info },
        ),
        Some(NewsView::Frame(f)) => (
            WindowState { has_frames: true, ..s },
            NewsActionView::Draw(f),
        ),
        Some(NewsView::LatencyUpdate { rtt_ms }) => (
            WindowState { latest_rtt_ms: Some(rtt_ms), ..s },
            if overlay_visible {
                NewsActionView::RefreshOverlay
            } else {
                NewsActionView::Nothing
            },
        ),
        Some(NewsView::ClipboardText { text }) => (s, NewsActionView::SetClipboardText(text)),
        Some(NewsView::ClipboardFilesReceived { files }) => (
            s,
            NewsActionView::BeginDownloads(files),
        ),
        Some(NewsView::ClipboardFileSizeReceived { stream_id, size }) => (
            s,
            NewsActionView::SizeArrived { stream_id, size },
        ),
        Some(NewsView::ClipboardFileContentReceived { stream_id, data }) => (
            s,
            NewsActionView::ContentArrived { stream_id, data },
        ),
        Some(NewsView::ClipboardFileTransferFailed { stream_id }) => (
            s,
            NewsActionView::DownloadFailed { stream_id },
        ),
        Some(_) => (s, NewsActionView::Nothing),
    }
}

/// A monitor as the window system has it.
#[derive(Debug, Clone, Copy, PartialEq, Eq, Structural)]
pub struct MonitorGeometry {
    /// The number of the monitor.
    pub id: u32,
    /// Width in pixels.
    pub width: u32,
    /// Height in pixels.
    pub height: u32,
    /// Left edge.
    pub x: i32,
    /// Top edge.
    pub y: i32,
}

/// What happens to the window. Places are on the remote desktop.
#[derive(Debug)]
pub enum WindowEvent {
    /// The window is to be closed.
    CloseRequested,
    /// The size of the window changed.
    Resized,
    /// The window is to be drawn again.
    RedrawRequested,
    /// The window fills the screen, or no longer does.
    FullscreenChanged {
        /// The window fills the screen.
        is_fullscreen: bool,
    },
    /// The shortcut for filling the screen was pressed.
    ToggleFullscreenShortcut {
        /// There is a window on each monitor.
        multi_monitor: bool,
    },
    /// The shortcut for ending the connection was pressed.
    DisconnectShortcut,
    /// A key was pressed.
    KeyPressed {
        /// The scancode.
        scancode: u16,
    },
    /// A key was released.
    KeyReleased {
        /// The scancode.
        scancode: u16,
    },
    /// A character was pressed.
    UnicodeKeyPressed {
        /// The character.
        character: char,
    },
    /// A character was released.
    UnicodeKeyReleased {
        /// The character.
        character: char,
    },
    /// The pointer was moved.
    MouseMove {
        /// How far right.
        x: u16,
        /// How far down.
        y: u16,
    },
    /// A mouse button was pressed or released.
    MouseButton {
        /// The number of the button.
        button: u32,
        /// The button was pressed.
        pressed: bool,
        /// How far right.
        x: u16,
        /// How far down.
        y: u16,
    },
    /// The mouse wheel was turned.
    MouseAxis {
        /// The wheel is the horizontal one.
        horizontal: bool,
        /// How far it was turned.
        delta: i16,
        /// How far right.
        x: u16,
        /// How far down.
        y: u16,
    },
    /// A monitor was connected.
    MonitorConnected,
    /// A monitor was disconnected.
    MonitorDisconnected,
    /// The monitors changed.
    MonitorLayoutChanged {
        /// The monitors.
        monitors: Vec<MonitorGeometry>,
    },
    /// The resolution of a monitor changed.
    MonitorResolutionChanged,
    /// Text was copied.
    LocalClipboardChanged {
        /// The text.
        text: String,
    },
    /// Files were copied.
    LocalClipboardFilesChanged {
        /// Their paths.
        files: Vec<PathBuf>,
    },
    /// The overlay appeared or vanished.
    OverlayVisibilityChanged {
        /// The overlay appeared.
        visible: bool,
    },
    /// The button for ending the connection was pressed.
    DisconnectRequested,
}

/// What to do about it.
pub enum WindowAction {
    /// Nothing.
    Nothing,
    /// Ask the network thread for something.
    Send(ToNetwork),
    /// Ask the network thread for something, and end the program.
    SendAndExit(ToNetwork, u8),
    /// End the program.
    Exit(u8),
    /// Draw the placeholder.
    DrawPlaceholder,
    /// Let the window fill the screen, or no longer.
    ToggleFullscreen,
    /// Let the windows fill their screens, or no longer.
    ToggleAllFullscreen,
    /// Give the overlay new content.
    RefreshOverlay,
    /// Remove what was downloaded, ask the network thread for something, and leave
    /// the other events for later.
    AbandonAndSend(ToNetwork),
}

/// The view of `WindowAction`.
pub enum WindowActionView {
    /// Nothing.
    Nothing,
    /// Ask the network thread for something.
    Send(RequestView),
    /// Ask the network thread for something, and end the program.
    SendAndExit(RequestView, u8),
    /// End the program.
    Exit(u8),
    /// Draw the placeholder.
    DrawPlaceholder,
    /// Let the window fill the screen, or no longer.
    ToggleFullscreen,
    /// Let the windows fill their screens, or no longer.
    ToggleAllFullscreen,
    /// Give the overlay new content.
    RefreshOverlay,
    /// Remove what was downloaded, ask the network thread for something, and leave
    /// the other events for later.
    AbandonAndSend(RequestView),
}

impl View for WindowAction {
    type V = WindowActionView;

    open spec fn view(&self) -> WindowActionView {
        match *self {
            WindowAction::Nothing => WindowActionView::Nothing,
            WindowAction::Send(r) => WindowActionView::Send(r@),
            WindowAction::SendAndExit(r, code) => WindowActionView::SendAndExit(r@, code),
            WindowAction::Exit(code) => WindowActionView::Exit(code),
            WindowAction::DrawPlaceholder => WindowActionView::DrawPlaceholder,
            WindowAction::ToggleFullscreen => WindowActionView::ToggleFullscreen,
            WindowAction::ToggleAllFullscreen => WindowActionView::ToggleAllFullscreen,
            WindowAction::RefreshOverlay => WindowActionView::RefreshOverlay,
            WindowAction::AbandonAndSend(r) => WindowActionView::AbandonAndSend(r@),
        }
    }
}

/// The mouse button of the number that the system gives it.
pub open spec fn button_of(number: u32) -> Option<MouseButton> {
    if number == 0x110 {
        Some(MouseButton::Left)
    } else if number == 0x111 {
        Some(MouseButton::Right)
    } else if number == 0x112 {
        Some(MouseButton::Middle)
    } else {
        None
    }
}

/// The mouse button of the number that the system gives it.
pub fn mouse_button(number: u32) -> (b: Option<MouseButton>)
    ensures
        b == button_of(number),
{
    match number {
        0x110 => Some(MouseButton::Left),
        0x111 => Some(MouseButton::Right),
        0x112 => Some(MouseButton::Middle),
        _ => None,
    }
}

/// A monitor as the server is told of it: the one at the origin is the primary one.
pub open spec fn reported_monitor(m: MonitorGeometry) -> RdpMonitorLayout {
    RdpMonitorLayout {
        id: m.id,
        width: m.width,
        height: m.height,
        x: m.x,
        y: m.y,
        is_primary: m.x == 0 && m.y == 0,
    }
}

/// Monitors as the server is told of them.
pub open spec fn reported_monitors(monitors: Seq<MonitorGeometry>) -> Seq<RdpMonitorLayout> {
    Seq::new(monitors.len(), |i: int| reported_monitor(monitors[i]))
}

/// Monitors as the server is told of them.
pub fn report_monitors(monitors: &[MonitorGeometry]) -> (v: Vec<RdpMonitorLayout>)
    ensures
        v@ == reported_monitors(monitors@),
{
    let mut v: Vec<RdpMonitorLayout> = Vec::new();
    let mut i: usize = 0;
    while i < monitors.len()
        invariant
            i <= monitors@.len(),
            v@ == reported_monitors(monitors@).take(i as int),
        decreases monitors@.len() - i,
    {
        let m = &monitors[i];
        v.push(
            RdpMonitorLayout {
                id: m.id,
                width: m.width,
                height: m.height,
                x: m.x,
                y: m.y,
                is_primary: m.x == 0 && m.y == 0,
            },
        );
        i = i + 1;
    }
    v
}

/// What an event of the window leads to.
pub open spec fn on_window_event(s: WindowState, e: WindowEvent) -> WindowActionView {
    match e {
        WindowEvent::CloseRequested => WindowActionView::SendAndExit(RequestView::Disconnect, 0),
        WindowEvent::Resized => if s.has_frames {
            WindowActionView::Nothing
        } else {
            WindowActionView::DrawPlaceholder
        },
        WindowEvent::RedrawRequested => if s.has_frames {
            WindowActionView::Nothing
        } else {
            WindowActionView::DrawPlaceholder
        },
        WindowEvent::ToggleFullscreenShortcut { multi_monitor } => if multi_monitor {
            WindowActionView::ToggleAllFullscreen
        } else {
            WindowActionView::ToggleFullscreen
        },
        WindowEvent::DisconnectShortcut => WindowActionView::Exit(0),
        WindowEvent::KeyPressed { scancode } => WindowActionView::Send(
            RequestView::KeyboardInput { scancode, pressed: true },
        ),
        WindowEvent::KeyReleased { scancode } => WindowActionView::Send(
            RequestView::KeyboardInput { scancode, pressed: false },
        ),
        WindowEvent::UnicodeKeyPressed { character } => WindowActionView::Send(
            RequestView::UnicodeInput { character, pressed: true },
        ),
        WindowEvent::UnicodeKeyReleased { character } => WindowActionView::Send(
            RequestView::UnicodeInput { character, pressed: false },
        ),
        WindowEvent::MouseMove { x, y } => WindowActionView::Send(RequestView::MouseMove { x, y }),
        WindowEvent::MouseButton { button, pressed, x, y } => match button_of(button) {
            Some(b) => WindowActionView::Send(
                RequestView::MouseButton { button: b, pressed, x, y },
            ),
            None => WindowActionView::Nothing,
        },
        WindowEvent::MouseAxis { horizontal, delta, x, y } => if delta != 0 {
            WindowActionView::Send(RequestView::MouseWheel { horizontal, delta, x, y })
        } else {
            WindowActionView::Nothing
        },
        WindowEvent::MonitorLayoutChanged { monitors } => WindowActionView::Send(
            RequestView::UpdateMonitorLayout { monitors: reported_monitors(monitors@) },
        ),
        WindowEvent::LocalClipboardChanged { text } => WindowActionView::Send(
            RequestView::LocalClipboardText { text: text@ },
        ),
        WindowEvent::LocalClipboardFilesChanged { files } => WindowActionView::Send(
            RequestView::LocalClipboardFiles { files: files@ },
        ),
        WindowEvent::OverlayVisibilityChanged { visible } => if visible {
            WindowActionView::RefreshOverlay
        } else {
            WindowActionView::Nothing
        },
        WindowEvent::DisconnectRequested => WindowActionView::AbandonAndSend(
            RequestView::Disconnect,
        ),
        WindowEvent::FullscreenChanged { .. } => WindowActionView::Nothing,
        WindowEvent::MonitorConnected => WindowActionView::Nothing,
        WindowEvent::MonitorDisconnected => WindowActionView::Nothing,
        WindowEvent::MonitorResolutionChanged => WindowActionView::Nothing,
    }
}

impl WindowState {
    /// Nothing was drawn, and no round trip was measured.
    pub fn new() -> (s: WindowState)
        ensures
            s == (WindowState { has_frames: false, latest_rtt_ms: None }),
    {
        WindowState { has_frames: false, latest_rtt_ms: None }
    }

    /// Decides on news when there is a window.
    pub fn on_news(&mut self, news: Option<FromNetwork>, overlay_visible: bool) -> (a: NewsAction)
        ensures
            (*final(self), a@) == on_window_news(*old(self), news_view(news), overlay_visible),
    {
        match news {
            None => NewsAction::Exit { code: exit_codes::CONNECTION_ERROR, reason: None },
            Some(FromNetwork::Disconnected) => NewsAction::Exit {
                code: exit_codes::SUCCESS,
                reason: Some("Connection closed".to_owned()),
            },
            Some(FromNetwork::Error(e)) => NewsAction::Exit {
                code: client::map_error_to_exit_code(&e),
                reason: Some(e.message()),
            },
            Some(FromNetwork::CertificateVerify { server, cert_info }) => {
                NewsAction::AskCertificate { server, cert_info }
            },
            Some(FromNetwork::Frame(f)) => {
                self.has_frames = true;
                NewsAction::Draw(f)
            },
            Some(FromNetwork::LatencyUpdate { rtt_ms }) => {
                self.latest_rtt_ms = Some(rtt_ms);
                if overlay_visible {
                    NewsAction::RefreshOverlay
                } else {
                    NewsAction::Nothing
                }
            },
            Some(FromNetwork::ClipboardText { text }) => NewsAction::SetClipboardText(text),
            Some(FromNetwork::ClipboardFilesReceived { files }) => {
                NewsAction::BeginDownloads(files)
            },
            Some(FromNetwork::ClipboardFileSizeReceived { stream_id, size }) => {
                NewsAction::SizeArrived { stream_id, size }
            },
            Some(FromNetwork::ClipboardFileContentReceived { stream_id, data }) => {
                NewsAction::ContentArrived { stream_id, data }
            },
            Some(FromNetwork::ClipboardFileTransferFailed { stream_id }) => {
                NewsAction::DownloadFailed { stream_id }
            },
            Some(_) => NewsAction::Nothing,
        }
    }

    /// Decides on an event of the window.
    pub fn on_event(&self, event: WindowEvent) -> (a: WindowAction)
        ensures
            a@ == on_window_event(*self, event),
    {
        match event {
            WindowEvent::CloseRequested => {
                WindowAction::SendAndExit(ToNetwork::Disconnect, exit_codes::SUCCESS)
            },
            WindowEvent::Resized => self.placeholder(),
            WindowEvent::RedrawRequested => self.placeholder(),
            WindowEvent::ToggleFullscreenShortcut { multi_monitor } => if multi_monitor {
                WindowAction::ToggleAllFullscreen
            } else {
                WindowAction::ToggleFullscreen
            },
            WindowEvent::DisconnectShortcut => WindowAction::Exit(exit_codes::SUCCESS),
            WindowEvent::KeyPressed { scancode } => {
                WindowAction::Send(ToNetwork::KeyboardInput { scancode, pressed: true })
            },
            WindowEvent::KeyReleased { scancode } => {
                WindowAction::Send(ToNetwork::KeyboardInput { scancode, pressed: false })
            },
            WindowEvent::UnicodeKeyPressed { character } => {
                WindowAction::Send(ToNetwork::UnicodeInput { character, pressed: true })
            },
            WindowEvent::UnicodeKeyReleased { character } => {
                WindowAction::Send(ToNetwork::UnicodeInput { character, pressed: false })
            },
            WindowEvent::MouseMove { x, y } => WindowAction::Send(ToNetwork::MouseMove { x, y }),
            WindowEvent::MouseButton { button, pressed, x, y } => match mouse_button(button) {
                Some(b) => {
                    WindowAction::Send(ToNetwork::MouseButton { button: b, pressed, x, y })
                },
                None => WindowAction::Nothing,
            },
            WindowEvent::MouseAxis { horizontal, delta, x, y } => if delta != 0 {
                WindowAction::Send(ToNetwork::MouseWheel { horizontal, delta, x, y })
            } else {
                WindowAction::Nothing
            },
            WindowEvent::MonitorLayoutChanged { monitors } => WindowAction::Send(
                ToNetwork::UpdateMonitorLayout { monitors: report_monitors(monitors.as_slice()) },
            ),
            WindowEvent::LocalClipboardChanged { text } => {
                WindowAction::Send(ToNetwork::LocalClipboardText { text })
            },
            WindowEvent::LocalClipboardFilesChanged { files } => {
                WindowAction::Send(ToNetwork::LocalClipboardFiles { files })
            },
            WindowEvent::OverlayVisibilityChanged { visible } => if visible {
                WindowAction::RefreshOverlay
            } else {
                WindowAction::Nothing
            },
            WindowEvent::DisconnectRequested => WindowAction::AbandonAndSend(ToNetwork::Disconnect),
            WindowEvent::FullscreenChanged { .. } => WindowAction::Nothing,
            WindowEvent::MonitorConnected => WindowAction::Nothing,
            WindowEvent::MonitorDisconnected => WindowAction::Nothing,
            WindowEvent::MonitorResolutionChanged => WindowAction::Nothing,
        }
    }

    /// Draws the placeholder as long as there are no frames.
    fn placeholder(&self) -> (a: WindowAction)
        ensures
            a@ == (if self.has_frames {
                WindowActionView::Nothing
            } else {
                WindowActionView::DrawPlaceholder
            }),
    {
        if self.has_frames {
            WindowAction::Nothing
        } else {
            WindowAction::DrawPlaceholder
        }
    }
}

/// The same errors lead to the same exit code with and without a window.
pub proof fn law_exit_codes_agree(s: WindowState, news: Option<NewsView>, visible: bool)
    ensures
        on_headless_news(news) matches SetupActionView::Exit(code) ==> (on_window_news(
            s,
            news,
            visible,
        ).1 matches NewsActionView::Exit { code: other, .. } && other == code),
        on_window_news(s, news, visible).1 matches NewsActionView::Exit { code, .. }
            ==> on_headless_news(news) == SetupActionView::Exit(code),
{
}

/// Once a frame was drawn, the placeholder is not drawn again.
pub proof fn law_placeholder_before_frames(s: WindowState, e: WindowEvent)
    requires
        s.has_frames,
    ensures
        !(on_window_event(s, e) is DrawPlaceholder),
{
}

/// Keys, characters and movements of the pointer in the window are passed on, and
/// the session takes them for input.
pub proof fn law_window_input_is_sent(s: WindowState, e: WindowEvent)
    requires
        e is KeyPressed || e is KeyReleased || e is UnicodeKeyPressed || e is UnicodeKeyReleased
            || e is MouseMove,
    ensures
        on_window_event(s, e) matches WindowActionView::Send(r)
            && crate::connection::input::is_input(r),
{
}

} // verus!
