//! The connection to the server, as the network thread runs it.
//!
//! The program around the library dials, negotiates and reads; it reports what
//! came of each step, and is told what to report to the main thread and what to do
//! next.
use vstd::prelude::*;

use crate::messages::{
    ConfigView, ConnectionConfig, ConnectionError, ConnectionErrorView, FromNetwork, NewsView,
    RequestView, ToNetwork,
};
use crate::monitors::DesktopSize;
use crate::text;
use crate::views;

pub mod certificate;
pub mod display;
pub mod input;
pub mod laws;
pub mod rdp_config;
pub mod session;

verus! {

/// How long dialing may take, in seconds.
pub const CONNECTION_TIMEOUT_SECS: u64 = 10;

/// How long the user may take to decide on a certificate, in seconds.
pub const CERTIFICATE_DECISION_TIMEOUT_SECS: u64 = 60;

/// What the network thread does between connections.
pub enum NetworkAction {
    /// Make a connection.
    Connect {
        /// The configuration.
        config: ConnectionConfig,
        /// The microphone belongs to this connection.
        with_capture: bool,
    },
    /// Report the end, and stop.
    Stop,
    /// Nothing.
    Ignore,
}

/// The view of `NetworkAction`.
pub enum NetworkActionView {
    /// Make a connection.
    Connect {
        /// The configuration.
        config: ConfigView,
        /// The microphone belongs to this connection.
        with_capture: bool,
    },
    /// Report the end, and stop.
    Stop,
    /// Nothing.
    Ignore,
}

impl View for NetworkAction {
    type V = NetworkActionView;

    open spec fn view(&self) -> NetworkActionView {
        match *self {
            NetworkAction::Connect { config, with_capture } => {
                NetworkActionView::Connect { config: config@, with_capture }
            },
            NetworkAction::Stop => NetworkActionView::Stop,
            NetworkAction::Ignore => NetworkActionView::Ignore,
        }
    }
}

/// What a request leads to between connections: whether the microphone is still to
/// be had, and what to do. The microphone belongs to the first connection.
pub open spec fn on_idle_request(capture: bool, r: RequestView) -> (bool, NetworkActionView) {
    match r {
        RequestView::Connect(config) => (
            false,
            NetworkActionView::Connect { config, with_capture: capture },
        ),
        RequestView::Disconnect => (capture, NetworkActionView::Stop),
        _ => (capture, NetworkActionView::Ignore),
    }
}

/// The network thread between connections.
#[derive(Debug)]
pub struct NetworkLoop {
    /// The microphone is still to be had.
    pub capture: bool,
}

impl NetworkLoop {
    /// The network thread before the first connection.
    pub fn new(capture: bool) -> (l: NetworkLoop)
        ensures
            l.capture == capture,
    {
        NetworkLoop { capture }
    }

    /// Decides on a request of the main thread between connections.
    pub fn step(&mut self, request: ToNetwork) -> (a: NetworkAction)
        ensures
            (final(self).capture, a@) == on_idle_request(old(self).capture, request@),
    {
        match request {
            ToNetwork::Connect(config) => {
                let with_capture = self.capture;
                self.capture = false;
                NetworkAction::Connect { config, with_capture }
            },
            ToNetwork::Disconnect => NetworkAction::Stop,
            _ => NetworkAction::Ignore,
        }
    }
}

/// The channels of a connection.
#[derive(Debug, Clone, Copy, PartialEq, Eq, Structural)]
pub struct ChannelPlan {
    /// The channel for the monitors.
    pub display_control: bool,
    /// The channel for sound.
    pub rdpsnd: bool,
    /// The channel for the microphone.
    pub audin: bool,
    /// The channel for the clipboard.
    pub cliprdr: bool,
}

/// The channels of a connection: monitors where there is a layout to report, sound
/// where there is an audio thread, the microphone where there is one and the
/// monitors do not take its place, and the clipboard where it is shared.
pub open spec fn planned_channels(c: ConfigView, has_audio: bool, has_capture: bool) -> ChannelPlan {
    ChannelPlan {
        display_control: c.monitor_layout is Some,
        rdpsnd: has_audio,
        audin: has_capture && c.monitor_layout is None,
        cliprdr: c.clipboard_enabled,
    }
}

/// The channels of a connection.
pub fn plan_channels(config: &ConnectionConfig, has_audio: bool, has_capture: bool) -> (p:
    ChannelPlan)
    ensures
        p == planned_channels(config@, has_audio, has_capture),
{
    let display_control = config.monitor_layout.is_some();
    ChannelPlan {
        display_control,
        rdpsnd: has_audio,
        audin: has_capture && !display_control,
        cliprdr: config.clipboard_enabled,
    }
}

/// Why dialing failed.
#[derive(Debug)]
pub enum DialFailure {
    /// The address could not be looked up.
    Lookup(String),
    /// The host has no address.
    NoAddress,
    /// Time ran out.
    TimedOut,
    /// The connection was not made.
    Connect(String),
    /// The own address could not be had.
    LocalAddress(String),
}

/// The view of `DialFailure`.
pub enum DialFailureView {
    /// The address could not be looked up.
    Lookup(Seq<char>),
    /// The host has no address.
    NoAddress,
    /// Time ran out.
    TimedOut,
    /// The connection was not made.
    Connect(Seq<char>),
    /// The own address could not be had.
    LocalAddress(Seq<char>),
}

impl View for DialFailure {
    type V = DialFailureView;

    open spec fn view(&self) -> DialFailureView {
        match *self {
            DialFailure::Lookup(s) => DialFailureView::Lookup(s@),
            DialFailure::NoAddress => DialFailureView::NoAddress,
            DialFailure::TimedOut => DialFailureView::TimedOut,
            DialFailure::Connect(s) => DialFailureView::Connect(s@),
            DialFailure::LocalAddress(s) => DialFailureView::LocalAddress(s@),
        }
    }
}

/// The error that a failure to dial is reported as.
pub open spec fn dial_error_of(f: DialFailureView) -> ConnectionErrorView {
    match f {
        DialFailureView::Lookup(s) => ConnectionErrorView::DnsResolution(s),
        DialFailureView::NoAddress => ConnectionErrorView::DnsResolution("No addresses found"@),
        DialFailureView::TimedOut => ConnectionErrorView::Timeout(
            "after "@ + text::decimal(10) + "s"@,
        ),
        DialFailureView::Connect(s) => if text::occurs(s, "refused"@) {
            ConnectionErrorView::ConnectionRefused(s)
        } else {
            ConnectionErrorView::Io(s)
        },
        DialFailureView::LocalAddress(s) => ConnectionErrorView::Io(
            "Failed to get local address: "@ + s,
        ),
    }
}

/// The error that a failure to dial is reported as.
pub fn dial_error(failure: DialFailure) -> (e: ConnectionError)
    ensures
        e@ == dial_error_of(failure@),
{
    match failure {
        DialFailure::Lookup(s) => ConnectionError::DnsResolution(s),
        DialFailure::NoAddress => ConnectionError::DnsResolution("No addresses found".to_owned()),
        DialFailure::TimedOut => {
            let mut s = "after ".to_owned();
            text::push_decimal(&mut s, CONNECTION_TIMEOUT_SECS);
            s.push_str("s");
            ConnectionError::Timeout(s)
        },
        DialFailure::Connect(s) => {
            if text::contains_text(s.as_str(), "refused") {
                ConnectionError::ConnectionRefused(s)
            } else {
                ConnectionError::Io(s)
            }
        },
        DialFailure::LocalAddress(s) => {
            ConnectionError::Io(text::prefixed("Failed to get local address: ", s.as_str()))
        },
    }
}

/// The error that a failed handshake is reported as.
pub open spec fn handshake_error_of(s: Seq<char>) -> ConnectionErrorView {
    if text::occurs(s, "access denied"@) || text::occurs(s, "Access denied"@) {
        ConnectionErrorView::AuthenticationFailed(s)
    } else {
        ConnectionErrorView::Protocol("RDP handshake failed: "@ + s)
    }
}

/// The error that a failed handshake is reported as.
fn handshake_error(s: String) -> (e: ConnectionError)
    ensures
        e@ == handshake_error_of(s@),
{
    if text::contains_text(s.as_str(), "access denied") || text::contains_text(
        s.as_str(),
        "Access denied",
    ) {
        ConnectionError::AuthenticationFailed(s)
    } else {
        ConnectionError::Protocol(text::prefixed("RDP handshake failed: ", s.as_str()))
    }
}

/// What happens while the user has to decide on a certificate.
pub enum WaitEvent {
    /// A request of the main thread.
    Request(ToNetwork),
    /// The main thread is gone.
    Closed,
    /// Time ran out.
    Expired,
}

/// The view of `WaitEvent`.
pub enum WaitEventView {
    /// A request of the main thread.
    Request(RequestView),
    /// The main thread is gone.
    Closed,
    /// Time ran out.
    Expired,
}

impl View for WaitEvent {
    type V = WaitEventView;

    open spec fn view(&self) -> WaitEventView {
        match *self {
            WaitEvent::Request(r) => WaitEventView::Request(r@),
            WaitEvent::Closed => WaitEventView::Closed,
            WaitEvent::Expired => WaitEventView::Expired,
        }
    }
}

/// What an event leads to while the user has to decide: the end of the wait, or
/// `None` to go on waiting.
pub open spec fn on_wait_event(e: WaitEventView) -> Option<Result<(), ConnectionErrorView>> {
    match e {
        WaitEventView::Request(RequestView::CertificateDecision(accepted)) => if accepted {
            Some(Ok(()))
        } else {
            Some(
                Err(
                    ConnectionErrorView::CertificateRejected(
                        "User rejected the server certificate"@,
                    ),
                ),
            )
        },
        WaitEventView::Request(RequestView::Disconnect) => Some(
            Err(ConnectionErrorView::Io("Connection cancelled by user"@)),
        ),
        WaitEventView::Request(_) => None,
        WaitEventView::Closed => Some(Err(ConnectionErrorView::Io("Channel closed"@))),
        WaitEventView::Expired => Some(
            Err(
                ConnectionErrorView::Timeout(
                    "Certificate decision timeout ("@ + text::decimal(60) + "s)"@,
                ),
            ),
        ),
    }
}

/// Decides on an event while the user has to decide on the certificate.
pub fn certificate_wait_step(event: WaitEvent) -> (r: Option<Result<(), ConnectionError>>)
    ensures
        match r {
            None => on_wait_event(event@) is None,
            Some(Ok(_)) => on_wait_event(event@) == Some(Ok::<(), ConnectionErrorView>(())),
            Some(Err(e)) => on_wait_event(event@) == Some(Err::<(), ConnectionErrorView>(e@)),
        },
{
    match event {
        WaitEvent::Request(ToNetwork::CertificateDecision(accepted)) => {
            if accepted {
                Some(Ok(()))
            } else {
                Some(
                    Err(
                        ConnectionError::CertificateRejected(
                            "User rejected the server certificate".to_owned(),
                        ),
                    ),
                )
            }
        },
        WaitEvent::Request(ToNetwork::Disconnect) => {
            Some(Err(ConnectionError::Io("Connection cancelled by user".to_owned())))
        },
        WaitEvent::Request(_) => None,
        WaitEvent::Closed => Some(Err(ConnectionError::Io("Channel closed".to_owned()))),
        WaitEvent::Expired => {
            let mut s = "Certificate decision timeout (".to_owned();
            text::push_decimal(&mut s, CERTIFICATE_DECISION_TIMEOUT_SECS);
            s.push_str("s)");
            Some(Err(ConnectionError::Timeout(s)))
        },
    }
}

/// How far a connection is made.
#[derive(Debug, Clone, Copy, PartialEq, Eq, Structural)]
pub enum ConnectPhase {
    /// The main thread is told that a connection is being made.
    Announcing,
    /// The server is dialed.
    Dialing,
    /// What is asked for is put together.
    Preparing,
    /// The protocol is negotiated.
    Negotiating,
    /// The secure channel is set up, and the user decides on the certificate.
    Securing,
    /// The handshake is finished.
    Finishing,
    /// The main thread is told that the connection is made.
    Reporting,
    /// The session runs.
    InSession,
    /// The connection is over.
    Over,
}

/// What came of the step that belongs to the phase.
pub enum ConnectEvent {
    /// The step succeeded.
    Done,
    /// The handshake is finished: the size of the desktop.
    Finished(DesktopSize),
    /// The step failed with an error.
    Failed(ConnectionError),
    /// The step failed with a text.
    Broke(String),
    /// The main thread is gone.
    MainGone,
}

/// The view of `ConnectEvent`.
pub enum ConnectEventView {
    /// The step succeeded.
    Done,
    /// The handshake is finished: the size of the desktop.
    Finished(DesktopSize),
    /// The step failed with an error.
    Failed(ConnectionErrorView),
    /// The step failed with a text.
    Broke(Seq<char>),
    /// The main thread is gone.
    MainGone,
}

impl View for ConnectEvent {
    type V = ConnectEventView;

    open spec fn view(&self) -> ConnectEventView {
        match *self {
            ConnectEvent::Done => ConnectEventView::Done,
            ConnectEvent::Finished(size) => ConnectEventView::Finished(size),
            ConnectEvent::Failed(e) => ConnectEventView::Failed(e@),
            ConnectEvent::Broke(s) => ConnectEventView::Broke(s@),
            ConnectEvent::MainGone => ConnectEventView::MainGone,
        }
    }
}

/// The error that a text from the step of a phase is reported as.
pub open spec fn broken(phase: ConnectPhase, s: Seq<char>) -> ConnectionErrorView {
    match phase {
        ConnectPhase::Negotiating => ConnectionErrorView::Protocol("RDP negotiation failed: "@ + s),
        ConnectPhase::Finishing => handshake_error_of(s),
        _ => ConnectionErrorView::Protocol(s),
    }
}

/// The phase after a step that succeeded.
pub open spec fn next_phase(phase: ConnectPhase) -> ConnectPhase {
    match phase {
        ConnectPhase::Announcing => ConnectPhase::Dialing,
        ConnectPhase::Dialing => ConnectPhase::Preparing,
        ConnectPhase::Preparing => ConnectPhase::Negotiating,
        ConnectPhase::Negotiating => ConnectPhase::Securing,
        ConnectPhase::Securing => ConnectPhase::Finishing,
        ConnectPhase::Finishing => ConnectPhase::Reporting,
        ConnectPhase::Reporting => ConnectPhase::InSession,
        ConnectPhase::InSession => ConnectPhase::Over,
        ConnectPhase::Over => ConnectPhase::Over,
    }
}

/// What an event leads to: the next phase, and what the main thread is told. A
/// failure before the session ends the connection with an error; a session ends
/// with the news that the connection ended, after an error where it broke.
pub open spec fn on_connect_event(phase: ConnectPhase, e: ConnectEventView) -> (
    ConnectPhase,
    Seq<NewsView>,
) {
    if phase == ConnectPhase::Over {
        (phase, Seq::empty())
    } else if phase == ConnectPhase::InSession {
        (
            ConnectPhase::Over,
            match e {
                ConnectEventView::Failed(error) => seq![
                    NewsView::Error(error),
                    NewsView::Disconnected,
                ],
                ConnectEventView::Broke(s) => seq![
                    NewsView::Error(broken(phase, s)),
                    NewsView::Disconnected,
                ],
                _ => seq![NewsView::Disconnected],
            },
        )
    } else {
        match e {
            ConnectEventView::Done => (next_phase(phase), Seq::empty()),
            ConnectEventView::Finished(size) => (
                next_phase(phase),
                seq![NewsView::Connected(size)],
            ),
            ConnectEventView::Failed(error) => (ConnectPhase::Over, seq![NewsView::Error(error)]),
            ConnectEventView::Broke(s) => (
                ConnectPhase::Over,
                seq![NewsView::Error(broken(phase, s))],
            ),
            ConnectEventView::MainGone => (ConnectPhase::Over, Seq::empty()),
        }
    }
}

/// The phase after a step that succeeded.
fn phase_after(phase: ConnectPhase) -> (p: ConnectPhase)
    ensures
        p == next_phase(phase),
{
    match phase {
        ConnectPhase::Announcing => ConnectPhase::Dialing,
        ConnectPhase::Dialing => ConnectPhase::Preparing,
        ConnectPhase::Preparing => ConnectPhase::Negotiating,
        ConnectPhase::Negotiating => ConnectPhase::Securing,
        ConnectPhase::Securing => ConnectPhase::Finishing,
        ConnectPhase::Finishing => ConnectPhase::Reporting,
        ConnectPhase::Reporting => ConnectPhase::InSession,
        ConnectPhase::InSession => ConnectPhase::Over,
        ConnectPhase::Over => ConnectPhase::Over,
    }
}

/// The error that a text from the step of a phase is reported as.
fn broken_error(phase: ConnectPhase, s: String) -> (e: ConnectionError)
    ensures
        e@ == broken(phase, s@),
{
    match phase {
        ConnectPhase::Negotiating => {
            ConnectionError::Protocol(text::prefixed("RDP negotiation failed: ", s.as_str()))
        },
        ConnectPhase::Finishing => handshake_error(s),
        _ => ConnectionError::Protocol(s),
    }
}

/// A connection that is being made.
#[derive(Debug)]
pub struct ConnectAttempt {
    /// How far it is made.
    pub phase: ConnectPhase,
}

impl ConnectAttempt {
    /// A connection that is about to be made, and what the main thread is told.
    pub fn begin() -> (r: (ConnectAttempt, FromNetwork))
        ensures
            r.0.phase == ConnectPhase::Announcing,
            r.1@ == NewsView::Connecting,
    {
        (ConnectAttempt { phase: ConnectPhase::Announcing }, FromNetwork::Connecting)
    }

    /// Takes note of what came of a step, and says what the main thread is told.
    pub fn step(&mut self, event: ConnectEvent) -> (news: Vec<FromNetwork>)
        ensures
            (final(self).phase, views::seq_view(news@)) == on_connect_event(
                old(self).phase,
                event@,
            ),
    {
        let mut news: Vec<FromNetwork> = Vec::new();
        let phase = self.phase;
        if phase == ConnectPhase::Over {
            assert(views::seq_view(news@) == Seq::<NewsView>::empty());
            return news;
        }
        let error = match event {
            ConnectEvent::Done => {
                self.phase = phase_after(phase);
                None
            },
            ConnectEvent::Finished(size) => {
                self.phase = phase_after(phase);
                if phase != ConnectPhase::InSession {
                    news.push(FromNetwork::Connected(size));
                }
                None
            },
            ConnectEvent::Failed(e) => {
                self.phase = ConnectPhase::Over;
                Some(e)
            },
            ConnectEvent::Broke(s) => {
                self.phase = ConnectPhase::Over;
                Some(broken_error(phase, s))
            },
            ConnectEvent::MainGone => {
                self.phase = ConnectPhase::Over;
                None
            },
        };
        if let Some(e) = error {
            news.push(FromNetwork::Error(e));
        }
        if phase == ConnectPhase::InSession {
            news.push(FromNetwork::Disconnected);
        }
        assert(views::seq_view(news@) == on_connect_event(old(self).phase, event@).1);
        news
    }
}

/// The microphone is handed to one connection only, however many are made.
pub proof fn law_microphone_is_handed_out_once(capture: bool, r: RequestView)
    ensures
        on_idle_request(capture, r).1 matches NetworkActionView::Connect { with_capture, .. }
            ==> with_capture == capture && !on_idle_request(capture, r).0,
        !capture ==> !on_idle_request(capture, r).0,
{
}

/// Monitors and the microphone are never on one connection.
pub proof fn law_monitors_exclude_microphone(c: ConfigView, has_audio: bool, has_capture: bool)
    ensures
        !(planned_channels(c, has_audio, has_capture).display_control && planned_channels(
            c,
            has_audio,
            has_capture,
        ).audin),
{
}

/// No certificate is accepted but by the user's word: whatever else happens, the
/// wait goes on or ends with an error.
pub proof fn law_certificate_needs_consent(e: WaitEventView)
    ensures
        on_wait_event(e) == Some(Ok::<(), ConnectionErrorView>(())) <==> e
            == WaitEventView::Request(RequestView::CertificateDecision(true)),
{
}

/// An attempt that is over stays over, and no more is reported of it.
pub proof fn law_over_is_final(e: ConnectEventView)
    ensures
        on_connect_event(ConnectPhase::Over, e) == (ConnectPhase::Over, Seq::<NewsView>::empty()),
{
}

/// The news of a connection over a sequence of events.
pub open spec fn connect_news(phase: ConnectPhase, events: Seq<ConnectEventView>) -> Seq<NewsView>
    decreases events.len(),
{
    if events.len() == 0 {
        Seq::empty()
    } else {
        let (next, news) = on_connect_event(phase, events[0]);
        news + connect_news(next, events.skip(1))
    }
}

/// The end of a connection is reported exactly where its session ends.
pub proof fn law_end_is_reported_of_sessions(phase: ConnectPhase, e: ConnectEventView)
    ensures
        on_connect_event(phase, e).1.contains(NewsView::Disconnected) <==> phase
            == ConnectPhase::InSession,
{
    let news = on_connect_event(phase, e).1;
    if phase == ConnectPhase::InSession {
        assert(news[news.len() - 1] == NewsView::Disconnected);
    }
}

/// Whatever happens, the end of a connection is reported at most once, and it is
/// the last that is reported.
pub proof fn law_end_is_reported_last(phase: ConnectPhase, events: Seq<ConnectEventView>, i: int)
    requires
        0 <= i < connect_news(phase, events).len(),
        connect_news(phase, events)[i] == NewsView::Disconnected,
    ensures
        i == connect_news(phase, events).len() - 1,
    decreases events.len(),
{
    if events.len() > 0 {
        let (next, news) = on_connect_event(phase, events[0]);
        let rest = connect_news(next, events.skip(1));
        if next == ConnectPhase::Over {
            lemma_nothing_after_over(events.skip(1));
        } else {
            assert(news.len() <= 1);
            if i >= news.len() {
                assert(connect_news(phase, events)[i] == rest[i - news.len()]);
                law_end_is_reported_last(next, events.skip(1), i - news.len());
            }
        }
    }
}

/// Nothing is reported of an attempt that is over.
proof fn lemma_nothing_after_over(events: Seq<ConnectEventView>)
    ensures
        connect_news(ConnectPhase::Over, events) == Seq::<NewsView>::empty(),
    decreases events.len(),
{
    if events.len() > 0 {
        lemma_nothing_after_over(events.skip(1));
    }
}

} // verus!
