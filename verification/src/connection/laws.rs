//! What holds of a connection as a whole.
use vstd::prelude::*;

use crate::connection;
use crate::connection::display;
use crate::connection::display::{EntryView, LayoutErrorView, LayoutOutcome};
use crate::connection::input;
use crate::connection::input::{HeldInput, InputView};
use crate::connection::rdp_config;
use crate::connection::rdp_config::RdpConfig;
use crate::connection::session;
use crate::connection::session::{OutputAction, SessionActionView, StageOutput, UpdateRect};
use crate::connection::{
    ConnectEventView, ConnectPhase, DialFailureView, NetworkActionView, WaitEventView,
};
use crate::messages::{
    ConfigView, ConnectionErrorView, NewsView, RequestView,
};
use crate::monitors;
use crate::monitors::{DesktopSize, RdpMonitorInfo};
use crate::text;
use crate::views;

verus! {

/// The server is told of every monitor where it is and as large as it is: each entry
/// has the place and the height of its monitor, the width of its monitor or one less
/// where that is odd, its scale, and its physical size where both sides are known.
pub proof fn law_monitors_are_told_as_they_are(monitors: Seq<RdpMonitorInfo>, i: int)
    requires
        display::told_layout(monitors) is Ok,
        0 <= i < monitors.len(),
    ensures
        ({
            let entry = display::told_layout(monitors)->Ok_0[i];
            let m = monitors[i];
            &&& display::told_layout(monitors)->Ok_0.len() == monitors.len()
            &&& entry.is_primary == m.is_primary
            &&& entry.left == m.x && entry.top == m.y
            &&& entry.height == m.height
            &&& entry.width % 2 == 0 && m.width - 1 <= entry.width <= m.width
            &&& entry.desktop_scale_factor == m.scale_percent
            &&& entry.orientation == 0
            &&& m.physical_width_mm is Some && m.physical_height_mm is Some ==> entry.physical_width
                == m.physical_width_mm->0 && entry.physical_height == m.physical_height_mm->0
            &&& m.physical_width_mm is None || m.physical_height_mm is None
                ==> entry.physical_width == 0 && entry.physical_height == 0
        }),
{
    monitors::law_valid_layout(monitors);
    if monitors[i].is_primary {
        let p = choose|p: int|
            #[trigger] monitors::only_primary(monitors, p) && monitors[p].x == 0 && monitors[p].y
                == 0;
        assert(i == p);
    }
}

/// Two monitors share no pixel.
pub open spec fn apart(a: RdpMonitorInfo, b: RdpMonitorInfo) -> bool {
    ||| a.x + a.width <= b.x
    ||| b.x + b.width <= a.x
    ||| a.y + a.height <= b.y
    ||| b.y + b.height <= a.y
}

/// Two entries share no pixel.
pub open spec fn entries_apart(a: EntryView, b: EntryView) -> bool {
    ||| a.left + a.width <= b.left
    ||| b.left + b.width <= a.left
    ||| a.top + a.height <= b.top
    ||| b.top + b.height <= a.top
}

/// Monitors that do not overlap here do not overlap in what the server is told.
pub proof fn law_told_monitors_do_not_overlap(monitors: Seq<RdpMonitorInfo>, i: int, j: int)
    requires
        display::told_layout(monitors) is Ok,
        0 <= i < monitors.len(),
        0 <= j < monitors.len(),
        apart(monitors[i], monitors[j]),
    ensures
        entries_apart(
            display::told_layout(monitors)->Ok_0[i],
            display::told_layout(monitors)->Ok_0[j],
        ),
{
    law_monitors_are_told_as_they_are(monitors, i);
    law_monitors_are_told_as_they_are(monitors, j);
}

/// A layout is told where it is valid, has at most 1024 monitors, and every monitor
/// has sides of 200 to 8192 pixels, a scale of 100 to 500 percent and, where both its
/// physical sides are known, sides of 10 to 10000 millimetres. Where it is not valid,
/// the fault is reported.
pub proof fn law_layout_is_told_where_it_can_be(monitors: Seq<RdpMonitorInfo>)
    ensures
        monitors::layout_fault(monitors) is Some ==> display::told_layout(monitors) == Err::<
            Seq<EntryView>,
            LayoutErrorView,
        >(LayoutErrorView::Invalid(monitors::layout_fault(monitors)->0)),
        monitors::layout_fault(monitors) is None ==> (display::told_layout(monitors) is Ok <==> {
            &&& monitors.len() <= 1024
            &&& forall|i: int|
                0 <= i < monitors.len() ==> {
                    let m = #[trigger] monitors[i];
                    &&& 200 <= m.width <= 8193 && 200 <= m.height <= 8192
                    &&& 100 <= m.scale_percent <= 500
                    &&& m.physical_width_mm is Some && m.physical_height_mm is Some ==> 10
                        <= m.physical_width_mm->0 <= 10000 && 10 <= m.physical_height_mm->0
                        <= 10000
                }
        }),
        monitors::layout_fault(monitors) is None && !(display::told_layout(monitors) is Ok)
            ==> display::told_layout(monitors) == Err::<Seq<EntryView>, LayoutErrorView>(
            LayoutErrorView::NotTellable,
        ),
{
}

/// The main thread is told of the desktop that the monitors span when the server was
/// told of them, that the server cannot be told where it could not be, and nothing
/// where there was nothing to tell.
pub proof fn law_layout_outcome_is_reported(monitors: Seq<RdpMonitorInfo>, outcome: LayoutOutcome)
    ensures
        match display::layout_news(monitors, outcome) {
            None => outcome == LayoutOutcome::NothingToSend,
            Some(NewsView::MonitorLayoutAccepted { desktop_size }) => outcome
                == LayoutOutcome::Sent && desktop_size == monitors::spanned_desktop(monitors),
            Some(NewsView::MultiMonitorNotSupported) => outcome == LayoutOutcome::NotEncoded
                || outcome == LayoutOutcome::NotSent,
            Some(_) => false,
        },
{
}

/// The pixel lies in the part that changed.
pub open spec fn in_rect(r: UpdateRect, x: int, y: int) -> bool {
    r.left <= x <= r.right && r.top <= y <= r.bottom
}

/// Exactly the part of the picture that changed is drawn, where it lies in the
/// picture: a pixel is drawn if and only if it lies in the part. Nothing is drawn
/// where it does not.
pub proof fn law_changed_part_is_drawn(r: UpdateRect, width: u16, height: u16, px: int, py: int)
    requires
        r.countable(),
    ensures
        match session::output_step(StageOutput::Graphics(r), width, height) {
            OutputAction::Draw { x, y, width: w, height: h } => {
                &&& r.right < width && r.bottom < height
                &&& (x <= px < x + w && y <= py < y + h) <==> in_rect(r, px, py)
            },
            OutputAction::Skip => r.right >= width || r.bottom >= height,
            _ => false,
        },
        session::output_step(StageOutput::Response, width, height) == OutputAction::Send,
        session::output_step(StageOutput::Terminate, width, height) == OutputAction::End,
        session::output_step(StageOutput::Deactivate, width, height) == OutputAction::End,
        session::output_step(StageOutput::Pointer, width, height) == OutputAction::Skip,
{
}

/// The pixels that are drawn are those of the picture: byte `k` of pixel `i` in row
/// `j` is the one that the picture has there.
pub proof fn law_packed_pixels_are_kept(
    out: Seq<u8>,
    data: Seq<u8>,
    width: int,
    height: int,
    pitch: int,
    i: int,
    j: int,
    k: int,
)
    requires
        session::is_packed(out, data, width, height, pitch),
        0 <= i < width,
        0 <= j < height,
        0 <= k < 4,
        0 <= pitch,
        (height - 1) * pitch + 4 * width <= data.len(),
    ensures
        out.len() == 4 * width * height,
        out[4 * (j * width + i) + k] == data[j * pitch + 4 * i + k],
{
    let row = 4 * width;
    assert(j * row == 4 * (j * width)) by (nonlinear_arith)
        requires
            row == 4 * width,
    ;
    assert(0 <= j * row && j * row + row <= 4 * width * height) by (nonlinear_arith)
        requires
            row == 4 * width,
            0 <= j < height,
            0 < width,
    ;
    assert(0 <= j * pitch <= (height - 1) * pitch) by (nonlinear_arith)
        requires
            0 <= j < height,
            0 <= pitch,
    ;
    let a = session::row_of(out, row, row, j);
    let b = session::row_of(data, pitch, row, j);
    assert(a == b);
    assert(a[4 * i + k] == out[j * row + (4 * i + k)]);
    assert(b[4 * i + k] == data[j * pitch + (4 * i + k)]);
}

/// The main thread is told of a part of the picture with its pixels, its place and its
/// size, and of rows of four bytes for each pixel.
pub proof fn law_picture_is_reported(data: Seq<u8>, x: u16, y: u16, width: u16, height: u16)
    ensures
        match session::picture_news(data, x, y, width, height) {
            NewsView::Frame(f) => f.data == data && f.x == x && f.y == y && f.width == width
                && f.height == height && f.stride == 4 * width,
            _ => false,
        },
{
}

/// A connection is made with the configuration that was asked for; a wish to end ends
/// the network thread, and nothing else does anything between connections.
pub proof fn law_connection_is_made_as_asked(capture: bool, config: ConfigView, r: RequestView)
    ensures
        connection::on_idle_request(capture, RequestView::Connect(config)) == (
            false,
            NetworkActionView::Connect { config, with_capture: capture },
        ),
        connection::on_idle_request(capture, RequestView::Disconnect) == (
            capture,
            NetworkActionView::Stop,
        ),
        !(r is Connect) && !(r is Disconnect) ==> connection::on_idle_request(capture, r) == (
            capture,
            NetworkActionView::Ignore,
        ),
{
}

/// A connection has the channels that its configuration asks for and that there is
/// something for: monitors if and only if there is a layout, sound if and only if
/// there is an audio thread, the clipboard if and only if it is shared, the microphone
/// if and only if there is one and no layout.
pub proof fn law_channels_follow_configuration(c: ConfigView, has_audio: bool, has_capture: bool)
    ensures
        ({
            let plan = connection::planned_channels(c, has_audio, has_capture);
            &&& plan.display_control <==> c.monitor_layout is Some
            &&& plan.rdpsnd <==> has_audio
            &&& plan.cliprdr <==> c.clipboard_enabled
            &&& plan.audin <==> has_capture && c.monitor_layout is None
        }),
{
}

/// A failure to dial is reported as what it is, in its own words: a lookup that
/// failed or found nothing, a refusal, a timeout, another failure.
pub proof fn law_dial_failures_are_told_apart(s: Seq<char>)
    ensures
        connection::dial_error_of(DialFailureView::Lookup(s)) == (
        ConnectionErrorView::DnsResolution(s)),
        connection::dial_error_of(DialFailureView::NoAddress) is DnsResolution,
        connection::dial_error_of(DialFailureView::TimedOut) is Timeout,
        text::occurs(s, "refused"@) ==> connection::dial_error_of(DialFailureView::Connect(s))
            == ConnectionErrorView::ConnectionRefused(s),
        !text::occurs(s, "refused"@) ==> connection::dial_error_of(DialFailureView::Connect(s))
            == ConnectionErrorView::Io(s),
        connection::dial_error_of(DialFailureView::LocalAddress(s)) matches
            ConnectionErrorView::Io(t) && s.is_suffix_of(t),
{
    match connection::dial_error_of(DialFailureView::LocalAddress(s)) {
        ConnectionErrorView::Io(t) => {
            assert(t.subrange(t.len() - s.len(), t.len() as int) =~= s);
        },
        _ => {},
    }
}

/// A handshake that broke off is taken for refused credentials exactly where the
/// server said that access was denied, and is reported in its own words; so is a
/// negotiation that broke off.
pub proof fn law_refused_credentials_are_told_apart(s: Seq<char>)
    ensures
        ({
            let denied = text::occurs(s, "access denied"@) || text::occurs(s, "Access denied"@);
            &&& denied ==> connection::broken(ConnectPhase::Finishing, s)
                == ConnectionErrorView::AuthenticationFailed(s)
            &&& !denied ==> (connection::broken(ConnectPhase::Finishing, s) matches
                ConnectionErrorView::Protocol(t) && s.is_suffix_of(t))
        }),
        connection::broken(ConnectPhase::Negotiating, s) matches ConnectionErrorView::Protocol(t)
            && s.is_suffix_of(t),
        connection::broken(ConnectPhase::InSession, s) == ConnectionErrorView::Protocol(s),
        connection::broken(ConnectPhase::Preparing, s) == ConnectionErrorView::Protocol(s),
{
    let a = "RDP handshake failed: "@ + s;
    let b = "RDP negotiation failed: "@ + s;
    assert(a.subrange(a.len() - s.len(), a.len() as int) =~= s);
    assert(b.subrange(b.len() - s.len(), b.len() as int) =~= s);
}

/// While the user is asked about a certificate: consent goes on, refusal is reported
/// as a rejected certificate, a wish to end, the end of the main thread and silence
/// end the attempt, and anything else is passed over.
pub proof fn law_certificate_decision_is_followed(r: RequestView)
    ensures
        connection::on_wait_event(
            WaitEventView::Request(RequestView::CertificateDecision(true)),
        ) == Some(Ok::<(), ConnectionErrorView>(())),
        connection::on_wait_event(
            WaitEventView::Request(RequestView::CertificateDecision(false)),
        ) matches Some(Err(e)) && e is CertificateRejected,
        connection::on_wait_event(WaitEventView::Request(RequestView::Disconnect)) matches Some(
            Err(e),
        ) && e is Io,
        connection::on_wait_event(WaitEventView::Closed) matches Some(Err(e)) && e is Io,
        connection::on_wait_event(WaitEventView::Expired) matches Some(Err(e)) && e is Timeout,
        !(r is CertificateDecision) && !(r is Disconnect) ==> connection::on_wait_event(
            WaitEventView::Request(r),
        ) is None,
{
}

/// The main thread waits ten seconds for the server and sixty for the user.
pub proof fn law_waits_are_bounded()
    ensures
        connection::CONNECTION_TIMEOUT_SECS == 10,
        connection::CERTIFICATE_DECISION_TIMEOUT_SECS == 60,
{
}

/// The phase after `n` steps that were done.
pub open spec fn phase_after(phase: ConnectPhase, n: nat) -> ConnectPhase
    decreases n,
{
    if n == 0 {
        phase
    } else {
        connection::on_connect_event(
            phase_after(phase, (n - 1) as nat),
            ConnectEventView::Done,
        ).0
    }
}

/// An attempt goes through its phases in their order, and says nothing until the
/// server agreed to a desktop; then it says that, and after one more step the session
/// runs. Its end is said when the session is over.
pub proof fn law_attempt_goes_through_its_phases(size: DesktopSize)
    ensures
        phase_after(ConnectPhase::Announcing, 1) == ConnectPhase::Dialing,
        phase_after(ConnectPhase::Announcing, 2) == ConnectPhase::Preparing,
        phase_after(ConnectPhase::Announcing, 3) == ConnectPhase::Negotiating,
        phase_after(ConnectPhase::Announcing, 4) == ConnectPhase::Securing,
        phase_after(ConnectPhase::Announcing, 5) == ConnectPhase::Finishing,
        connection::on_connect_event(ConnectPhase::Finishing, ConnectEventView::Finished(size)) == (
            ConnectPhase::Reporting,
            seq![NewsView::Connected(size)],
        ),
        connection::on_connect_event(ConnectPhase::Reporting, ConnectEventView::Done) == (
            ConnectPhase::InSession,
            Seq::<NewsView>::empty(),
        ),
        connection::on_connect_event(ConnectPhase::InSession, ConnectEventView::Done) == (
            ConnectPhase::Over,
            seq![NewsView::Disconnected],
        ),
{
    reveal_with_fuel(phase_after, 6);
}

/// Before the session an error ends the attempt and is the one thing that is said; in
/// the session it is said before the end. Where the main thread is gone, nothing is
/// said any more.
pub proof fn law_errors_end_the_attempt(
    phase: ConnectPhase,
    error: ConnectionErrorView,
    s: Seq<char>,
)
    requires
        phase != ConnectPhase::Over,
    ensures
        phase != ConnectPhase::InSession ==> connection::on_connect_event(
            phase,
            ConnectEventView::Failed(error),
        ) == (ConnectPhase::Over, seq![NewsView::Error(error)]),
        phase == ConnectPhase::InSession ==> connection::on_connect_event(
            phase,
            ConnectEventView::Failed(error),
        ) == (ConnectPhase::Over, seq![NewsView::Error(error), NewsView::Disconnected]),
        connection::on_connect_event(phase, ConnectEventView::Broke(s))
            == connection::on_connect_event(
            phase,
            ConnectEventView::Failed(connection::broken(phase, s)),
        ),
        phase != ConnectPhase::InSession ==> connection::on_connect_event(
            phase,
            ConnectEventView::MainGone,
        ) == (ConnectPhase::Over, Seq::<NewsView>::empty()),
        phase != ConnectPhase::InSession ==> connection::on_connect_event(
            phase,
            ConnectEventView::Done,
        ).1 == Seq::<NewsView>::empty(),
{
}

/// The server is given the credentials of the configuration, each in its place, and
/// empty ones where there are none. The connection is secured by TLS and network level
/// authentication, in true colour, with sound.
pub proof fn law_credentials_reach_server(c: ConfigView, r: RdpConfig)
    requires
        rdp_config::asked_for(c, r),
    ensures
        c.username is Some ==> r.username@ == c.username->0,
        c.username is None ==> r.username@.len() == 0,
        c.password is Some ==> r.password@ == c.password->0,
        c.password is None ==> r.password@.len() == 0,
        r.domain is Some <==> c.domain is Some,
        c.domain is Some ==> r.domain->0@ == c.domain->0,
        r.client_name@ == "YARD"@,
        r.settings.enable_tls && r.settings.enable_credssp,
        r.settings.color_depth == 32,
        r.settings.enable_audio_playback && r.settings.enable_server_pointer,
        !r.settings.pointer_software_rendering && !r.settings.autologon,
        r.settings.desktop_size == (DesktopSize { width: 1920, height: 1080 }),
        r.settings.desktop_scale_factor == 100,
        r.settings.keyboard_type == 4 && r.settings.keyboard_subtype == 0,
        r.settings.keyboard_functional_keys_count == 12 && r.settings.keyboard_layout == 0x409,
        r.settings.lossy_compression && r.settings.client_build == 0,
        rdp_config::codec_numbers(r.codecs).len() > 0 && rdp_config::codec_numbers(r.codecs)[0]
            == 3,
{
    assert(views::option_view(r.domain) == c.domain);
}

/// What is said of failures that have no words of their own: that no address was found,
/// and for how long was waited, ten seconds for the server and sixty for the user.
pub proof fn law_failures_without_words()
    ensures
        connection::dial_error_of(DialFailureView::NoAddress)
            == ConnectionErrorView::DnsResolution("No addresses found"@),
        connection::dial_error_of(DialFailureView::TimedOut) == ConnectionErrorView::Timeout(
            "after 10s"@,
        ),
        connection::on_wait_event(WaitEventView::Expired) == Some(
            Err::<(), ConnectionErrorView>(
                ConnectionErrorView::Timeout("Certificate decision timeout (60s)"@),
            ),
        ),
        connection::on_wait_event(WaitEventView::Closed) == Some(
            Err::<(), ConnectionErrorView>(ConnectionErrorView::Io("Channel closed"@)),
        ),
{
    reveal_with_fuel(text::decimal, 3);
    reveal_strlit("after ");
    reveal_strlit("s");
    reveal_strlit("after 10s");
    reveal_strlit("Certificate decision timeout (");
    reveal_strlit("s)");
    reveal_strlit("Certificate decision timeout (60s)");
    assert(text::decimal(10) =~= seq!['1', '0']);
    assert(text::decimal(60) =~= seq!['6', '0']);
    assert("after "@ + text::decimal(10) + "s"@ =~= "after 10s"@);
    assert("Certificate decision timeout ("@ + text::decimal(60) + "s)"@
        =~= "Certificate decision timeout (60s)"@);
}

/// In a session the input of the user is sent, a wish to end releases what is held and
/// ends the session, the loss of the main thread ends it, and nothing else touches what
/// is held.
pub proof fn law_session_follows_requests(s: InputView, r: RequestView)
    ensures
        input::is_input(r) ==> session::on_request(s, Some(r)).1 is SendInput,
        input::is_input(r) ==> session::on_request(s, Some(r)).0 == (InputView {
            held: input::held_after_all(s.held, input::operations(r)),
            pointer: input::pointer_after_all(s.pointer, input::operations(r)),
        }),
        session::on_request(s, Some(RequestView::Disconnect)).1 is ReleaseAndEnd,
        session::on_request(s, None).1 is End,
        forall|held: HeldInput|
            !#[trigger] session::on_request(s, Some(RequestView::Disconnect)).0.held.contains(
                held,
            ),
        session::on_request(s, Some(RequestView::Disconnect)).1 matches
            SessionActionView::ReleaseAndEnd(events) && events == input::release_events(
            s.held,
            s.pointer,
        ),
        input::is_input(r) ==> (session::on_request(s, Some(r)).1 matches
            SessionActionView::SendInput(events) && events == input::operation_events(
            s.held,
            s.pointer,
            input::operations(r),
        )),
        !input::is_input(r) && !(r is Disconnect) ==> session::on_request(s, Some(r)).0 == s,
        session::on_request(s, Some(r)).1 is ReleaseAndEnd <==> r is Disconnect,
{
}

} // verus!
