//! Messages between the main thread and the network thread.
use vstd::prelude::*;

use std::path::PathBuf;

use crate::cliprdr::{FileInfo, FileInfoView};
use crate::monitors::{DesktopSize, RdpMonitorInfo, RdpMonitorLayout};
use crate::text;
use crate::video::{DecodedFrame, FrameView};
use crate::views;

verus! {

/// What a connection needs. There is no `Debug` for it: `debug_text` writes it
/// out without the password.
pub struct ConnectionConfig {
    /// Host name or address of the server.
    pub host: String,
    /// Port of the server.
    pub port: u16,
    /// User name.
    pub username: Option<String>,
    /// Domain of the user.
    pub domain: Option<String>,
    /// Password of the user.
    pub password: Option<String>,
    /// The monitors to report to the server.
    pub monitor_layout: Option<Vec<RdpMonitorInfo>>,
    /// The clipboard is shared.
    pub clipboard_enabled: bool,
}

/// The view of `ConnectionConfig`.
pub struct ConfigView {
    /// Host name or address of the server.
    pub host: Seq<char>,
    /// Port of the server.
    pub port: u16,
    /// User name.
    pub username: Option<Seq<char>>,
    /// Domain of the user.
    pub domain: Option<Seq<char>>,
    /// Password of the user.
    pub password: Option<Seq<char>>,
    /// The monitors to report to the server.
    pub monitor_layout: Option<Seq<RdpMonitorInfo>>,
    /// The clipboard is shared.
    pub clipboard_enabled: bool,
}

impl View for ConnectionConfig {
    type V = ConfigView;

    open spec fn view(&self) -> ConfigView {
        ConfigView {
            host: self.host@,
            port: self.port,
            username: views::option_view(self.username),
            domain: views::option_view(self.domain),
            password: views::option_view(self.password),
            monitor_layout: views::option_view(self.monitor_layout),
            clipboard_enabled: self.clipboard_enabled,
        }
    }
}

/// A configuration for the server, and nothing else.
pub open spec fn plain_config(host: Seq<char>, port: u16) -> ConfigView {
    ConfigView {
        host,
        port,
        username: None,
        domain: None,
        password: None,
        monitor_layout: None,
        clipboard_enabled: true,
    }
}

/// User name and domain of what a user typed: `DOMAIN\user`, where the domain `.`
/// stands for none; or `user@domain` where the domain has a dot in it; or a user
/// name.
pub open spec fn parsed_username(s: Seq<char>) -> (Seq<char>, Option<Seq<char>>) {
    match s.index_of_first('\\') {
        Some(i) => (
            s.skip(i + 1),
            if s.take(i) == "."@ {
                None
            } else {
                Some(s.take(i))
            },
        ),
        None => match s.index_of_last('@') {
            Some(i) => if s.skip(i + 1).contains('.') {
                (s.take(i), Some(s.skip(i + 1)))
            } else {
                (s, None)
            },
            None => (s, None),
        },
    }
}

/// A configuration for the server with what a user typed for a name.
pub open spec fn config_from_username(host: Seq<char>, port: u16, username: Seq<char>) -> ConfigView {
    let (user, domain) = parsed_username(username);
    ConfigView { username: Some(user), domain, ..plain_config(host, port) }
}

/// A monitor as it is written out.
pub open spec fn monitor_text(m: RdpMonitorInfo) -> Seq<char> {
    "RdpMonitorInfo { x: "@ + text::signed_decimal(m.x as int) + ", y: "@ + text::signed_decimal(
        m.y as int,
    ) + ", width: "@ + text::decimal(m.width as nat) + ", height: "@ + text::decimal(
        m.height as nat,
    ) + ", is_primary: "@ + text::truth(m.is_primary) + ", scale_percent: "@ + text::decimal(
        m.scale_percent as nat,
    ) + ", physical_width_mm: "@ + text::quoted_number(m.physical_width_mm)
        + ", physical_height_mm: "@ + text::quoted_number(m.physical_height_mm) + " }"@
}

/// Monitors as they are written out, with commas between them.
pub open spec fn monitor_texts(monitors: Seq<RdpMonitorInfo>) -> Seq<char>
    decreases monitors.len(),
{
    if monitors.len() == 0 {
        Seq::empty()
    } else if monitors.len() == 1 {
        monitor_text(monitors[0])
    } else {
        monitor_texts(monitors.drop_last()) + ", "@ + monitor_text(monitors.last())
    }
}

/// A monitor layout as it is written out.
pub open spec fn layout_text(layout: Option<Seq<RdpMonitorInfo>>) -> Seq<char> {
    match layout {
        Some(monitors) => "Some(["@ + monitor_texts(monitors) + "])"@,
        None => "None"@,
    }
}

/// A configuration as it is written out, without the password.
pub open spec fn config_text(c: ConfigView) -> Seq<char> {
    "ConnectionConfig { host: "@ + text::quoted(c.host) + ", port: "@ + text::decimal(
        c.port as nat,
    ) + ", username: "@ + text::quoted_option(c.username) + ", domain: "@ + text::quoted_option(
        c.domain,
    ) + ", password: \"[REDACTED]\", monitor_layout: "@ + layout_text(c.monitor_layout)
        + ", clipboard_enabled: "@ + text::truth(c.clipboard_enabled) + " }"@
}

/// Appends a monitor.
fn push_monitor(out: &mut String, m: &RdpMonitorInfo)
    ensures
        final(out)@ == old(out)@ + monitor_text(*m),
{
    out.push_str("RdpMonitorInfo { x: ");
    text::push_signed(out, m.x);
    out.push_str(", y: ");
    text::push_signed(out, m.y);
    out.push_str(", width: ");
    text::push_decimal(out, m.width as u64);
    out.push_str(", height: ");
    text::push_decimal(out, m.height as u64);
    out.push_str(", is_primary: ");
    text::push_truth(out, m.is_primary);
    out.push_str(", scale_percent: ");
    text::push_decimal(out, m.scale_percent as u64);
    out.push_str(", physical_width_mm: ");
    text::push_quoted_number(out, m.physical_width_mm);
    out.push_str(", physical_height_mm: ");
    text::push_quoted_number(out, m.physical_height_mm);
    out.push_str(" }");
    assert(out@ == old(out)@ + monitor_text(*m));
}

/// Appends monitors, with commas between them.
fn push_monitors(out: &mut String, monitors: &[RdpMonitorInfo])
    ensures
        final(out)@ == old(out)@ + monitor_texts(monitors@),
{
    let mut i: usize = 0;
    assert(monitors@.take(0) == Seq::<RdpMonitorInfo>::empty());
    while i < monitors.len()
        invariant
            i <= monitors@.len(),
            out@ == old(out)@ + monitor_texts(monitors@.take(i as int)),
        decreases monitors@.len() - i,
    {
        proof {
            let longer = monitors@.take(i + 1);
            assert(longer.drop_last() == monitors@.take(i as int));
            assert(longer.last() == monitors@[i as int]);
        }
        if i > 0 {
            out.push_str(", ");
        }
        push_monitor(out, &monitors[i]);
        i = i + 1;
        assert(out@ == old(out)@ + monitor_texts(monitors@.take(i as int)));
    }
    assert(monitors@.take(monitors@.len() as int) == monitors@);
}

impl ConnectionConfig {
    /// A configuration for the server, and nothing else.
    pub fn new(host: &str, port: u16) -> (c: ConnectionConfig)
        ensures
            c@ == plain_config(host@, port),
    {
        ConnectionConfig {
            host: host.to_owned(),
            port,
            username: None,
            domain: None,
            password: None,
            monitor_layout: None,
            clipboard_enabled: true,
        }
    }

    /// The configuration without a shared clipboard.
    pub fn without_clipboard(self) -> (c: ConnectionConfig)
        ensures
            c@ == (ConfigView { clipboard_enabled: false, ..self@ }),
    {
        let mut c = self;
        c.clipboard_enabled = false;
        c
    }

    /// The configuration with monitors to report.
    pub fn with_monitor_layout(self, monitors: Vec<RdpMonitorInfo>) -> (c: ConnectionConfig)
        ensures
            c@ == (ConfigView { monitor_layout: Some(monitors@), ..self@ }),
    {
        let mut c = self;
        c.monitor_layout = Some(monitors);
        c
    }

    /// The configuration with a user name.
    pub fn with_username(self, username: &str) -> (c: ConnectionConfig)
        ensures
            c@ == (ConfigView { username: Some(username@), ..self@ }),
    {
        let mut c = self;
        c.username = Some(username.to_owned());
        c
    }

    /// The configuration with a domain.
    pub fn with_domain(self, domain: &str) -> (c: ConnectionConfig)
        ensures
            c@ == (ConfigView { domain: Some(domain@), ..self@ }),
    {
        let mut c = self;
        c.domain = Some(domain.to_owned());
        c
    }

    /// The configuration with a password.
    pub fn with_password(self, password: &str) -> (c: ConnectionConfig)
        ensures
            c@ == (ConfigView { password: Some(password@), ..self@ }),
    {
        let mut c = self;
        c.password = Some(password.to_owned());
        c
    }

    /// Host and port, with a colon between them.
    pub fn address(&self) -> (s: String)
        ensures
            s@ == address_text(self@),
    {
        let mut s = self.host.clone();
        s.push_str(":");
        text::push_decimal(&mut s, self.port as u64);
        s
    }

    /// Tests whether there are a user name and a password.
    pub fn has_credentials(&self) -> (b: bool)
        ensures
            b == (self@.username is Some && self@.password is Some),
    {
        self.username.is_some() && self.password.is_some()
    }

    /// User name and domain of what a user typed.
    pub fn parse_username(input: &str) -> (r: (String, Option<String>))
        ensures
            (r.0@, views::option_view(r.1)) == parsed_username(input@),
    {
        let chars = text::chars_of(input);
        assert(chars.len() == chars@.len());
        proof {
            input@.index_of_first_ensures('\\');
            input@.index_of_last_ensures('@');
        }
        if let Some(i) = text::first_place(chars.as_slice(), '\\') {
            let domain = text::text_to(chars.as_slice(), i);
            let user = text::text_from(chars.as_slice(), i + 1);
            if text::same_text(domain.as_str(), ".") {
                return (user, None);
            }
            return (user, Some(domain));
        }
        if let Some(i) = text::last_place(chars.as_slice(), '@') {
            let domain = text::text_from(chars.as_slice(), i + 1);
            let domain_chars = text::chars_of(domain.as_str());
            proof {
                domain_chars@.index_of_first_ensures('.');
            }
            if text::first_place(domain_chars.as_slice(), '.').is_some() {
                return (text::text_to(chars.as_slice(), i), Some(domain));
            }
        }
        (input.to_owned(), None)
    }

    /// A configuration for the server with what a user typed for a name.
    pub fn from_username(host: &str, port: u16, username: &str) -> (c: ConnectionConfig)
        ensures
            c@ == config_from_username(host@, port, username@),
    {
        let (user, domain) = ConnectionConfig::parse_username(username);
        let config = ConnectionConfig::new(host, port).with_username(user.as_str());
        match domain {
            Some(d) => config.with_domain(d.as_str()),
            None => config,
        }
    }

    /// The configuration written out, without the password.
    pub fn debug_text(&self) -> (s: String)
        ensures
            s@ == config_text(self@),
    {
        let mut s = String::new();
        s.push_str("ConnectionConfig { host: ");
        text::push_quoted(&mut s, self.host.as_str());
        s.push_str(", port: ");
        text::push_decimal(&mut s, self.port as u64);
        s.push_str(", username: ");
        text::push_quoted_option(&mut s, &self.username);
        s.push_str(", domain: ");
        text::push_quoted_option(&mut s, &self.domain);
        s.push_str(", password: \"[REDACTED]\", monitor_layout: ");
        let ghost before = s@;
        match &self.monitor_layout {
            Some(monitors) => {
                s.push_str("Some([");
                push_monitors(&mut s, monitors.as_slice());
                s.push_str("])");
            },
            None => {
                s.push_str("None");
            },
        }
        assert(s@ == before + layout_text(self@.monitor_layout));
        s.push_str(", clipboard_enabled: ");
        text::push_truth(&mut s, self.clipboard_enabled);
        s.push_str(" }");
        assert(s@ == config_text(self@));
        s
    }
}

/// Host and port, with a colon between them.
pub open spec fn address_text(c: ConfigView) -> Seq<char> {
    c.host + ":"@ + text::decimal(c.port as nat)
}

impl Clone for ConnectionConfig {
    fn clone(&self) -> (c: ConnectionConfig)
        ensures
            c@ == self@,
    {
        let monitor_layout = match &self.monitor_layout {
            Some(monitors) => Some(copy_monitors(monitors.as_slice())),
            None => None,
        };
        ConnectionConfig {
            host: self.host.clone(),
            port: self.port,
            username: text::copy_option(&self.username),
            domain: text::copy_option(&self.domain),
            password: text::copy_option(&self.password),
            monitor_layout,
            clipboard_enabled: self.clipboard_enabled,
        }
    }
}

/// A copy of monitors.
fn copy_monitors(monitors: &[RdpMonitorInfo]) -> (v: Vec<RdpMonitorInfo>)
    ensures
        v@ == monitors@,
{
    let mut v: Vec<RdpMonitorInfo> = Vec::new();
    let mut i: usize = 0;
    while i < monitors.len()
        invariant
            i <= monitors@.len(),
            v@ == monitors@.take(i as int),
        decreases monitors@.len() - i,
    {
        v.push(monitors[i]);
        i = i + 1;
    }
    v
}

/// What is known of a server's certificate.
#[derive(Debug, Clone, PartialEq, Eq)]
pub struct CertificateInfo {
    /// The SHA-256 fingerprint.
    pub fingerprint: String,
    /// The common name of the subject.
    pub common_name: Option<String>,
    /// The organization of the subject.
    pub organization: Option<String>,
    /// The issuer.
    pub issuer: String,
    /// The first moment of validity.
    pub not_before: String,
    /// The last moment of validity.
    pub not_after: String,
}

/// The view of `CertificateInfo`.
pub struct CertificateView {
    /// The SHA-256 fingerprint.
    pub fingerprint: Seq<char>,
    /// The common name of the subject.
    pub common_name: Option<Seq<char>>,
    /// The organization of the subject.
    pub organization: Option<Seq<char>>,
    /// The issuer.
    pub issuer: Seq<char>,
    /// The first moment of validity.
    pub not_before: Seq<char>,
    /// The last moment of validity.
    pub not_after: Seq<char>,
}

impl View for CertificateInfo {
    type V = CertificateView;

    open spec fn view(&self) -> CertificateView {
        CertificateView {
            fingerprint: self.fingerprint@,
            common_name: views::option_view(self.common_name),
            organization: views::option_view(self.organization),
            issuer: self.issuer@,
            not_before: self.not_before@,
            not_after: self.not_after@,
        }
    }
}

/// A fingerprint of more than 50 bytes is not cut in the middle of a character.
pub open spec fn cuttable(fingerprint: Seq<char>) -> bool {
    vstd::utf8::encode_utf8(fingerprint).len() > 50 ==> vstd::utf8::is_char_boundary(
        vstd::utf8::encode_utf8(fingerprint),
        47,
    )
}

/// A fingerprint as it is shown: of one with more than 50 bytes the first 47.
pub open spec fn shown_fingerprint(fingerprint: Seq<char>) -> Seq<char> {
    if vstd::utf8::encode_utf8(fingerprint).len() > 50 {
        vstd::utf8::decode_utf8(vstd::utf8::encode_utf8(fingerprint).subrange(0, 47)) + "..."@
    } else {
        fingerprint
    }
}

/// A certificate as it is shown, line by line.
pub open spec fn certificate_text(c: CertificateView) -> Seq<char> {
    "Fingerprint: "@ + shown_fingerprint(c.fingerprint) + (match c.common_name {
        Some(cn) => "\nSubject:     CN="@ + cn,
        None => Seq::empty(),
    }) + (match c.organization {
        Some(org) => "\nOrg:         "@ + org,
        None => Seq::empty(),
    }) + "\nIssuer:      "@ + c.issuer + "\nValid:       "@ + c.not_before + " to "@ + c.not_after
}

impl CertificateInfo {
    /// A certificate of which the subject is not known.
    pub fn new(fingerprint: &str, issuer: &str, not_before: &str, not_after: &str) -> (c:
        CertificateInfo)
        ensures
            c@ == (CertificateView {
                fingerprint: fingerprint@,
                common_name: None,
                organization: None,
                issuer: issuer@,
                not_before: not_before@,
                not_after: not_after@,
            }),
    {
        CertificateInfo {
            fingerprint: fingerprint.to_owned(),
            common_name: None,
            organization: None,
            issuer: issuer.to_owned(),
            not_before: not_before.to_owned(),
            not_after: not_after.to_owned(),
        }
    }

    /// The certificate with the common name of the subject.
    pub fn with_common_name(self, cn: &str) -> (c: CertificateInfo)
        ensures
            c@ == (CertificateView { common_name: Some(cn@), ..self@ }),
    {
        let mut c = self;
        c.common_name = Some(cn.to_owned());
        c
    }

    /// The certificate with the organization of the subject.
    pub fn with_organization(self, org: &str) -> (c: CertificateInfo)
        ensures
            c@ == (CertificateView { organization: Some(org@), ..self@ }),
    {
        let mut c = self;
        c.organization = Some(org.to_owned());
        c
    }

    /// Tests whether the fingerprint can be shown.
    pub fn is_showable(&self) -> (b: bool)
        ensures
            b == cuttable(self@.fingerprint),
    {
        let fingerprint = self.fingerprint.as_str();
        fingerprint.as_bytes().len() <= 50 || fingerprint.is_char_boundary(47)
    }

    /// The certificate as it is shown, line by line.
    pub fn display(&self) -> (s: String)
        requires
            cuttable(self@.fingerprint),
        ensures
            s@ == certificate_text(self@),
    {
        let mut s = String::new();
        s.push_str("Fingerprint: ");
        let fingerprint = self.fingerprint.as_str();
        if fingerprint.as_bytes().len() > 50 {
            let (shown, _rest) = fingerprint.split_at(47);
            proof {
                vstd::utf8::encode_utf8_decode_utf8(shown@);
            }
            s.push_str(shown);
            s.push_str("...");
        } else {
            s.push_str(fingerprint);
        }
        assert(s@ == "Fingerprint: "@ + shown_fingerprint(self@.fingerprint));
        let ghost first = s@;
        if let Some(cn) = &self.common_name {
            s.push_str("\nSubject:     CN=");
            s.push_str(cn.as_str());
        }
        let ghost subject = match self@.common_name {
            Some(cn) => "\nSubject:     CN="@ + cn,
            None => Seq::empty(),
        };
        assert(s@ == first + subject);
        if let Some(org) = &self.organization {
            s.push_str("\nOrg:         ");
            s.push_str(org.as_str());
        }
        let ghost organization = match self@.organization {
            Some(org) => "\nOrg:         "@ + org,
            None => Seq::empty(),
        };
        assert(s@ == first + subject + organization);
        s.push_str("\nIssuer:      ");
        s.push_str(self.issuer.as_str());
        s.push_str("\nValid:       ");
        s.push_str(self.not_before.as_str());
        s.push_str(" to ");
        s.push_str(self.not_after.as_str());
        s
    }
}

/// The mouse buttons.
#[derive(Debug, Clone, Copy, PartialEq, Eq, Structural)]
pub enum MouseButton {
    /// The left button.
    Left,
    /// The right button.
    Right,
    /// The middle button.
    Middle,
}

impl MouseButton {
    /// The name of the button.
    pub open spec fn name(self) -> Seq<char> {
        match self {
            MouseButton::Left => "Left"@,
            MouseButton::Right => "Right"@,
            MouseButton::Middle => "Middle"@,
        }
    }

    /// The name of the button.
    pub fn label(self) -> (s: &'static str)
        ensures
            s@ == self.name(),
    {
        match self {
            MouseButton::Left => "Left",
            MouseButton::Right => "Right",
            MouseButton::Middle => "Middle",
        }
    }
}

/// What the main thread asks of the network thread. There is no `Debug` for it:
/// `debug_text` writes it out without the password.
pub enum ToNetwork {
    /// Make a connection.
    Connect(ConnectionConfig),
    /// End the connection.
    Disconnect,
    /// The user accepted or rejected the certificate.
    CertificateDecision(bool),
    /// A key was pressed or released.
    KeyboardInput {
        /// The scancode: of an extended key with 0xE0 in the upper byte.
        scancode: u16,
        /// The key was pressed.
        pressed: bool,
    },
    /// A character was typed.
    UnicodeInput {
        /// The character.
        character: char,
        /// The key was pressed.
        pressed: bool,
    },
    /// The pointer was moved.
    MouseMove {
        /// How far right on the remote desktop.
        x: u16,
        /// How far down on the remote desktop.
        y: u16,
    },
    /// A mouse button was pressed or released.
    MouseButton {
        /// The button.
        button: MouseButton,
        /// The button was pressed.
        pressed: bool,
        /// How far right on the remote desktop.
        x: u16,
        /// How far down on the remote desktop.
        y: u16,
    },
    /// The mouse wheel was turned.
    MouseWheel {
        /// The wheel is the horizontal one.
        horizontal: bool,
        /// How far it was turned, 120 for each notch.
        delta: i16,
        /// How far right on the remote desktop.
        x: u16,
        /// How far down on the remote desktop.
        y: u16,
    },
    /// The monitors changed.
    UpdateMonitorLayout {
        /// The monitors.
        monitors: Vec<RdpMonitorLayout>,
    },
    /// Fetch the text on the remote clipboard.
    RequestClipboardText,
    /// Text was copied.
    LocalClipboardText {
        /// The text.
        text: String,
    },
    /// The local clipboard was cleared.
    LocalClipboardCleared,
    /// Files were copied.
    LocalClipboardFiles {
        /// Their paths.
        files: Vec<PathBuf>,
    },
    /// Fetch the size of a remote file.
    RequestFileSize {
        /// The place of the file in the remote list.
        file_index: u32,
    },
    /// Fetch a part of a remote file.
    RequestFileContent {
        /// The place of the file in the remote list.
        file_index: u32,
        /// Where the part begins.
        offset: u64,
        /// How many bytes it has.
        length: u32,
    },
}

/// The view of `ToNetwork`.
pub enum RequestView {
    /// Make a connection.
    Connect(ConfigView),
    /// End the connection.
    Disconnect,
    /// The user accepted or rejected the certificate.
    CertificateDecision(bool),
    /// A key was pressed or released.
    KeyboardInput {
        /// The scancode.
        scancode: u16,
        /// The key was pressed.
        pressed: bool,
    },
    /// A character was typed.
    UnicodeInput {
        /// The character.
        character: char,
        /// The key was pressed.
        pressed: bool,
    },
    /// The pointer was moved.
    MouseMove {
        /// How far right on the remote desktop.
        x: u16,
        /// How far down on the remote desktop.
        y: u16,
    },
    /// A mouse button was pressed or released.
    MouseButton {
        /// The button.
        button: MouseButton,
        /// The button was pressed.
        pressed: bool,
        /// How far right on the remote desktop.
        x: u16,
        /// How far down on the remote desktop.
        y: u16,
    },
    /// The mouse wheel was turned.
    MouseWheel {
        /// The wheel is the horizontal one.
        horizontal: bool,
        /// How far it was turned.
        delta: i16,
        /// How far right on the remote desktop.
        x: u16,
        /// How far down on the remote desktop.
        y: u16,
    },
    /// The monitors changed.
    UpdateMonitorLayout {
        /// The monitors.
        monitors: Seq<RdpMonitorLayout>,
    },
    /// Fetch the text on the remote clipboard.
    RequestClipboardText,
    /// Text was copied.
    LocalClipboardText {
        /// The text.
        text: Seq<char>,
    },
    /// The local clipboard was cleared.
    LocalClipboardCleared,
    /// Files were copied.
    LocalClipboardFiles {
        /// Their paths.
        files: Seq<PathBuf>,
    },
    /// Fetch the size of a remote file.
    RequestFileSize {
        /// The place of the file in the remote list.
        file_index: u32,
    },
    /// Fetch a part of a remote file.
    RequestFileContent {
        /// The place of the file in the remote list.
        file_index: u32,
        /// Where the part begins.
        offset: u64,
        /// How many bytes it has.
        length: u32,
    },
}

impl View for ToNetwork {
    type V = RequestView;

    open spec fn view(&self) -> RequestView {
        match *self {
            ToNetwork::Connect(c) => RequestView::Connect(c@),
            ToNetwork::Disconnect => RequestView::Disconnect,
            ToNetwork::CertificateDecision(b) => RequestView::CertificateDecision(b),
            ToNetwork::KeyboardInput { scancode, pressed } => {
                RequestView::KeyboardInput { scancode, pressed }
            },
            ToNetwork::UnicodeInput { character, pressed } => {
                RequestView::UnicodeInput { character, pressed }
            },
            ToNetwork::MouseMove { x, y } => RequestView::MouseMove { x, y },
            ToNetwork::MouseButton { button, pressed, x, y } => {
                RequestView::MouseButton { button, pressed, x, y }
            },
            ToNetwork::MouseWheel { horizontal, delta, x, y } => {
                RequestView::MouseWheel { horizontal, delta, x, y }
            },
            ToNetwork::UpdateMonitorLayout { monitors } => {
                RequestView::UpdateMonitorLayout { monitors: monitors@ }
            },
            ToNetwork::RequestClipboardText => RequestView::RequestClipboardText,
            ToNetwork::LocalClipboardText { text } => {
                RequestView::LocalClipboardText { text: text@ }
            },
            ToNetwork::LocalClipboardCleared => RequestView::LocalClipboardCleared,
            ToNetwork::LocalClipboardFiles { files } => {
                RequestView::LocalClipboardFiles { files: files@ }
            },
            ToNetwork::RequestFileSize { file_index } => {
                RequestView::RequestFileSize { file_index }
            },
            ToNetwork::RequestFileContent { file_index, offset, length } => {
                RequestView::RequestFileContent { file_index, offset, length }
            },
        }
    }
}

/// A reported monitor as it is written out.
pub open spec fn reported_text(m: RdpMonitorLayout) -> Seq<char> {
    "RdpMonitorLayout { id: "@ + text::decimal(m.id as nat) + ", width: "@ + text::decimal(
        m.width as nat,
    ) + ", height: "@ + text::decimal(m.height as nat) + ", x: "@ + text::signed_decimal(
        m.x as int,
    ) + ", y: "@ + text::signed_decimal(m.y as int) + ", is_primary: "@ + text::truth(m.is_primary)
        + " }"@
}

/// Reported monitors as they are written out, with commas between them.
pub open spec fn reported_texts(monitors: Seq<RdpMonitorLayout>) -> Seq<char>
    decreases monitors.len(),
{
    if monitors.len() == 0 {
        Seq::empty()
    } else if monitors.len() == 1 {
        reported_text(monitors[0])
    } else {
        reported_texts(monitors.drop_last()) + ", "@ + reported_text(monitors.last())
    }
}

/// Appends a reported monitor.
fn push_reported(out: &mut String, m: &RdpMonitorLayout)
    ensures
        final(out)@ == old(out)@ + reported_text(*m),
{
    out.push_str("RdpMonitorLayout { id: ");
    text::push_decimal(out, m.id as u64);
    out.push_str(", width: ");
    text::push_decimal(out, m.width as u64);
    out.push_str(", height: ");
    text::push_decimal(out, m.height as u64);
    out.push_str(", x: ");
    text::push_signed(out, m.x);
    out.push_str(", y: ");
    text::push_signed(out, m.y);
    out.push_str(", is_primary: ");
    text::push_truth(out, m.is_primary);
    out.push_str(" }");
    assert(out@ == old(out)@ + reported_text(*m));
}

/// Appends reported monitors, with commas between them.
fn push_all_reported(out: &mut String, monitors: &[RdpMonitorLayout])
    ensures
        final(out)@ == old(out)@ + reported_texts(monitors@),
{
    let mut i: usize = 0;
    assert(monitors@.take(0) == Seq::<RdpMonitorLayout>::empty());
    while i < monitors.len()
        invariant
            i <= monitors@.len(),
            out@ == old(out)@ + reported_texts(monitors@.take(i as int)),
        decreases monitors@.len() - i,
    {
        proof {
            let longer = monitors@.take(i + 1);
            assert(longer.drop_last() == monitors@.take(i as int));
            assert(longer.last() == monitors@[i as int]);
        }
        if i > 0 {
            out.push_str(", ");
        }
        push_reported(out, &monitors[i]);
        i = i + 1;
        assert(out@ == old(out)@ + reported_texts(monitors@.take(i as int)));
    }
    assert(monitors@.take(monitors@.len() as int) == monitors@);
}

/// Paths as they are written out, with commas between them.
pub open spec fn path_texts(files: Seq<PathBuf>) -> Seq<char>
    decreases files.len(),
{
    if files.len() == 0 {
        Seq::empty()
    } else if files.len() == 1 {
        text::quoted_path(files[0])
    } else {
        path_texts(files.drop_last()) + ", "@ + text::quoted_path(files.last())
    }
}

/// Appends paths as they are written out.
fn push_paths(out: &mut String, files: &[PathBuf])
    ensures
        final(out)@ == old(out)@ + path_texts(files@),
{
    let mut i: usize = 0;
    assert(files@.take(0) == Seq::<PathBuf>::empty());
    assert(out@ == out@ + path_texts(files@.take(0)));
    while i < files.len()
        invariant
            i <= files@.len(),
            out@ == old(out)@ + path_texts(files@.take(i as int)),
        decreases files@.len() - i,
    {
        proof {
            let longer = files@.take(i + 1);
            assert(longer.drop_last() == files@.take(i as int));
            assert(longer.last() == files@[i as int]);
        }
        if i > 0 {
            out.push_str(", ");
        }
        out.push_str(text::quote_path(&files[i]).as_str());
        i = i + 1;
        assert(out@ == old(out)@ + path_texts(files@.take(i as int)));
    }
    assert(files@.take(files@.len() as int) == files@);
}

/// A request as it is written out, without the password.
pub open spec fn request_text(r: RequestView) -> Seq<char> {
    match r {
        RequestView::Connect(c) => "Connect("@ + config_text(c) + ")"@,
        RequestView::Disconnect => "Disconnect"@,
        RequestView::CertificateDecision(b) => "CertificateDecision("@ + text::truth(b) + ")"@,
        RequestView::KeyboardInput { scancode, pressed } => "KeyboardInput { scancode: "@
            + text::decimal(scancode as nat) + ", pressed: "@ + text::truth(pressed) + " }"@,
        RequestView::UnicodeInput { character, pressed } => "UnicodeInput { character: "@
            + text::quoted_char(character) + ", pressed: "@ + text::truth(pressed) + " }"@,
        RequestView::MouseMove { x, y } => "MouseMove { x: "@ + text::decimal(x as nat) + ", y: "@
            + text::decimal(y as nat) + " }"@,
        RequestView::MouseButton { button, pressed, x, y } => "MouseButton { button: "@
            + button.name() + ", pressed: "@ + text::truth(pressed) + ", x: "@ + text::decimal(
            x as nat,
        ) + ", y: "@ + text::decimal(y as nat) + " }"@,
        RequestView::MouseWheel { horizontal, delta, x, y } => "MouseWheel { horizontal: "@
            + text::truth(horizontal) + ", delta: "@ + text::signed_decimal(delta as int)
            + ", x: "@ + text::decimal(x as nat) + ", y: "@ + text::decimal(y as nat) + " }"@,
        RequestView::UpdateMonitorLayout { monitors } => "UpdateMonitorLayout { monitors: ["@
            + reported_texts(monitors) + "] }"@,
        RequestView::RequestClipboardText => "RequestClipboardText"@,
        RequestView::LocalClipboardText { text } => "LocalClipboardText { text: "@ + text::quoted(
            text,
        ) + " }"@,
        RequestView::LocalClipboardCleared => "LocalClipboardCleared"@,
        RequestView::LocalClipboardFiles { files } => "LocalClipboardFiles { files: ["@
            + path_texts(files) + "] }"@,
        RequestView::RequestFileSize { file_index } => "RequestFileSize { file_index: "@
            + text::decimal(file_index as nat) + " }"@,
        RequestView::RequestFileContent { file_index, offset, length } => {
            "RequestFileContent { file_index: "@ + text::decimal(file_index as nat) + ", offset: "@
                + text::decimal(offset as nat) + ", length: "@ + text::decimal(length as nat)
                + " }"@
        },
    }
}

impl ToNetwork {
    /// The request written out, without the password.
    pub fn debug_text(&self) -> (s: String)
        ensures
            s@ == request_text(self@),
    {
        let mut s = String::new();
        match self {
            ToNetwork::Connect(c) => {
                s.push_str("Connect(");
                s.push_str(c.debug_text().as_str());
                s.push_str(")");
            },
            ToNetwork::Disconnect => {
                s.push_str("Disconnect");
            },
            ToNetwork::CertificateDecision(b) => {
                s.push_str("CertificateDecision(");
                text::push_truth(&mut s, *b);
                s.push_str(")");
            },
            ToNetwork::KeyboardInput { scancode, pressed } => {
                s.push_str("KeyboardInput { scancode: ");
                text::push_decimal(&mut s, *scancode as u64);
                s.push_str(", pressed: ");
                text::push_truth(&mut s, *pressed);
                s.push_str(" }");
            },
            ToNetwork::UnicodeInput { character, pressed } => {
                s.push_str("UnicodeInput { character: ");
                s.push_str(text::quote_char(*character).as_str());
                s.push_str(", pressed: ");
                text::push_truth(&mut s, *pressed);
                s.push_str(" }");
            },
            ToNetwork::MouseMove { x, y } => {
                s.push_str("MouseMove { x: ");
                text::push_decimal(&mut s, *x as u64);
                s.push_str(", y: ");
                text::push_decimal(&mut s, *y as u64);
                s.push_str(" }");
            },
            ToNetwork::MouseButton { button, pressed, x, y } => {
                s.push_str("MouseButton { button: ");
                s.push_str(button.label());
                s.push_str(", pressed: ");
                text::push_truth(&mut s, *pressed);
                s.push_str(", x: ");
                text::push_decimal(&mut s, *x as u64);
                s.push_str(", y: ");
                text::push_decimal(&mut s, *y as u64);
                s.push_str(" }");
            },
            ToNetwork::MouseWheel { horizontal, delta, x, y } => {
                s.push_str("MouseWheel { horizontal: ");
                text::push_truth(&mut s, *horizontal);
                s.push_str(", delta: ");
                text::push_signed(&mut s, *delta as i32);
                s.push_str(", x: ");
                text::push_decimal(&mut s, *x as u64);
                s.push_str(", y: ");
                text::push_decimal(&mut s, *y as u64);
                s.push_str(" }");
            },
            ToNetwork::UpdateMonitorLayout { monitors } => {
                s.push_str("UpdateMonitorLayout { monitors: [");
                push_all_reported(&mut s, monitors.as_slice());
                s.push_str("] }");
            },
            ToNetwork::RequestClipboardText => {
                s.push_str("RequestClipboardText");
            },
            ToNetwork::LocalClipboardText { text: t } => {
                s.push_str("LocalClipboardText { text: ");
                text::push_quoted(&mut s, t.as_str());
                s.push_str(" }");
            },
            ToNetwork::LocalClipboardCleared => {
                s.push_str("LocalClipboardCleared");
            },
            ToNetwork::LocalClipboardFiles { files } => {
                s.push_str("LocalClipboardFiles { files: [");
                push_paths(&mut s, files.as_slice());
                s.push_str("] }");
            },
            ToNetwork::RequestFileSize { file_index } => {
                s.push_str("RequestFileSize { file_index: ");
                text::push_decimal(&mut s, *file_index as u64);
                s.push_str(" }");
            },
            ToNetwork::RequestFileContent { file_index, offset, length } => {
                s.push_str("RequestFileContent { file_index: ");
                text::push_decimal(&mut s, *file_index as u64);
                s.push_str(", offset: ");
                text::push_decimal(&mut s, *offset);
                s.push_str(", length: ");
                text::push_decimal(&mut s, *length as u64);
                s.push_str(" }");
            },
        }
        s
    }
}

/// What the network thread reports to the main thread.
#[derive(Debug)]
pub enum FromNetwork {
    /// A connection is being made.
    Connecting,
    /// The connection is made.
    Connected(DesktopSize),
    /// The connection ended.
    Disconnected,
    /// The connection failed.
    Error(ConnectionError),
    /// The user has to decide on a certificate.
    CertificateVerify {
        /// Host and port of the server.
        server: String,
        /// The certificate.
        cert_info: CertificateInfo,
    },
    /// A frame, or a part of one, to draw.
    Frame(DecodedFrame),
    /// The server was told of the monitors.
    MonitorLayoutAccepted {
        /// The desktop that they span.
        desktop_size: DesktopSize,
    },
    /// The server cannot be told of the monitors.
    MultiMonitorNotSupported,
    /// The round trip was measured.
    LatencyUpdate {
        /// How long it took, in milliseconds.
        rtt_ms: u32,
    },
    /// Text is on the remote clipboard.
    ClipboardTextAvailable {
        /// The numbers of the formats on offer.
        formats: Vec<u32>,
    },
    /// Text arrived from the remote clipboard.
    ClipboardText {
        /// The text.
        text: String,
    },
    /// The remote clipboard gave no data.
    ClipboardRequestFailed,
    /// Files are on the remote clipboard.
    ClipboardFilesAvailable {
        /// The numbers of the formats on offer.
        formats: Vec<u32>,
    },
    /// The list of the remote files arrived.
    ClipboardFilesReceived {
        /// The files.
        files: Vec<FileInfo>,
    },
    /// The size of a remote file arrived.
    ClipboardFileSizeReceived {
        /// The number of the request.
        stream_id: u32,
        /// The size in bytes.
        size: u64,
    },
    /// A part of a remote file arrived.
    ClipboardFileContentReceived {
        /// The number of the request.
        stream_id: u32,
        /// The part.
        data: Vec<u8>,
    },
    /// A remote file could not be fetched.
    ClipboardFileTransferFailed {
        /// The number of the request.
        stream_id: u32,
    },
}

/// The view of `FromNetwork`.
pub enum NewsView {
    /// A connection is being made.
    Connecting,
    /// The connection is made.
    Connected(DesktopSize),
    /// The connection ended.
    Disconnected,
    /// The connection failed.
    Error(ConnectionErrorView),
    /// The user has to decide on a certificate.
    CertificateVerify {
        /// Host and port of the server.
        server: Seq<char>,
        /// The certificate.
        cert_info: CertificateView,
    },
    /// A frame, or a part of one, to draw.
    Frame(FrameView),
    /// The server was told of the monitors.
    MonitorLayoutAccepted {
        /// The desktop that they span.
        desktop_size: DesktopSize,
    },
    /// The server cannot be told of the monitors.
    MultiMonitorNotSupported,
    /// The round trip was measured.
    LatencyUpdate {
        /// How long it took, in milliseconds.
        rtt_ms: u32,
    },
    /// Text is on the remote clipboard.
    ClipboardTextAvailable {
        /// The numbers of the formats on offer.
        formats: Seq<u32>,
    },
    /// Text arrived from the remote clipboard.
    ClipboardText {
        /// The text.
        text: Seq<char>,
    },
    /// The remote clipboard gave no data.
    ClipboardRequestFailed,
    /// Files are on the remote clipboard.
    ClipboardFilesAvailable {
        /// The numbers of the formats on offer.
        formats: Seq<u32>,
    },
    /// The list of the remote files arrived.
    ClipboardFilesReceived {
        /// The files.
        files: Seq<FileInfoView>,
    },
    /// The size of a remote file arrived.
    ClipboardFileSizeReceived {
        /// The number of the request.
        stream_id: u32,
        /// The size in bytes.
        size: u64,
    },
    /// A part of a remote file arrived.
    ClipboardFileContentReceived {
        /// The number of the request.
        stream_id: u32,
        /// The part.
        data: Seq<u8>,
    },
    /// A remote file could not be fetched.
    ClipboardFileTransferFailed {
        /// The number of the request.
        stream_id: u32,
    },
}

impl View for FromNetwork {
    type V = NewsView;

    open spec fn view(&self) -> NewsView {
        match *self {
            FromNetwork::Connecting => NewsView::Connecting,
            FromNetwork::Connected(size) => NewsView::Connected(size),
            FromNetwork::Disconnected => NewsView::Disconnected,
            FromNetwork::Error(e) => NewsView::Error(e@),
            FromNetwork::CertificateVerify { server, cert_info } => {
                NewsView::CertificateVerify { server: server@, cert_info: cert_info@ }
            },
            FromNetwork::Frame(f) => NewsView::Frame(f@),
            FromNetwork::MonitorLayoutAccepted { desktop_size } => {
                NewsView::MonitorLayoutAccepted { desktop_size }
            },
            FromNetwork::MultiMonitorNotSupported => NewsView::MultiMonitorNotSupported,
            FromNetwork::LatencyUpdate { rtt_ms } => NewsView::LatencyUpdate { rtt_ms },
            FromNetwork::ClipboardTextAvailable { formats } => {
                NewsView::ClipboardTextAvailable { formats: formats@ }
            },
            FromNetwork::ClipboardText { text } => NewsView::ClipboardText { text: text@ },
            FromNetwork::ClipboardRequestFailed => NewsView::ClipboardRequestFailed,
            FromNetwork::ClipboardFilesAvailable { formats } => {
                NewsView::ClipboardFilesAvailable { formats: formats@ }
            },
            FromNetwork::ClipboardFilesReceived { files } => {
                NewsView::ClipboardFilesReceived { files: views::seq_view(files@) }
            },
            FromNetwork::ClipboardFileSizeReceived { stream_id, size } => {
                NewsView::ClipboardFileSizeReceived { stream_id, size }
            },
            FromNetwork::ClipboardFileContentReceived { stream_id, data } => {
                NewsView::ClipboardFileContentReceived { stream_id, data: data@ }
            },
            FromNetwork::ClipboardFileTransferFailed { stream_id } => {
                NewsView::ClipboardFileTransferFailed { stream_id }
            },
        }
    }
}

/// Why a connection failed.
#[derive(Debug)]
pub enum ConnectionError {
    /// The host name has no address.
    DnsResolution(String),
    /// The server refused the connection.
    ConnectionRefused(String),
    /// Time ran out.
    Timeout(String),
    /// The secure channel could not be set up.
    TlsError(String),
    /// The user rejected the certificate.
    CertificateRejected(String),
    /// The credentials were not accepted.
    AuthenticationFailed(String),
    /// The server said something unexpected.
    Protocol(String),
    /// Reading or writing failed.
    Io(String),
}

/// The view of `ConnectionError`.
pub enum ConnectionErrorView {
    /// The host name has no address.
    DnsResolution(Seq<char>),
    /// The server refused the connection.
    ConnectionRefused(Seq<char>),
    /// Time ran out.
    Timeout(Seq<char>),
    /// The secure channel could not be set up.
    TlsError(Seq<char>),
    /// The user rejected the certificate.
    CertificateRejected(Seq<char>),
    /// The credentials were not accepted.
    AuthenticationFailed(Seq<char>),
    /// The server said something unexpected.
    Protocol(Seq<char>),
    /// Reading or writing failed.
    Io(Seq<char>),
}

impl View for ConnectionError {
    type V = ConnectionErrorView;

    open spec fn view(&self) -> ConnectionErrorView {
        match *self {
            ConnectionError::DnsResolution(s) => ConnectionErrorView::DnsResolution(s@),
            ConnectionError::ConnectionRefused(s) => ConnectionErrorView::ConnectionRefused(s@),
            ConnectionError::Timeout(s) => ConnectionErrorView::Timeout(s@),
            ConnectionError::TlsError(s) => ConnectionErrorView::TlsError(s@),
            ConnectionError::CertificateRejected(s) => {
                ConnectionErrorView::CertificateRejected(s@)
            },
            ConnectionError::AuthenticationFailed(s) => {
                ConnectionErrorView::AuthenticationFailed(s@)
            },
            ConnectionError::Protocol(s) => ConnectionErrorView::Protocol(s@),
            ConnectionError::Io(s) => ConnectionErrorView::Io(s@),
        }
    }
}

impl ConnectionErrorView {
    /// The text of the error.
    pub open spec fn text(self) -> Seq<char> {
        match self {
            ConnectionErrorView::DnsResolution(s) => "Cannot resolve hostname: "@ + s
                + ". Check the server address."@,
            ConnectionErrorView::ConnectionRefused(s) => "Connection refused: "@ + s
                + ". Server may not be running or port is blocked."@,
            ConnectionErrorView::Timeout(s) => "Connection timeout: "@ + s
                + ". Server may be unreachable."@,
            ConnectionErrorView::TlsError(s) => "TLS error: "@ + s
                + ". Server certificate may be invalid."@,
            ConnectionErrorView::CertificateRejected(s) => "Certificate rejected: "@ + s
                + ". Connection aborted."@,
            ConnectionErrorView::AuthenticationFailed(s) => "Authentication failed: "@ + s
                + ". Check your credentials."@,
            ConnectionErrorView::Protocol(s) => "Protocol error: "@ + s + "."@,
            ConnectionErrorView::Io(s) => "I/O error: "@ + s + "."@,
        }
    }
}

/// Three texts one after the other.
fn three_texts(a: &str, b: &str, c: &str) -> (s: String)
    ensures
        s@ == a@ + b@ + c@,
{
    let mut s = String::new();
    s.push_str(a);
    s.push_str(b);
    s.push_str(c);
    s
}

impl ConnectionError {
    /// The text of the error.
    pub fn message(&self) -> (s: String)
        ensures
            s@ == self@.text(),
    {
        match self {
            ConnectionError::DnsResolution(t) => {
                three_texts("Cannot resolve hostname: ", t.as_str(), ". Check the server address.")
            },
            ConnectionError::ConnectionRefused(t) => three_texts(
                "Connection refused: ",
                t.as_str(),
                ". Server may not be running or port is blocked.",
            ),
            ConnectionError::Timeout(t) => {
                three_texts("Connection timeout: ", t.as_str(), ". Server may be unreachable.")
            },
            ConnectionError::TlsError(t) => {
                three_texts("TLS error: ", t.as_str(), ". Server certificate may be invalid.")
            },
            ConnectionError::CertificateRejected(t) => {
                three_texts("Certificate rejected: ", t.as_str(), ". Connection aborted.")
            },
            ConnectionError::AuthenticationFailed(t) => {
                three_texts("Authentication failed: ", t.as_str(), ". Check your credentials.")
            },
            ConnectionError::Protocol(t) => three_texts("Protocol error: ", t.as_str(), "."),
            ConnectionError::Io(t) => three_texts("I/O error: ", t.as_str(), "."),
        }
    }
}

impl Clone for ConnectionError {
    fn clone(&self) -> (e: ConnectionError)
        ensures
            e@ == self@,
    {
        match self {
            ConnectionError::DnsResolution(t) => ConnectionError::DnsResolution(t.clone()),
            ConnectionError::ConnectionRefused(t) => ConnectionError::ConnectionRefused(t.clone()),
            ConnectionError::Timeout(t) => ConnectionError::Timeout(t.clone()),
            ConnectionError::TlsError(t) => ConnectionError::TlsError(t.clone()),
            ConnectionError::CertificateRejected(t) => {
                ConnectionError::CertificateRejected(t.clone())
            },
            ConnectionError::AuthenticationFailed(t) => {
                ConnectionError::AuthenticationFailed(t.clone())
            },
            ConnectionError::Protocol(t) => ConnectionError::Protocol(t.clone()),
            ConnectionError::Io(t) => ConnectionError::Io(t.clone()),
        }
    }
}

/// What is written out of a configuration does not depend on the password.
pub proof fn law_password_is_not_written(c: ConfigView, password: Option<Seq<char>>)
    ensures
        config_text(ConfigView { password, ..c }) == config_text(c),
        request_text(RequestView::Connect(ConfigView { password, ..c })) == request_text(
            RequestView::Connect(c),
        ),
{
}

/// `DOMAIN\user` is read as the user of the domain, whatever the user name holds.
pub proof fn law_domain_before_backslash(domain: Seq<char>, user: Seq<char>)
    requires
        !domain.contains('\\'),
        domain != "."@,
    ensures
        parsed_username(domain + seq!['\\'] + user) == (user, Some(domain)),
{
    let s = domain + seq!['\\'] + user;
    let at = domain.len() as int;
    assert(s[at] == '\\');
    s.index_of_first_ensures('\\');
    let i = s.index_of_first('\\')->0;
    if i < at {
        assert(domain[i] == s[i]);
    }
    assert(s.take(at) == domain);
    assert(s.skip(at + 1) == user);
}

/// `.\user` is read as a user of no domain.
pub proof fn law_dot_is_no_domain(user: Seq<char>)
    ensures
        parsed_username("."@ + seq!['\\'] + user) == (user, None::<Seq<char>>),
{
    reveal_strlit(".");
    let s = "."@ + seq!['\\'] + user;
    assert(s[1] == '\\');
    assert(s[0] == '.');
    s.index_of_first_ensures('\\');
    assert(s.take(1) == "."@);
    assert(s.skip(2) == user);
}

/// `user@domain` is read as the user of the domain where the domain has a dot in
/// it, no `@`, and no backslash is anywhere.
pub proof fn law_domain_after_at(user: Seq<char>, domain: Seq<char>)
    requires
        !user.contains('\\'),
        !domain.contains('\\'),
        !domain.contains('@'),
        domain.contains('.'),
    ensures
        parsed_username(user + seq!['@'] + domain) == (user, Some(domain)),
{
    let s = user + seq!['@'] + domain;
    let at = user.len() as int;
    assert(s[at] == '@');
    s.index_of_first_ensures('\\');
    s.index_of_last_ensures('@');
    if s.contains('\\') {
        let i = s.index_of_first('\\')->0;
        if i < at {
            assert(user[i] == s[i]);
        } else if i > at {
            assert(domain[i - at - 1] == s[i]);
        }
    }
    let i = s.index_of_last('@')->0;
    if i > at {
        assert(domain[i - at - 1] == s[i]);
    }
    assert(s.take(at) == user);
    assert(s.skip(at + 1) == domain);
}

/// A name without a backslash and without an `@` is a user name.
pub proof fn law_plain_username(s: Seq<char>)
    requires
        !s.contains('\\'),
        !s.contains('@'),
    ensures
        parsed_username(s) == (s, None::<Seq<char>>),
{
    s.index_of_first_ensures('\\');
    s.index_of_last_ensures('@');
}

/// A plain configuration has a host and a port, no credentials and no layout, and
/// shares the clipboard.
pub proof fn law_plain_config(host: Seq<char>, port: u16)
    ensures
        ({
            let c = plain_config(host, port);
            &&& c.host == host && c.port == port
            &&& c.username is None && c.domain is None && c.password is None
            &&& c.monitor_layout is None
            &&& c.clipboard_enabled
        }),
{
}

/// A user name with a domain gives both, and nothing else is changed by it.
pub proof fn law_username_is_taken_apart(host: Seq<char>, port: u16, username: Seq<char>)
    ensures
        ({
            let c = config_from_username(host, port, username);
            &&& c.username == Some(parsed_username(username).0)
            &&& c.domain == parsed_username(username).1
            &&& c.host == host && c.port == port && c.password is None
            &&& c.clipboard_enabled && c.monitor_layout is None
        }),
{
}

/// An address is the host, a colon and the digits of the port.
pub proof fn law_address_is_read_back(c: ConfigView)
    ensures
        address_text(c).take(c.host.len() as int) == c.host,
        address_text(c)[c.host.len() as int] == ':',
        text::decimal_value(address_text(c).skip((c.host.len() + 1) as int)) == c.port,
{
    reveal_strlit(":");
    text::law_decimal_reads_back(c.port as nat);
    assert(address_text(c).take(c.host.len() as int) =~= c.host);
    assert(address_text(c).skip((c.host.len() + 1) as int) =~= text::decimal(c.port as nat));
}

/// The line that follows another one in a text.
pub open spec fn then_line(before: Seq<char>, line: Seq<char>) -> Seq<char> {
    before.push('\n') + line
}

/// A certificate is shown in lines: its fingerprint, who it is for where that is
/// known, who issued it, and when it is valid.
pub proof fn law_certificate_is_shown_in_lines(c: CertificateView)
    ensures
        ({
            let first = "Fingerprint: "@ + shown_fingerprint(c.fingerprint);
            let second = match c.common_name {
                Some(cn) => then_line(first, "Subject:     CN="@ + cn),
                None => first,
            };
            let third = match c.organization {
                Some(org) => then_line(second, "Org:         "@ + org),
                None => second,
            };
            let fourth = then_line(third, "Issuer:      "@ + c.issuer);
            let fifth = then_line(
                fourth,
                "Valid:       "@ + c.not_before + " to "@ + c.not_after,
            );
            certificate_text(c) == fifth
        }),
{
    reveal_strlit("\nSubject:     CN=");
    reveal_strlit("Subject:     CN=");
    reveal_strlit("\nOrg:         ");
    reveal_strlit("Org:         ");
    reveal_strlit("\nIssuer:      ");
    reveal_strlit("Issuer:      ");
    reveal_strlit("\nValid:       ");
    reveal_strlit("Valid:       ");
    let first = "Fingerprint: "@ + shown_fingerprint(c.fingerprint);
    let second = match c.common_name {
        Some(cn) => then_line(first, "Subject:     CN="@ + cn),
        None => first,
    };
    match c.common_name {
        Some(cn) => {
            assert(first + ("\nSubject:     CN="@ + cn) =~= second);
        },
        None => {
            assert(first + Seq::<char>::empty() =~= second);
        },
    }
    let third = match c.organization {
        Some(org) => then_line(second, "Org:         "@ + org),
        None => second,
    };
    match c.organization {
        Some(org) => {
            assert(second + ("\nOrg:         "@ + org) =~= third);
        },
        None => {
            assert(second + Seq::<char>::empty() =~= third);
        },
    }
    let fourth = then_line(third, "Issuer:      "@ + c.issuer);
    assert(third + "\nIssuer:      "@ + c.issuer =~= fourth);
    let fifth = then_line(fourth, "Valid:       "@ + c.not_before + " to "@ + c.not_after);
    assert(fourth + "\nValid:       "@ + c.not_before + " to "@ + c.not_after =~= fifth);
}

/// The message of an error is what went wrong, its details and what to do about it.
pub proof fn law_error_message_has_details(e: ConnectionErrorView)
    ensures
        match e {
            ConnectionErrorView::DnsResolution(s) => says(
                e.text(),
                "Cannot resolve hostname: "@,
                s,
                ". Check the server address."@,
            ),
            ConnectionErrorView::ConnectionRefused(s) => says(
                e.text(),
                "Connection refused: "@,
                s,
                ". Server may not be running or port is blocked."@,
            ),
            ConnectionErrorView::Timeout(s) => says(
                e.text(),
                "Connection timeout: "@,
                s,
                ". Server may be unreachable."@,
            ),
            ConnectionErrorView::TlsError(s) => says(
                e.text(),
                "TLS error: "@,
                s,
                ". Server certificate may be invalid."@,
            ),
            ConnectionErrorView::CertificateRejected(s) => says(
                e.text(),
                "Certificate rejected: "@,
                s,
                ". Connection aborted."@,
            ),
            ConnectionErrorView::AuthenticationFailed(s) => says(
                e.text(),
                "Authentication failed: "@,
                s,
                ". Check your credentials."@,
            ),
            ConnectionErrorView::Protocol(s) => says(e.text(), "Protocol error: "@, s, "."@),
            ConnectionErrorView::Io(s) => says(e.text(), "I/O error: "@, s, "."@),
        },
{
    match e {
        ConnectionErrorView::DnsResolution(s) => {
            lemma_says("Cannot resolve hostname: "@, s, ". Check the server address."@);
        },
        ConnectionErrorView::ConnectionRefused(s) => {
            lemma_says(
                "Connection refused: "@,
                s,
                ". Server may not be running or port is blocked."@,
            );
        },
        ConnectionErrorView::Timeout(s) => {
            lemma_says("Connection timeout: "@, s, ". Server may be unreachable."@);
        },
        ConnectionErrorView::TlsError(s) => {
            lemma_says("TLS error: "@, s, ". Server certificate may be invalid."@);
        },
        ConnectionErrorView::CertificateRejected(s) => {
            lemma_says("Certificate rejected: "@, s, ". Connection aborted."@);
        },
        ConnectionErrorView::AuthenticationFailed(s) => {
            lemma_says("Authentication failed: "@, s, ". Check your credentials."@);
        },
        ConnectionErrorView::Protocol(s) => {
            lemma_says("Protocol error: "@, s, "."@);
        },
        ConnectionErrorView::Io(s) => {
            lemma_says("I/O error: "@, s, "."@);
        },
    }
}

/// The text begins and ends as given, with the details between.
pub open spec fn says(
    t: Seq<char>,
    before: Seq<char>,
    details: Seq<char>,
    after: Seq<char>,
) -> bool {
    &&& before.is_prefix_of(t)
    &&& after.is_suffix_of(t)
    &&& t.subrange(before.len() as int, t.len() - after.len()) == details
    &&& text::occurs(t, details)
}

/// Three texts in a row begin, hold and end as they should.
pub proof fn lemma_says(before: Seq<char>, details: Seq<char>, after: Seq<char>)
    ensures
        says(before + details + after, before, details, after),
{
    let t = before + details + after;
    assert(t.take(before.len() as int) =~= before);
    assert(t.skip(t.len() - after.len()) =~= after);
    assert(t.subrange(t.len() - after.len(), t.len() as int) =~= after);
    assert(t.subrange(before.len() as int, t.len() - after.len()) =~= details);
    text::law_part_occurs(before, details, after);
}

/// A configuration is written out with its host, its port, its user name and its
/// domain.
pub proof fn law_config_is_written_out(c: ConfigView)
    ensures
        text::occurs(config_text(c), "host: "@ + text::quoted(c.host) + ", "@),
        text::occurs(config_text(c), "port: "@ + text::decimal(c.port as nat) + ", "@),
        text::occurs(config_text(c), "username: "@ + text::quoted_option(c.username) + ", "@),
        text::occurs(config_text(c), "domain: "@ + text::quoted_option(c.domain) + ", "@),
        text::occurs(config_text(c), "password: \"[REDACTED]\", "@),
{
    reveal_strlit("ConnectionConfig { host: ");
    reveal_strlit("ConnectionConfig { ");
    reveal_strlit("host: ");
    reveal_strlit(", port: ");
    reveal_strlit("port: ");
    reveal_strlit(", username: ");
    reveal_strlit("username: ");
    reveal_strlit(", domain: ");
    reveal_strlit("domain: ");
    reveal_strlit(", ");
    reveal_strlit(", password: \"[REDACTED]\", monitor_layout: ");
    reveal_strlit("password: \"[REDACTED]\", ");
    reveal_strlit("monitor_layout: ");
    let host = text::quoted(c.host);
    let port = text::decimal(c.port as nat);
    let user = text::quoted_option(c.username);
    let domain = text::quoted_option(c.domain);
    let rest = "monitor_layout: "@ + layout_text(c.monitor_layout) + ", clipboard_enabled: "@
        + text::truth(c.clipboard_enabled) + " }"@;
    let p0 = "ConnectionConfig { "@;
    let p1 = "host: "@ + host + ", "@;
    let p2 = "port: "@ + port + ", "@;
    let p3 = "username: "@ + user + ", "@;
    let p4 = "domain: "@ + domain + ", "@;
    let p5 = "password: \"[REDACTED]\", "@;
    let t = config_text(c);
    assert(t =~= p0 + p1 + p2 + p3 + p4 + p5 + rest);
    text::law_part_occurs(p0, p1, p2 + p3 + p4 + p5 + rest);
    assert(t =~= p0 + p1 + (p2 + p3 + p4 + p5 + rest));
    text::law_part_occurs(p0 + p1, p2, p3 + p4 + p5 + rest);
    assert(t =~= (p0 + p1) + p2 + (p3 + p4 + p5 + rest));
    text::law_part_occurs(p0 + p1 + p2, p3, p4 + p5 + rest);
    assert(t =~= (p0 + p1 + p2) + p3 + (p4 + p5 + rest));
    text::law_part_occurs(p0 + p1 + p2 + p3, p4, p5 + rest);
    assert(t =~= (p0 + p1 + p2 + p3) + p4 + (p5 + rest));
    text::law_part_occurs(p0 + p1 + p2 + p3 + p4, p5, rest);
}

/// A request is written out under its name and with what it asks for.
pub proof fn law_request_is_written_out(
    scancode: u16,
    pressed: bool,
    x: u16,
    y: u16,
    button: MouseButton,
    file_index: u32,
    offset: u64,
    length: u32,
)
    ensures
        request_text(RequestView::KeyboardInput { scancode, pressed }) == "KeyboardInput { "@
            + "scancode: "@ + text::decimal(scancode as nat) + ", pressed: "@ + text::truth(pressed)
            + " }"@,
        request_text(RequestView::MouseMove { x, y }) == "MouseMove { "@ + "x: "@ + text::decimal(
            x as nat,
        ) + ", y: "@ + text::decimal(y as nat) + " }"@,
        request_text(RequestView::MouseButton { button, pressed, x, y }) == "MouseButton { "@
            + "button: "@ + button.name() + ", pressed: "@ + text::truth(pressed) + ", x: "@
            + text::decimal(x as nat) + ", y: "@ + text::decimal(y as nat) + " }"@,
        request_text(RequestView::RequestFileContent { file_index, offset, length })
            == "RequestFileContent { "@ + "file_index: "@ + text::decimal(file_index as nat)
            + ", offset: "@ + text::decimal(offset as nat) + ", length: "@ + text::decimal(
            length as nat,
        ) + " }"@,
        MouseButton::Left.name() == "Left"@ && MouseButton::Right.name() == "Right"@,
        MouseButton::Middle.name() == "Middle"@,
{
    reveal_strlit("KeyboardInput { scancode: ");
    reveal_strlit("KeyboardInput { ");
    reveal_strlit("scancode: ");
    assert("KeyboardInput { scancode: "@ =~= "KeyboardInput { "@ + "scancode: "@);
    reveal_strlit("MouseMove { x: ");
    reveal_strlit("MouseMove { ");
    reveal_strlit("x: ");
    assert("MouseMove { x: "@ =~= "MouseMove { "@ + "x: "@);
    reveal_strlit("MouseButton { button: ");
    reveal_strlit("MouseButton { ");
    reveal_strlit("button: ");
    assert("MouseButton { button: "@ =~= "MouseButton { "@ + "button: "@);
    reveal_strlit("RequestFileContent { file_index: ");
    reveal_strlit("RequestFileContent { ");
    reveal_strlit("file_index: ");
    assert("RequestFileContent { file_index: "@ =~= "RequestFileContent { "@ + "file_index: "@);
}

/// A monitor of a layout is written out with its place, its sides, its scale and its
/// physical sides; a layout is written out monitor by monitor.
pub proof fn law_monitor_is_written_out(m: RdpMonitorInfo, monitors: Seq<RdpMonitorInfo>)
    requires
        monitors.len() > 0,
    ensures
        text::occurs(monitor_text(m), "x: "@ + text::signed_decimal(m.x as int) + ", y: "@
            + text::signed_decimal(m.y as int)),
        monitor_texts(monitors.push(m)) == monitor_texts(monitors) + ", "@ + monitor_text(m),
        monitor_texts(seq![m]) == monitor_text(m),
        layout_text(None) == "None"@,
        layout_text(Some(monitors)) == "Some(["@ + monitor_texts(monitors) + "])"@,
{
    assert(monitors.push(m).drop_last() =~= monitors);
    reveal_strlit("RdpMonitorInfo { x: ");
    reveal_strlit("RdpMonitorInfo { ");
    reveal_strlit("x: ");
    let place = "x: "@ + text::signed_decimal(m.x as int) + ", y: "@ + text::signed_decimal(
        m.y as int,
    );
    let rest = ", width: "@ + text::decimal(m.width as nat) + ", height: "@ + text::decimal(
        m.height as nat,
    ) + ", is_primary: "@ + text::truth(m.is_primary) + ", scale_percent: "@ + text::decimal(
        m.scale_percent as nat,
    ) + ", physical_width_mm: "@ + text::quoted_number(m.physical_width_mm)
        + ", physical_height_mm: "@ + text::quoted_number(m.physical_height_mm) + " }"@;
    assert(monitor_text(m) =~= "RdpMonitorInfo { "@ + place + rest);
    text::law_part_occurs("RdpMonitorInfo { "@, place, rest);
}

} // verus!
