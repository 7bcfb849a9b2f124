//! The settings of a connection: what the user asked for, what the profile says,
//! and the defaults, in this order.
use vstd::prelude::*;

use crate::config;
use crate::config::{Config, ConfigurationView, ConnectionProfile, ProfileView};
use crate::messages;
use crate::messages::{ConfigView, ConnectionConfig};
use crate::text;
use crate::views;

verus! {

/// What the user asked for on the command line.
#[derive(Debug)]
pub struct ConnectOptions {
    /// Host name or address of a server, or the name of a profile.
    pub host: String,
    /// The port.
    pub port: Option<u16>,
    /// The user name.
    pub username: Option<String>,
    /// The domain.
    pub domain: Option<String>,
    /// The window shall fill the screen.
    pub fullscreen: bool,
    /// The window shall not fill the screen.
    pub no_fullscreen: bool,
    /// The window shall fill all screens.
    pub all_monitors: bool,
    /// No sound shall be played or captured.
    pub no_audio: bool,
    /// The microphone shall not be used.
    pub no_microphone: bool,
    /// The clipboard shall not be shared.
    pub no_clipboard: bool,
}

/// The view of `ConnectOptions`.
pub struct OptionsView {
    /// Host name or address of a server, or the name of a profile.
    pub host: Seq<char>,
    /// The port.
    pub port: Option<u16>,
    /// The user name.
    pub username: Option<Seq<char>>,
    /// The domain.
    pub domain: Option<Seq<char>>,
    /// The window shall fill the screen.
    pub fullscreen: bool,
    /// The window shall not fill the screen.
    pub no_fullscreen: bool,
    /// The window shall fill all screens.
    pub all_monitors: bool,
    /// No sound shall be played or captured.
    pub no_audio: bool,
    /// The microphone shall not be used.
    pub no_microphone: bool,
    /// The clipboard shall not be shared.
    pub no_clipboard: bool,
}

impl View for ConnectOptions {
    type V = OptionsView;

    open spec fn view(&self) -> OptionsView {
        OptionsView {
            host: self.host@,
            port: self.port,
            username: views::option_view(self.username),
            domain: views::option_view(self.domain),
            fullscreen: self.fullscreen,
            no_fullscreen: self.no_fullscreen,
            all_monitors: self.all_monitors,
            no_audio: self.no_audio,
            no_microphone: self.no_microphone,
            no_clipboard: self.no_clipboard,
        }
    }
}

impl ConnectOptions {
    /// Nothing is asked for but the server.
    pub fn new(host: &str) -> (o: ConnectOptions)
        ensures
            o@ == (OptionsView {
                host: host@,
                port: None,
                username: None,
                domain: None,
                fullscreen: false,
                no_fullscreen: false,
                all_monitors: false,
                no_audio: false,
                no_microphone: false,
                no_clipboard: false,
            }),
    {
        ConnectOptions {
            host: host.to_owned(),
            port: None,
            username: None,
            domain: None,
            fullscreen: false,
            no_fullscreen: false,
            all_monitors: false,
            no_audio: false,
            no_microphone: false,
            no_clipboard: false,
        }
    }
}

/// The settings of a connection.
#[derive(Debug)]
pub struct Settings {
    /// Host name or address of the server.
    pub host: String,
    /// The port.
    pub port: u16,
    /// The user name.
    pub username: Option<String>,
    /// The domain.
    pub domain: Option<String>,
    /// The window fills the screen.
    pub fullscreen: bool,
    /// The window fills all screens.
    pub all_monitors: bool,
    /// Sound is played.
    pub audio: bool,
    /// The microphone is used.
    pub microphone: bool,
    /// The clipboard is shared.
    pub clipboard: bool,
}

/// The view of `Settings`.
pub struct SettingsView {
    /// Host name or address of the server.
    pub host: Seq<char>,
    /// The port.
    pub port: u16,
    /// The user name.
    pub username: Option<Seq<char>>,
    /// The domain.
    pub domain: Option<Seq<char>>,
    /// The window fills the screen.
    pub fullscreen: bool,
    /// The window fills all screens.
    pub all_monitors: bool,
    /// Sound is played.
    pub audio: bool,
    /// The microphone is used.
    pub microphone: bool,
    /// The clipboard is shared.
    pub clipboard: bool,
}

impl View for Settings {
    type V = SettingsView;

    open spec fn view(&self) -> SettingsView {
        SettingsView {
            host: self.host@,
            port: self.port,
            username: views::option_view(self.username),
            domain: views::option_view(self.domain),
            fullscreen: self.fullscreen,
            all_monitors: self.all_monitors,
            audio: self.audio,
            microphone: self.microphone,
            clipboard: self.clipboard,
        }
    }
}

/// The first of two that is there.
pub open spec fn first_of<T>(a: Option<T>, b: Option<T>) -> Option<T> {
    if a is Some {
        a
    } else {
        b
    }
}

/// The value, or another where there is none.
pub open spec fn value_or<T>(a: Option<T>, b: T) -> T {
    match a {
        Some(v) => v,
        None => b,
    }
}

/// What a profile says, or nothing where there is no profile.
pub open spec fn of_profile(c: ConfigurationView, o: OptionsView) -> Option<ProfileView> {
    if c.profiles.contains_key(o.host) {
        Some(c.profiles[o.host])
    } else {
        None
    }
}

/// The settings of a connection. Where the host is the name of a profile, the
/// profile says where to connect to; where it is not, it is the server itself.
pub open spec fn settings_of(c: ConfigurationView, o: OptionsView) -> SettingsView {
    let p = value_or(of_profile(c, o), config::bare_profile(o.host));
    SettingsView {
        host: p.host,
        port: value_or(first_of(o.port, p.port), c.defaults.used_port()),
        username: first_of(o.username, first_of(p.username, c.defaults.username)),
        domain: first_of(o.domain, first_of(p.domain, c.defaults.domain)),
        fullscreen: if o.no_fullscreen {
            false
        } else if o.fullscreen {
            true
        } else {
            value_or(first_of(p.fullscreen, c.defaults.fullscreen), false)
        },
        all_monitors: o.all_monitors || value_or(
            first_of(p.all_monitors, c.defaults.all_monitors),
            false,
        ),
        audio: !o.no_audio && value_or(p.audio, c.audio.enabled),
        microphone: !o.no_microphone && value_or(p.microphone, c.audio.microphone),
        clipboard: !o.no_clipboard && value_or(p.clipboard, c.clipboard.enabled),
    }
}

/// The first of three texts that is there.
fn first_text(a: &Option<String>, b: &Option<String>, c: &Option<String>) -> (r: Option<String>)
    ensures
        views::option_view(r) == first_of(
            views::option_view(*a),
            first_of(views::option_view(*b), views::option_view(*c)),
        ),
{
    if a.is_some() {
        text::copy_option(a)
    } else if b.is_some() {
        text::copy_option(b)
    } else {
        text::copy_option(c)
    }
}

/// The first of two flags that is there, or no.
fn first_flag(a: Option<bool>, b: Option<bool>) -> (r: bool)
    ensures
        r == value_or(first_of(a, b), false),
{
    match (a, b) {
        (Some(v), _) => v,
        (None, Some(v)) => v,
        (None, None) => false,
    }
}

/// The flag, or another where there is none.
fn flag_or(a: Option<bool>, b: bool) -> (r: bool)
    ensures
        r == value_or(a, b),
{
    match a {
        Some(v) => v,
        None => b,
    }
}

/// The settings, from the configuration, what the user asked for, and a profile.
fn merged(configured: &Config, options: &ConnectOptions, p: &ConnectionProfile) -> (s: Settings)
    requires
        p@ == value_or(of_profile(configured@, options@), config::bare_profile(options@.host)),
    ensures
        s@ == settings_of(configured@, options@),
{
    let port = match (options.port, p.port) {
        (Some(port), _) => port,
        (None, Some(port)) => port,
        (None, None) => configured.defaults.effective_port(),
    };
    let fullscreen = if options.no_fullscreen {
        false
    } else if options.fullscreen {
        true
    } else {
        first_flag(p.fullscreen, configured.defaults.fullscreen)
    };
    Settings {
        host: p.host.clone(),
        port,
        username: first_text(&options.username, &p.username, &configured.defaults.username),
        domain: first_text(&options.domain, &p.domain, &configured.defaults.domain),
        fullscreen,
        all_monitors: options.all_monitors || first_flag(
            p.all_monitors,
            configured.defaults.all_monitors,
        ),
        audio: !options.no_audio && flag_or(p.audio, configured.audio.enabled),
        microphone: !options.no_microphone && flag_or(p.microphone, configured.audio.microphone),
        clipboard: !options.no_clipboard && flag_or(p.clipboard, configured.clipboard.enabled),
    }
}

/// The settings of a connection.
pub fn effective_settings(config: &Config, options: &ConnectOptions) -> (s: Settings)
    requires
        config.wf(),
    ensures
        s@ == settings_of(config@, options@),
{
    match config.get_profile(options.host.as_str()) {
        Some(p) => merged(config, options, p),
        None => {
            let silent = ConnectionProfile::new(options.host.as_str());
            merged(config, options, &silent)
        },
    }
}

/// The configuration of the connection before the user is asked for the password:
/// what was typed for a user name may hold a domain, and a domain that was said
/// explicitly counts more than that.
pub open spec fn config_before_password(s: SettingsView) -> ConfigView {
    let base = match s.username {
        Some(user) => messages::config_from_username(s.host, s.port, user),
        None => messages::plain_config(s.host, s.port),
    };
    match s.domain {
        Some(domain) => ConfigView { domain: Some(domain), ..base },
        None => base,
    }
}

/// The configuration of the connection before the user is asked for the password.
pub fn connection_config(settings: &Settings) -> (c: ConnectionConfig)
    ensures
        c@ == config_before_password(settings@),
{
    let base = match &settings.username {
        Some(user) => {
            ConnectionConfig::from_username(settings.host.as_str(), settings.port, user.as_str())
        },
        None => ConnectionConfig::new(settings.host.as_str(), settings.port),
    };
    match &settings.domain {
        Some(domain) => base.with_domain(domain.as_str()),
        None => base,
    }
}

/// Tests whether the user has to be asked for a password.
pub fn needs_password(config: &ConnectionConfig) -> (b: bool)
    ensures
        b == (config@.username is Some),
        b == asks_password(config@),
{
    config.username.is_some()
}

/// The configuration of the connection, with the password where there is one.
pub fn complete_config(
    config: ConnectionConfig,
    password: Option<String>,
    clipboard: bool,
) -> (c: ConnectionConfig)
    ensures
        c@ == (ConfigView {
            password: first_of(views::option_view(password), config@.password),
            clipboard_enabled: config@.clipboard_enabled && clipboard,
            ..config@
        }),
        c@ == config_with_password(config@, views::option_view(password), clipboard),
{
    let with_password = match password {
        Some(p) => config.with_password(p.as_str()),
        None => config,
    };
    if clipboard {
        with_password
    } else {
        with_password.without_clipboard()
    }
}

/// What of sound a connection has: whether there is an audio thread to command,
/// and whether it captures. Without an audio thread there is no microphone.
pub fn audio_parts(thread_runs: bool, microphone: bool) -> (r: (bool, bool))
    ensures
        r.0 == thread_runs,
        r.1 == (thread_runs && microphone),
        r == parts_of_sound(thread_runs, microphone),
{
    (thread_runs, thread_runs && microphone)
}

/// Whether the user is asked for a password.
pub open spec fn asks_password(c: ConfigView) -> bool {
    c.username is Some
}

/// The configuration with the password that was given and without the clipboard where
/// it is not shared.
pub open spec fn config_with_password(
    c: ConfigView,
    password: Option<Seq<char>>,
    clipboard: bool,
) -> ConfigView {
    ConfigView {
        password: first_of(password, c.password),
        clipboard_enabled: c.clipboard_enabled && clipboard,
        ..c
    }
}

/// Whether there is sound and whether there is a microphone.
pub open spec fn parts_of_sound(thread_runs: bool, microphone: bool) -> (bool, bool) {
    (thread_runs, thread_runs && microphone)
}

/// What the user asks for counts more than the profile and the defaults.
pub proof fn law_options_come_first(c: ConfigurationView, o: OptionsView)
    ensures
        o.port is Some ==> settings_of(c, o).port == o.port->0,
        o.username is Some ==> settings_of(c, o).username == o.username,
        o.domain is Some ==> settings_of(c, o).domain == o.domain,
        o.no_fullscreen ==> !settings_of(c, o).fullscreen,
        o.fullscreen && !o.no_fullscreen ==> settings_of(c, o).fullscreen,
        o.all_monitors ==> settings_of(c, o).all_monitors,
        o.no_audio ==> !settings_of(c, o).audio,
        o.no_microphone ==> !settings_of(c, o).microphone,
        o.no_clipboard ==> !settings_of(c, o).clipboard,
{
}

/// Where the user asks for nothing, the profile counts more than the defaults.
pub proof fn law_profile_comes_second(c: ConfigurationView, o: OptionsView)
    requires
        c.profiles.contains_key(o.host),
    ensures
        ({
            let p = c.profiles[o.host];
            let s = settings_of(c, o);
            &&& s.host == p.host
            &&& o.port is None && p.port is Some ==> s.port == p.port->0
            &&& o.username is None && p.username is Some ==> s.username == p.username
            &&& o.domain is None && p.domain is Some ==> s.domain == p.domain
            &&& !o.no_fullscreen && !o.fullscreen && p.fullscreen is Some ==> s.fullscreen
                == p.fullscreen->0
            &&& !o.all_monitors && p.all_monitors is Some ==> s.all_monitors == p.all_monitors->0
            &&& !o.no_audio && p.audio is Some ==> s.audio == p.audio->0
            &&& !o.no_microphone && p.microphone is Some ==> s.microphone == p.microphone->0
            &&& !o.no_clipboard && p.clipboard is Some ==> s.clipboard == p.clipboard->0
        }),
{
}

/// A host that is no profile is the server itself, with the defaults for whatever
/// the user does not ask for.
pub proof fn law_host_without_profile(c: ConfigurationView, o: OptionsView)
    requires
        !c.profiles.contains_key(o.host),
    ensures
        ({
            let s = settings_of(c, o);
            &&& s.host == o.host
            &&& o.port is None ==> s.port == c.defaults.used_port()
            &&& o.username is None ==> s.username == c.defaults.username
            &&& o.domain is None ==> s.domain == c.defaults.domain
            &&& !o.no_fullscreen && !o.fullscreen ==> s.fullscreen == value_or(
                c.defaults.fullscreen,
                false,
            )
            &&& !o.all_monitors ==> s.all_monitors == value_or(c.defaults.all_monitors, false)
            &&& !o.no_audio ==> s.audio == c.audio.enabled
            &&& !o.no_microphone ==> s.microphone == c.audio.microphone
            &&& !o.no_clipboard ==> s.clipboard == c.clipboard.enabled
        }),
{
}

/// A domain that was said explicitly counts more than one in the user name.
pub proof fn law_explicit_domain_wins(s: SettingsView)
    requires
        s.domain is Some,
    ensures
        config_before_password(s).domain == s.domain,
{
}

/// The connection is made to the host and the port of the settings, as the user of the
/// settings where there is one, and no password is made up.
pub proof fn law_connection_goes_where_settings_say(s: SettingsView)
    ensures
        ({
            let c = config_before_password(s);
            &&& c.host == s.host && c.port == s.port
            &&& c.username is Some <==> s.username is Some
            &&& s.username matches Some(user) ==> c.username == Some(
                messages::parsed_username(user).0,
            )
            &&& s.domain is None && s.username is Some ==> c.domain
                == messages::parsed_username(s.username->0).1
            &&& s.domain is None && s.username is None ==> c.domain is None
            &&& c.password is None
            &&& c.clipboard_enabled && c.monitor_layout is None
        }),
{
}

/// The user is asked for a password exactly where there is a user name. A password that
/// is given is used, and the clipboard is shared only where the settings share it;
/// nothing else changes.
pub proof fn law_password_completes_config(
    s: SettingsView,
    password: Option<Seq<char>>,
)
    ensures
        ({
            let before = config_before_password(s);
            let after = config_with_password(before, password, s.clipboard);
            &&& asks_password(before) <==> s.username is Some
            &&& after.password == password
            &&& after.clipboard_enabled <==> s.clipboard
            &&& after.host == s.host && after.port == s.port
            &&& after.username == before.username && after.domain == before.domain
            &&& after.monitor_layout == before.monitor_layout
        }),
{
}

/// There is sound where the audio thread runs, and a microphone where it runs and one
/// is wanted.
pub proof fn law_sound_needs_thread(thread_runs: bool, microphone: bool)
    ensures
        parts_of_sound(thread_runs, microphone).0 <==> thread_runs,
        parts_of_sound(thread_runs, microphone).1 <==> thread_runs && microphone,
{
}

} // verus!
