//! The configuration file: its settings, its place, and what is wrong with it.
use vstd::prelude::*;

use crate::error::{Error, ErrorView};
use crate::paths;
use crate::paths::Platform;
use crate::text;
use crate::views;

verus! {

/// The default port of a server.
pub const DEFAULT_PORT: u16 = 3389;

/// The name of the configuration file.
pub const CONFIG_FILE_NAME: &'static str = "config.toml";

/// The name of the directory of the configuration file.
pub const APP_DIR_NAME: &'static str = "yard";

/// Settings for sound.
#[derive(Debug, Clone, Copy, PartialEq, Eq, Structural)]
pub struct AudioConfig {
    /// Sound is played.
    pub enabled: bool,
    /// The microphone is used.
    pub microphone: bool,
}

impl Default for AudioConfig {
    fn default() -> (c: AudioConfig)
        ensures
            c == (AudioConfig { enabled: true, microphone: true }),
    {
        AudioConfig { enabled: true, microphone: true }
    }
}

/// Settings for the clipboard.
#[derive(Debug, Clone, Copy, PartialEq, Eq, Structural)]
pub struct ClipboardConfig {
    /// The clipboard is shared.
    pub enabled: bool,
}

impl Default for ClipboardConfig {
    fn default() -> (c: ClipboardConfig)
        ensures
            c == (ClipboardConfig { enabled: true }),
    {
        ClipboardConfig { enabled: true }
    }
}

/// Settings for connections for which nothing else is said.
#[derive(Debug, Clone)]
pub struct ConnectionDefaults {
    /// The port; 0 stands for the default port.
    pub port: u16,
    /// The domain.
    pub domain: Option<String>,
    /// The user name.
    pub username: Option<String>,
    /// The window fills the screen.
    pub fullscreen: Option<bool>,
    /// The window fills all screens.
    pub all_monitors: Option<bool>,
}

/// The view of `ConnectionDefaults`.
pub struct DefaultsView {
    /// The port; 0 stands for the default port.
    pub port: u16,
    /// The domain.
    pub domain: Option<Seq<char>>,
    /// The user name.
    pub username: Option<Seq<char>>,
    /// The window fills the screen.
    pub fullscreen: Option<bool>,
    /// The window fills all screens.
    pub all_monitors: Option<bool>,
}

impl View for ConnectionDefaults {
    type V = DefaultsView;

    open spec fn view(&self) -> DefaultsView {
        DefaultsView {
            port: self.port,
            domain: views::option_view(self.domain),
            username: views::option_view(self.username),
            fullscreen: self.fullscreen,
            all_monitors: self.all_monitors,
        }
    }
}

impl DefaultsView {
    /// The port that is used: the default one in place of 0.
    pub open spec fn used_port(self) -> u16 {
        if self.port == 0 {
            3389
        } else {
            self.port
        }
    }

    /// The defaults where nothing is configured.
    pub open spec fn built_in() -> DefaultsView {
        DefaultsView {
            port: 3389,
            domain: None,
            username: None,
            fullscreen: None,
            all_monitors: None,
        }
    }
}

impl Default for ConnectionDefaults {
    fn default() -> (d: ConnectionDefaults)
        ensures
            d@ == DefaultsView::built_in(),
    {
        ConnectionDefaults {
            port: DEFAULT_PORT,
            domain: None,
            username: None,
            fullscreen: None,
            all_monitors: None,
        }
    }
}

impl ConnectionDefaults {
    /// The port that is used.
    #[must_use]
    pub fn effective_port(&self) -> (p: u16)
        ensures
            p == self@.used_port(),
    {
        if self.port == 0 {
            DEFAULT_PORT
        } else {
            self.port
        }
    }
}

/// A server with its settings, known by a name.
#[derive(Debug, Clone)]
pub struct ConnectionProfile {
    /// Host name or address of the server.
    pub host: String,
    /// The port.
    pub port: Option<u16>,
    /// The user name.
    pub username: Option<String>,
    /// The domain.
    pub domain: Option<String>,
    /// The window fills the screen.
    pub fullscreen: Option<bool>,
    /// The window fills all screens.
    pub all_monitors: Option<bool>,
    /// Sound is played.
    pub audio: Option<bool>,
    /// The microphone is used.
    pub microphone: Option<bool>,
    /// The clipboard is shared.
    pub clipboard: Option<bool>,
}

/// The view of `ConnectionProfile`.
pub struct ProfileView {
    /// Host name or address of the server.
    pub host: Seq<char>,
    /// The port.
    pub port: Option<u16>,
    /// The user name.
    pub username: Option<Seq<char>>,
    /// The domain.
    pub domain: Option<Seq<char>>,
    /// The window fills the screen.
    pub fullscreen: Option<bool>,
    /// The window fills all screens.
    pub all_monitors: Option<bool>,
    /// Sound is played.
    pub audio: Option<bool>,
    /// The microphone is used.
    pub microphone: Option<bool>,
    /// The clipboard is shared.
    pub clipboard: Option<bool>,
}

impl View for ConnectionProfile {
    type V = ProfileView;

    open spec fn view(&self) -> ProfileView {
        ProfileView {
            host: self.host@,
            port: self.port,
            username: views::option_view(self.username),
            domain: views::option_view(self.domain),
            fullscreen: self.fullscreen,
            all_monitors: self.all_monitors,
            audio: self.audio,
            microphone: self.microphone,
            clipboard: self.clipboard,
        }
    }
}

impl ConnectionProfile {
    /// A profile of which only the server is known.
    pub fn new(host: &str) -> (p: ConnectionProfile)
        ensures
            p@ == bare_profile(host@),
    {
        ConnectionProfile {
            host: host.to_owned(),
            port: None,
            username: None,
            domain: None,
            fullscreen: None,
            all_monitors: None,
            audio: None,
            microphone: None,
            clipboard: None,
        }
    }
}

/// A profile of which only the server is known.
pub open spec fn bare_profile(host: Seq<char>) -> ProfileView {
    ProfileView {
        host,
        port: None,
        username: None,
        domain: None,
        fullscreen: None,
        all_monitors: None,
        audio: None,
        microphone: None,
        clipboard: None,
    }
}

/// Profiles by their names. No two have the same name.
#[derive(Debug, Clone)]
pub struct Profiles {
    /// The names of the profiles.
    names: Vec<String>,
    /// The profiles, each at the place of its name.
    profiles: Vec<ConnectionProfile>,
}

/// The configuration.
#[derive(Debug, Clone)]
pub struct Config {
    /// Settings for connections for which nothing else is said.
    pub defaults: ConnectionDefaults,
    /// Settings for sound.
    pub audio: AudioConfig,
    /// Settings for the clipboard.
    pub clipboard: ClipboardConfig,
    /// The profiles.
    pub profiles: Profiles,
}

/// The view of `Config`.
pub struct ConfigurationView {
    /// Settings for connections for which nothing else is said.
    pub defaults: DefaultsView,
    /// Settings for sound.
    pub audio: AudioConfig,
    /// Settings for the clipboard.
    pub clipboard: ClipboardConfig,
    /// The profiles by their names.
    pub profiles: Map<Seq<char>, ProfileView>,
}

/// The names with their profiles as a map, where a name stands at several places
/// the first counts.
pub open spec fn profile_map(names: Seq<Seq<char>>, profiles: Seq<ProfileView>) -> Map<
    Seq<char>,
    ProfileView,
> {
    Map::new(
        |name: Seq<char>| names.contains(name),
        |name: Seq<char>| profiles[names.index_of_first(name)->0],
    )
}

impl View for Profiles {
    type V = Map<Seq<char>, ProfileView>;

    closed spec fn view(&self) -> Map<Seq<char>, ProfileView> {
        profile_map(views::seq_view(self.names@), views::seq_view(self.profiles@))
    }
}

impl View for Config {
    type V = ConfigurationView;

    open spec fn view(&self) -> ConfigurationView {
        ConfigurationView {
            defaults: self.defaults@,
            audio: self.audio,
            clipboard: self.clipboard,
            profiles: self.profiles@,
        }
    }
}

impl Profiles {
    /// Each name has a profile, and no name stands at two places.
    pub closed spec fn wf(self) -> bool {
        &&& self.names@.len() == self.profiles@.len()
        &&& views::seq_view(self.names@).no_duplicates()
    }

    /// No profiles.
    pub fn new() -> (p: Profiles)
        ensures
            p.wf(),
            p@ == Map::<Seq<char>, ProfileView>::empty(),
    {
        let p = Profiles { names: Vec::new(), profiles: Vec::new() };
        assert(p@ =~= Map::<Seq<char>, ProfileView>::empty());
        p
    }

    /// The place of a name.
    fn place_of(&self, name: &str) -> (i: Option<usize>)
        requires
            self.wf(),
        ensures
            match i {
                Some(k) => k < self.names@.len() && views::seq_view(self.names@)[k as int] == name@
                    && self@.contains_key(name@) && self@[name@] == self.profiles@[k as int]@,
                None => !self@.contains_key(name@),
            },
    {
        let ghost names = views::seq_view(self.names@);
        proof {
            names.index_of_first_ensures(name@);
        }
        let mut i: usize = 0;
        while i < self.names.len()
            invariant
                i <= self.names@.len(),
                self.wf(),
                names == views::seq_view(self.names@),
                forall|j: int| 0 <= j < i ==> names[j] != name@,
            decreases self.names@.len() - i,
        {
            if text::same_text(self.names[i].as_str(), name) {
                proof {
                    assert(names[i as int] == name@);
                    names.index_of_first_ensures(name@);
                    assert(self@.contains_key(name@));
                    assert(names.index_of_first(name@)->0 == i as int);
                }
                return Some(i);
            }
            i = i + 1;
        }
        None
    }

    /// The profile of the name.
    pub fn get(&self, name: &str) -> (p: Option<&ConnectionProfile>)
        requires
            self.wf(),
        ensures
            match p {
                Some(q) => self@.contains_key(name@) && self@[name@] == q@,
                None => !self@.contains_key(name@),
            },
    {
        match self.place_of(name) {
            Some(i) => Some(&self.profiles[i]),
            None => None,
        }
    }

    /// Sets the profile of a name.
    pub fn set(&mut self, name: &str, profile: ConnectionProfile)
        requires
            old(self).wf(),
        ensures
            final(self).wf(),
            final(self)@ == old(self)@.insert(name@, profile@),
    {
        let ghost names = views::seq_view(self.names@);
        let ghost before = views::seq_view(self.profiles@);
        match self.place_of(name) {
            Some(i) => {
                proof {
                    views::lemma_seq_view_update(self.profiles@, i as int, profile);
                    lemma_profile_replaced(names, before, i as int, profile@);
                }
                self.profiles.set(i, profile);
            },
            None => {
                let owned = name.to_owned();
                proof {
                    views::lemma_seq_view_push(self.names@, owned);
                    views::lemma_seq_view_push(self.profiles@, profile);
                    lemma_profile_added(names, before, name@, profile@);
                }
                self.names.push(owned);
                self.profiles.push(profile);
            },
        }
    }
}

impl Config {
    /// The profiles are in order.
    pub open spec fn wf(self) -> bool {
        self.profiles.wf()
    }

    /// Tests whether there is a profile of the name.
    pub fn has_profile(&self, name: &str) -> (b: bool)
        requires
            self.wf(),
        ensures
            b == self@.profiles.contains_key(name@),
    {
        self.profiles.get(name).is_some()
    }

    /// The profile of the name.
    pub fn get_profile(&self, name: &str) -> (p: Option<&ConnectionProfile>)
        requires
            self.wf(),
        ensures
            match p {
                Some(q) => self@.profiles.contains_key(name@) && self@.profiles[name@] == q@,
                None => !self@.profiles.contains_key(name@),
            },
    {
        self.profiles.get(name)
    }

    /// The configuration where there is no file: sound, microphone and clipboard
    /// are on, and there are no profiles.
    pub open spec fn is_default(c: ConfigurationView) -> bool {
        c == (ConfigurationView {
            defaults: DefaultsView::built_in(),
            audio: AudioConfig { enabled: true, microphone: true },
            clipboard: ClipboardConfig { enabled: true },
            profiles: Map::empty(),
        })
    }

    /// The directory of the configuration file.
    #[must_use]
    pub fn config_dir(vars: &PathVariables) -> (dir: String)
        ensures
            dir@ == directory_for(vars@),
    {
        let platform = vars.platform;
        if let Some(xdg) = &vars.xdg_config_home {
            return paths::name_path(platform, xdg.as_str(), APP_DIR_NAME);
        }
        if platform == Platform::Windows {
            if let Some(appdata) = &vars.appdata {
                return paths::name_path(platform, appdata.as_str(), APP_DIR_NAME);
            }
        }
        let base = match (&vars.home, &vars.userprofile) {
            (Some(home), _) => paths::name_path(platform, home.as_str(), ".config"),
            (None, Some(home)) => paths::name_path(platform, home.as_str(), ".config"),
            (None, None) => paths::name_path(platform, ".", ".config"),
        };
        paths::name_path(platform, base.as_str(), APP_DIR_NAME)
    }

    /// The path of the configuration file.
    #[must_use]
    pub fn config_path(vars: &PathVariables) -> (path: String)
        ensures
            path@ == file_for(vars@),
    {
        let dir = Config::config_dir(vars);
        paths::name_path(vars.platform, dir.as_str(), CONFIG_FILE_NAME)
    }

    /// The configuration, from what was read at the path: the default one where
    /// there is no file.
    pub fn load_from_path(path: &str, read: ConfigRead) -> (r: Result<Config, Error>)
        requires
            readable(read),
        ensures
            match read {
                ConfigRead::Missing => r is Ok && r->Ok_0.wf() && Config::is_default(r->Ok_0@),
                ConfigRead::Unreadable(e) => r is Err && r->Err_0@ == ErrorView::Config(
                    "Failed to read config file "@ + path@ + ": "@ + e@,
                ),
                ConfigRead::Parsed(c) => r == Ok::<Config, Error>(c),
                ConfigRead::Malformed { contents, message, span_start } => r is Err && r->Err_0@
                    == ErrorView::Config(
                    fault_text(
                        message@,
                        fault_line(contents@, span_start),
                        fault_column(contents@, span_start),
                    ),
                ),
            },
            load_result(r) == load_outcome(path@, read),
    {
        match read {
            ConfigRead::Missing => Ok(Config::default()),
            ConfigRead::Unreadable(e) => {
                let mut s = "Failed to read config file ".to_owned();
                s.push_str(path);
                s.push_str(": ");
                s.push_str(e.as_str());
                Err(Error::Config(s))
            },
            ConfigRead::Parsed(c) => Ok(c),
            ConfigRead::Malformed { contents, message, span_start } => {
                Err(parse_failure(contents.as_str(), message, span_start))
            },
        }
    }

    /// The configuration, from what was read at the place where it is kept.
    pub fn load(vars: &PathVariables, read: ConfigRead) -> (r: Result<Config, Error>)
        requires
            readable(read),
        ensures
            match read {
                ConfigRead::Missing => r is Ok && r->Ok_0.wf() && Config::is_default(r->Ok_0@),
                ConfigRead::Unreadable(e) => r is Err && r->Err_0@ == ErrorView::Config(
                    "Failed to read config file "@ + file_for(vars@) + ": "@ + e@,
                ),
                ConfigRead::Parsed(c) => r == Ok::<Config, Error>(c),
                ConfigRead::Malformed { contents, message, span_start } => r is Err && r->Err_0@
                    == ErrorView::Config(
                    fault_text(
                        message@,
                        fault_line(contents@, span_start),
                        fault_column(contents@, span_start),
                    ),
                ),
            },
            load_result(r) == load_outcome(file_for(vars@), read),
    {
        let path = Config::config_path(vars);
        Config::load_from_path(path.as_str(), read)
    }
}

/// Replacing the profile at a place replaces it in the map.
proof fn lemma_profile_replaced(
    names: Seq<Seq<char>>,
    profiles: Seq<ProfileView>,
    i: int,
    p: ProfileView,
)
    requires
        names.len() == profiles.len(),
        names.no_duplicates(),
        0 <= i < names.len(),
    ensures
        profile_map(names, profiles.update(i, p)) == profile_map(names, profiles).insert(
            names[i],
            p,
        ),
{
    let a = profile_map(names, profiles.update(i, p));
    let b = profile_map(names, profiles).insert(names[i], p);
    assert forall|name: Seq<char>| #[trigger] a.contains_key(name) implies a[name] == b[name] by {
        names.index_of_first_ensures(name);
    }
    assert(a =~= b);
}

/// Adding a name with its profile adds them to the map.
proof fn lemma_profile_added(
    names: Seq<Seq<char>>,
    profiles: Seq<ProfileView>,
    name: Seq<char>,
    p: ProfileView,
)
    requires
        names.len() == profiles.len(),
        !names.contains(name),
    ensures
        profile_map(names.push(name), profiles.push(p)) == profile_map(names, profiles).insert(
            name,
            p,
        ),
{
    let more = names.push(name);
    let a = profile_map(more, profiles.push(p));
    let b = profile_map(names, profiles).insert(name, p);
    assert(more[names.len() as int] == name);
    assert forall|n: Seq<char>| #[trigger] a.contains_key(n) <==> b.contains_key(n) by {
        if names.contains(n) {
            let k = names.index_of(n);
            assert(more[k] == n);
        }
    }
    assert forall|n: Seq<char>| #[trigger] a.contains_key(n) implies a[n] == b[n] by {
        more.index_of_first_ensures(n);
        names.index_of_first_ensures(n);
        let k = more.index_of_first(n)->0;
        if names.contains(n) {
            let j = names.index_of_first(n)->0;
            assert(more[j] == n);
            assert(k <= j);
            assert(names[k] == n);
        } else if n == name {
            if k < names.len() {
                assert(names[k] == n);
            }
        }
    }
    assert(a =~= b);
}

impl Default for Config {
    fn default() -> (c: Config)
        ensures
            c.wf(),
            Config::is_default(c@),
    {
        Config {
            defaults: ConnectionDefaults::default(),
            audio: AudioConfig::default(),
            clipboard: ClipboardConfig::default(),
            profiles: Profiles::new(),
        }
    }
}

/// The platform, and the variables that say where the configuration file is.
#[derive(Debug, Clone)]
pub struct PathVariables {
    /// The platform.
    pub platform: Platform,
    /// `XDG_CONFIG_HOME`.
    pub xdg_config_home: Option<String>,
    /// `APPDATA`.
    pub appdata: Option<String>,
    /// `HOME`.
    pub home: Option<String>,
    /// `USERPROFILE`.
    pub userprofile: Option<String>,
}

/// The view of `PathVariables`.
pub struct VariablesView {
    /// The platform.
    pub platform: Platform,
    /// `XDG_CONFIG_HOME`.
    pub xdg_config_home: Option<Seq<char>>,
    /// `APPDATA`.
    pub appdata: Option<Seq<char>>,
    /// `HOME`.
    pub home: Option<Seq<char>>,
    /// `USERPROFILE`.
    pub userprofile: Option<Seq<char>>,
}

impl View for PathVariables {
    type V = VariablesView;

    open spec fn view(&self) -> VariablesView {
        VariablesView {
            platform: self.platform,
            xdg_config_home: views::option_view(self.xdg_config_home),
            appdata: views::option_view(self.appdata),
            home: views::option_view(self.home),
            userprofile: views::option_view(self.userprofile),
        }
    }
}

/// The directory of the configuration file: in `XDG_CONFIG_HOME`, or else on
/// Windows in `APPDATA`, or else in `.config` in `HOME`, in `USERPROFILE` or here.
pub open spec fn directory_for(v: VariablesView) -> Seq<char> {
    let p = v.platform;
    if v.xdg_config_home is Some {
        paths::named_in(p, v.xdg_config_home->0, "yard"@)
    } else if p == Platform::Windows && v.appdata is Some {
        paths::named_in(p, v.appdata->0, "yard"@)
    } else if v.home is Some {
        paths::named_in(p, paths::named_in(p, v.home->0, ".config"@), "yard"@)
    } else if v.userprofile is Some {
        paths::named_in(p, paths::named_in(p, v.userprofile->0, ".config"@), "yard"@)
    } else {
        paths::named_in(p, paths::named_in(p, "."@, ".config"@), "yard"@)
    }
}

/// The path of the configuration file.
pub open spec fn file_for(v: VariablesView) -> Seq<char> {
    paths::named_in(v.platform, directory_for(v), "config.toml"@)
}

/// `APPDATA` counts on Windows only.
pub proof fn law_appdata_is_for_windows(v: VariablesView, appdata: Option<Seq<char>>)
    requires
        v.platform != Platform::Windows,
    ensures
        file_for(v) == file_for(VariablesView { appdata, ..v }),
{
}

/// What came of reading the configuration file.
#[derive(Debug)]
pub enum ConfigRead {
    /// There is no file.
    Missing,
    /// The file could not be read.
    Unreadable(String),
    /// The file was read.
    Parsed(Config),
    /// The file is no configuration.
    Malformed {
        /// What is in the file.
        contents: String,
        /// What is wrong with it.
        message: String,
        /// The byte where it is wrong.
        span_start: Option<usize>,
    },
}

/// A configuration or an error by their views.
pub open spec fn load_result(r: Result<Config, Error>) -> Result<ConfigurationView, ErrorView> {
    match r {
        Ok(c) => Ok(c@),
        Err(e) => Err(e@),
    }
}

/// The settings where there is no configuration.
pub open spec fn default_settings() -> ConfigurationView {
    ConfigurationView {
        defaults: DefaultsView::built_in(),
        audio: AudioConfig { enabled: true, microphone: true },
        clipboard: ClipboardConfig { enabled: true },
        profiles: Map::empty(),
    }
}

/// What the outcome of reading the file at `path` leads to.
pub open spec fn load_outcome(path: Seq<char>, read: ConfigRead) -> Result<
    ConfigurationView,
    ErrorView,
> {
    match read {
        ConfigRead::Missing => Ok(default_settings()),
        ConfigRead::Unreadable(e) => Err(
            ErrorView::Config("Failed to read config file "@ + path + ": "@ + e@),
        ),
        ConfigRead::Parsed(c) => Ok(c@),
        ConfigRead::Malformed { contents, message, span_start } => Err(
            ErrorView::Config(
                fault_text(
                    message@,
                    fault_line(contents@, span_start),
                    fault_column(contents@, span_start),
                ),
            ),
        ),
    }
}

/// The place in bytes lies in the contents, which memory can hold.
pub open spec fn placed(contents: Seq<char>, span_start: Option<usize>) -> bool {
    &&& vstd::utf8::encode_utf8(contents).len() < usize::MAX
    &&& span_start is Some ==> span_start->0 <= vstd::utf8::encode_utf8(contents).len()
}

/// Where the file is no configuration, the place lies in it.
pub open spec fn readable(read: ConfigRead) -> bool {
    read matches ConfigRead::Malformed { contents, span_start, .. } ==> placed(contents@, span_start)
}

/// How many of the first bytes are ends of lines.
pub open spec fn line_ends(bytes: Seq<u8>) -> nat
    decreases bytes.len(),
{
    if bytes.len() == 0 {
        0
    } else {
        line_ends(bytes.drop_last()) + if bytes.last() == 10 {
            1nat
        } else {
            0
        }
    }
}

/// How many bytes stand behind the last end of a line.
pub open spec fn line_tail(bytes: Seq<u8>) -> nat
    decreases bytes.len(),
{
    if bytes.len() == 0 || bytes.last() == 10 {
        0
    } else {
        line_tail(bytes.drop_last()) + 1
    }
}

/// The number of the line in which a byte stands, from 1.
pub open spec fn fault_line(contents: Seq<char>, span_start: Option<usize>) -> Option<nat> {
    match span_start {
        Some(start) => Some(
            line_ends(vstd::utf8::encode_utf8(contents).take(start as int)) + 1,
        ),
        None => None,
    }
}

/// The number of a byte in its line, from 1.
pub open spec fn fault_column(contents: Seq<char>, span_start: Option<usize>) -> Option<nat> {
    match span_start {
        Some(start) => Some(
            line_tail(vstd::utf8::encode_utf8(contents).take(start as int)) + 1,
        ),
        None => None,
    }
}

/// What is wrong with the configuration, and where.
pub open spec fn fault_text(message: Seq<char>, line: Option<nat>, column: Option<nat>) -> Seq<char> {
    match (line, column) {
        (Some(l), Some(c)) => message + " (line "@ + text::decimal(l) + ", column "@
            + text::decimal(c) + ")"@,
        (Some(l), None) => message + " (line "@ + text::decimal(l) + ")"@,
        _ => message,
    }
}

/// What is wrong with the configuration, and where.
#[derive(Debug)]
pub struct ConfigParseError {
    /// What is wrong.
    pub message: String,
    /// The line.
    pub line: Option<usize>,
    /// The column.
    pub column: Option<usize>,
}

/// A number that is counted in memory.
pub open spec fn counted(n: Option<usize>) -> Option<nat> {
    match n {
        Some(k) => Some(k as nat),
        None => None,
    }
}

impl ConfigParseError {
    /// What is wrong with the configuration, and where.
    pub fn text(&self) -> (s: String)
        ensures
            s@ == fault_text(self.message@, counted(self.line), counted(self.column)),
    {
        let mut s = self.message.clone();
        match (self.line, self.column) {
            (Some(line), Some(column)) => {
                s.push_str(" (line ");
                text::push_decimal(&mut s, line as u64);
                s.push_str(", column ");
                text::push_decimal(&mut s, column as u64);
                s.push_str(")");
            },
            (Some(line), None) => {
                s.push_str(" (line ");
                text::push_decimal(&mut s, line as u64);
                s.push_str(")");
            },
            _ => {},
        }
        s
    }
}

/// Line and column of a place in bytes, from 1.
fn line_and_column(bytes: &[u8], start: usize) -> (r: (usize, usize))
    requires
        start <= bytes@.len() < usize::MAX,
    ensures
        r.0 == line_ends(bytes@.take(start as int)) + 1,
        r.1 == line_tail(bytes@.take(start as int)) + 1,
{
    let mut line: usize = 1;
    let mut column: usize = 1;
    let mut i: usize = 0;
    assert(bytes@.take(0) == Seq::<u8>::empty());
    while i < start
        invariant
            i <= start <= bytes@.len() < usize::MAX,
            line == line_ends(bytes@.take(i as int)) + 1,
            column == line_tail(bytes@.take(i as int)) + 1,
            line <= i + 1,
            column <= i + 1,
        decreases start - i,
    {
        proof {
            let longer = bytes@.take(i + 1);
            assert(longer.drop_last() == bytes@.take(i as int));
            assert(longer.last() == bytes@[i as int]);
        }
        if bytes[i] == 10 {
            line = line + 1;
            column = 1;
        } else {
            column = column + 1;
        }
        i = i + 1;
    }
    (line, column)
}

/// The error of a file that is no configuration.
pub fn parse_failure(contents: &str, message: String, span_start: Option<usize>) -> (e: Error)
    requires
        placed(contents@, span_start),
    ensures
        e@ == ErrorView::Config(
            fault_text(
                message@,
                fault_line(contents@, span_start),
                fault_column(contents@, span_start),
            ),
        ),
{
    let error = match span_start {
        Some(start) => {
            let (line, column) = line_and_column(contents.as_bytes(), start);
            ConfigParseError { message, line: Some(line), column: Some(column) }
        },
        None => ConfigParseError { message, line: None, column: None },
    };
    Error::Config(error.text())
}

/// The configuration to go on with: the default one where there was an error.
pub fn loaded_or_default(loaded: Result<Config, Error>) -> (c: Config)
    ensures
        match loaded {
            Ok(l) => c == l,
            Err(_) => c.wf() && Config::is_default(c@),
        },
{
    match loaded {
        Ok(c) => c,
        Err(_) => Config::default(),
    }
}

/// The line that is said to be wrong holds the byte that is: as many ends of lines
/// stand before it, and the column counts from the last of them.
pub proof fn law_column_counts_from_line(bytes: Seq<u8>)
    ensures
        line_tail(bytes) <= bytes.len(),
        line_ends(bytes) + line_tail(bytes) <= bytes.len(),
        forall|i: int|
            bytes.len() - line_tail(bytes) <= i < bytes.len() ==> #[trigger] bytes[i] != 10,
        line_tail(bytes) < bytes.len() ==> bytes[bytes.len() - line_tail(bytes) - 1] == 10,
    decreases bytes.len(),
{
    if bytes.len() > 0 {
        law_column_counts_from_line(bytes.drop_last());
        if bytes.last() != 10 {
            let fewer = bytes.drop_last();
            assert(line_tail(bytes) == line_tail(fewer) + 1);
            assert forall|i: int|
                bytes.len() - line_tail(bytes) <= i < bytes.len() implies #[trigger] bytes[i]
                != 10 by {
                if i < fewer.len() {
                    assert(fewer[i] == bytes[i]);
                }
            }
            if line_tail(bytes) < bytes.len() {
                assert(fewer[fewer.len() - line_tail(fewer) - 1] == bytes[bytes.len() - line_tail(
                    bytes,
                ) - 1]);
            }
        }
    }
}

/// The port that is used is never 0.
pub proof fn law_used_port_is_valid(d: DefaultsView)
    ensures
        d.used_port() != 0,
        d.port != 0 ==> d.used_port() == d.port,
{
}

/// Without a file the settings are the built-in ones: port 3389, sound, microphone and
/// clipboard on, no user and no profile. A file that was read is used as it is; one
/// that could not be read or understood is reported.
pub proof fn law_loading_a_file(path: Seq<char>, read: ConfigRead)
    ensures
        match load_outcome(path, read) {
            Ok(c) => match read {
                ConfigRead::Missing => {
                    &&& c.defaults.port == 3389
                    &&& c.defaults.username is None && c.defaults.domain is None
                    &&& c.defaults.fullscreen is None && c.defaults.all_monitors is None
                    &&& c.audio.enabled && c.audio.microphone && c.clipboard.enabled
                    &&& forall|name: Seq<char>| !#[trigger] c.profiles.contains_key(name)
                },
                ConfigRead::Parsed(parsed) => c == parsed@,
                _ => false,
            },
            Err(ErrorView::Config(s)) => match read {
                ConfigRead::Unreadable(e) => text::occurs(s, path) && e@.is_suffix_of(s)
                    && "Failed to read config file "@.is_prefix_of(s),
                ConfigRead::Malformed { message, .. } => message@.is_prefix_of(s),
                _ => false,
            },
            Err(_) => false,
        },
        Config::is_default(default_settings()),
        DEFAULT_PORT == 3389,
{
    match read {
        ConfigRead::Unreadable(e) => {
            let s = "Failed to read config file "@ + path + ": "@ + e@;
            assert(s =~= "Failed to read config file "@ + path + (": "@ + e@));
            text::law_part_occurs("Failed to read config file "@, path, ": "@ + e@);
            assert(s.subrange(s.len() - e@.len(), s.len() as int) =~= e@);
            assert(s.subrange(0, "Failed to read config file "@.len() as int)
                =~= "Failed to read config file "@);
        },
        ConfigRead::Malformed { contents, message, span_start } => {
            let s = fault_text(
                message@,
                fault_line(contents@, span_start),
                fault_column(contents@, span_start),
            );
            assert(s.subrange(0, message@.len() as int) =~= message@);
        },
        _ => {},
    }
}

/// A fault is told with its line and its column, where they are known.
pub proof fn law_fault_is_told_with_its_place(message: Seq<char>, line: nat, column: nat)
    ensures
        fault_text(message, None, None) == message,
        text::occurs(
            fault_text(message, Some(line), Some(column)),
            "line "@ + text::decimal(line) + ", column "@ + text::decimal(column),
        ),
        text::occurs(fault_text(message, Some(line), None), "line "@ + text::decimal(line)),
{
    reveal_strlit(" (line ");
    reveal_strlit("line ");
    let l = text::decimal(line);
    let c = text::decimal(column);
    let open = seq![' ', '('];
    let both = "line "@ + l + ", column "@ + c;
    let one = "line "@ + l;
    text::law_part_occurs(message + open, both, ")"@);
    text::law_part_occurs(message + open, one, ")"@);
    assert(fault_text(message, Some(line), Some(column)) =~= (message + open) + both + ")"@);
    assert(fault_text(message, Some(line), None) =~= (message + open) + one + ")"@);
}

/// Lines are counted by their ends: the ends of two parts are those of the whole, an
/// end is a line feed, and nothing else is.
pub proof fn law_line_ends_add_up(a: Seq<u8>, b: Seq<u8>, x: u8)
    ensures
        line_ends(a + b) == line_ends(a) + line_ends(b),
        line_ends(Seq::empty()) == 0,
        line_ends(seq![x]) == if x == 0x0A {
            1int
        } else {
            0
        },
        line_tail(a.push(0x0A)) == 0,
        x != 0x0A ==> line_tail(a.push(x)) == line_tail(a) + 1,
        line_tail(Seq::empty()) == 0,
    decreases b.len(),
{
    reveal_with_fuel(line_ends, 2);
    assert(seq![x].drop_last() =~= Seq::<u8>::empty());
    assert(a.push(x).drop_last() =~= a);
    if b.len() == 0 {
        assert(a + b =~= a);
    } else {
        law_line_ends_add_up(a, b.drop_last(), x);
        assert((a + b).drop_last() =~= a + b.drop_last());
    }
}

/// A fault on the first byte is on line one, column one.
pub proof fn law_places_count_from_one(contents: Seq<char>, start: usize)
    requires
        start <= vstd::utf8::encode_utf8(contents).len(),
    ensures
        fault_line(contents, Some(0)) == Some(1nat),
        fault_column(contents, Some(0)) == Some(1nat),
        fault_line(contents, Some(start))->0 >= 1,
        fault_column(contents, Some(start))->0 >= 1,
        fault_line(contents, None) is None,
        fault_column(contents, None) is None,
        fault_line(contents, Some(start)) == Some(
            line_ends(vstd::utf8::encode_utf8(contents).take(start as int)) + 1,
        ),
{
    assert(vstd::utf8::encode_utf8(contents).take(0) =~= Seq::<u8>::empty());
}

/// The names of a file of profiles lead to their own profiles.
pub proof fn law_profile_is_found_by_name(
    names: Seq<Seq<char>>,
    profiles: Seq<ProfileView>,
    i: int,
)
    requires
        names.len() == profiles.len(),
        names.no_duplicates(),
        0 <= i < names.len(),
    ensures
        profile_map(names, profiles).contains_key(names[i]),
        profile_map(names, profiles)[names[i]] == profiles[i],
{
    names.index_of_first_ensures(names[i]);
}

/// The text of a directory on Unix that has a name and no separator at its end.
pub open spec fn is_unix_directory(dir: Option<Seq<char>>) -> bool {
    dir is Some && dir->0.len() > 0 && dir->0.last() != '/'
}

/// Where the configuration is kept on Unix: below the directory for configurations
/// where there is one, or else below the home directory.
pub proof fn law_place_on_unix(v: VariablesView)
    requires
        v.platform == Platform::Unix,
    ensures
        is_unix_directory(v.xdg_config_home) ==> file_for(v) == v.xdg_config_home->0
            + "/yard/config.toml"@,
        v.xdg_config_home is None && is_unix_directory(v.home) ==> file_for(v) == v.home->0
            + "/.config/yard/config.toml"@,
        v.xdg_config_home is None && v.home is None && is_unix_directory(v.userprofile)
            ==> file_for(v) == v.userprofile->0 + "/.config/yard/config.toml"@,
        v.xdg_config_home is None && v.home is None && v.userprofile is None ==> file_for(v)
            == "./.config/yard/config.toml"@,
{
    reveal_strlit("yard");
    reveal_strlit(".config");
    reveal_strlit("config.toml");
    reveal_strlit("/yard/config.toml");
    reveal_strlit("/.config/yard/config.toml");
    reveal_strlit("./.config/yard/config.toml");
    reveal_strlit(".");
    if v.xdg_config_home is Some {
        assert(file_for(v) =~= v.xdg_config_home->0 + "/yard/config.toml"@
            || !is_unix_directory(v.xdg_config_home));
    } else if v.home is Some {
        assert(file_for(v) =~= v.home->0 + "/.config/yard/config.toml"@
            || !is_unix_directory(v.home));
    } else if v.userprofile is Some {
        assert(file_for(v) =~= v.userprofile->0 + "/.config/yard/config.toml"@
            || !is_unix_directory(v.userprofile));
    } else {
        assert(file_for(v) =~= "./.config/yard/config.toml"@);
    }
}

/// Where it is kept on Windows where the directory for the data of programs is known.
pub proof fn law_place_on_windows(v: VariablesView)
    requires
        v.platform == Platform::Windows,
        v.xdg_config_home is None,
        v.appdata is Some,
        !paths::windows_ready(v.appdata->0),
    ensures
        file_for(v) == v.appdata->0 + "\\yard\\config.toml"@,
{
    reveal_strlit("yard");
    reveal_strlit("config.toml");
    reveal_strlit("\\yard\\config.toml");
    let dir = v.appdata->0.push('\\') + "yard"@;
    assert(dir.last() == 'd');
    assert(dir.len() > 4);
    assert(file_for(v) =~= v.appdata->0 + "\\yard\\config.toml"@);
}

} // verus!
