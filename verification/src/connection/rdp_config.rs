//! What the client asks for when the connection is made.
use vstd::prelude::*;

use ironrdp::pdu::rdp::capability_sets::{client_codecs_capabilities, BitmapCodecs};

use crate::messages::{ConfigView, ConnectionConfig, ConnectionError};
use crate::monitors::{DesktopSize, DEFAULT_HEIGHT, DEFAULT_WIDTH};
use crate::text;
use crate::views;

verus! {

/// `BitmapCodecs`: the codecs on offer.
#[verifier::external_type_specification]
#[verifier::external_body]
pub struct ExBitmapCodecs(BitmapCodecs);

/// The numbers of the codecs on offer, in their order.
pub uninterp spec fn codec_numbers(codecs: BitmapCodecs) -> Seq<u8>;

/// `client_codecs_capabilities`, asked for nothing in particular, offers RemoteFX
/// (number 3) first. Which codecs follow it depends on how the outside crate was
/// built, and is left unsaid.
#[verifier::external_body]
fn default_codecs() -> (r: Result<BitmapCodecs, String>)
    ensures
        r is Ok,
        codec_numbers(r->Ok_0).len() > 0,
        codec_numbers(r->Ok_0)[0] == 3,
{
    client_codecs_capabilities(&[])
}

/// What the client asks for, whatever the server.
#[derive(Debug, Clone, Copy, PartialEq, Eq, Structural)]
pub struct ClientSettings {
    /// The size of the desktop.
    pub desktop_size: DesktopSize,
    /// The scale of the desktop in percent.
    pub desktop_scale_factor: u32,
    /// TLS may be used.
    pub enable_tls: bool,
    /// Network level authentication may be used.
    pub enable_credssp: bool,
    /// The build number of the client.
    pub client_build: u32,
    /// The type of the keyboard: 4 stands for an enhanced keyboard.
    pub keyboard_type: u32,
    /// The subtype of the keyboard.
    pub keyboard_subtype: u32,
    /// The number of function keys.
    pub keyboard_functional_keys_count: u32,
    /// The layout of the keyboard: 0x0409 stands for US English.
    pub keyboard_layout: u32,
    /// Pictures may lose detail.
    pub lossy_compression: bool,
    /// Bits per pixel.
    pub color_depth: u32,
    /// The user is logged on without a prompt.
    pub autologon: bool,
    /// The server sends sound.
    pub enable_audio_playback: bool,
    /// The server sends the pointer.
    pub enable_server_pointer: bool,
    /// The pointer is drawn into the pictures.
    pub pointer_software_rendering: bool,
}

/// What the client asks for, whatever the server.
pub open spec fn client_settings() -> ClientSettings {
    ClientSettings {
        desktop_size: DesktopSize { width: 1920, height: 1080 },
        desktop_scale_factor: 100,
        enable_tls: true,
        enable_credssp: true,
        client_build: 0,
        keyboard_type: 4,
        keyboard_subtype: 0,
        keyboard_functional_keys_count: 12,
        keyboard_layout: 0x0409,
        lossy_compression: true,
        color_depth: 32,
        autologon: false,
        enable_audio_playback: true,
        enable_server_pointer: true,
        pointer_software_rendering: false,
    }
}

/// What the client asks for when the connection is made.
pub struct RdpConfig {
    /// User name.
    pub username: String,
    /// Password.
    pub password: String,
    /// Domain.
    pub domain: Option<String>,
    /// Name of the client.
    pub client_name: String,
    /// The codecs on offer.
    pub codecs: BitmapCodecs,
    /// What does not depend on the server.
    pub settings: ClientSettings,
}

/// The text, or none for an empty one.
pub open spec fn or_empty(s: Option<Seq<char>>) -> Seq<char> {
    match s {
        Some(t) => t,
        None => Seq::empty(),
    }
}

/// What is asked for belongs to the configuration.
pub open spec fn asked_for(c: ConfigView, r: RdpConfig) -> bool {
    &&& r.username@ == or_empty(c.username)
    &&& r.password@ == or_empty(c.password)
    &&& views::option_view(r.domain) == c.domain
    &&& r.client_name@ == "YARD"@
    &&& codec_numbers(r.codecs).len() > 0
    &&& codec_numbers(r.codecs)[0] == 3
    &&& r.settings == client_settings()
}

/// A copy of the text, or an empty one.
fn copy_or_empty(s: &Option<String>) -> (r: String)
    ensures
        r@ == or_empty(views::option_view(*s)),
{
    match s {
        Some(t) => t.clone(),
        None => {
            let r = String::new();
            assert(r@ == Seq::<char>::empty());
            r
        },
    }
}

/// What the client asks for when it connects with the configuration. A name or a
/// password that is not there is asked for as an empty one.
pub fn build_rdp_config(config: &ConnectionConfig) -> (r: Result<RdpConfig, ConnectionError>)
    ensures
        r is Ok,
        asked_for(config@, r->Ok_0),
{
    let codecs = match default_codecs() {
        Ok(codecs) => codecs,
        Err(e) => {
            return Err(
                ConnectionError::Protocol(
                    text::prefixed("Failed to build codec config: ", e.as_str()),
                ),
            );
        },
    };
    Ok(
        RdpConfig {
            username: copy_or_empty(&config.username),
            password: copy_or_empty(&config.password),
            domain: text::copy_option(&config.domain),
            client_name: "YARD".to_owned(),
            codecs,
            settings: ClientSettings {
                desktop_size: DesktopSize { width: DEFAULT_WIDTH, height: DEFAULT_HEIGHT },
                desktop_scale_factor: 100,
                enable_tls: true,
                enable_credssp: true,
                client_build: 0,
                keyboard_type: 4,
                keyboard_subtype: 0,
                keyboard_functional_keys_count: 12,
                keyboard_layout: 0x0409,
                lossy_compression: true,
                color_depth: 32,
                autologon: false,
                enable_audio_playback: true,
                enable_server_pointer: true,
                pointer_software_rendering: false,
            },
        },
    )
}

} // verus!
