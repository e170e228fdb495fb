//! The bridge protocol between this plugin (the WebSocket server) and the
//! Equibop userplugin (the client).
//!
//! Every wire message carries a `type` discriminator; unknown inbound types are
//! kept as [`ClientMessage::Unknown`] and ignored. Volumes travel as JSON
//! numbers; the types here carry each volume as the bit pattern of the IEEE-754
//! single-precision value, which the caller encodes and decodes.

use vstd::prelude::*;

verus! {

/// An audio input/output device as reported by the client.
#[derive(Debug, Clone, PartialEq)]
pub struct Device {
    pub id: String,
    pub name: String,
}

/// A text or voice channel within a guild.
#[derive(Debug, Clone, PartialEq)]
pub struct Channel {
    pub id: String,
    pub name: String,
}

/// A guild with its selectable voice and text channels already resolved.
#[derive(Debug, Clone, PartialEq)]
pub struct Guild {
    pub id: String,
    pub name: String,
    pub voice: Vec<Channel>,
    pub text: Vec<Channel>,
}

/// A soundboard sound playable in the active call.
#[derive(Debug, Clone, PartialEq)]
pub struct Sound {
    pub guild_id: String,
    pub sound_id: String,
    pub name: String,
    pub emoji_name: Option<String>,
}

/// The current audio device lists, selections and volumes.
/// `input_volume_bits` and `output_volume_bits` hold the bit patterns of the
/// single-precision volumes (input 0–100, output 0–200).
#[derive(Debug, Clone, PartialEq)]
pub struct Devices {
    pub input: Vec<Device>,
    pub output: Vec<Device>,
    pub current_input: String,
    pub current_output: String,
    pub input_volume_bits: u32,
    pub output_volume_bits: u32,
}

/// Commands the server (this plugin) sends to the client (Equibop userplugin).
#[derive(Debug, Clone, PartialEq)]
#[allow(inconsistent_fields)]
pub enum ServerCommand {
    /// Handshake reply to the client's `hello`.
    Ready,
    /// Ask the client to (re)send the matching event.
    RequestState,
    RequestDevices,
    RequestGuilds,
    RequestSoundboard,
    /// Absolute self mute/deafen.
    SetMute { value: bool },
    SetDeafen { value: bool },
    /// Flip current self mute/deafen client-side.
    ToggleMute,
    ToggleDeafen,
    /// `"PUSH_TO_TALK"` or `"VOICE_ACTIVITY"`.
    SetVoiceInputMode { mode: String },
    ToggleVoiceInputMode,
    /// Input volume is 0–100; output volume is 0–200 (single-precision bit patterns).
    SetInputVolume { value_bits: u32 },
    SetOutputVolume { value_bits: u32 },
    SetUserVolume { user_id: String, value_bits: u32 },
    SetInputDevice { device_id: String },
    SetOutputDevice { device_id: String },
    SetVideo { value: Option<bool> },
    ToggleVideo,
    SetScreenShare { value: Option<bool> },
    ToggleScreenShare,
    /// `None` leaves the current voice channel.
    SelectVoiceChannel { channel_id: Option<String> },
    /// `guild_id` is optional; the client resolves it from the channel when absent.
    SelectTextChannel { guild_id: Option<String>, channel_id: String },
    PlaySoundboard { guild_id: String, sound_id: String },
}

/// Events/feedback the client sends to the server.
#[derive(Debug, Clone, PartialEq)]
#[allow(inconsistent_fields)]
pub enum ClientMessage {
    /// Sent immediately on connect.
    Hello { client: String, version: u32 },
    /// Full self voice/video state for button feedback.
    StateUpdate {
        mute: bool,
        deaf: bool,
        input_mode: Option<String>,
        video: bool,
        screenshare: bool,
        channel_id: Option<String>,
    },
    /// Audio device lists/volumes (reply to `requestDevices`).
    Devices(Devices),
    /// Guild + channel list (reply to `requestGuilds`).
    Guilds { guilds: Vec<Guild> },
    /// Soundboard sound list (reply to `requestSoundboard`).
    Soundboard { sounds: Vec<Sound> },
    /// A Discord notification arrived.
    Notification { channel_id: String, title: Option<String>, body: Option<String> },
    /// Any message whose `type` this version does not know.
    Unknown,
}

/// The view of an optional string.
pub open spec fn opt_view(o: Option<String>) -> Option<Seq<char>> {
    match o {
        Some(s) => Some(s@),
        None => None,
    }
}

} // verus!
