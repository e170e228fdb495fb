//! Text Channel and Voice Channel: open a text channel, join or leave a voice
//! channel, and feed the channel pickers of their property inspectors.

use vstd::prelude::*;
use crate::cache::refresh_guild_cache;
use crate::outcome::{button_state, state_of, KeyOutcome};
use crate::protocol::{opt_view, ServerCommand};
use crate::state::{opt_str_eq, PluginState};

verus! {

/// The channel a Text Channel or Voice Channel key is bound to; empty strings
/// when not configured.
#[derive(Debug, Clone, PartialEq)]
pub struct ChannelActionSettings {
    pub guild_id: String,
    pub channel_id: String,
}

impl Default for ChannelActionSettings {
    fn default() -> (res: Self)
        ensures
            res.guild_id@.len() == 0,
            res.channel_id@.len() == 0,
    {
        ChannelActionSettings { guild_id: String::new(), channel_id: String::new() }
    }
}

/// What an opening channel picker gets.
#[derive(Debug, Clone, PartialEq)]
pub enum GuildsForInspector {
    /// The cached guild list, sent to this inspector.
    Cached,
    /// Nothing is cached yet: ask the client for its guilds instead.
    Refresh(KeyOutcome),
}

/// Sends the cached guilds to an opening inspector when there are any, and
/// otherwise asks the client for them.
pub fn send_cached_guilds_to_pi<C>(state: &PluginState<C>) -> (res: GuildsForInspector)
    ensures
        state@.guilds.len() > 0 ==> res is Cached,
        state@.guilds.len() == 0 ==> res == GuildsForInspector::Refresh(
            KeyOutcome::Send { command: ServerCommand::RequestGuilds, state: None },
        ),
{
    if state.guild_cache().len() > 0 {
        GuildsForInspector::Cached
    } else {
        GuildsForInspector::Refresh(refresh_guild_cache())
    }
}

/// Text Channel: navigates to the configured text channel.
pub struct TextChannelAction;

impl TextChannelAction {
    /// Without a configured channel the key alerts. Otherwise it asks the
    /// client to open the channel, naming the guild only when one is set.
    pub fn key_up(settings: &ChannelActionSettings) -> (res: KeyOutcome)
        ensures
            settings.channel_id@.len() == 0 ==> res is Alert,
            settings.channel_id@.len() > 0 ==> (res matches KeyOutcome::Send {
                command: ServerCommand::SelectTextChannel { guild_id, channel_id },
                state: None,
            } && channel_id@ == settings.channel_id@ && opt_view(guild_id) == (
            if settings.guild_id@.len() == 0 {
                None
            } else {
                Some(settings.guild_id@)
            })),
    {
        if settings.channel_id.as_str().is_empty() {
            return KeyOutcome::Alert;
        }
        let guild_id = if settings.guild_id.as_str().is_empty() {
            None
        } else {
            Some(settings.guild_id.clone())
        };
        KeyOutcome::Send {
            command: ServerCommand::SelectTextChannel {
                guild_id,
                channel_id: settings.channel_id.clone(),
            },
            state: None,
        }
    }
}

/// Whether the user is in the channel a Voice Channel key is bound to.
pub open spec fn in_channel(settings_channel: Seq<char>, current: Option<Seq<char>>) -> bool {
    current == Some(settings_channel)
}

/// The button state of a Voice Channel key: 1 while the user is in its channel.
pub fn sync_voice_channel_state(settings: &ChannelActionSettings, current: &Option<String>) -> (state: u16)
    ensures
        state == state_of(in_channel(settings.channel_id@, opt_view(*current))),
        state == (if opt_view(*current) == Some(settings.channel_id@) {
            1u16
        } else {
            0u16
        }),
{
    let active = match current {
        Some(channel) => crate::text::str_eq(channel.as_str(), settings.channel_id.as_str()),
        None => false,
    };
    button_state(active)
}

/// The voice channel a Voice Channel key press selects: leave (`None`) when
/// already in the key's channel, join it otherwise.
pub open spec fn voice_target(settings_channel: Seq<char>, current: Option<Seq<char>>) -> Option<Seq<char>> {
    if in_channel(settings_channel, current) {
        None
    } else {
        Some(settings_channel)
    }
}

/// A Voice Channel key counts the user as in its channel exactly when the
/// current channel is the key's own channel id; a press leaves exactly then
/// and otherwise joins the key's channel.
pub proof fn lemma_voice_key_targets_own_channel(key_channel: Seq<char>, current: Option<Seq<char>>)
    ensures
        in_channel(key_channel, current) <==> current == Some(key_channel),
        voice_target(key_channel, current) == (if current == Some(key_channel) {
            None
        } else {
            Some(key_channel)
        }),
{
}

/// Each Voice Channel key press flips whether the user is in the key's
/// channel: it leaves when in it and joins when not.
pub proof fn lemma_voice_key_flips_membership(key_channel: Seq<char>, current: Option<Seq<char>>)
    ensures
        in_channel(key_channel, voice_target(key_channel, current)) == !in_channel(key_channel, current),
{
}

/// Voice Channel: joins the configured voice channel, or leaves it when already in it.
pub struct VoiceChannelAction;

impl VoiceChannelAction {
    /// Without a configured channel the key alerts. Otherwise it asks the
    /// client to leave the channel when the user is in it, and to join it
    /// when not.
    pub fn key_up(settings: &ChannelActionSettings, current: &Option<String>) -> (res: KeyOutcome)
        ensures
            settings.channel_id@.len() == 0 ==> res is Alert,
            settings.channel_id@.len() > 0 ==> (res matches KeyOutcome::Send {
                command: ServerCommand::SelectVoiceChannel { channel_id },
                state: None,
            } && opt_view(channel_id) == voice_target(settings.channel_id@, opt_view(*current))
                && opt_view(channel_id) == (if opt_view(*current) == Some(settings.channel_id@) {
                None
            } else {
                Some(settings.channel_id@)
            })),
    {
        if settings.channel_id.as_str().is_empty() {
            return KeyOutcome::Alert;
        }
        let key_channel = Some(settings.channel_id.clone());
        let target = if !opt_str_eq(current, &key_channel) {
            key_channel
        } else {
            None
        };
        KeyOutcome::Send { command: ServerCommand::SelectVoiceChannel { channel_id: target }, state: None }
    }
}

} // verus!
