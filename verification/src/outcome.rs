//! What the plugin asks its caller to do: commands to deliver to the client,
//! button states to set, property inspectors and titles to refresh.

use vstd::prelude::*;
use crate::protocol::ServerCommand;

verus! {

/// A kind of deck button whose state follows the client's voice/video state.
#[derive(Debug, Clone, Copy, PartialEq, Eq, Structural)]
pub enum FeedbackButton {
    ToggleMute,
    ToggleDeafen,
    ToggleVoiceInputMode,
    ToggleVideo,
    ToggleScreenshare,
}

/// Work that follows from a message of the client.
#[derive(Debug, Clone, PartialEq)]
pub enum Effect {
    /// Deliver a command to the connected client; a failed delivery is ignored.
    Send(ServerCommand),
    /// Set every visible button of this kind to `state`.
    SetButtonState { button: FeedbackButton, state: u16 },
    /// Ask every visible Voice Channel button to re-read its settings, so the
    /// active channel is highlighted.
    RefreshVoiceChannelButtons,
    /// Push the cached device lists to every visible Set Audio Device inspector.
    SendDevicesToInspectors,
    /// Push the cached guild list to every visible channel and soundboard inspector.
    SendGuildsToInspectors,
    /// Push the cached sound list to every visible Soundboard inspector.
    SendSoundsToInspectors,
    /// Refresh the counter title of every visible Notifications button.
    RefreshNotificationTitles,
}

/// What a key press or dial turn asks for.
#[derive(Debug, Clone, PartialEq)]
pub enum KeyOutcome {
    /// Nothing happens.
    Nothing,
    /// The key shows its alert.
    Alert,
    /// Deliver `command`. When it cannot be delivered the key shows its alert;
    /// when it is delivered and `state` is given, the key switches to that state.
    Send { command: ServerCommand, state: Option<u16> },
}

/// The button state that shows a flag: 1 when set, 0 when not.
pub open spec fn state_of(active: bool) -> u16 {
    if active {
        1
    } else {
        0
    }
}

/// A flag shows as state 1 when set and 0 when not.
pub proof fn lemma_state_of(active: bool)
    ensures
        active ==> state_of(active) == 1,
        !active ==> state_of(active) == 0,
{
}

/// The button state that shows a flag: 1 when set, 0 when not.
pub fn button_state(active: bool) -> (state: u16)
    ensures
        state == state_of(active),
{
    if active {
        1
    } else {
        0
    }
}

/// Deliver `command`, switching the key to `next_state` once it is delivered
/// and showing the alert when it cannot be.
pub fn send_with_state(command: ServerCommand, next_state: u16) -> (res: KeyOutcome)
    ensures
        res == (KeyOutcome::Send { command, state: Some(next_state) }),
{
    KeyOutcome::Send { command, state: Some(next_state) }
}

} // verus!
