//! Voice settings actions: mute, deafen, push-to-mute, push-to-talk and the
//! voice input mode toggle; the volume controls live in submodules.

pub mod audio_device_utils;
pub mod user_volume_control;
pub mod volume_control;

use vstd::prelude::*;
use crate::outcome::{button_state, send_with_state, state_of, KeyOutcome};
use crate::protocol::{opt_view, ServerCommand};
use crate::state::{is_push_to_talk, mode_is_push_to_talk};

verus! {

/// The outcome that delivers `command` and then shows `state`.
pub open spec fn sends(command: ServerCommand, state: u16) -> KeyOutcome {
    KeyOutcome::Send { command, state: Some(state) }
}

/// Toggle Mute: mutes when the key shows unmuted, unmutes otherwise.
pub struct ToggleMuteAction;

impl ToggleMuteAction {
    /// A key showing state 0 (unmuted) sends an absolute mute, any other state
    /// an absolute unmute; once delivered the key shows the new mute state.
    pub fn key_up(current_state: u16) -> (res: KeyOutcome)
        ensures
            res == sends(
                ServerCommand::SetMute { value: current_state == 0 },
                state_of(current_state == 0),
            ),
            res == (KeyOutcome::Send {
                command: ServerCommand::SetMute { value: current_state == 0 },
                state: Some(if current_state == 0 { 1u16 } else { 0u16 }),
            }),
    {
        let new_mute = current_state == 0;
        send_with_state(ServerCommand::SetMute { value: new_mute }, button_state(new_mute))
    }
}

/// Toggle Deafen: deafens when the key shows undeafened, undeafens otherwise.
pub struct ToggleDeafenAction;

impl ToggleDeafenAction {
    /// A key showing state 0 sends an absolute deafen, any other state an
    /// absolute undeafen; once delivered the key shows the new deafen state.
    pub fn key_up(current_state: u16) -> (res: KeyOutcome)
        ensures
            res == sends(
                ServerCommand::SetDeafen { value: current_state == 0 },
                state_of(current_state == 0),
            ),
            res == (KeyOutcome::Send {
                command: ServerCommand::SetDeafen { value: current_state == 0 },
                state: Some(if current_state == 0 { 1u16 } else { 0u16 }),
            }),
    {
        let new_deaf = current_state == 0;
        send_with_state(ServerCommand::SetDeafen { value: new_deaf }, button_state(new_deaf))
    }
}

/// Push to Mute: muted while the key is held.
pub struct PushToMuteAction;

impl PushToMuteAction {
    /// Pressing mutes and shows state 1.
    pub fn key_down() -> (res: KeyOutcome)
        ensures
            res == sends(ServerCommand::SetMute { value: true }, 1),
            res == (KeyOutcome::Send { command: ServerCommand::SetMute { value: true }, state: Some(1) }),
    {
        send_with_state(ServerCommand::SetMute { value: true }, 1)
    }

    /// Releasing unmutes and shows state 0.
    pub fn key_up() -> (res: KeyOutcome)
        ensures
            res == sends(ServerCommand::SetMute { value: false }, 0),
            res == (KeyOutcome::Send { command: ServerCommand::SetMute { value: false }, state: Some(0) }),
    {
        send_with_state(ServerCommand::SetMute { value: false }, 0)
    }
}

/// Push to Talk: unmuted while the key is held.
pub struct PushToTalkAction;

impl PushToTalkAction {
    /// Pressing unmutes and shows state 1.
    pub fn key_down() -> (res: KeyOutcome)
        ensures
            res == sends(ServerCommand::SetMute { value: false }, 1),
            res == (KeyOutcome::Send { command: ServerCommand::SetMute { value: false }, state: Some(1) }),
    {
        send_with_state(ServerCommand::SetMute { value: false }, 1)
    }

    /// Releasing mutes and shows state 0.
    pub fn key_up() -> (res: KeyOutcome)
        ensures
            res == sends(ServerCommand::SetMute { value: true }, 0),
            res == (KeyOutcome::Send { command: ServerCommand::SetMute { value: true }, state: Some(0) }),
    {
        send_with_state(ServerCommand::SetMute { value: true }, 0)
    }
}

/// Pressing Toggle Mute (or Toggle Deafen) again on the state the first press
/// left sends the opposite value and brings the key back to where it started.
pub proof fn lemma_toggle_twice_restores(current_state: u16)
    requires
        current_state <= 1,
    ensures
        (state_of(current_state == 0) == 0) == !(current_state == 0),
        state_of(state_of(current_state == 0) == 0) == current_state,
{
}

/// The voice input mode toggle switches push-to-talk to voice activity and
/// every other mode to push-to-talk; the key then shows 0 for voice activity
/// and 1 for push-to-talk.
pub proof fn lemma_voice_mode_toggle_targets(mode: Seq<char>)
    ensures
        mode == "PUSH_TO_TALK"@ ==> next_voice_mode(mode) == "VOICE_ACTIVITY"@ && state_of(
            !is_push_to_talk(mode),
        ) == 0,
        mode != "PUSH_TO_TALK"@ ==> next_voice_mode(mode) == "PUSH_TO_TALK"@ && state_of(
            !is_push_to_talk(mode),
        ) == 1,
{
}

/// The mode that the voice input mode toggle switches to from `mode`.
pub open spec fn next_voice_mode(mode: Seq<char>) -> Seq<char> {
    if is_push_to_talk(mode) {
        "VOICE_ACTIVITY"@
    } else {
        "PUSH_TO_TALK"@
    }
}

/// Toggle Voice Input Mode: switches between push-to-talk and voice activity.
pub struct ToggleVoiceInputModeAction;

impl ToggleVoiceInputModeAction {
    /// With the mode not yet known the key alerts. Otherwise it sets the other
    /// mode (voice activity from push-to-talk, push-to-talk from anything
    /// else) and shows 1 for push-to-talk, 0 for voice activity.
    pub fn key_up(current_mode: &Option<String>) -> (res: KeyOutcome)
        ensures
            match opt_view(*current_mode) {
                None => res is Alert,
                Some(m) => res matches KeyOutcome::Send {
                    command: ServerCommand::SetVoiceInputMode { mode: new_mode },
                    state: Some(state),
                } && new_mode@ == next_voice_mode(m) && state == state_of(!is_push_to_talk(m))
                    && new_mode@ == (if m == "PUSH_TO_TALK"@ {
                    "VOICE_ACTIVITY"@
                } else {
                    "PUSH_TO_TALK"@
                }) && state == (if m == "PUSH_TO_TALK"@ {
                    0u16
                } else {
                    1u16
                }),
            },
    {
        match current_mode {
            None => KeyOutcome::Alert,
            Some(mode) => {
                let is_ptt = mode_is_push_to_talk(mode);
                let new_mode = if is_ptt {
                    "VOICE_ACTIVITY"
                } else {
                    "PUSH_TO_TALK"
                };
                send_with_state(
                    ServerCommand::SetVoiceInputMode { mode: new_mode.to_owned() },
                    button_state(!is_ptt),
                )
            },
        }
    }
}

/// Toggling the voice input mode twice from push-to-talk or voice activity
/// returns to the mode it started from.
pub proof fn lemma_voice_mode_toggle_involution(mode: Seq<char>)
    requires
        mode == "PUSH_TO_TALK"@ || mode == "VOICE_ACTIVITY"@,
    ensures
        next_voice_mode(next_voice_mode(mode)) == mode,
{
    reveal_strlit("PUSH_TO_TALK");
    reveal_strlit("VOICE_ACTIVITY");
    assert("PUSH_TO_TALK"@.len() != "VOICE_ACTIVITY"@.len());
}

} // verus!
