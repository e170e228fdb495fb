use streamdeck_equibop::actions::voice_settings::audio_device_utils::AudioDeviceType;
use streamdeck_equibop::outcome::{Effect, FeedbackButton};
use streamdeck_equibop::protocol::{ClientMessage, Device, Devices, Guild, ServerCommand, Sound};
use streamdeck_equibop::state::PluginState;

fn state_update(
    mute: bool,
    deaf: bool,
    mode: Option<&str>,
    video: bool,
    screenshare: bool,
    channel: Option<&str>,
) -> ClientMessage {
    ClientMessage::StateUpdate {
        mute,
        deaf,
        input_mode: mode.map(|m| m.to_string()),
        video,
        screenshare,
        channel_id: channel.map(|c| c.to_string()),
    }
}

fn set(button: FeedbackButton, state: u16) -> Effect {
    Effect::SetButtonState { button, state }
}

#[test]
fn hello_is_answered_with_ready_and_cache_requests() {
    let mut state: PluginState<u8> = PluginState::new();
    let effects = state.handle_message(ClientMessage::Hello {
        client: "equibop-opendeck".to_string(),
        version: 1,
    });
    assert_eq!(
        effects,
        vec![
            Effect::Send(ServerCommand::Ready),
            Effect::Send(ServerCommand::RequestState),
            Effect::Send(ServerCommand::RequestGuilds),
            Effect::Send(ServerCommand::RequestSoundboard),
            Effect::Send(ServerCommand::RequestDevices),
        ]
    );
}

#[test]
fn unknown_message_changes_nothing() {
    let mut state: PluginState<u8> = PluginState::new();
    assert!(state.handle_message(ClientMessage::Unknown).is_empty());
    assert!(state.current_voice_channel().is_none());
    assert!(state.guild_cache().is_empty());
}

#[test]
fn state_update_sets_every_button() {
    let mut state: PluginState<u8> = PluginState::new();
    let effects = state.handle_message(state_update(
        true,
        false,
        Some("VOICE_ACTIVITY"),
        false,
        true,
        Some("123456789012345678"),
    ));
    assert_eq!(
        effects,
        vec![
            set(FeedbackButton::ToggleMute, 1),
            set(FeedbackButton::ToggleDeafen, 0),
            set(FeedbackButton::ToggleVoiceInputMode, 0),
            set(FeedbackButton::ToggleVideo, 0),
            set(FeedbackButton::ToggleScreenshare, 1),
            Effect::RefreshVoiceChannelButtons,
        ]
    );
    assert_eq!(state.current_voice_channel().as_deref(), Some("123456789012345678"));
    assert_eq!(state.current_voice_mode().as_deref(), Some("VOICE_ACTIVITY"));
}

#[test]
fn deafened_shows_muted() {
    let mut state: PluginState<u8> = PluginState::new();
    let effects = state.handle_message(state_update(false, true, None, false, false, None));
    assert_eq!(
        effects,
        vec![
            set(FeedbackButton::ToggleMute, 1),
            set(FeedbackButton::ToggleDeafen, 1),
            set(FeedbackButton::ToggleVideo, 0),
            set(FeedbackButton::ToggleScreenshare, 0),
        ]
    );
}

#[test]
fn push_to_talk_mode_lights_the_mode_button_and_missing_mode_keeps_it() {
    let mut state: PluginState<u8> = PluginState::new();
    let effects = state.handle_message(state_update(false, false, Some("PUSH_TO_TALK"), false, false, None));
    assert_eq!(effects[2], set(FeedbackButton::ToggleVoiceInputMode, 1));
    state.handle_message(state_update(false, false, None, false, false, None));
    assert_eq!(state.current_voice_mode().as_deref(), Some("PUSH_TO_TALK"));
}

#[test]
fn same_channel_again_does_not_refresh_voice_buttons() {
    let mut state: PluginState<u8> = PluginState::new();
    let first = state.handle_message(state_update(false, false, None, false, false, Some("7")));
    assert_eq!(first.last(), Some(&Effect::RefreshVoiceChannelButtons));
    let second = state.handle_message(state_update(false, false, None, false, false, Some("7")));
    assert!(!second.contains(&Effect::RefreshVoiceChannelButtons));
    let leave = state.handle_message(state_update(false, false, None, false, false, None));
    assert_eq!(leave.last(), Some(&Effect::RefreshVoiceChannelButtons));
    assert!(state.current_voice_channel().is_none());
}

#[test]
fn guilds_message_fills_sorted_cache() {
    let mut state: PluginState<u8> = PluginState::new();
    let guilds = vec![
        Guild { id: "1".to_string(), name: "b".to_string(), voice: vec![], text: vec![] },
        Guild { id: "2".to_string(), name: "A".to_string(), voice: vec![], text: vec![] },
    ];
    let effects = state.handle_message(ClientMessage::Guilds { guilds });
    assert_eq!(effects, vec![Effect::SendGuildsToInspectors]);
    let ids: Vec<&str> = state.guild_cache().iter().map(|g| g.id.as_str()).collect();
    assert_eq!(ids, vec!["2", "1"]);
}

#[test]
fn soundboard_message_fills_sorted_cache() {
    let mut state: PluginState<u8> = PluginState::new();
    let sounds = vec![
        Sound { guild_id: "g".into(), sound_id: "1".into(), name: "zz".into(), emoji_name: None },
        Sound { guild_id: "g".into(), sound_id: "2".into(), name: "Aa".into(), emoji_name: None },
    ];
    let effects = state.handle_message(ClientMessage::Soundboard { sounds });
    assert_eq!(effects, vec![Effect::SendSoundsToInspectors]);
    assert_eq!(state.soundboard_sounds_cache()[0].sound_id, "2");
}

#[test]
fn devices_message_records_both_sides() {
    let mut state: PluginState<u8> = PluginState::new();
    let devices = Devices {
        input: vec![Device { id: "a".into(), name: "Mic".into() }],
        output: vec![],
        current_input: "a".into(),
        current_output: "".into(),
        input_volume_bits: 80.0f32.to_bits(),
        output_volume_bits: 150.0f32.to_bits(),
    };
    let effects = state.handle_message(ClientMessage::Devices(devices));
    assert_eq!(effects, vec![Effect::SendDevicesToInspectors]);
    let input = state.get_audio_device_settings(AudioDeviceType::Input).as_ref().unwrap();
    assert_eq!(input.device_id, "a");
    assert_eq!(f32::from_bits(input.volume_bits), 80.0);
    assert_eq!(input.available_devices.len(), 1);
    let output = state.get_audio_device_settings(AudioDeviceType::Output).as_ref().unwrap();
    assert_eq!(f32::from_bits(output.volume_bits), 150.0);
}

#[test]
fn notification_message_queues_and_refreshes_titles() {
    let mut state: PluginState<u8> = PluginState::new();
    let effects = state.handle_message(ClientMessage::Notification {
        channel_id: "c".into(),
        title: Some("t".into()),
        body: None,
    });
    assert_eq!(effects, vec![Effect::RefreshNotificationTitles]);
    assert_eq!(state.notification_cache().len(), 1);
    assert_eq!(state.notification_cache()[0].channel_id, "c");
}

#[test]
fn closing_the_client_forgets_its_data_but_keeps_notifications() {
    let mut state: PluginState<u8> = PluginState::new();
    state.register_client(1, 10);
    state.handle_message(state_update(false, false, Some("PUSH_TO_TALK"), false, false, Some("9")));
    state.handle_message(ClientMessage::Guilds {
        guilds: vec![Guild { id: "1".into(), name: "G".into(), voice: vec![], text: vec![] }],
    });
    state.handle_message(ClientMessage::Notification { channel_id: "n".into(), title: None, body: None });
    assert!(state.connection_closed(1));
    assert_eq!(state.client_id(), None);
    assert!(state.client().is_none());
    assert!(state.guild_cache().is_empty());
    assert!(state.current_voice_channel().is_none());
    assert!(state.get_audio_device_settings(AudioDeviceType::Input).is_none());
    assert_eq!(state.notification_cache().len(), 1);
    assert_eq!(state.current_voice_mode().as_deref(), Some("PUSH_TO_TALK"));
    assert!(state.user_voice_settings().is_empty());
    assert_eq!(state.user_volume_bits("someone"), None);
}

#[test]
fn apply_devices_asks_for_device_inspectors() {
    let mut state: PluginState<u8> = PluginState::new();
    let devices = Devices {
        input: vec![],
        output: vec![Device { id: "o".into(), name: "Speakers".into() }],
        current_input: "".into(),
        current_output: "o".into(),
        input_volume_bits: 0.0f32.to_bits(),
        output_volume_bits: 200.0f32.to_bits(),
    };
    assert_eq!(state.apply_devices(devices), vec![Effect::SendDevicesToInspectors]);
    let output = state.get_audio_device_settings(AudioDeviceType::Output).as_ref().unwrap();
    assert_eq!(output.device_id, "o");
    assert_eq!(f32::from_bits(output.volume_bits), 200.0);
}

#[test]
fn no_user_has_voice_settings_before_any_report() {
    let state: PluginState<u8> = PluginState::new();
    assert!(state.user_voice_settings().is_empty());
    assert_eq!(state.user_volume_bits("9"), None);
}

#[test]
fn last_connection_wins() {
    let mut state: PluginState<u8> = PluginState::new();
    state.register_client(1, 10);
    state.register_client(2, 20);
    state.handle_message(state_update(false, false, None, false, false, Some("9")));
    assert!(!state.connection_closed(1));
    assert_eq!(state.client_id(), Some(2));
    assert_eq!(state.client(), Some(&20));
    assert_eq!(state.current_voice_channel().as_deref(), Some("9"));
    assert!(state.connection_closed(2));
    assert!(state.client().is_none());
}
