use streamdeck_equibop::actions::channel::{
    send_cached_guilds_to_pi, sync_voice_channel_state, ChannelActionSettings, GuildsForInspector,
    TextChannelAction, VoiceChannelAction,
};
use streamdeck_equibop::actions::notifications::{
    decimal_string, update_title, NotificationsAction, NotificationsActionType, NotificationsSettings,
};
use streamdeck_equibop::actions::video::ToggleVideoAction;
use streamdeck_equibop::actions::voice_settings::audio_device_utils::AudioDeviceType;
use streamdeck_equibop::actions::voice_settings::user_volume_control::{
    user_volume_command, UserVolumeControlAction, UserVolumeControlActionType,
    UserVolumeControlSettings, UserVolumeRequest,
};
use streamdeck_equibop::actions::voice_settings::volume_control::{
    volume_command, VolumeChange, VolumeControlAction, VolumeControlActionType, VolumeControlSettings,
    VolumeRequest,
};
use streamdeck_equibop::actions::voice_settings::{
    PushToMuteAction, PushToTalkAction, ToggleDeafenAction, ToggleMuteAction,
    ToggleVoiceInputModeAction,
};
use streamdeck_equibop::outcome::KeyOutcome;
use streamdeck_equibop::protocol::{ClientMessage, Guild, ServerCommand};
use streamdeck_equibop::state::PluginState;

fn send(command: ServerCommand, state: Option<u16>) -> KeyOutcome {
    KeyOutcome::Send { command, state }
}

fn channel_settings(guild: &str, channel: &str) -> ChannelActionSettings {
    ChannelActionSettings { guild_id: guild.to_string(), channel_id: channel.to_string() }
}

#[test]
fn toggle_mute_negates_the_shown_state() {
    assert_eq!(ToggleMuteAction::key_up(0), send(ServerCommand::SetMute { value: true }, Some(1)));
    assert_eq!(ToggleMuteAction::key_up(1), send(ServerCommand::SetMute { value: false }, Some(0)));
}

#[test]
fn toggle_deafen_negates_the_shown_state() {
    assert_eq!(ToggleDeafenAction::key_up(0), send(ServerCommand::SetDeafen { value: true }, Some(1)));
    assert_eq!(ToggleDeafenAction::key_up(1), send(ServerCommand::SetDeafen { value: false }, Some(0)));
}

#[test]
fn push_to_mute_and_push_to_talk_are_mirrors() {
    assert_eq!(PushToMuteAction::key_down(), send(ServerCommand::SetMute { value: true }, Some(1)));
    assert_eq!(PushToMuteAction::key_up(), send(ServerCommand::SetMute { value: false }, Some(0)));
    assert_eq!(PushToTalkAction::key_down(), send(ServerCommand::SetMute { value: false }, Some(1)));
    assert_eq!(PushToTalkAction::key_up(), send(ServerCommand::SetMute { value: true }, Some(0)));
}

#[test]
fn voice_input_mode_toggle() {
    assert_eq!(ToggleVoiceInputModeAction::key_up(&None), KeyOutcome::Alert);
    assert_eq!(
        ToggleVoiceInputModeAction::key_up(&Some("PUSH_TO_TALK".to_string())),
        send(ServerCommand::SetVoiceInputMode { mode: "VOICE_ACTIVITY".to_string() }, Some(0))
    );
    assert_eq!(
        ToggleVoiceInputModeAction::key_up(&Some("VOICE_ACTIVITY".to_string())),
        send(ServerCommand::SetVoiceInputMode { mode: "PUSH_TO_TALK".to_string() }, Some(1))
    );
}

#[test]
fn toggle_video_asks_the_client() {
    assert_eq!(ToggleVideoAction::key_up(), send(ServerCommand::ToggleVideo, None));
}

#[test]
fn text_channel_key() {
    assert_eq!(TextChannelAction::key_up(&channel_settings("1", "")), KeyOutcome::Alert);
    assert_eq!(
        TextChannelAction::key_up(&channel_settings("", "7")),
        send(ServerCommand::SelectTextChannel { guild_id: None, channel_id: "7".into() }, None)
    );
    assert_eq!(
        TextChannelAction::key_up(&channel_settings("1", "7")),
        send(
            ServerCommand::SelectTextChannel { guild_id: Some("1".into()), channel_id: "7".into() },
            None
        )
    );
}

#[test]
fn voice_channel_key_joins_or_leaves() {
    let settings = channel_settings("1", "7");
    assert_eq!(
        VoiceChannelAction::key_up(&settings, &None),
        send(ServerCommand::SelectVoiceChannel { channel_id: Some("7".into()) }, None)
    );
    assert_eq!(
        VoiceChannelAction::key_up(&settings, &Some("8".into())),
        send(ServerCommand::SelectVoiceChannel { channel_id: Some("7".into()) }, None)
    );
    assert_eq!(
        VoiceChannelAction::key_up(&settings, &Some("7".into())),
        send(ServerCommand::SelectVoiceChannel { channel_id: None }, None)
    );
    assert_eq!(VoiceChannelAction::key_up(&channel_settings("1", ""), &None), KeyOutcome::Alert);
}

#[test]
fn voice_channel_button_lights_in_its_channel() {
    let settings = channel_settings("1", "7");
    assert_eq!(sync_voice_channel_state(&settings, &Some("7".into())), 1);
    assert_eq!(sync_voice_channel_state(&settings, &Some("8".into())), 0);
    assert_eq!(sync_voice_channel_state(&settings, &None), 0);
}

#[test]
fn channel_settings_default_is_unconfigured() {
    let d = ChannelActionSettings::default();
    assert!(d.guild_id.is_empty() && d.channel_id.is_empty());
}

#[test]
fn opening_inspector_uses_cache_or_requests_guilds() {
    let mut state: PluginState<u8> = PluginState::new();
    assert_eq!(
        send_cached_guilds_to_pi(&state),
        GuildsForInspector::Refresh(send(ServerCommand::RequestGuilds, None))
    );
    state.handle_message(ClientMessage::Guilds {
        guilds: vec![Guild { id: "1".into(), name: "G".into(), voice: vec![], text: vec![] }],
    });
    assert_eq!(send_cached_guilds_to_pi(&state), GuildsForInspector::Cached);
}

fn notify(state: &mut PluginState<u8>, channel: &str) {
    state.handle_message(ClientMessage::Notification { channel_id: channel.into(), title: None, body: None });
}

fn press(state: &mut PluginState<u8>, action_type: NotificationsActionType) -> (bool, KeyOutcome) {
    let res = NotificationsAction::key_down(state, &NotificationsSettings { action_type });
    (res.refresh_title, res.outcome)
}

fn open(channel: &str) -> (bool, KeyOutcome) {
    (true, send(ServerCommand::SelectTextChannel { guild_id: None, channel_id: channel.into() }, None))
}

#[test]
fn notification_title_counts_waiting() {
    let mut state: PluginState<u8> = PluginState::new();
    assert_eq!(update_title(&state), "0");
    for i in 0..12 {
        notify(&mut state, &i.to_string());
    }
    assert_eq!(update_title(&state), "12");
}

#[test]
fn decimal_string_matches_display() {
    for n in [0usize, 7, 9, 10, 99, 100, 1234567, usize::MAX] {
        assert_eq!(decimal_string(n), n.to_string());
    }
}

#[test]
fn notifications_cycle_recent_first() {
    let mut state: PluginState<u8> = PluginState::new();
    notify(&mut state, "a");
    notify(&mut state, "b");
    assert_eq!(press(&mut state, NotificationsActionType::CycleRecentFirst), open("b"));
    assert_eq!(press(&mut state, NotificationsActionType::CycleRecentFirst), open("a"));
    assert_eq!(press(&mut state, NotificationsActionType::CycleRecentFirst), (false, KeyOutcome::Alert));
}

#[test]
fn notifications_cycle_oldest_first() {
    let mut state: PluginState<u8> = PluginState::new();
    notify(&mut state, "a");
    notify(&mut state, "b");
    assert_eq!(press(&mut state, NotificationsActionType::CycleOldestFirst), open("a"));
    assert_eq!(update_title(&state), "1");
    assert_eq!(press(&mut state, NotificationsActionType::CycleOldestFirst), open("b"));
    assert_eq!(press(&mut state, NotificationsActionType::CycleOldestFirst), (false, KeyOutcome::Alert));
}

#[test]
fn notifications_open_and_clear_and_clear() {
    let mut state: PluginState<u8> = PluginState::new();
    notify(&mut state, "a");
    notify(&mut state, "b");
    assert_eq!(press(&mut state, NotificationsActionType::OpenAndClear), open("b"));
    assert!(state.notification_cache().is_empty());
    assert_eq!(press(&mut state, NotificationsActionType::OpenAndClear), (false, KeyOutcome::Alert));
    notify(&mut state, "c");
    assert_eq!(press(&mut state, NotificationsActionType::Clear), (true, KeyOutcome::Nothing));
    assert!(state.notification_cache().is_empty());
    notify(&mut state, "d");
    assert_eq!(press(&mut state, NotificationsActionType::DoNothing), (false, KeyOutcome::Nothing));
    assert_eq!(state.notification_cache().len(), 1);
    assert_eq!(NotificationsSettings::default().action_type, NotificationsActionType::DoNothing);
}

#[test]
fn volume_key_and_dial_requests() {
    let mut settings = VolumeControlSettings::default();
    assert_eq!(settings.device_type, AudioDeviceType::Input);
    assert_eq!(settings.step_size, 5);
    assert_eq!(settings.set_volume, 100);
    assert_eq!(
        VolumeControlAction::key_up(&settings),
        VolumeRequest { device_type: AudioDeviceType::Input, change: VolumeChange::By(5) }
    );
    settings.action_type = VolumeControlActionType::Decrease;
    settings.device_type = AudioDeviceType::Output;
    assert_eq!(VolumeControlAction::key_up(&settings).change, VolumeChange::By(-5));
    settings.action_type = VolumeControlActionType::SetVolume;
    settings.set_volume = 42;
    assert_eq!(VolumeControlAction::key_up(&settings).change, VolumeChange::To(42));
    assert_eq!(
        VolumeControlAction::dial_rotate(&settings, -3),
        VolumeRequest { device_type: AudioDeviceType::Output, change: VolumeChange::By(-15) }
    );
    settings.step_size = 255;
    assert_eq!(VolumeControlAction::dial_rotate(&settings, i16::MIN).change, VolumeChange::By(-8355840));
}

#[test]
fn volume_scales_and_commands() {
    assert_eq!(AudioDeviceType::Input.max_volume(), 100);
    assert_eq!(AudioDeviceType::Output.max_volume(), 200);
    let bits = 55.5f32.to_bits();
    assert_eq!(volume_command(AudioDeviceType::Input, bits), ServerCommand::SetInputVolume { value_bits: bits });
    assert_eq!(volume_command(AudioDeviceType::Output, bits), ServerCommand::SetOutputVolume { value_bits: bits });
    assert_eq!(
        user_volume_command("9".into(), 50.0f32.to_bits()),
        ServerCommand::SetUserVolume { user_id: "9".into(), value_bits: 50.0f32.to_bits() }
    );
}

#[test]
fn user_volume_key_and_dial_requests() {
    let mut settings = UserVolumeControlSettings::default();
    assert_eq!(UserVolumeControlAction::key_up(&settings), UserVolumeRequest::Alert);
    assert_eq!(UserVolumeControlAction::dial_rotate(&settings, 1), UserVolumeRequest::Alert);
    settings.user_id = Some("u".into());
    assert_eq!(
        UserVolumeControlAction::key_up(&settings),
        UserVolumeRequest::Adjust { user_id: "u".into(), change: VolumeChange::By(5) }
    );
    settings.action_type = UserVolumeControlActionType::Decrease;
    assert_eq!(
        UserVolumeControlAction::key_up(&settings),
        UserVolumeRequest::Adjust { user_id: "u".into(), change: VolumeChange::By(-5) }
    );
    settings.action_type = UserVolumeControlActionType::SetVolume;
    assert_eq!(
        UserVolumeControlAction::key_up(&settings),
        UserVolumeRequest::Adjust { user_id: "u".into(), change: VolumeChange::To(100) }
    );
    settings.action_type = UserVolumeControlActionType::Mute;
    assert_eq!(UserVolumeControlAction::key_up(&settings), UserVolumeRequest::Alert);
    assert_eq!(
        UserVolumeControlAction::dial_rotate(&settings, 2),
        UserVolumeRequest::Adjust { user_id: "u".into(), change: VolumeChange::By(10) }
    );
}
