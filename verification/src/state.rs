//! The plugin's shared runtime state, filled from the messages of the Equibop
//! client and read by the action handlers, and the handling of each message.
//!
//! At most one client is tracked: the last connection wins, and only the
//! closing of the tracked connection counts as the client going away.

use std::collections::VecDeque;

use vstd::prelude::*;
use crate::actions::voice_settings::audio_device_utils::{
    AudioDeviceType, AudioDeviceWrapper, UserVoiceSettings,
};
use crate::cache::{
    add_notification_to_cache, guild_sort_key, is_guild_cache_of, is_sound_cache_of, sound_sort_key,
    update_guild_cache, update_soundboard_cache, CachedGuild, CachedNotification,
    CachedSoundboardSound,
};
use crate::outcome::{button_state, state_of, Effect, FeedbackButton};
use crate::protocol::{opt_view, ClientMessage, Devices, ServerCommand};
use crate::sorting::sorted_by;
use crate::text::str_eq;

verus! {

/// The voice input mode in which the key has to be held to talk.
pub open spec fn is_push_to_talk(mode: Seq<char>) -> bool {
    mode == "PUSH_TO_TALK"@
}

/// Whether `mode` names push-to-talk.
pub fn mode_is_push_to_talk(mode: &String) -> (res: bool)
    ensures
        res == is_push_to_talk(mode@),
        res == (mode@ == "PUSH_TO_TALK"@),
{
    str_eq(mode.as_str(), "PUSH_TO_TALK")
}

/// Whether two optional strings hold the same text.
pub fn opt_str_eq(a: &Option<String>, b: &Option<String>) -> (res: bool)
    ensures
        res == (opt_view(*a) == opt_view(*b)),
{
    match (a, b) {
        (Some(x), Some(y)) => str_eq(x.as_str(), y.as_str()),
        (None, None) => true,
        _ => false,
    }
}

/// The abstract state: which connection is the client, what the client last
/// reported, and what is cached.
pub struct StateView<C> {
    /// The connection tracked as the client, with its handle, if any.
    pub client: Option<(u64, C)>,
    /// The voice channel the user is in, `None` when not in voice.
    pub voice_channel: Option<Seq<char>>,
    /// The last known voice input mode.
    pub voice_mode: Option<Seq<char>>,
    pub guilds: Seq<CachedGuild>,
    pub sounds: Seq<CachedSoundboardSound>,
    pub notifications: Seq<CachedNotification>,
    pub audio_input: Option<AudioDeviceWrapper>,
    pub audio_output: Option<AudioDeviceWrapper>,
    /// The voice settings of the other users in the call, by user id.
    pub users: Seq<(String, UserVoiceSettings)>,
}

impl<C> StateView<C> {
    /// The connection tracked as the client, if any.
    pub open spec fn client_id(self) -> Option<u64> {
        match self.client {
            Some((id, _)) => Some(id),
            None => None,
        }
    }

    /// The caches are kept in lowercase-name order, and each user has at most
    /// one entry of voice settings.
    pub open spec fn wf(self) -> bool {
        &&& sorted_by(self.guilds, |c: CachedGuild| guild_sort_key(c))
        &&& sorted_by(self.sounds, |c: CachedSoundboardSound| sound_sort_key(c))
        &&& forall|i: int, j: int|
            0 <= i < j < self.users.len() ==> self.users[i].0@ != self.users[j].0@
    }

    /// The volume bit pattern recorded for `user_id`, if the user has an entry.
    pub open spec fn user_volume(self, user_id: Seq<char>) -> Option<u32> {
        if exists|i: int| 0 <= i < self.users.len() && self.users[i].0@ == user_id {
            let i = choose|i: int| 0 <= i < self.users.len() && self.users[i].0@ == user_id;
            Some(self.users[i].1.volume_bits)
        } else {
            None
        }
    }

    /// `self` with everything the client reported forgotten: no guilds, no
    /// sounds, no voice channel, no audio devices, no user voice settings. The
    /// client, the voice mode and the waiting notifications stay.
    pub open spec fn forgetting_client_data(self) -> StateView<C> {
        StateView {
            guilds: Seq::empty(),
            sounds: Seq::empty(),
            voice_channel: None,
            audio_input: None,
            audio_output: None,
            users: Seq::empty(),
            ..self
        }
    }

    /// `self` after a state report: the voice mode is replaced when the report
    /// names one, the voice channel always.
    pub open spec fn after_state_update(
        self,
        input_mode: Option<Seq<char>>,
        channel_id: Option<Seq<char>>,
    ) -> StateView<C> {
        StateView {
            voice_mode: match input_mode {
                Some(m) => Some(m),
                None => self.voice_mode,
            },
            voice_channel: channel_id,
            ..self
        }
    }

    /// `self` with connection `id`, reached through `handle`, tracked as the client.
    pub open spec fn with_client(self, id: u64, handle: C) -> StateView<C> {
        StateView { client: Some((id, handle)), ..self }
    }

    /// `self` after connection `id` closed: when it is the tracked client, no
    /// client is tracked and its data is forgotten; otherwise nothing changes.
    pub open spec fn after_close(self, id: u64) -> StateView<C> {
        if self.client_id() == Some(id) {
            StateView { client: None, ..self.forgetting_client_data() }
        } else {
            self
        }
    }
}

/// A guild cache built from a report is in lowercase-name order.
proof fn lemma_cache_sorted(cache: Seq<CachedGuild>)
    requires
        exists|guilds: Seq<crate::protocol::Guild>| is_guild_cache_of(guilds, cache),
    ensures
        sorted_by(cache, |c: CachedGuild| guild_sort_key(c)),
{
}

/// A sound cache built from a report is in lowercase-name order.
proof fn lemma_sound_cache_sorted(cache: Seq<CachedSoundboardSound>)
    requires
        exists|sounds: Seq<crate::protocol::Sound>| is_sound_cache_of(sounds, cache),
    ensures
        sorted_by(cache, |c: CachedSoundboardSound| sound_sort_key(c)),
{
}

/// Closing the tracked client's connection leaves no client and nothing of
/// what it reported: no guilds, no sounds, no voice channel, no audio devices
/// and no user voice settings; the voice mode and the waiting notifications
/// stay. Closing any other connection changes nothing.
pub proof fn lemma_close_forgets_client_data<C>(v: StateView<C>, id: u64)
    ensures
        v.client_id() == Some(id) ==> {
            let w = v.after_close(id);
            &&& w.client is None
            &&& w.guilds.len() == 0
            &&& w.sounds.len() == 0
            &&& w.voice_channel is None
            &&& w.audio_input is None
            &&& w.audio_output is None
            &&& w.users.len() == 0
            &&& w.voice_mode == v.voice_mode
            &&& w.notifications == v.notifications
        },
        v.client_id() != Some(id) ==> v.after_close(id) == v,
{
}

/// A state report replaces the voice channel by the reported one (also when
/// it is `None`), replaces the voice mode only when the report names one, and
/// leaves the client, the caches, the devices and the notifications alone.
pub proof fn lemma_state_report_records<C>(
    v: StateView<C>,
    input_mode: Option<Seq<char>>,
    channel_id: Option<Seq<char>>,
)
    ensures
        ({
            let w = v.after_state_update(input_mode, channel_id);
            &&& w.voice_channel == channel_id
            &&& (input_mode is Some ==> w.voice_mode == input_mode)
            &&& (input_mode is None ==> w.voice_mode == v.voice_mode)
            &&& w.client == v.client
            &&& w.guilds == v.guilds
            &&& w.sounds == v.sounds
            &&& w.notifications == v.notifications
            &&& w.audio_input == v.audio_input
            &&& w.audio_output == v.audio_output
            &&& w.users == v.users
        }),
{
}

/// Tracking a connection makes it the client, whatever was tracked before,
/// and changes nothing else.
pub proof fn lemma_register_tracks<C>(v: StateView<C>, id: u64, handle: C)
    ensures
        ({
            let w = v.with_client(id, handle);
            &&& w.client == Some((id, handle))
            &&& w.client_id() == Some(id)
            &&& w.voice_channel == v.voice_channel
            &&& w.voice_mode == v.voice_mode
            &&& w.guilds == v.guilds
            &&& w.sounds == v.sounds
            &&& w.notifications == v.notifications
            &&& w.audio_input == v.audio_input
            &&& w.audio_output == v.audio_output
            &&& w.users == v.users
        }),
{
}

/// The volume looked up for a user is the volume of that user's entry, and
/// there is none exactly when no entry has the user's id.
pub proof fn lemma_user_volume_lookup<C>(v: StateView<C>, user_id: Seq<char>)
    requires
        v.wf(),
    ensures
        forall|i: int|
            0 <= i < v.users.len() && #[trigger] v.users[i].0@ == user_id ==> v.user_volume(user_id)
                == Some(v.users[i].1.volume_bits),
        (forall|i: int| 0 <= i < v.users.len() ==> #[trigger] v.users[i].0@ != user_id) ==> v.user_volume(
            user_id,
        ) is None,
{
    assert forall|i: int|
        0 <= i < v.users.len() && #[trigger] v.users[i].0@ == user_id implies v.user_volume(user_id)
            == Some(v.users[i].1.volume_bits) by {
        let j = choose|j: int| 0 <= j < v.users.len() && v.users[j].0@ == user_id;
        if j < i {
            assert(v.users[j].0@ != v.users[i].0@);
        } else if i < j {
            assert(v.users[i].0@ != v.users[j].0@);
        }
    }
}

/// The last connection wins: once a newer connection `b` is tracked, the
/// closing of the older connection `a` leaves `b` tracked and every cache
/// intact, while the closing of `b` leaves no client and forgets its data.
pub proof fn lemma_last_connection_wins<C>(v: StateView<C>, a: u64, ha: C, b: u64, hb: C)
    requires
        a != b,
    ensures
        v.with_client(a, ha).with_client(b, hb).after_close(a) == v.with_client(b, hb),
        v.with_client(a, ha).with_client(b, hb).after_close(b) == (StateView {
            client: None,
            ..v.forgetting_client_data()
        }),
{
}

/// Deafening implies muted: a report with `deaf` set always shows the mute
/// button as muted.
pub proof fn lemma_deaf_shows_muted(
    mute: bool,
    input_mode: Option<Seq<char>>,
    video: bool,
    screenshare: bool,
    channel_changed: bool,
)
    ensures
        state_update_effects(mute, true, input_mode, video, screenshare, channel_changed)[0]
            == (Effect::SetButtonState { button: FeedbackButton::ToggleMute, state: 1 }),
{
}

/// A state report sets each feedback button from its own flags alone, each
/// exactly once: mute shows 1 exactly when muted or deafened, deafen exactly
/// when deafened, video exactly when the camera is on, screenshare exactly when
/// sharing, and the voice mode button, present only when a mode is reported,
/// exactly for push-to-talk. Voice Channel buttons refresh exactly when the
/// channel changed.
pub proof fn lemma_state_update_buttons(
    mute: bool,
    deaf: bool,
    input_mode: Option<Seq<char>>,
    video: bool,
    screenshare: bool,
    channel_changed: bool,
)
    ensures
        ({
            let e = state_update_effects(mute, deaf, input_mode, video, screenshare, channel_changed);
            &&& e.contains(
                Effect::SetButtonState {
                    button: FeedbackButton::ToggleMute,
                    state: if mute || deaf { 1u16 } else { 0u16 },
                },
            )
            &&& e.contains(
                Effect::SetButtonState {
                    button: FeedbackButton::ToggleDeafen,
                    state: if deaf { 1u16 } else { 0u16 },
                },
            )
            &&& e.contains(
                Effect::SetButtonState {
                    button: FeedbackButton::ToggleVideo,
                    state: if video { 1u16 } else { 0u16 },
                },
            )
            &&& e.contains(
                Effect::SetButtonState {
                    button: FeedbackButton::ToggleScreenshare,
                    state: if screenshare { 1u16 } else { 0u16 },
                },
            )
            &&& forall|i: int, j: int|
                0 <= i < j < e.len() ==> !(#[trigger] e[i] matches Effect::SetButtonState {
                    button: b1,
                    ..
                } && #[trigger] e[j] matches Effect::SetButtonState { button: b2, .. } && b1 == b2)
            &&& match input_mode {
                Some(m) => e.contains(
                    Effect::SetButtonState {
                        button: FeedbackButton::ToggleVoiceInputMode,
                        state: if m == "PUSH_TO_TALK"@ { 1u16 } else { 0u16 },
                    },
                ),
                None => forall|i: int|
                    0 <= i < e.len() ==> !(#[trigger] e[i] matches Effect::SetButtonState {
                        button: FeedbackButton::ToggleVoiceInputMode,
                        ..
                    }),
            }
            &&& e.contains(Effect::RefreshVoiceChannelButtons) == channel_changed
            &&& forall|i: int|
                0 <= i < e.len() ==> (#[trigger] e[i] is SetButtonState || e[i] is RefreshVoiceChannelButtons)
        }),
{
    let e = state_update_effects(mute, deaf, input_mode, video, screenshare, channel_changed);
    let m_eff = Effect::SetButtonState {
        button: FeedbackButton::ToggleMute,
        state: if mute || deaf { 1u16 } else { 0u16 },
    };
    let d_eff = Effect::SetButtonState {
        button: FeedbackButton::ToggleDeafen,
        state: if deaf { 1u16 } else { 0u16 },
    };
    let v_eff = Effect::SetButtonState {
        button: FeedbackButton::ToggleVideo,
        state: if video { 1u16 } else { 0u16 },
    };
    let s_eff = Effect::SetButtonState {
        button: FeedbackButton::ToggleScreenshare,
        state: if screenshare { 1u16 } else { 0u16 },
    };
    let refresh: Seq<Effect> = if channel_changed {
        seq![Effect::RefreshVoiceChannelButtons]
    } else {
        Seq::empty()
    };
    match input_mode {
        Some(m) => {
            let mode_eff = Effect::SetButtonState {
                button: FeedbackButton::ToggleVoiceInputMode,
                state: if m == "PUSH_TO_TALK"@ { 1u16 } else { 0u16 },
            };
            assert(e =~= seq![m_eff, d_eff, mode_eff, v_eff, s_eff] + refresh);
            assert(e[0] == m_eff && e[1] == d_eff && e[2] == mode_eff && e[3] == v_eff && e[4]
                == s_eff);
            if channel_changed {
                assert(e[5] == Effect::RefreshVoiceChannelButtons);
            } else {
                assert(e.len() == 5);
            }
        },
        None => {
            assert(e =~= seq![m_eff, d_eff, v_eff, s_eff] + refresh);
            assert(e[0] == m_eff && e[1] == d_eff && e[2] == v_eff && e[3] == s_eff);
            if channel_changed {
                assert(e[4] == Effect::RefreshVoiceChannelButtons);
            } else {
                assert(e.len() == 4);
            }
        },
    }
}

/// Once a report has recorded a voice channel, a later report of the same
/// channel does not refresh the Voice Channel buttons.
pub proof fn lemma_same_channel_no_refresh<C>(
    v: StateView<C>,
    first_mode: Option<Seq<char>>,
    channel_id: Option<Seq<char>>,
    mute: bool,
    deaf: bool,
    input_mode: Option<Seq<char>>,
    video: bool,
    screenshare: bool,
)
    ensures
        !state_update_effects(
            mute,
            deaf,
            input_mode,
            video,
            screenshare,
            v.after_state_update(first_mode, channel_id).voice_channel != channel_id,
        ).contains(Effect::RefreshVoiceChannelButtons),
{
    let effects = state_update_effects(mute, deaf, input_mode, video, screenshare, false);
    assert forall|i: int| 0 <= i < effects.len() implies effects[i]
        != Effect::RefreshVoiceChannelButtons by {
        match input_mode {
            Some(_) => {},
            None => {},
        }
    }
}

/// The closing of any connection keeps the caches ordered and keeps the
/// waiting notifications.
pub proof fn lemma_close_keeps_invariant<C>(v: StateView<C>, id: u64)
    requires
        v.wf(),
    ensures
        v.after_close(id).wf(),
        v.after_close(id).notifications == v.notifications,
{
}

/// The effects of a full voice/video state report: the mute button shows
/// muted when muted or deafened; the voice mode button shows push-to-talk;
/// voice channel buttons refresh only when the channel changed.
pub open spec fn state_update_effects(
    mute: bool,
    deaf: bool,
    input_mode: Option<Seq<char>>,
    video: bool,
    screenshare: bool,
    channel_changed: bool,
) -> Seq<Effect> {
    let head = seq![
        Effect::SetButtonState { button: FeedbackButton::ToggleMute, state: state_of(mute || deaf) },
        Effect::SetButtonState { button: FeedbackButton::ToggleDeafen, state: state_of(deaf) },
    ];
    let mode = match input_mode {
        Some(m) => seq![
            Effect::SetButtonState {
                button: FeedbackButton::ToggleVoiceInputMode,
                state: state_of(is_push_to_talk(m)),
            },
        ],
        None => Seq::empty(),
    };
    let tail = seq![
        Effect::SetButtonState { button: FeedbackButton::ToggleVideo, state: state_of(video) },
        Effect::SetButtonState {
            button: FeedbackButton::ToggleScreenshare,
            state: state_of(screenshare),
        },
    ];
    let refresh = if channel_changed {
        seq![Effect::RefreshVoiceChannelButtons]
    } else {
        Seq::empty()
    };
    head + mode + tail + refresh
}

/// The reply to a client's `hello`: `ready`, then requests that prime every cache.
pub open spec fn hello_effects() -> Seq<Effect> {
    seq![
        Effect::Send(ServerCommand::Ready),
        Effect::Send(ServerCommand::RequestState),
        Effect::Send(ServerCommand::RequestGuilds),
        Effect::Send(ServerCommand::RequestSoundboard),
        Effect::Send(ServerCommand::RequestDevices),
    ]
}

/// The shared runtime state. `C` is the handle through which commands reach
/// the connected client.
pub struct PluginState<C> {
    client: Option<(u64, C)>,
    voice_channel: Option<String>,
    voice_mode: Option<String>,
    guilds: Vec<CachedGuild>,
    sounds: Vec<CachedSoundboardSound>,
    notifications: VecDeque<CachedNotification>,
    audio_input: Option<AudioDeviceWrapper>,
    audio_output: Option<AudioDeviceWrapper>,
    users: Vec<(String, UserVoiceSettings)>,
}

impl<C> View for PluginState<C> {
    type V = StateView<C>;

    closed spec fn view(&self) -> StateView<C> {
        StateView {
            client: self.client,
            voice_channel: opt_view(self.voice_channel),
            voice_mode: opt_view(self.voice_mode),
            guilds: self.guilds@,
            sounds: self.sounds@,
            notifications: self.notifications@,
            audio_input: self.audio_input,
            audio_output: self.audio_output,
            users: self.users@,
        }
    }
}

impl<C> PluginState<C> {
    /// The caches stay in lowercase-name order and each user has at most one
    /// entry of voice settings.
    #[verifier::type_invariant]
    closed spec fn well_formed(self) -> bool {
        &&& sorted_by(self.guilds@, |c: CachedGuild| guild_sort_key(c))
        &&& sorted_by(self.sounds@, |c: CachedSoundboardSound| sound_sort_key(c))
        &&& forall|i: int, j: int|
            0 <= i < j < self.users@.len() ==> self.users@[i].0@ != self.users@[j].0@
    }

    /// The state before any client has connected: nothing known, nothing cached.
    pub fn new() -> (res: Self)
        ensures
            res@.client is None,
            res@.voice_channel is None,
            res@.voice_mode is None,
            res@.guilds.len() == 0,
            res@.sounds.len() == 0,
            res@.notifications.len() == 0,
            res@.audio_input is None,
            res@.audio_output is None,
            res@.users.len() == 0,
            res@.wf(),
    {
        PluginState {
            client: None,
            voice_channel: None,
            voice_mode: None,
            guilds: Vec::new(),
            sounds: Vec::new(),
            notifications: VecDeque::new(),
            audio_input: None,
            audio_output: None,
            users: Vec::new(),
        }
    }

    /// Tracks connection `id` as the client (the last connection wins).
    pub fn register_client(&mut self, id: u64, handle: C)
        ensures
            final(self)@ == old(self)@.with_client(id, handle),
    {
        proof {
            use_type_invariant(&*self);
        }
        self.client = Some((id, handle));
    }

    /// The handle of the connected client, if any.
    pub fn client(&self) -> (res: Option<&C>)
        ensures
            match res {
                Some(h) => self@.client matches Some((_, c)) && *h == c,
                None => self@.client is None,
            },
    {
        match &self.client {
            Some((_, handle)) => Some(handle),
            None => None,
        }
    }

    /// The connection tracked as the client, if any.
    pub fn client_id(&self) -> (res: Option<u64>)
        ensures
            res == self@.client_id(),
    {
        match &self.client {
            Some((id, _)) => Some(*id),
            None => None,
        }
    }

    /// Connection `id` closed. Only when it is the tracked client does the
    /// plugin treat the client as gone: it stops tracking it, forgets what the
    /// client reported, and returns true. A connection that a newer one
    /// replaced changes nothing.
    pub fn connection_closed(&mut self, id: u64) -> (gone: bool)
        ensures
            gone == (old(self)@.client_id() == Some(id)),
            final(self)@ == old(self)@.after_close(id),
            final(self)@.wf(),
            gone ==> {
                &&& final(self)@.client is None
                &&& final(self)@.guilds.len() == 0
                &&& final(self)@.sounds.len() == 0
                &&& final(self)@.voice_channel is None
                &&& final(self)@.audio_input is None
                &&& final(self)@.audio_output is None
                &&& final(self)@.users.len() == 0
                &&& final(self)@.voice_mode == old(self)@.voice_mode
                &&& final(self)@.notifications == old(self)@.notifications
            },
            !gone ==> final(self)@ == old(self)@,
    {
        proof {
            use_type_invariant(&*self);
        }
        let active = match &self.client {
            Some((current, _)) => *current == id,
            None => false,
        };
        if active {
            self.client = None;
            self.on_client_disconnected();
        }
        active
    }

    /// Forgets what the departed client reported: guilds, sounds, voice
    /// channel, audio devices and the other users' voice settings.
    pub fn on_client_disconnected(&mut self)
        ensures
            final(self)@ == old(self)@.forgetting_client_data(),
            final(self)@.wf(),
            final(self)@.guilds.len() == 0,
            final(self)@.sounds.len() == 0,
            final(self)@.voice_channel is None,
            final(self)@.audio_input is None,
            final(self)@.audio_output is None,
            final(self)@.users.len() == 0,
            final(self)@.client == old(self)@.client,
            final(self)@.voice_mode == old(self)@.voice_mode,
            final(self)@.notifications == old(self)@.notifications,
    {
        proof {
            use_type_invariant(&*self);
        }
        self.guilds = Vec::new();
        self.sounds = Vec::new();
        self.voice_channel = None;
        self.audio_input = None;
        self.audio_output = None;
        self.users = Vec::new();
    }

    /// Applies a full self voice/video state report: records the voice mode
    /// (when given) and the voice channel, and lists the button updates.
    #[verifier::spinoff_prover]
    #[verifier::rlimit(30)]
    pub fn apply_state_update(
        &mut self,
        mute: bool,
        deaf: bool,
        input_mode: Option<String>,
        video: bool,
        screenshare: bool,
        channel_id: Option<String>,
    ) -> (effects: Vec<Effect>)
        ensures
            final(self)@ == old(self)@.after_state_update(opt_view(input_mode), opt_view(channel_id)),
            effects@ == state_update_effects(
                mute,
                deaf,
                opt_view(input_mode),
                video,
                screenshare,
                old(self)@.voice_channel != opt_view(channel_id),
            ),
    {
        proof {
            use_type_invariant(&*self);
        }
        let mut effects: Vec<Effect> = Vec::new();
        effects.push(
            Effect::SetButtonState {
                button: FeedbackButton::ToggleMute,
                state: button_state(mute || deaf),
            },
        );
        effects.push(
            Effect::SetButtonState { button: FeedbackButton::ToggleDeafen, state: button_state(deaf) },
        );
        let ghost mode_view = opt_view(input_mode);
        if let Some(mode) = input_mode {
            let is_ptt = mode_is_push_to_talk(&mode);
            effects.push(
                Effect::SetButtonState {
                    button: FeedbackButton::ToggleVoiceInputMode,
                    state: button_state(is_ptt),
                },
            );
            self.voice_mode = Some(mode);
        }
        effects.push(
            Effect::SetButtonState { button: FeedbackButton::ToggleVideo, state: button_state(video) },
        );
        effects.push(
            Effect::SetButtonState {
                button: FeedbackButton::ToggleScreenshare,
                state: button_state(screenshare),
            },
        );
        if self.apply_voice_channel(channel_id) {
            effects.push(Effect::RefreshVoiceChannelButtons);
        }
        assert(effects@ =~= state_update_effects(
            mute,
            deaf,
            mode_view,
            video,
            screenshare,
            old(self)@.voice_channel != opt_view(channel_id),
        ));
        effects
    }

    /// Records the voice channel; returns whether it differs from the one known
    /// before (only then do Voice Channel buttons need refreshing).
    fn apply_voice_channel(&mut self, channel_id: Option<String>) -> (changed: bool)
        ensures
            changed == (old(self)@.voice_channel != opt_view(channel_id)),
            final(self)@ == (StateView { voice_channel: opt_view(channel_id), ..old(self)@ }),
    {
        proof {
            use_type_invariant(&*self);
        }
        if opt_str_eq(&self.voice_channel, &channel_id) {
            return false;
        }
        self.voice_channel = channel_id;
        true
    }

    /// Records the reported audio devices and volumes, and asks for the Set
    /// Audio Device inspectors to be refreshed.
    pub fn apply_devices(&mut self, devices: Devices) -> (effects: Vec<Effect>)
        ensures
            effects@ == seq![Effect::SendDevicesToInspectors],
            final(self)@ == (StateView {
                audio_input: Some(
                    AudioDeviceWrapper {
                        device_id: devices.current_input,
                        volume_bits: devices.input_volume_bits,
                        available_devices: devices.input,
                    },
                ),
                audio_output: Some(
                    AudioDeviceWrapper {
                        device_id: devices.current_output,
                        volume_bits: devices.output_volume_bits,
                        available_devices: devices.output,
                    },
                ),
                ..old(self)@
            }),
    {
        proof {
            use_type_invariant(&*self);
        }
        self.audio_input = Some(
            AudioDeviceWrapper {
                device_id: devices.current_input,
                volume_bits: devices.input_volume_bits,
                available_devices: devices.input,
            },
        );
        self.audio_output = Some(
            AudioDeviceWrapper {
                device_id: devices.current_output,
                volume_bits: devices.output_volume_bits,
                available_devices: devices.output,
            },
        );
        let mut effects: Vec<Effect> = Vec::new();
        effects.push(Effect::SendDevicesToInspectors);
        assert(effects@ =~= seq![Effect::SendDevicesToInspectors]);
        effects
    }

    /// Handles one message of the client and lists the work that follows.
    pub fn handle_message(&mut self, message: ClientMessage) -> (effects: Vec<Effect>)
        ensures
            final(self)@.wf(),
            final(self)@.client == old(self)@.client,
            final(self)@.notifications.len() >= old(self)@.notifications.len(),
            match message {
                ClientMessage::Hello { .. } => {
                    &&& final(self)@ == old(self)@
                    &&& effects@ == hello_effects()
                    &&& effects@ == seq![
                        Effect::Send(ServerCommand::Ready),
                        Effect::Send(ServerCommand::RequestState),
                        Effect::Send(ServerCommand::RequestGuilds),
                        Effect::Send(ServerCommand::RequestSoundboard),
                        Effect::Send(ServerCommand::RequestDevices),
                    ]
                },
                ClientMessage::StateUpdate {
                    mute,
                    deaf,
                    input_mode,
                    video,
                    screenshare,
                    channel_id,
                } => {
                    &&& final(self)@ == old(self)@.after_state_update(
                        opt_view(input_mode),
                        opt_view(channel_id),
                    )
                    &&& effects@ == state_update_effects(
                        mute,
                        deaf,
                        opt_view(input_mode),
                        video,
                        screenshare,
                        old(self)@.voice_channel != opt_view(channel_id),
                    )
                },
                ClientMessage::Devices(devices) => {
                    &&& final(self)@ == (StateView {
                        audio_input: Some(
                            AudioDeviceWrapper {
                                device_id: devices.current_input,
                                volume_bits: devices.input_volume_bits,
                                available_devices: devices.input,
                            },
                        ),
                        audio_output: Some(
                            AudioDeviceWrapper {
                                device_id: devices.current_output,
                                volume_bits: devices.output_volume_bits,
                                available_devices: devices.output,
                            },
                        ),
                        ..old(self)@
                    })
                    &&& effects@ == seq![Effect::SendDevicesToInspectors]
                },
                ClientMessage::Guilds { guilds } => {
                    &&& is_guild_cache_of(guilds@, final(self)@.guilds)
                    &&& final(self)@ == (StateView { guilds: final(self)@.guilds, ..old(self)@ })
                    &&& effects@ == seq![Effect::SendGuildsToInspectors]
                },
                ClientMessage::Soundboard { sounds } => {
                    &&& is_sound_cache_of(sounds@, final(self)@.sounds)
                    &&& final(self)@ == (StateView { sounds: final(self)@.sounds, ..old(self)@ })
                    &&& effects@ == seq![Effect::SendSoundsToInspectors]
                },
                ClientMessage::Notification { channel_id, .. } => {
                    &&& final(self)@ == (StateView {
                        notifications: old(self)@.notifications.push(
                            CachedNotification { channel_id },
                        ),
                        ..old(self)@
                    })
                    &&& effects@ == seq![Effect::RefreshNotificationTitles]
                },
                ClientMessage::Unknown => {
                    &&& final(self)@ == old(self)@
                    &&& effects@.len() == 0
                },
            },
    {
        proof {
            use_type_invariant(&*self);
        }
        let mut effects: Vec<Effect> = Vec::new();
        match message {
            ClientMessage::Hello { .. } => {
                effects.push(Effect::Send(ServerCommand::Ready));
                effects.push(Effect::Send(ServerCommand::RequestState));
                effects.push(Effect::Send(ServerCommand::RequestGuilds));
                effects.push(Effect::Send(ServerCommand::RequestSoundboard));
                effects.push(Effect::Send(ServerCommand::RequestDevices));
                assert(effects@ =~= hello_effects());
            },
            ClientMessage::StateUpdate { mute, deaf, input_mode, video, screenshare, channel_id } => {
                effects = self.apply_state_update(
                    mute,
                    deaf,
                    input_mode,
                    video,
                    screenshare,
                    channel_id,
                );
            },
            ClientMessage::Devices(devices) => {
                effects = self.apply_devices(devices);
            },
            ClientMessage::Guilds { guilds } => {
                let mut cache: Vec<CachedGuild> = Vec::new();
                update_guild_cache(&mut cache, guilds);
                proof {
                    lemma_cache_sorted(cache@);
                }
                self.guilds = cache;
                effects.push(Effect::SendGuildsToInspectors);
                assert(effects@ =~= seq![Effect::SendGuildsToInspectors]);
            },
            ClientMessage::Soundboard { sounds } => {
                let mut cache: Vec<CachedSoundboardSound> = Vec::new();
                update_soundboard_cache(&mut cache, sounds);
                proof {
                    lemma_sound_cache_sorted(cache@);
                }
                self.sounds = cache;
                effects.push(Effect::SendSoundsToInspectors);
                assert(effects@ =~= seq![Effect::SendSoundsToInspectors]);
            },
            ClientMessage::Notification { channel_id, .. } => {
                let mut queue: VecDeque<CachedNotification> = VecDeque::new();
                std::mem::swap(&mut queue, &mut self.notifications);
                add_notification_to_cache(&mut queue, channel_id);
                self.notifications = queue;
                effects.push(Effect::RefreshNotificationTitles);
                assert(effects@ =~= seq![Effect::RefreshNotificationTitles]);
            },
            ClientMessage::Unknown => {},
        }
        effects
    }

    /// The voice channel the user is in, `None` when not in voice.
    pub fn current_voice_channel(&self) -> (res: &Option<String>)
        ensures
            opt_view(*res) == self@.voice_channel,
    {
        &self.voice_channel
    }

    /// The last known voice input mode.
    pub fn current_voice_mode(&self) -> (res: &Option<String>)
        ensures
            opt_view(*res) == self@.voice_mode,
    {
        &self.voice_mode
    }

    /// The cached guilds, in lowercase-name order.
    pub fn guild_cache(&self) -> (res: &Vec<CachedGuild>)
        ensures
            res@ == self@.guilds,
    {
        &self.guilds
    }

    /// The cached soundboard sounds, in lowercase-name order.
    pub fn soundboard_sounds_cache(&self) -> (res: &Vec<CachedSoundboardSound>)
        ensures
            res@ == self@.sounds,
    {
        &self.sounds
    }

    /// The notifications waiting, oldest first.
    pub fn notification_cache(&self) -> (res: &VecDeque<CachedNotification>)
        ensures
            res@ == self@.notifications,
    {
        &self.notifications
    }

    /// The cached device settings of one side of the audio path.
    pub fn get_audio_device_settings(&self, device_type: AudioDeviceType) -> (res: &Option<
        AudioDeviceWrapper,
    >)
        ensures
            *res == match device_type {
                AudioDeviceType::Input => self@.audio_input,
                AudioDeviceType::Output => self@.audio_output,
            },
    {
        match device_type {
            AudioDeviceType::Input => &self.audio_input,
            AudioDeviceType::Output => &self.audio_output,
        }
    }

    /// The voice settings of the other users in the call, by user id.
    pub fn user_voice_settings(&self) -> (res: &Vec<(String, UserVoiceSettings)>)
        ensures
            res@ == self@.users,
    {
        &self.users
    }

    /// The volume (bit pattern) recorded for `user_id`, or `None` when the
    /// user has no voice settings entry.
    pub fn user_volume_bits(&self, user_id: &str) -> (res: Option<u32>)
        ensures
            res == self@.user_volume(user_id@),
    {
        proof {
            use_type_invariant(self);
        }
        let mut i: usize = 0;
        while i < self.users.len()
            invariant
                i <= self.users@.len(),
                self@.wf(),
                forall|k: int| 0 <= k < i ==> self.users@[k].0@ != user_id@,
            decreases self.users@.len() - i,
        {
            if str_eq(self.users[i].0.as_str(), user_id) {
                proof {
                    let j = choose|j: int|
                        0 <= j < self@.users.len() && self@.users[j].0@ == user_id@;
                    if j != i {
                        assert(self@.wf());
                        if j < i {
                        } else {
                            assert(self@.users[i as int].0@ != self@.users[j].0@);
                        }
                    }
                }
                return Some(self.users[i].1.volume_bits);
            }
            i = i + 1;
        }
        None
    }

    /// Takes the newest waiting notification.
    pub fn pop_newest_notification(&mut self) -> (res: Option<CachedNotification>)
        ensures
            old(self)@.notifications.len() == 0 ==> res is None && final(self)@ == old(self)@,
            old(self)@.notifications.len() > 0 ==> {
                &&& res == Some(old(self)@.notifications.last())
                &&& final(self)@ == (StateView {
                    notifications: old(self)@.notifications.drop_last(),
                    ..old(self)@
                })
            },
    {
        proof {
            use_type_invariant(&*self);
        }
        let mut queue: VecDeque<CachedNotification> = VecDeque::new();
        std::mem::swap(&mut queue, &mut self.notifications);
        let res = queue.pop_back();
        self.notifications = queue;
        proof {
            if old(self)@.notifications.len() > 0 {
                assert(self@.notifications =~= old(self)@.notifications.drop_last());
            }
        }
        res
    }

    /// Takes the oldest waiting notification.
    pub fn pop_oldest_notification(&mut self) -> (res: Option<CachedNotification>)
        ensures
            old(self)@.notifications.len() == 0 ==> res is None && final(self)@ == old(self)@,
            old(self)@.notifications.len() > 0 ==> {
                &&& res == Some(old(self)@.notifications[0])
                &&& final(self)@ == (StateView {
                    notifications: old(self)@.notifications.drop_first(),
                    ..old(self)@
                })
            },
    {
        proof {
            use_type_invariant(&*self);
        }
        let mut queue: VecDeque<CachedNotification> = VecDeque::new();
        std::mem::swap(&mut queue, &mut self.notifications);
        let res = queue.pop_front();
        self.notifications = queue;
        proof {
            if old(self)@.notifications.len() > 0 {
                assert(self@.notifications =~= old(self)@.notifications.drop_first());
            }
        }
        res
    }

    /// Drops every waiting notification.
    pub fn clear_notifications(&mut self)
        ensures
            final(self)@ == (StateView { notifications: Seq::empty(), ..old(self)@ }),
    {
        proof {
            use_type_invariant(&*self);
        }
        self.notifications = VecDeque::new();
    }
}

} // verus!
