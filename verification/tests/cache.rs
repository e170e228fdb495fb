use std::collections::VecDeque;

use streamdeck_equibop::cache::{
    add_notification_to_cache, refresh_guild_cache, refresh_soundboard_cache, update_guild_cache,
    update_soundboard_cache, CachedGuild, CachedNotification, CachedSoundboardSound,
};
use streamdeck_equibop::outcome::KeyOutcome;
use streamdeck_equibop::protocol::{Channel, Guild, ServerCommand, Sound};

fn guild(id: &str, name: &str) -> Guild {
    Guild { id: id.to_string(), name: name.to_string(), voice: vec![], text: vec![] }
}

fn sound(id: &str, name: &str) -> Sound {
    Sound {
        guild_id: "g".to_string(),
        sound_id: id.to_string(),
        name: name.to_string(),
        emoji_name: None,
    }
}

#[test]
fn guild_cache_is_sorted_by_lowercase_name() {
    let mut cache: Vec<CachedGuild> = Vec::new();
    update_guild_cache(
        &mut cache,
        vec![guild("1", "zeta"), guild("2", "Alpha"), guild("3", "beta"), guild("4", "Beta")],
    );
    let ids: Vec<&str> = cache.iter().map(|g| g.id.as_str()).collect();
    assert_eq!(ids, vec!["2", "3", "4", "1"]);
}

#[test]
fn guild_cache_keeps_equal_names_in_reported_order() {
    let mut cache: Vec<CachedGuild> = Vec::new();
    update_guild_cache(
        &mut cache,
        vec![guild("a", "SAME"), guild("b", "same"), guild("c", "Same"), guild("d", "a")],
    );
    let ids: Vec<&str> = cache.iter().map(|g| g.id.as_str()).collect();
    assert_eq!(ids, vec!["d", "a", "b", "c"]);
}

#[test]
fn guild_cache_keeps_channels_and_replaces_old_entries() {
    let mut cache: Vec<CachedGuild> = Vec::new();
    update_guild_cache(&mut cache, vec![guild("old", "Old")]);
    let mut g = guild("1", "G");
    g.voice = vec![Channel { id: "v".to_string(), name: "V".to_string() }];
    update_guild_cache(&mut cache, vec![g]);
    assert_eq!(cache.len(), 1);
    assert_eq!(cache[0].id, "1");
    assert_eq!(cache[0].voice[0].id, "v");
    assert!(cache[0].text.is_empty());
}

#[test]
fn guild_cache_of_empty_list_is_empty() {
    let mut cache: Vec<CachedGuild> = Vec::new();
    update_guild_cache(&mut cache, vec![guild("1", "x")]);
    update_guild_cache(&mut cache, vec![]);
    assert!(cache.is_empty());
}

#[test]
fn guild_cache_orders_shorter_prefix_first() {
    let mut cache: Vec<CachedGuild> = Vec::new();
    update_guild_cache(&mut cache, vec![guild("1", "abc"), guild("2", "ab"), guild("3", "Ab d")]);
    let ids: Vec<&str> = cache.iter().map(|g| g.id.as_str()).collect();
    assert_eq!(ids, vec!["2", "3", "1"]);
}

#[test]
fn soundboard_cache_is_sorted_and_keeps_fields() {
    let mut cache: Vec<CachedSoundboardSound> = Vec::new();
    let mut airhorn = sound("2", "Airhorn");
    airhorn.emoji_name = Some("horn".to_string());
    update_soundboard_cache(&mut cache, vec![sound("1", "quack"), airhorn, sound("3", "BOOM")]);
    let ids: Vec<&str> = cache.iter().map(|s| s.sound_id.as_str()).collect();
    assert_eq!(ids, vec!["2", "3", "1"]);
    assert_eq!(cache[0].emoji_name.as_deref(), Some("horn"));
    assert_eq!(cache[0].guild_id, "g");
    assert_eq!(cache[0].name, "Airhorn");
}

#[test]
fn notifications_queue_in_arrival_order() {
    let mut cache: VecDeque<CachedNotification> = VecDeque::new();
    add_notification_to_cache(&mut cache, "1".to_string());
    add_notification_to_cache(&mut cache, "2".to_string());
    assert_eq!(cache.len(), 2);
    assert_eq!(cache[0].channel_id, "1");
    assert_eq!(cache[1].channel_id, "2");
}

#[test]
fn refresh_requests_ask_the_client() {
    assert_eq!(
        refresh_guild_cache(),
        KeyOutcome::Send { command: ServerCommand::RequestGuilds, state: None }
    );
    assert_eq!(
        refresh_soundboard_cache(),
        KeyOutcome::Send { command: ServerCommand::RequestSoundboard, state: None }
    );
}

#[test]
fn same_report_gives_same_cache() {
    let report = || vec![guild("1", "b"), guild("2", "B"), guild("3", "a")];
    let mut first: Vec<CachedGuild> = Vec::new();
    let mut second: Vec<CachedGuild> = Vec::new();
    update_guild_cache(&mut first, report());
    update_guild_cache(&mut second, report());
    update_guild_cache(&mut second, report());
    assert_eq!(first, second);
    let ids: Vec<&str> = first.iter().map(|g| g.id.as_str()).collect();
    assert_eq!(ids, vec!["3", "1", "2"]);
}
