//! The caches filled from the Equibop client: guilds with their channels and
//! soundboard sounds (both kept in case-insensitive name order) and the queue
//! of notifications that have arrived.

use std::collections::VecDeque;

use vstd::prelude::*;
use crate::outcome::KeyOutcome;
use crate::protocol::{Channel, Guild, ServerCommand, Sound};
use crate::sorting::{
    is_permutation, is_stable_sort, key_views, stable_sort_witness, lemma_sort_by_keys_is_sort_by_key, lemma_stable_sort_unique,
    stable_sort_by_key,
};
use crate::text::{lex_le, lowercase, lowercase_key};

verus! {

/// A guild with its selectable voice/text channels, as sent to the property inspector.
#[derive(Debug, Clone, PartialEq)]
pub struct CachedGuild {
    pub id: String,
    pub name: String,
    pub voice: Vec<Channel>,
    pub text: Vec<Channel>,
}

/// A soundboard sound, as sent to the property inspector.
#[derive(Debug, Clone, PartialEq)]
pub struct CachedSoundboardSound {
    pub name: String,
    pub guild_id: String,
    pub sound_id: String,
    pub emoji_name: Option<String>,
}

/// A notification waiting on the Notifications button: the channel it came from.
#[derive(Debug, Clone, PartialEq)]
pub struct CachedNotification {
    pub channel_id: String,
}

/// The cache entry made from a guild the client reported.
pub open spec fn cached_guild(g: Guild) -> CachedGuild {
    CachedGuild { id: g.id, name: g.name, voice: g.voice, text: g.text }
}

/// The cache entry made from a sound the client reported.
pub open spec fn cached_sound(s: Sound) -> CachedSoundboardSound {
    CachedSoundboardSound {
        name: s.name,
        guild_id: s.guild_id,
        sound_id: s.sound_id,
        emoji_name: s.emoji_name,
    }
}

/// Guilds are ordered by their lowercase name.
pub open spec fn guild_sort_key(g: CachedGuild) -> Seq<char> {
    lowercase(g.name@)
}

/// Sounds are ordered by their lowercase name.
pub open spec fn sound_sort_key(s: CachedSoundboardSound) -> Seq<char> {
    lowercase(s.name@)
}

/// The guild cache that a reported guild list gives: the guilds, in the
/// stable order of their lowercase names.
pub open spec fn is_guild_cache_of(guilds: Seq<Guild>, cache: Seq<CachedGuild>) -> bool {
    is_stable_sort(
        guilds.map_values(|g: Guild| cached_guild(g)),
        cache,
        |c: CachedGuild| guild_sort_key(c),
    )
}

/// The sound cache that a reported sound list gives: the sounds, in the
/// stable order of their lowercase names.
pub open spec fn is_sound_cache_of(sounds: Seq<Sound>, cache: Seq<CachedSoundboardSound>) -> bool {
    is_stable_sort(
        sounds.map_values(|s: Sound| cached_sound(s)),
        cache,
        |c: CachedSoundboardSound| sound_sort_key(c),
    )
}

/// The guild cache is determined by the reported guild list alone: two
/// caches built from the same list are equal.
pub proof fn lemma_guild_cache_determined(guilds: Seq<Guild>, c1: Seq<CachedGuild>, c2: Seq<CachedGuild>)
    requires
        is_guild_cache_of(guilds, c1),
        is_guild_cache_of(guilds, c2),
    ensures
        c1 == c2,
{
    lemma_stable_sort_unique(
        guilds.map_values(|g: Guild| cached_guild(g)),
        c1,
        c2,
        |c: CachedGuild| guild_sort_key(c),
    );
}

/// The sound cache is determined by the reported sound list alone: two
/// caches built from the same list are equal.
pub proof fn lemma_sound_cache_determined(
    sounds: Seq<Sound>,
    c1: Seq<CachedSoundboardSound>,
    c2: Seq<CachedSoundboardSound>,
)
    requires
        is_sound_cache_of(sounds, c1),
        is_sound_cache_of(sounds, c2),
    ensures
        c1 == c2,
{
    lemma_stable_sort_unique(
        sounds.map_values(|s: Sound| cached_sound(s)),
        c1,
        c2,
        |c: CachedSoundboardSound| sound_sort_key(c),
    );
}

/// A guild cache holds exactly the reported guilds, each once and with all
/// its fields, ordered by the whole lowercase name in code-point order; guilds
/// whose lowercase names are equal keep the order in which they were reported.
pub proof fn lemma_guild_cache_contents(guilds: Seq<Guild>, cache: Seq<CachedGuild>)
    requires
        is_guild_cache_of(guilds, cache),
    ensures
        cache.len() == guilds.len(),
        forall|i: int, j: int|
            0 <= i < j < cache.len() ==> lex_le(lowercase(cache[i].name@), lowercase(cache[j].name@)),
        exists|p: Seq<int>|
            {
                &&& is_permutation(p, guilds.len())
                &&& forall|i: int|
                    0 <= i < cache.len() ==> cache[i].id == guilds[#[trigger] p[i]].id && cache[i].name
                        == guilds[p[i]].name && cache[i].voice == guilds[p[i]].voice && cache[i].text
                        == guilds[p[i]].text
                &&& forall|i: int, j: int|
                    0 <= i < j < cache.len() && lowercase(cache[i].name@) == lowercase(
                        cache[j].name@,
                    ) ==> #[trigger] p[i] < #[trigger] p[j]
            },
{
    let mapped = guilds.map_values(|g: Guild| cached_guild(g));
    let key = |c: CachedGuild| guild_sort_key(c);
    let p = choose|p: Seq<int>| stable_sort_witness(mapped, cache, key, p);
    assert forall|i: int| 0 <= i < cache.len() implies cache[i].id == guilds[#[trigger] p[i]].id
        && cache[i].name == guilds[p[i]].name && cache[i].voice == guilds[p[i]].voice
        && cache[i].text == guilds[p[i]].text by {
        assert(cache[i] == mapped[p[i]]);
    }
    assert forall|i: int, j: int| 0 <= i < j < cache.len() implies lex_le(
        lowercase(cache[i].name@),
        lowercase(cache[j].name@),
    ) by {
        assert(lex_le(key(cache[i]), key(cache[j])));
    }
    assert forall|i: int, j: int|
        0 <= i < j < cache.len() && lowercase(cache[i].name@) == lowercase(
            cache[j].name@,
        ) implies #[trigger] p[i] < #[trigger] p[j] by {
        assert(key(cache[i]) == key(cache[j]));
    }
}

/// A sound cache holds exactly the reported sounds, each once and with all
/// its fields, ordered by the whole lowercase name in code-point order; sounds
/// whose lowercase names are equal keep the order in which they were reported.
pub proof fn lemma_sound_cache_contents(sounds: Seq<Sound>, cache: Seq<CachedSoundboardSound>)
    requires
        is_sound_cache_of(sounds, cache),
    ensures
        cache.len() == sounds.len(),
        forall|i: int, j: int|
            0 <= i < j < cache.len() ==> lex_le(lowercase(cache[i].name@), lowercase(cache[j].name@)),
        exists|p: Seq<int>|
            {
                &&& is_permutation(p, sounds.len())
                &&& forall|i: int|
                    0 <= i < cache.len() ==> cache[i].name == sounds[#[trigger] p[i]].name
                        && cache[i].guild_id == sounds[p[i]].guild_id && cache[i].sound_id
                        == sounds[p[i]].sound_id && cache[i].emoji_name == sounds[p[i]].emoji_name
                &&& forall|i: int, j: int|
                    0 <= i < j < cache.len() && lowercase(cache[i].name@) == lowercase(
                        cache[j].name@,
                    ) ==> #[trigger] p[i] < #[trigger] p[j]
            },
{
    let mapped = sounds.map_values(|s: Sound| cached_sound(s));
    let key = |c: CachedSoundboardSound| sound_sort_key(c);
    let p = choose|p: Seq<int>| stable_sort_witness(mapped, cache, key, p);
    assert forall|i: int| 0 <= i < cache.len() implies cache[i].name == sounds[#[trigger] p[i]].name
        && cache[i].guild_id == sounds[p[i]].guild_id && cache[i].sound_id == sounds[p[i]].sound_id
        && cache[i].emoji_name == sounds[p[i]].emoji_name by {
        assert(cache[i] == mapped[p[i]]);
    }
    assert forall|i: int, j: int| 0 <= i < j < cache.len() implies lex_le(
        lowercase(cache[i].name@),
        lowercase(cache[j].name@),
    ) by {
        assert(lex_le(key(cache[i]), key(cache[j])));
    }
    assert forall|i: int, j: int|
        0 <= i < j < cache.len() && lowercase(cache[i].name@) == lowercase(
            cache[j].name@,
        ) implies #[trigger] p[i] < #[trigger] p[j] by {
        assert(key(cache[i]) == key(cache[j]));
    }
}

/// Replaces the guild cache by the reported guilds, sorted stably by lowercase name.
pub fn update_guild_cache(cache: &mut Vec<CachedGuild>, guilds: Vec<Guild>)
    ensures
        is_guild_cache_of(guilds@, final(cache)@),
        final(cache)@.len() == guilds@.len(),
        forall|i: int, j: int|
            0 <= i < j < final(cache)@.len() ==> lex_le(
                lowercase(final(cache)@[i].name@),
                lowercase(final(cache)@[j].name@),
            ),
{
    let ghost input = guilds@;
    let ghost mapped = input.map_values(|g: Guild| cached_guild(g));
    let mut guilds = guilds;
    assert(guilds@.len() == guilds.len());
    let mut entries: Vec<CachedGuild> = Vec::new();
    let mut keys: Vec<Vec<char>> = Vec::new();
    let mut i: usize = 0;
    while guilds.len() > 0
        invariant
            i + guilds@.len() == input.len(),
            mapped.len() == input.len(),
            forall|k: int| 0 <= k < input.len() ==> #[trigger] mapped[k] == cached_guild(input[k]),
            input.len() <= usize::MAX,
            guilds@ == input.skip(i as int),
            entries@ == mapped.take(i as int),
            keys@.len() == entries@.len(),
            forall|k: int| 0 <= k < keys@.len() ==> #[trigger] keys@[k]@ == guild_sort_key(entries@[k]),
        decreases guilds@.len(),
    {
        assert(guilds@[0] == input[i as int]);
        assert(mapped[i as int] == cached_guild(input[i as int]));
        let g = guilds.remove(0);
        let key = lowercase_key(&g.name);
        let entry = CachedGuild { id: g.id, name: g.name, voice: g.voice, text: g.text };
        entries.push(entry);
        keys.push(key);
        assert(guilds@ =~= input.skip(i + 1));
        i = i + 1;
        assert(entries@ =~= mapped.take(i as int));
    }
    assert(entries@ =~= mapped);
    let ghost entries_view = entries@;
    let ghost keys_view = key_views(keys@);
    let sorted = stable_sort_by_key(entries, keys);
    proof {
        lemma_sort_by_keys_is_sort_by_key(
            entries_view,
            keys_view,
            sorted@,
            |c: CachedGuild| guild_sort_key(c),
        );
    }
    *cache = sorted;
    proof {
        lemma_guild_cache_contents(input, cache@);
    }
}

/// Replaces the soundboard cache by the reported sounds, sorted stably by lowercase name.
pub fn update_soundboard_cache(cache: &mut Vec<CachedSoundboardSound>, sounds: Vec<Sound>)
    ensures
        is_sound_cache_of(sounds@, final(cache)@),
        final(cache)@.len() == sounds@.len(),
        forall|i: int, j: int|
            0 <= i < j < final(cache)@.len() ==> lex_le(
                lowercase(final(cache)@[i].name@),
                lowercase(final(cache)@[j].name@),
            ),
{
    let ghost input = sounds@;
    let ghost mapped = input.map_values(|s: Sound| cached_sound(s));
    let mut sounds = sounds;
    assert(sounds@.len() == sounds.len());
    let mut entries: Vec<CachedSoundboardSound> = Vec::new();
    let mut keys: Vec<Vec<char>> = Vec::new();
    let mut i: usize = 0;
    while sounds.len() > 0
        invariant
            i + sounds@.len() == input.len(),
            mapped.len() == input.len(),
            forall|k: int| 0 <= k < input.len() ==> #[trigger] mapped[k] == cached_sound(input[k]),
            input.len() <= usize::MAX,
            sounds@ == input.skip(i as int),
            entries@ == mapped.take(i as int),
            keys@.len() == entries@.len(),
            forall|k: int| 0 <= k < keys@.len() ==> #[trigger] keys@[k]@ == sound_sort_key(entries@[k]),
        decreases sounds@.len(),
    {
        assert(sounds@[0] == input[i as int]);
        assert(mapped[i as int] == cached_sound(input[i as int]));
        let s = sounds.remove(0);
        let key = lowercase_key(&s.name);
        let entry = CachedSoundboardSound {
            name: s.name,
            guild_id: s.guild_id,
            sound_id: s.sound_id,
            emoji_name: s.emoji_name,
        };
        entries.push(entry);
        keys.push(key);
        assert(sounds@ =~= input.skip(i + 1));
        i = i + 1;
        assert(entries@ =~= mapped.take(i as int));
    }
    assert(entries@ =~= mapped);
    let ghost entries_view = entries@;
    let ghost keys_view = key_views(keys@);
    let sorted = stable_sort_by_key(entries, keys);
    proof {
        lemma_sort_by_keys_is_sort_by_key(
            entries_view,
            keys_view,
            sorted@,
            |c: CachedSoundboardSound| sound_sort_key(c),
        );
    }
    *cache = sorted;
    proof {
        lemma_sound_cache_contents(input, cache@);
    }
}

/// Asks the client to (re)send the guild list, whose reply repopulates the
/// cache; the key alerts when the request cannot be delivered.
pub fn refresh_guild_cache() -> (res: KeyOutcome)
    ensures
        res == (KeyOutcome::Send { command: ServerCommand::RequestGuilds, state: None }),
{
    KeyOutcome::Send { command: ServerCommand::RequestGuilds, state: None }
}

/// Asks the client to (re)send the soundboard list, whose reply repopulates
/// the cache; the key alerts when the request cannot be delivered.
pub fn refresh_soundboard_cache() -> (res: KeyOutcome)
    ensures
        res == (KeyOutcome::Send { command: ServerCommand::RequestSoundboard, state: None }),
{
    KeyOutcome::Send { command: ServerCommand::RequestSoundboard, state: None }
}

/// Queues a notification from `channel_id` behind the ones already waiting.
pub fn add_notification_to_cache(cache: &mut VecDeque<CachedNotification>, channel_id: String)
    ensures
        final(cache)@ == old(cache)@.push(CachedNotification { channel_id }),
{
    cache.push_back(CachedNotification { channel_id });
}

} // verus!
