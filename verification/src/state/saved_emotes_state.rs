//! The emote catalogs of a session: one that holds everywhere and one of the
//! channel the session is in.

use vstd::prelude::*;
use crate::state::emotes_map::EmotesMap;

verus! {

/// What the two catalogs hold.
pub ghost struct Catalogs {
    pub global: Map<Seq<char>, Seq<char>>,
    pub channel: Map<Seq<char>, Seq<char>>,
}

impl Catalogs {
    /// The image of `name`: that of the channel's catalog where it has the
    /// name, else that of the global catalog, if any.
    pub open spec fn lookup(self, name: Seq<char>) -> Option<Seq<char>> {
        if self.channel.contains_key(name) {
            Some(self.channel[name])
        } else if self.global.contains_key(name) {
            Some(self.global[name])
        } else {
            None
        }
    }

    /// The same global catalog beside an empty channel catalog.
    pub open spec fn reset_channel(self) -> Catalogs {
        Catalogs { global: self.global, channel: Map::empty() }
    }

    /// The same global catalog beside `channel`.
    pub open spec fn with_channel(self, channel: Map<Seq<char>, Seq<char>>) -> Catalogs {
        Catalogs { global: self.global, channel }
    }

    /// The same channel catalog beside `global`.
    pub open spec fn with_global(self, global: Map<Seq<char>, Seq<char>>) -> Catalogs {
        Catalogs { global, channel: self.channel }
    }

    /// The channel catalog with the emotes of one message laid over it.
    pub open spec fn with_message_emotes(self, emotes: Map<Seq<char>, Seq<char>>) -> Catalogs {
        Catalogs { global: self.global, channel: self.channel.union_prefer_right(emotes) }
    }
}

/// The global and the channel catalog, each replaced as a whole.
#[derive(Debug)]
pub struct SavedEmotes {
    pub global_emotes: EmotesMap,
    pub channel_emotes: EmotesMap,
}

impl View for SavedEmotes {
    type V = Catalogs;

    open spec fn view(&self) -> Catalogs {
        Catalogs { global: self.global_emotes@, channel: self.channel_emotes@ }
    }
}

impl SavedEmotes {
    pub fn new(global_emotes: EmotesMap, channel_emotes: EmotesMap) -> (saved: Self)
        ensures
            saved.global_emotes == global_emotes,
            saved.channel_emotes == channel_emotes,
    {
        Self { global_emotes, channel_emotes }
    }

    /// A copy of both catalogs as they are now, for a reader that must not
    /// keep the catalogs themselves from being replaced.
    pub fn snapshot(&self) -> (copy: Self)
        ensures
            copy@ == self@,
    {
        Self {
            global_emotes: self.global_emotes.clone(),
            channel_emotes: self.channel_emotes.clone(),
        }
    }

    /// The image URL of `name`. The channel's catalog is asked first, so where
    /// both catalogs have the name the channel's image is returned.
    pub fn find_emote(&self, name: &str) -> (url: Option<&String>)
        ensures
            match url {
                Some(u) => self@.lookup(name@) == Some(u@),
                None => self@.lookup(name@) is None,
            },
    {
        match self.channel_emotes.get(name) {
            Some(u) => Some(u),
            None => self.global_emotes.get(name),
        }
    }
}

impl Default for SavedEmotes {
    /// Two empty catalogs.
    fn default() -> (saved: Self)
        ensures
            saved@.global == Map::<Seq<char>, Seq<char>>::empty(),
            saved@.channel == Map::<Seq<char>, Seq<char>>::empty(),
    {
        Self::new(EmotesMap::new(), EmotesMap::new())
    }
}

impl Clone for SavedEmotes {
    fn clone(&self) -> (copy: Self)
        ensures
            copy@ == self@,
    {
        self.snapshot()
    }
}

/// Empties the channel catalog. The global catalog stays.
pub fn reset_channel_emotes_state(saved: &mut SavedEmotes)
    ensures
        final(saved)@ == old(saved)@.reset_channel(),
{
    saved.channel_emotes = EmotesMap::new();
}

/// Puts `channel_emotes` in place of the channel catalog. The global catalog
/// stays.
pub fn update_channel_emotes_state(saved: &mut SavedEmotes, channel_emotes: EmotesMap)
    ensures
        final(saved)@ == old(saved)@.with_channel(channel_emotes@),
        final(saved).channel_emotes == channel_emotes,
{
    saved.channel_emotes = channel_emotes;
}

/// Puts `global_emotes` in place of the global catalog. The channel catalog
/// stays.
pub fn update_global_emotes_state(saved: &mut SavedEmotes, global_emotes: EmotesMap)
    ensures
        final(saved)@ == old(saved)@.with_global(global_emotes@),
        final(saved).global_emotes == global_emotes,
{
    saved.global_emotes = global_emotes;
}

/// Where both catalogs have a name, a lookup gives the channel's image.
pub proof fn lemma_channel_takes_precedence(catalogs: Catalogs, name: Seq<char>)
    requires
        catalogs.channel.contains_key(name),
    ensures
        catalogs.lookup(name) == Some(catalogs.channel[name]),
{
}

/// A name that only the global catalog has is found there.
pub proof fn lemma_global_is_the_fallback(catalogs: Catalogs, name: Seq<char>)
    requires
        !catalogs.channel.contains_key(name),
        catalogs.global.contains_key(name),
    ensures
        catalogs.lookup(name) == Some(catalogs.global[name]),
{
}

/// After a reset the channel catalog is empty, whatever it held and whatever
/// was put there before: a snapshot taken then finds names in the global
/// catalog only.
pub proof fn lemma_reset_leaves_no_channel_emotes(catalogs: Catalogs, name: Seq<char>)
    ensures
        catalogs.reset_channel().channel == Map::<Seq<char>, Seq<char>>::empty(),
        catalogs.reset_channel().global == catalogs.global,
        catalogs.reset_channel().lookup(name) == if catalogs.global.contains_key(name) {
            Some(catalogs.global[name])
        } else {
            None
        },
        forall|stale: Map<Seq<char>, Seq<char>>| #[trigger]
            catalogs.with_channel(stale).reset_channel() == catalogs.reset_channel(),
{
}

} // verus!
