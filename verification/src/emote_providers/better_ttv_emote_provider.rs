//! BetterTTV: its addresses and the catalog in its answers.

use vstd::prelude::*;
use vstd::string::StringExecFns;
use crate::state::emotes_map::EmotesMap;

verus! {

/// An emote as BetterTTV lists it.
#[derive(Debug, Clone)]
pub struct BetterTtvEmote {
    pub id: String,
    pub code: String,
    pub image_type: String,
    pub animated: bool,
}

/// What BetterTTV answers when asked for a channel.
#[derive(Debug, Clone)]
pub struct BetterTtvUserResponse {
    pub id: String,
    pub bots: Vec<String>,
    pub avatar: String,
    pub channel_emotes: Vec<BetterTtvEmote>,
    pub shared_emotes: Vec<BetterTtvEmote>,
}

/// The address of the image of the emote `id`, at its smallest size.
pub open spec fn betterttv_emote_url(id: Seq<char>) -> Seq<char> {
    "https://cdn.betterttv.net/emote/"@ + id + "/1x.webp"@
}

/// The catalog of a list of emotes: each code with the address of its image,
/// a later emote replacing an earlier one of the same code.
pub open spec fn betterttv_emotes(emotes: Seq<BetterTtvEmote>) -> Map<Seq<char>, Seq<char>>
    decreases emotes.len(),
{
    if emotes.len() == 0 {
        Map::empty()
    } else {
        betterttv_emotes(emotes.drop_last()).insert(
            emotes.last().code@,
            betterttv_emote_url(emotes.last().id@),
        )
    }
}

/// The address at which BetterTTV lists the emotes of the channel
/// `channel_id`.
pub open spec fn betterttv_channel_url(channel_id: Seq<char>) -> Seq<char> {
    "https://api.betterttv.net/3/cached/users/twitch/"@ + channel_id
}

/// The catalog of a list of emotes.
pub fn map_betterttv_emotes(emotes: Vec<BetterTtvEmote>) -> (catalog: EmotesMap)
    ensures
        catalog@ == betterttv_emotes(emotes@),
{
    let ghost all = emotes@;
    let mut catalog = EmotesMap::new();
    assert(all.take(0) =~= Seq::<BetterTtvEmote>::empty());
    for emote in it: emotes
        invariant
            it.seq() == all,
            catalog@ == betterttv_emotes(all.take(it.index())),
    {
        let mut url = String::from_str("https://cdn.betterttv.net/emote/");
        url.append(emote.id.as_str());
        url.append("/1x.webp");
        proof {
            let next = all.take(it.index() + 1);
            assert(next.drop_last() =~= all.take(it.index()));
            assert(next.last() == emote);
            assert(url@ =~= betterttv_emote_url(emote.id@));
        }
        catalog.insert(emote.code, url);
    }
    assert(all.take(all.len() as int) =~= all);
    catalog
}

/// The provider BetterTTV.
pub struct BetterTtvEmoteProvider {}

impl BetterTtvEmoteProvider {
    pub fn new() -> Self {
        Self {  }
    }

    /// The name of the provider, for messages to the operator.
    pub fn get_name(&self) -> (name: &'static str)
        ensures
            name@ == "BetterTTV"@,
    {
        "BetterTTV"
    }

    /// The address of the global emotes.
    pub fn global_emotes_url(&self) -> (url: String)
        ensures
            url@ == "https://api.betterttv.net/3/cached/emotes/global"@,
    {
        String::from_str("https://api.betterttv.net/3/cached/emotes/global")
    }

    /// The address of the emotes of the channel `channel_id`.
    pub fn channel_emotes_url(&self, channel_id: &str) -> (url: String)
        ensures
            url@ == betterttv_channel_url(channel_id@),
    {
        let mut url = String::from_str("https://api.betterttv.net/3/cached/users/twitch/");
        url.append(channel_id);
        url
    }

    /// The catalog in the answer for the global emotes.
    pub fn global_emotes_from(&self, emotes: Vec<BetterTtvEmote>) -> (catalog: EmotesMap)
        ensures
            catalog@ == betterttv_emotes(emotes@),
    {
        map_betterttv_emotes(emotes)
    }

    /// The catalog in the answer for a channel: the emotes that are shared
    /// with it, and over them the channel's own.
    pub fn channel_emotes_from(
        &self,
        user_response: BetterTtvUserResponse,
    ) -> (catalog: EmotesMap)
        ensures
            catalog@ == betterttv_emotes(user_response.shared_emotes@).union_prefer_right(
                betterttv_emotes(user_response.channel_emotes@),
            ),
    {
        let mut emotes = map_betterttv_emotes(user_response.shared_emotes);
        emotes.extend(map_betterttv_emotes(user_response.channel_emotes));
        emotes
    }
}

impl Default for BetterTtvEmoteProvider {
    fn default() -> Self {
        Self::new()
    }
}

} // verus!
