//! 7TV: its addresses and the catalog in its answers.

use vstd::prelude::*;
use vstd::string::StringExecFns;
use crate::services::emotes_service::ProviderError;
use crate::state::emotes_map::EmotesMap;

verus! {

/// An emote as 7TV lists it. `urls` holds one list for each size, smallest
/// first; the second string of a list is the address of the image.
#[derive(Debug, Clone)]
pub struct SevenTvEmote {
    pub id: String,
    pub name: String,
    pub urls: Vec<Vec<String>>,
}

impl SevenTvEmote {
    /// Whether the emote has the address of its smallest image.
    pub open spec fn has_url(&self) -> bool {
        self.urls@.len() > 0 && self.urls@[0]@.len() > 1
    }

    /// The address of the smallest image.
    pub open spec fn url(&self) -> Seq<char>
        recommends
            self.has_url(),
    {
        self.urls@[0]@[1]@
    }
}

/// Whether each emote of the list has the address of its smallest image.
pub open spec fn seventv_all_have_url(emotes: Seq<SevenTvEmote>) -> bool {
    forall|i: int| 0 <= i < emotes.len() ==> (#[trigger] emotes[i]).has_url()
}

/// The catalog of a list of emotes: each name with the address of its
/// smallest image, a later emote replacing an earlier one of the same name.
pub open spec fn seventv_emotes(emotes: Seq<SevenTvEmote>) -> Map<Seq<char>, Seq<char>>
    decreases emotes.len(),
{
    if emotes.len() == 0 {
        Map::empty()
    } else {
        seventv_emotes(emotes.drop_last()).insert(emotes.last().name@, emotes.last().url())
    }
}

/// The address at which 7TV lists the emotes of the user `twitch_user_id`.
pub open spec fn seventv_channel_url(twitch_user_id: Seq<char>) -> Seq<char> {
    "https://api.7tv.app/v2/users/"@ + twitch_user_id + "/emotes"@
}

/// Whether each emote of the list has the address of its smallest image, as
/// [`map_seventv_emotes`] asks.
pub fn seventv_emotes_have_urls(emotes: &Vec<SevenTvEmote>) -> (all: bool)
    ensures
        all == seventv_all_have_url(emotes@),
{
    let n = emotes.len();
    let mut i: usize = 0;
    while i < n
        invariant
            i <= n,
            n == emotes@.len(),
            forall|j: int| 0 <= j < i ==> (#[trigger] emotes@[j]).has_url(),
        decreases n - i,
    {
        if emotes[i].urls.len() == 0 || emotes[i].urls[0].len() < 2 {
            assert(!emotes@[i as int].has_url());
            return false;
        }
        i += 1;
    }
    true
}

/// The catalog of a list of emotes. Each emote must have the address of its
/// smallest image.
pub fn map_seventv_emotes(emotes: Vec<SevenTvEmote>) -> (catalog: EmotesMap)
    requires
        seventv_all_have_url(emotes@),
    ensures
        catalog@ == seventv_emotes(emotes@),
{
    let ghost all = emotes@;
    let mut catalog = EmotesMap::new();
    assert(all.take(0) =~= Seq::<SevenTvEmote>::empty());
    for emote in it: emotes
        invariant
            it.seq() == all,
            seventv_all_have_url(all),
            catalog@ == seventv_emotes(all.take(it.index())),
    {
        proof {
            let next = all.take(it.index() + 1);
            assert(next.drop_last() =~= all.take(it.index()));
            assert(next.last() == emote);
            assert(all[it.index()].has_url());
        }
        let url = emote.urls[0][1].clone();
        catalog.insert(emote.name, url);
    }
    assert(all.take(all.len() as int) =~= all);
    catalog
}

/// The catalog of a list of emotes, or `MalformedResponse` where an emote of
/// the list lacks the address of its smallest image.
pub fn try_map_seventv_emotes(emotes: Vec<SevenTvEmote>) -> (catalog: Result<
    EmotesMap,
    ProviderError,
>)
    ensures
        seventv_all_have_url(emotes@) ==> catalog is Ok && catalog->Ok_0@ == seventv_emotes(
            emotes@,
        ),
        !seventv_all_have_url(emotes@) ==> catalog == Err::<EmotesMap, ProviderError>(
            ProviderError::MalformedResponse,
        ),
{
    if seventv_emotes_have_urls(&emotes) {
        Ok(map_seventv_emotes(emotes))
    } else {
        Err(ProviderError::MalformedResponse)
    }
}

/// The provider 7TV.
pub struct SevenTvEmoteProvider {}

impl SevenTvEmoteProvider {
    pub fn new() -> Self {
        Self {  }
    }

    /// The name of the provider, for messages to the operator.
    pub fn get_name(&self) -> (name: &'static str)
        ensures
            name@ == "7tv"@,
    {
        "7tv"
    }

    /// The address of the global emotes.
    pub fn global_emotes_url(&self) -> (url: String)
        ensures
            url@ == "https://api.7tv.app/v2/emotes/global"@,
    {
        String::from_str("https://api.7tv.app/v2/emotes/global")
    }

    /// The address of the emotes of the user `twitch_user_id`.
    pub fn channel_emotes_url(&self, twitch_user_id: &str) -> (url: String)
        ensures
            url@ == seventv_channel_url(twitch_user_id@),
    {
        let mut url = String::from_str("https://api.7tv.app/v2/users/");
        url.append(twitch_user_id);
        url.append("/emotes");
        proof {
            assert(url@ =~= seventv_channel_url(twitch_user_id@));
        }
        url
    }
}

impl Default for SevenTvEmoteProvider {
    fn default() -> Self {
        Self::new()
    }
}

} // verus!
