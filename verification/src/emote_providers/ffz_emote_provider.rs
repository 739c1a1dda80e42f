//! FrankerFaceZ: its addresses and the catalog in its answers.

use vstd::prelude::*;
use vstd::string::StringExecFns;
use crate::state::emotes_map::EmotesMap;

verus! {

/// An emote as FrankerFaceZ lists it. `urls` gives the address of its image
/// for each size, the sizes written as `"1"`, `"2"`, `"4"`.
#[derive(Debug)]
pub struct FfzEmote {
    pub id: i64,
    pub name: String,
    pub width: i32,
    pub height: i32,
    pub public: bool,
    pub hidden: bool,
    pub modifier: bool,
    pub urls: EmotesMap,
}

/// A set of emotes.
#[derive(Debug)]
pub struct FfzEmoteSet {
    pub id: i64,
    pub _type: i32,
    pub title: String,
    pub emoticons: Vec<FfzEmote>,
}

/// What FrankerFaceZ answers when asked for the global emotes: the sets it
/// has, in the order in which they were read, and the identifiers of those
/// that everyone sees.
#[derive(Debug)]
pub struct FfzEmotesSetResponse {
    pub default_sets: Vec<i64>,
    pub sets: Vec<FfzEmoteSet>,
}

/// What FrankerFaceZ answers when asked for a channel: the sets of the
/// channel, in the order in which they were read.
#[derive(Debug)]
pub struct FfzRoomResponse {
    pub sets: Vec<FfzEmoteSet>,
}

impl FfzEmote {
    /// Whether the emote goes into a catalog: it is not hidden and has an
    /// image of size 1.
    pub open spec fn is_listed(&self) -> bool {
        !self.hidden && self.urls@.contains_key("1"@)
    }
}

/// `catalog` with the listed emotes of `emoticons` added in their order:
/// each name with the address of its image of size 1.
pub open spec fn ffz_add_emotes(
    catalog: Map<Seq<char>, Seq<char>>,
    emoticons: Seq<FfzEmote>,
) -> Map<Seq<char>, Seq<char>>
    decreases emoticons.len(),
{
    if emoticons.len() == 0 {
        catalog
    } else {
        let before = ffz_add_emotes(catalog, emoticons.drop_last());
        let emote = emoticons.last();
        if emote.is_listed() {
            before.insert(emote.name@, emote.urls@["1"@])
        } else {
            before
        }
    }
}

/// The position of the first set at or after `from` whose identifier is
/// `id`.
pub open spec fn ffz_set_position(sets: Seq<FfzEmoteSet>, id: i64, from: int) -> Option<int>
    decreases sets.len() - from,
{
    if from < 0 || from >= sets.len() {
        None
    } else if sets[from].id == id {
        Some(from)
    } else {
        ffz_set_position(sets, id, from + 1)
    }
}

/// The global catalog: for each identifier of `default_sets` in turn, the
/// listed emotes of the first set that has it. An identifier that no set has
/// adds nothing.
pub open spec fn ffz_global_emotes(
    default_sets: Seq<i64>,
    sets: Seq<FfzEmoteSet>,
) -> Map<Seq<char>, Seq<char>>
    decreases default_sets.len(),
{
    if default_sets.len() == 0 {
        Map::empty()
    } else {
        let before = ffz_global_emotes(default_sets.drop_last(), sets);
        match ffz_set_position(sets, default_sets.last(), 0) {
            Some(i) => ffz_add_emotes(before, sets[i].emoticons@),
            None => before,
        }
    }
}

/// The catalog of a channel: the listed emotes of each of its sets in turn.
pub open spec fn ffz_room_emotes(sets: Seq<FfzEmoteSet>) -> Map<Seq<char>, Seq<char>>
    decreases sets.len(),
{
    if sets.len() == 0 {
        Map::empty()
    } else {
        ffz_add_emotes(ffz_room_emotes(sets.drop_last()), sets.last().emoticons@)
    }
}

/// The address at which FrankerFaceZ lists the emotes of the channel
/// `channel_id`.
pub open spec fn ffz_channel_url(channel_id: Seq<char>) -> Seq<char> {
    "https://api.frankerfacez.com/v1/room/id/"@ + channel_id
}

/// The emotes that are not hidden, in their order.
pub fn filter_hidden_emotes(emotes: Vec<FfzEmote>) -> (visible: Vec<FfzEmote>)
    ensures
        visible@ == emotes@.filter(|emote: FfzEmote| !emote.hidden),
{
    let ghost all = emotes@;
    let mut visible: Vec<FfzEmote> = Vec::new();
    proof {
        reveal(Seq::filter);
        assert(all.take(0) =~= Seq::<FfzEmote>::empty());
    }
    for emote in it: emotes
        invariant
            it.seq() == all,
            visible@ == all.take(it.index()).filter(|emote: FfzEmote| !emote.hidden),
    {
        proof {
            reveal(Seq::filter);
            let next = all.take(it.index() + 1);
            assert(next.drop_last() =~= all.take(it.index()));
            assert(next.last() == emote);
        }
        if !emote.hidden {
            visible.push(emote);
        }
    }
    assert(all.take(all.len() as int) =~= all);
    visible
}

/// Hidden emotes add nothing: a catalog takes from a list of emotes what it
/// takes from those of them that are not hidden.
pub proof fn lemma_hidden_emotes_add_nothing(
    catalog: Map<Seq<char>, Seq<char>>,
    emoticons: Seq<FfzEmote>,
)
    ensures
        ffz_add_emotes(catalog, emoticons) == ffz_add_emotes(
            catalog,
            emoticons.filter(|emote: FfzEmote| !emote.hidden),
        ),
    decreases emoticons.len(),
{
    reveal(Seq::filter);
    if emoticons.len() > 0 {
        lemma_hidden_emotes_add_nothing(catalog, emoticons.drop_last());
        let front = emoticons.drop_last().filter(|emote: FfzEmote| !emote.hidden);
        if !emoticons.last().hidden {
            assert(front.push(emoticons.last()).drop_last() =~= front);
        }
    }
}

/// Adds the listed emotes of `emoticons` to `catalog`, in their order.
fn add_listed_emotes(catalog: &mut EmotesMap, emoticons: &Vec<FfzEmote>)
    ensures
        final(catalog)@ == ffz_add_emotes(old(catalog)@, emoticons@),
{
    let n = emoticons.len();
    let mut i: usize = 0;
    assert(emoticons@.take(0) =~= Seq::<FfzEmote>::empty());
    while i < n
        invariant
            i <= n,
            n == emoticons@.len(),
            catalog@ == ffz_add_emotes(old(catalog)@, emoticons@.take(i as int)),
        decreases n - i,
    {
        proof {
            assert(emoticons@.take(i + 1).drop_last() =~= emoticons@.take(i as int));
        }
        if !emoticons[i].hidden {
            match emoticons[i].urls.get("1") {
                Some(url) => {
                    catalog.insert(emoticons[i].name.clone(), url.clone());
                },
                None => {},
            }
        }
        i += 1;
    }
    assert(emoticons@.take(n as int) =~= emoticons@);
}

/// The position of the first set whose identifier is `id`.
fn find_set(sets: &Vec<FfzEmoteSet>, id: i64) -> (found: Option<usize>)
    ensures
        match found {
            Some(i) => ffz_set_position(sets@, id, 0) == Some(i as int) && i < sets@.len(),
            None => ffz_set_position(sets@, id, 0) is None,
        },
{
    let n = sets.len();
    let mut i: usize = 0;
    while i < n
        invariant
            i <= n,
            n == sets@.len(),
            ffz_set_position(sets@, id, 0) == ffz_set_position(sets@, id, i as int),
        decreases n - i,
    {
        if sets[i].id == id {
            return Some(i);
        }
        i += 1;
    }
    None
}

/// The provider FrankerFaceZ.
pub struct FfzEmoteProvider {}

impl FfzEmoteProvider {
    pub fn new() -> Self {
        Self {  }
    }

    /// The name of the provider, for messages to the operator.
    pub fn get_name(&self) -> (name: &'static str)
        ensures
            name@ == "FFZ"@,
    {
        "FFZ"
    }

    /// The address of the global emotes.
    pub fn global_emotes_url(&self) -> (url: String)
        ensures
            url@ == "https://api.frankerfacez.com/v1/set/global"@,
    {
        String::from_str("https://api.frankerfacez.com/v1/set/global")
    }

    /// The address of the emotes of the channel `channel_id`.
    pub fn channel_emotes_url(&self, channel_id: &str) -> (url: String)
        ensures
            url@ == ffz_channel_url(channel_id@),
    {
        let mut url = String::from_str("https://api.frankerfacez.com/v1/room/id/");
        url.append(channel_id);
        url
    }

    /// The catalog in the answer for the global emotes.
    pub fn global_emotes_from(
        &self,
        global_sets_response: &FfzEmotesSetResponse,
    ) -> (catalog: EmotesMap)
        ensures
            catalog@ == ffz_global_emotes(
                global_sets_response.default_sets@,
                global_sets_response.sets@,
            ),
    {
        let default_sets = &global_sets_response.default_sets;
        let sets = &global_sets_response.sets;
        let mut catalog = EmotesMap::new();
        let n = default_sets.len();
        let mut i: usize = 0;
        assert(default_sets@.take(0) =~= Seq::<i64>::empty());
        while i < n
            invariant
                i <= n,
                n == default_sets@.len(),
                catalog@ == ffz_global_emotes(default_sets@.take(i as int), sets@),
            decreases n - i,
        {
            proof {
                assert(default_sets@.take(i + 1).drop_last() =~= default_sets@.take(i as int));
            }
            match find_set(sets, default_sets[i]) {
                Some(k) => {
                    add_listed_emotes(&mut catalog, &sets[k].emoticons);
                },
                None => {},
            }
            i += 1;
        }
        assert(default_sets@.take(n as int) =~= default_sets@);
        catalog
    }

    /// The catalog in the answer for a channel.
    pub fn channel_emotes_from(&self, room_response: &FfzRoomResponse) -> (catalog: EmotesMap)
        ensures
            catalog@ == ffz_room_emotes(room_response.sets@),
    {
        let sets = &room_response.sets;
        let mut catalog = EmotesMap::new();
        let n = sets.len();
        let mut i: usize = 0;
        assert(sets@.take(0) =~= Seq::<FfzEmoteSet>::empty());
        while i < n
            invariant
                i <= n,
                n == sets@.len(),
                catalog@ == ffz_room_emotes(sets@.take(i as int)),
            decreases n - i,
        {
            proof {
                assert(sets@.take(i + 1).drop_last() =~= sets@.take(i as int));
            }
            add_listed_emotes(&mut catalog, &sets[i].emoticons);
            i += 1;
        }
        assert(sets@.take(n as int) =~= sets@);
        catalog
    }
}

impl Default for FfzEmoteProvider {
    fn default() -> Self {
        Self::new()
    }
}

} // verus!
