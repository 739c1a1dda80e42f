//! Turning a chat line into HTML in which emotes are images.

use vstd::prelude::*;
use vstd::string::StringExecFns;
use crate::emote_providers::EmoteProvider;
use crate::services::message_words::{
    is_word, joined, lemma_word_is_its_only_word, lemma_words_of_joined, split_words, views_of,
    words_of,
};
use crate::state::emotes_map::EmotesMap;
use crate::state::saved_emotes_state::{Catalogs, SavedEmotes};

verus! {

/// The two classes of a word: the name of an emote, or text.
#[derive(Clone, Copy, Debug, PartialEq, Eq, Structural)]
pub enum MessageTag {
    Emote,
    PlainText,
}

/// The class of a word, from what the lookup of it gave.
pub open spec fn tag_of(url: Option<Seq<char>>) -> MessageTag {
    if url is Some {
        MessageTag::Emote
    } else {
        MessageTag::PlainText
    }
}

/// The class of the last of `words`, if there is a word.
pub open spec fn last_tag(catalogs: Catalogs, words: Seq<Seq<char>>) -> Option<MessageTag> {
    if words.len() == 0 {
        None
    } else {
        Some(tag_of(catalogs.lookup(words.last())))
    }
}

/// The image of an emote in its inline wrapper.
pub open spec fn emote_html(url: Seq<char>, word: Seq<char>) -> Seq<char> {
    "<div class=\"d-inline\"><img src=\""@ + url + "\" alt=\""@ + word + "\" /></div>"@
}

/// What stands between an emote and the word before it: nothing at the
/// start, the end of the text run after text, and an empty text run after
/// another emote.
pub open spec fn before_emote(last: Option<MessageTag>) -> Seq<char> {
    match last {
        None => Seq::empty(),
        Some(MessageTag::PlainText) => " </span>"@,
        Some(MessageTag::Emote) => "<span> </span>"@,
    }
}

/// What stands between a word of text and the word before it: the start of
/// a text run where none is open, with a space after an emote, and a space
/// alone inside a run.
pub open spec fn before_text(last: Option<MessageTag>) -> Seq<char> {
    match last {
        None => "<span>"@,
        Some(MessageTag::Emote) => "<span> "@,
        Some(MessageTag::PlainText) => " "@,
    }
}

/// What one word adds to the HTML, after a word of class `last`.
pub open spec fn word_html(
    last: Option<MessageTag>,
    word: Seq<char>,
    url: Option<Seq<char>>,
) -> Seq<char> {
    match url {
        Some(u) => before_emote(last) + emote_html(u, word),
        None => before_text(last) + word,
    }
}

/// The HTML of `words`, up to but without the end of a text run that the last
/// word may leave open.
pub open spec fn words_html(catalogs: Catalogs, words: Seq<Seq<char>>) -> Seq<char>
    decreases words.len(),
{
    if words.len() == 0 {
        Seq::empty()
    } else {
        words_html(catalogs, words.drop_last()) + word_html(
            last_tag(catalogs, words.drop_last()),
            words.last(),
            catalogs.lookup(words.last()),
        )
    }
}

/// The end of the text run that `words` leave open, if they do.
pub open spec fn closing_html(catalogs: Catalogs, words: Seq<Seq<char>>) -> Seq<char> {
    if last_tag(catalogs, words) == Some(MessageTag::PlainText) {
        "</span>"@
    } else {
        Seq::empty()
    }
}

/// The HTML of a message: its words, each emote name replaced by its image,
/// the words of text between them gathered in runs.
pub open spec fn message_html(catalogs: Catalogs, message: Seq<char>) -> Seq<char> {
    let words = words_of(message);
    words_html(catalogs, words) + closing_html(catalogs, words)
}

/// Where the emote is sent from: the address of its image at Twitch.
pub open spec fn twitch_emote_url(id: Seq<char>) -> Seq<char> {
    "https://static-cdn.jtvnw.net/emoticons/v2/"@ + id + "/default/dark/1.0"@
}

/// The catalog that the emotes of one message make: each code with the
/// address of its image, a later emote replacing an earlier one of the same
/// code.
pub open spec fn message_emotes(emotes: Seq<TwitchEmote>) -> Map<Seq<char>, Seq<char>>
    decreases emotes.len(),
{
    if emotes.len() == 0 {
        Map::empty()
    } else {
        message_emotes(emotes.drop_last()).insert(
            emotes.last().code@,
            twitch_emote_url(emotes.last().id@),
        )
    }
}

/// An emote that a chat line brings with it: the identifier of its image and
/// the word that it stands for in the text.
#[derive(Debug, Clone)]
pub struct TwitchEmote {
    pub id: String,
    pub code: String,
}

/// Why a provider gave no catalog.
#[derive(Clone, Copy, Debug, PartialEq, Eq, Structural)]
pub enum ProviderError {
    /// The provider could not be reached, or did not answer to the end.
    Network,
    /// The answer was not of the form that the provider is known to send.
    MalformedResponse,
    /// The provider does not know the channel.
    NotFound,
}

/// The catalog that the answers of the providers make together: the catalogs
/// of those that answered, each laid over the ones before it. A provider that
/// failed adds nothing.
pub open spec fn merged_emotes(
    results: Seq<Result<EmotesMap, ProviderError>>,
) -> Map<Seq<char>, Seq<char>>
    decreases results.len(),
{
    if results.len() == 0 {
        Map::empty()
    } else {
        let before = merged_emotes(results.drop_last());
        match results.last() {
            Ok(emotes) => before.union_prefer_right(emotes@),
            Err(_) => before,
        }
    }
}

/// Whether `results` are answers of `providers` to one question, one of each
/// provider in their order: to the question for the emotes of the channel
/// `channel_id` or, without one, for the global emotes.
pub open spec fn answers_of(
    providers: Seq<Box<dyn EmoteProvider>>,
    channel_id: Option<Seq<char>>,
    results: Seq<Result<EmotesMap, ProviderError>>,
) -> bool {
    &&& results.len() == providers.len()
    &&& forall|j: int|
        0 <= j < results.len() ==> match channel_id {
            Some(id) => providers[j].gives_channel(id, #[trigger] results[j]),
            None => providers[j].gives_global(results[j]),
        }
}

/// Asks each provider in turn, for the emotes of `channel_id` or, without
/// one, for the global emotes, and merges the answers.
fn get_all_provider_emotes(
    providers: &[Box<dyn EmoteProvider>],
    channel_id: Option<&str>,
) -> (merged: EmotesMap)
    ensures
        exists|results: Seq<Result<EmotesMap, ProviderError>>|
            merged@ == #[trigger] merged_emotes(results) && answers_of(
                providers@,
                match channel_id {
                    Some(id) => Some(id@),
                    None => None,
                },
                results,
            ),
{
    let ghost asked: Option<Seq<char>> = match channel_id {
        Some(id) => Some(id@),
        None => None,
    };
    let mut results: Vec<Result<EmotesMap, ProviderError>> = Vec::new();
    let n = providers.len();
    let mut i: usize = 0;
    while i < n
        invariant
            i <= n,
            n == providers@.len(),
            asked == match channel_id {
                Some(id) => Some(id@),
                None => None,
            },
            answers_of(providers@.take(i as int), asked, results@),
        decreases n - i,
    {
        let provider_emotes = match channel_id {
            Some(id) => providers[i].get_channel_emotes(id),
            None => providers[i].get_global_emotes(),
        };
        proof {
            let next = results@.push(provider_emotes);
            assert forall|j: int| 0 <= j < next.len() implies match asked {
                Some(id) => providers@.take(i + 1)[j].gives_channel(id, #[trigger] next[j]),
                None => providers@.take(i + 1)[j].gives_global(next[j]),
            } by {
                if j < i {
                    assert(next[j] == results@[j]);
                    assert(providers@.take(i + 1)[j] == providers@.take(i as int)[j]);
                }
            }
        }
        results.push(provider_emotes);
        i += 1;
    }
    assert(providers@.take(n as int) =~= providers@);
    EmotesService::merge_provider_emotes(results)
}

pub struct EmotesService {}

impl EmotesService {
    /// The catalog of the emotes that a chat line brings with it.
    pub fn parse_twitch_message_emotes(emotes: &Vec<TwitchEmote>) -> (parsed: EmotesMap)
        ensures
            parsed@ == message_emotes(emotes@),
    {
        let mut parsed = EmotesMap::new();
        let n = emotes.len();
        let mut i: usize = 0;
        assert(emotes@.take(0) =~= Seq::<TwitchEmote>::empty());
        while i < n
            invariant
                i <= n,
                n == emotes@.len(),
                parsed@ == message_emotes(emotes@.take(i as int)),
            decreases n - i,
        {
            let mut emote_url = String::from_str("https://static-cdn.jtvnw.net/emoticons/v2/");
            emote_url.append(emotes[i].id.as_str());
            emote_url.append("/default/dark/1.0");
            proof {
                assert(emotes@.take(i + 1).drop_last() =~= emotes@.take(i as int));
                assert(emote_url@ =~= twitch_emote_url(emotes@[i as int].id@));
            }
            parsed.insert(emotes[i].code.clone(), emote_url);
            i += 1;
        }
        assert(emotes@.take(n as int) =~= emotes@);
        parsed
    }

    /// Asks each provider in turn for its global emotes and merges what
    /// came back, a later provider over an earlier one. A provider that
    /// fails is passed over. A caller that asks the providers at the same
    /// time hands their answers to [`Self::merge_provider_emotes`] instead.
    ///
    /// The result is the merge of one answer of each provider, in their
    /// order.
    pub fn get_global_emotes(providers: &[Box<dyn EmoteProvider>]) -> (merged: EmotesMap)
        ensures
            exists|results: Seq<Result<EmotesMap, ProviderError>>|
                merged@ == #[trigger] merged_emotes(results) && answers_of(
                    providers@,
                    None,
                    results,
                ),
    {
        get_all_provider_emotes(providers, None)
    }

    /// Asks each provider in turn for the emotes of the channel `channel_id`
    /// and merges what came back, as [`Self::get_global_emotes`] does.
    ///
    /// The result is the merge of one answer of each provider for this
    /// very channel, in their order.
    pub fn get_channel_emotes(
        providers: &[Box<dyn EmoteProvider>],
        channel_id: &str,
    ) -> (merged: EmotesMap)
        ensures
            exists|results: Seq<Result<EmotesMap, ProviderError>>|
                merged@ == #[trigger] merged_emotes(results) && answers_of(
                    providers@,
                    Some(channel_id@),
                    results,
                ),
    {
        get_all_provider_emotes(providers, Some(channel_id))
    }

    /// Merges what the providers answered, in the order in which the answers
    /// are given, into one catalog. Failures are passed over: where every
    /// provider failed the catalog is empty.
    pub fn merge_provider_emotes(
        results: Vec<Result<EmotesMap, ProviderError>>,
    ) -> (merged: EmotesMap)
        ensures
            merged@ == merged_emotes(results@),
    {
        let ghost all = results@;
        let mut merged = EmotesMap::new();
        assert(all.take(0) =~= Seq::<Result<EmotesMap, ProviderError>>::empty());
        for result in it: results
            invariant
                it.seq() == all,
                merged@ == merged_emotes(all.take(it.index())),
        {
            proof {
                let next = all.take(it.index() + 1);
                assert(next.drop_last() =~= all.take(it.index()));
                assert(next.last() == result);
            }
            match result {
                Ok(provider_emotes) => {
                    merged.extend(provider_emotes);
                },
                Err(_) => {},
            }
        }
        assert(all.take(all.len() as int) =~= all);
        merged
    }

    /// Returns the HTML of `message` as [`Self::replace_message_emotes`] gives
    /// it, with the emotes that the message brings laid over the channel's
    /// catalog for this one message. `saved` is left as it is.
    pub fn transcode(
        saved: &SavedEmotes,
        emotes: &Vec<TwitchEmote>,
        message: &str,
    ) -> (html: String)
        ensures
            html@ == message_html(saved@.with_message_emotes(message_emotes(emotes@)), message@),
    {
        let message_emotes = Self::parse_twitch_message_emotes(emotes);
        render_message(saved, &message_emotes, message)
    }

    /// Returns the HTML of `message`, with an image for each word that is the
    /// name of an emote in `emotes_map`. The text is not escaped.
    pub fn replace_message_emotes(emotes_map: &SavedEmotes, message: &str) -> (html: String)
        ensures
            html@ == message_html(emotes_map@, message@),
    {
        let none = EmotesMap::new();
        proof {
            let laid = emotes_map@.with_message_emotes(none@);
            assert(laid.channel =~= emotes_map@.channel);
            assert(laid == emotes_map@);
        }
        render_message(emotes_map, &none, message)
    }
}

/// The image of `name` where the emotes of `message_emotes` are laid over
/// those of the channel: that of `message_emotes` where it has the name, else
/// what the catalogs give.
fn find_laid_over<'a>(
    emotes_map: &'a SavedEmotes,
    message_emotes: &'a EmotesMap,
    name: &str,
) -> (url: Option<&'a String>)
    ensures
        match url {
            Some(u) => emotes_map@.with_message_emotes(message_emotes@).lookup(name@) == Some(u@),
            None => emotes_map@.with_message_emotes(message_emotes@).lookup(name@) is None,
        },
{
    match message_emotes.get(name) {
        Some(emote_url) => Some(emote_url),
        None => emotes_map.find_emote(name),
    }
}

/// The HTML of `message` with the catalogs of `emotes_map`, the emotes of
/// `message_emotes` laid over those of the channel. Neither is copied: a
/// word is looked up in `message_emotes` first.
fn render_message(
    emotes_map: &SavedEmotes,
    message_emotes: &EmotesMap,
    message: &str,
) -> (html: String)
    ensures
        html@ == message_html(emotes_map@.with_message_emotes(message_emotes@), message@),
{
    let words = split_words(message);
    let ghost catalogs = emotes_map@.with_message_emotes(message_emotes@);
    let ghost all = views_of(words@);
    let mut html_str = String::new();
    let mut last: Option<MessageTag> = None;
    let n = words.len();
    let mut i: usize = 0;
    assert(all.take(0) =~= Seq::<Seq<char>>::empty());
    while i < n
        invariant
            i <= n,
            n == words@.len(),
            all == views_of(words@),
            catalogs == emotes_map@.with_message_emotes(message_emotes@),
            html_str@ == words_html(catalogs, all.take(i as int)),
            last == last_tag(catalogs, all.take(i as int)),
        decreases n - i,
    {
        let word = words[i].as_str();
        let ghost before = html_str@;
        proof {
            let done = all.take(i as int);
            let next = all.take(i + 1);
            assert(next.drop_last() =~= done);
            assert(next.last() == word@);
        }
        match find_laid_over(emotes_map, message_emotes, word) {
            Some(emote_url) => {
                match last {
                    None => {},
                    Some(MessageTag::PlainText) => {
                        html_str.append(" </span>");
                    },
                    Some(MessageTag::Emote) => {
                        html_str.append("<span> </span>");
                    },
                }
                html_str.append("<div class=\"d-inline\"><img src=\"");
                html_str.append(emote_url.as_str());
                html_str.append("\" alt=\"");
                html_str.append(word);
                html_str.append("\" /></div>");
                assert(html_str@ =~= before + word_html(last, word@, Some(emote_url@)));
                last = Some(MessageTag::Emote);
            },
            None => {
                match last {
                    None => {
                        html_str.append("<span>");
                    },
                    Some(MessageTag::Emote) => {
                        html_str.append("<span> ");
                    },
                    Some(MessageTag::PlainText) => {
                        html_str.append(" ");
                    },
                }
                html_str.append(word);
                assert(html_str@ =~= before + word_html(last, word@, None));
                last = Some(MessageTag::PlainText);
            },
        }
        i += 1;
    }
    assert(all.take(n as int) =~= all);
    match last {
        Some(MessageTag::PlainText) => {
            html_str.append("</span>");
        },
        _ => {},
    }
    html_str
}

/// The HTML of words of which none is the name of an emote is one text run.
proof fn lemma_text_words_html(catalogs: Catalogs, words: Seq<Seq<char>>)
    requires
        words.len() > 0,
        forall|i: int| 0 <= i < words.len() ==> catalogs.lookup(#[trigger] words[i]) is None,
    ensures
        words_html(catalogs, words) == "<span>"@ + joined(words),
    decreases words.len(),
{
    let front = words.drop_last();
    if words.len() == 1 {
        assert(words_html(catalogs, front) =~= Seq::<char>::empty());
        assert(words.last() == words[0]);
        assert(words_html(catalogs, words) =~= "<span>"@ + joined(words));
    } else {
        assert forall|i: int| 0 <= i < front.len() implies catalogs.lookup(
            #[trigger] front[i],
        ) is None by {
            assert(front[i] == words[i]);
        }
        lemma_text_words_html(catalogs, front);
        assert(front.last() == words[words.len() - 2]);
        assert(words_html(catalogs, words) =~= "<span>"@ + joined(words));
    }
}

/// A message of which no word is the name of an emote becomes exactly one
/// text run, which holds its words with one space between each two. A
/// message without a word becomes nothing.
pub proof fn lemma_text_only_is_one_run(catalogs: Catalogs, message: Seq<char>)
    requires
        forall|i: int|
            0 <= i < words_of(message).len() ==> catalogs.lookup(
                #[trigger] words_of(message)[i],
            ) is None,
    ensures
        message_html(catalogs, message) == if words_of(message).len() == 0 {
            Seq::<char>::empty()
        } else {
            "<span>"@ + joined(words_of(message)) + "</span>"@
        },
{
    let words = words_of(message);
    if words.len() > 0 {
        lemma_text_words_html(catalogs, words);
        assert(catalogs.lookup(words[words.len() - 1]) is None);
    } else {
        assert(message_html(catalogs, message) =~= Seq::<char>::empty());
    }
}

/// A message that holds nothing but its words, with one space between each
/// two, and of which no word is the name of an emote, comes back as it is
/// inside one text run.
pub proof fn lemma_plain_text_is_wrapped(catalogs: Catalogs, message: Seq<char>)
    requires
        words_of(message).len() > 0,
        joined(words_of(message)) == message,
        forall|i: int|
            0 <= i < words_of(message).len() ==> catalogs.lookup(
                #[trigger] words_of(message)[i],
            ) is None,
    ensures
        message_html(catalogs, message) == "<span>"@ + message + "</span>"@,
{
    lemma_text_only_is_one_run(catalogs, message);
}

/// Words of which none is the name of an emote, written with one space
/// between each two, come back as they were written inside one text run.
pub proof fn lemma_joined_text_is_wrapped(catalogs: Catalogs, words: Seq<Seq<char>>)
    requires
        words.len() > 0,
        forall|i: int| 0 <= i < words.len() ==> is_word(#[trigger] words[i]),
        forall|i: int| 0 <= i < words.len() ==> catalogs.lookup(#[trigger] words[i]) is None,
    ensures
        message_html(catalogs, joined(words)) == "<span>"@ + joined(words) + "</span>"@,
{
    lemma_words_of_joined(words);
    lemma_plain_text_is_wrapped(catalogs, joined(words));
}

/// A message that is the name of an emote and nothing else becomes the image
/// of that emote in its wrapper, with no text run before or after it.
pub proof fn lemma_emote_alone_is_one_image(catalogs: Catalogs, name: Seq<char>, url: Seq<char>)
    requires
        is_word(name),
        catalogs.lookup(name) == Some(url),
    ensures
        message_html(catalogs, name) == emote_html(url, name),
{
    lemma_word_is_its_only_word(name);
    lemma_single_emote_is_one_image(catalogs, name, url);
}

/// A message whose only word is the name of an emote becomes the image of
/// that emote in its wrapper, with no text run before or after it.
pub proof fn lemma_single_emote_is_one_image(
    catalogs: Catalogs,
    message: Seq<char>,
    url: Seq<char>,
)
    requires
        words_of(message).len() == 1,
        catalogs.lookup(words_of(message)[0]) == Some(url),
    ensures
        message_html(catalogs, message) == emote_html(url, words_of(message)[0]),
{
    let words = words_of(message);
    assert(words.drop_last() =~= Seq::<Seq<char>>::empty());
    assert(words.last() == words[0]);
    assert(words_html(catalogs, words.drop_last()) =~= Seq::<char>::empty());
    assert(message_html(catalogs, message) =~= emote_html(url, words[0]));
}

/// The emotes that a message brings change the HTML of that message only:
/// they are laid over the channel's catalog, they hide its image where both
/// have a code, and the global catalog is asked last.
pub proof fn lemma_message_emotes_take_precedence(
    catalogs: Catalogs,
    emotes: Map<Seq<char>, Seq<char>>,
    name: Seq<char>,
)
    ensures
        catalogs.with_message_emotes(emotes).lookup(name) == if emotes.contains_key(name) {
            Some(emotes[name])
        } else {
            catalogs.lookup(name)
        },
{
}

/// A provider that failed changes nothing: the merged catalog is that of the
/// other providers alone.
pub proof fn lemma_failed_provider_adds_nothing(
    results: Seq<Result<EmotesMap, ProviderError>>,
    failed: int,
)
    requires
        0 <= failed < results.len(),
        results[failed] is Err,
    ensures
        merged_emotes(results) == merged_emotes(results.remove(failed)),
    decreases results.len(),
{
    let others = results.remove(failed);
    if failed == results.len() - 1 {
        assert(others =~= results.drop_last());
    } else {
        lemma_failed_provider_adds_nothing(results.drop_last(), failed);
        assert(others.drop_last() =~= results.drop_last().remove(failed));
        assert(others.last() == results.last());
    }
}

/// The merged catalog has a name exactly when a provider that answered has
/// it.
pub proof fn lemma_merged_names(results: Seq<Result<EmotesMap, ProviderError>>, name: Seq<char>)
    ensures
        merged_emotes(results).contains_key(name) <==> exists|i: int|
            0 <= i < results.len() && (#[trigger] results[i]) is Ok
                && results[i]->Ok_0@.contains_key(name),
    decreases results.len(),
{
    if results.len() > 0 {
        let front = results.drop_last();
        lemma_merged_names(front, name);
        if merged_emotes(results).contains_key(name) {
            if merged_emotes(front).contains_key(name) {
                let i = choose|i: int|
                    0 <= i < front.len() && (#[trigger] front[i]) is Ok
                        && front[i]->Ok_0@.contains_key(name);
                assert(results[i] == front[i]);
            } else {
                assert(results[results.len() - 1] is Ok);
            }
        }
        if exists|i: int|
            0 <= i < results.len() && (#[trigger] results[i]) is Ok
                && results[i]->Ok_0@.contains_key(name) {
            let i = choose|i: int|
                0 <= i < results.len() && (#[trigger] results[i]) is Ok
                    && results[i]->Ok_0@.contains_key(name);
            if i < results.len() - 1 {
                assert(front[i] == results[i]);
            }
        }
    }
}

/// Providers that can only fail give answers that merge to the empty
/// catalog.
pub proof fn lemma_failing_providers_give_nothing(
    providers: Seq<Box<dyn EmoteProvider>>,
    channel_id: Option<Seq<char>>,
    results: Seq<Result<EmotesMap, ProviderError>>,
)
    requires
        answers_of(providers, channel_id, results),
        forall|j: int, answer: Result<EmotesMap, ProviderError>|
            0 <= j < providers.len() && channel_id is Some && #[trigger] providers[j].gives_channel(
                channel_id->Some_0,
                answer,
            ) ==> answer is Err,
        forall|j: int, answer: Result<EmotesMap, ProviderError>|
            0 <= j < providers.len() && channel_id is None && #[trigger] providers[j].gives_global(
                answer,
            ) ==> answer is Err,
    ensures
        merged_emotes(results) == Map::<Seq<char>, Seq<char>>::empty(),
{
    assert forall|j: int| 0 <= j < results.len() implies (#[trigger] results[j]) is Err by {
        match channel_id {
            Some(id) => {
                assert(providers[j].gives_channel(id, results[j]));
            },
            None => {
                assert(providers[j].gives_global(results[j]));
            },
        }
    }
    lemma_all_failed_is_empty(results);
}

/// Where every provider failed, the merged catalog is empty.
pub proof fn lemma_all_failed_is_empty(results: Seq<Result<EmotesMap, ProviderError>>)
    requires
        forall|i: int| 0 <= i < results.len() ==> (#[trigger] results[i]) is Err,
    ensures
        merged_emotes(results) == Map::<Seq<char>, Seq<char>>::empty(),
    decreases results.len(),
{
    if results.len() > 0 {
        assert forall|i: int| 0 <= i < results.drop_last().len() implies (
        #[trigger] results.drop_last()[i]) is Err by {
            assert(results.drop_last()[i] == results[i]);
        }
        lemma_all_failed_is_empty(results.drop_last());
        assert(results[results.len() - 1] is Err);
    }
}

} // verus!
