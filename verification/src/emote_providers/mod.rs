//! The emote providers: where each is asked, and how its answer becomes a
//! catalog.

use vstd::prelude::*;
use crate::services::emotes_service::ProviderError;
use crate::state::emotes_map::EmotesMap;

pub mod better_ttv_emote_provider;
pub mod ffz_emote_provider;
pub mod seven_tv_emote_provider;

verus! {

/// A source of emotes. A provider may fail at any time, and what it gives
/// may change from one call to the next: each provider says for itself, in
/// `gives_global` and `gives_channel`, which answers it can give. A provider
/// that says nothing can give any answer.
pub trait EmoteProvider {
    /// Whether `answer` is one that the provider can give when it is asked
    /// for the emotes that hold in every channel.
    open spec fn gives_global(&self, answer: Result<EmotesMap, ProviderError>) -> bool {
        true
    }

    /// Whether `answer` is one that the provider can give when it is asked
    /// for the emotes of the channel of the user `twitch_user_id`.
    open spec fn gives_channel(
        &self,
        twitch_user_id: Seq<char>,
        answer: Result<EmotesMap, ProviderError>,
    ) -> bool {
        true
    }

    /// The name of the provider, for messages to the operator.
    fn get_name(&self) -> &'static str;

    /// The emotes that hold in every channel.
    fn get_global_emotes(&self) -> (answer: Result<EmotesMap, ProviderError>)
        ensures
            self.gives_global(answer),
    ;

    /// The emotes of the channel of the user `twitch_user_id`.
    fn get_channel_emotes(&self, twitch_user_id: &str) -> (answer: Result<
        EmotesMap,
        ProviderError,
    >)
        ensures
            self.gives_channel(twitch_user_id@, answer),
    ;
}

} // verus!
