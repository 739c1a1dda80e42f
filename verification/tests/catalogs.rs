use gigachat::services::emotes_service::ProviderError;
use gigachat::services::EmotesService;
use gigachat::state::current_channel_state::{update_current_channel_state, CurrentChannel};
use gigachat::state::emotes_map::EmotesMap;
use gigachat::state::saved_emotes_state::{
    reset_channel_emotes_state, update_channel_emotes_state, update_global_emotes_state,
    SavedEmotes,
};

fn catalog(pairs: &[(&str, &str)]) -> EmotesMap {
    let mut emotes = EmotesMap::new();
    for (name, url) in pairs {
        emotes.insert(name.to_string(), url.to_string());
    }
    emotes
}

#[test]
fn emotes_map_insert_replaces_the_image_of_a_name() {
    let mut emotes = catalog(&[("a", "1"), ("b", "2"), ("a", "3")]);

    assert_eq!(emotes.get("a"), Some(&"3".to_string()));
    assert_eq!(emotes.get("b"), Some(&"2".to_string()));
    assert_eq!(emotes.get("c"), None);
    assert!(emotes.contains_key("a"));
    assert!(!emotes.contains_key("A"));
    assert!(!emotes.is_empty());
    assert!(EmotesMap::new().is_empty());
    assert_eq!(emotes.len(), 2);

    emotes.insert("b".to_string(), "4".to_string());
    assert_eq!(emotes.get("b"), Some(&"4".to_string()));
    assert_eq!(emotes.get("a"), Some(&"3".to_string()));
    assert_eq!(emotes.len(), 2);
}

#[test]
fn emotes_map_extend_prefers_the_other_catalog() {
    let mut emotes = catalog(&[("a", "1"), ("b", "2")]);
    emotes.extend(catalog(&[("b", "20"), ("c", "30")]));

    assert_eq!(emotes.get("a"), Some(&"1".to_string()));
    assert_eq!(emotes.get("b"), Some(&"20".to_string()));
    assert_eq!(emotes.get("c"), Some(&"30".to_string()));
    assert_eq!(emotes.len(), 3);
}

#[test]
fn emotes_map_clone_is_independent() {
    let emotes = catalog(&[("a", "1")]);
    let mut copy = emotes.clone();
    copy.insert("a".to_string(), "2".to_string());

    assert_eq!(emotes.get("a"), Some(&"1".to_string()));
    assert_eq!(copy.get("a"), Some(&"2".to_string()));
}

#[test]
fn reset_then_snapshot_has_an_empty_channel_catalog() {
    let mut saved = SavedEmotes::new(catalog(&[("g", "1")]), catalog(&[("c", "2")]));

    reset_channel_emotes_state(&mut saved);
    let snapshot = saved.snapshot();

    assert!(snapshot.channel_emotes.is_empty());
    assert_eq!(snapshot.channel_emotes.get("c"), None);
    assert_eq!(snapshot.global_emotes.get("g"), Some(&"1".to_string()));
    assert_eq!(snapshot.find_emote("c"), None);
}

#[test]
fn snapshot_does_not_follow_later_updates() {
    let mut saved = SavedEmotes::default();
    let before = saved.snapshot();

    update_channel_emotes_state(&mut saved, catalog(&[("c", "2")]));
    update_global_emotes_state(&mut saved, catalog(&[("g", "1")]));

    assert!(before.channel_emotes.is_empty());
    assert!(before.global_emotes.is_empty());
    assert_eq!(saved.find_emote("c"), Some(&"2".to_string()));
    assert_eq!(saved.find_emote("g"), Some(&"1".to_string()));
}

#[test]
fn update_replaces_the_whole_catalog() {
    let mut saved = SavedEmotes::new(catalog(&[("g", "1")]), catalog(&[("old", "2")]));

    update_channel_emotes_state(&mut saved, catalog(&[("new", "3")]));
    assert_eq!(saved.channel_emotes.get("old"), None);
    assert_eq!(saved.channel_emotes.get("new"), Some(&"3".to_string()));
    assert_eq!(saved.global_emotes.get("g"), Some(&"1".to_string()));

    update_global_emotes_state(&mut saved, catalog(&[("h", "4")]));
    assert_eq!(saved.global_emotes.get("g"), None);
    assert_eq!(saved.global_emotes.get("h"), Some(&"4".to_string()));
    assert_eq!(saved.channel_emotes.get("new"), Some(&"3".to_string()));
}

#[test]
fn merge_passes_over_the_provider_that_failed() {
    let merged = EmotesService::merge_provider_emotes(vec![
        Ok(catalog(&[("a", "1"), ("b", "2")])),
        Err(ProviderError::Network),
        Ok(catalog(&[("c", "3")])),
    ]);
    let others = EmotesService::merge_provider_emotes(vec![
        Ok(catalog(&[("a", "1"), ("b", "2")])),
        Ok(catalog(&[("c", "3")])),
    ]);

    for name in ["a", "b", "c", "d"] {
        assert_eq!(merged.get(name), others.get(name));
    }
    assert_eq!(merged.get("a"), Some(&"1".to_string()));
    assert_eq!(merged.get("c"), Some(&"3".to_string()));
    assert_eq!(merged.len(), 3);
}

#[test]
fn merge_of_failures_is_empty() {
    let merged = EmotesService::merge_provider_emotes(vec![
        Err(ProviderError::Network),
        Err(ProviderError::MalformedResponse),
        Err(ProviderError::NotFound),
    ]);

    assert!(merged.is_empty());
    assert!(EmotesService::merge_provider_emotes(Vec::new()).is_empty());
}

#[test]
fn merge_lets_the_later_answer_win() {
    let merged = EmotesService::merge_provider_emotes(vec![
        Ok(catalog(&[("a", "first")])),
        Ok(catalog(&[("a", "second")])),
    ]);

    assert_eq!(merged.get("a"), Some(&"second".to_string()));
}

#[test]
fn current_channel_follows_updates() {
    let mut channel = CurrentChannel::default();
    assert!(!channel.is_joined());
    assert_eq!(channel.channel_login, None);

    update_current_channel_state(&mut channel, Some("42".to_string()), Some("forsen".to_string()));
    assert!(channel.is_joined());
    assert_eq!(channel.channel_id, Some("42".to_string()));
    assert_eq!(channel.channel_login, Some("forsen".to_string()));

    update_current_channel_state(&mut channel, None, None);
    assert!(!channel.is_joined());

    let made = CurrentChannel::new(Some("login".to_string()), Some("7".to_string()));
    assert_eq!(made.channel_login, Some("login".to_string()));
    assert_eq!(made.channel_id, Some("7".to_string()));
}

struct FixedProvider {
    name: &'static str,
    global: Option<Vec<(&'static str, &'static str)>>,
}

impl gigachat::emote_providers::EmoteProvider for FixedProvider {
    fn get_name(&self) -> &'static str {
        self.name
    }

    fn get_global_emotes(&self) -> Result<EmotesMap, ProviderError> {
        match &self.global {
            Some(pairs) => Ok(catalog(pairs)),
            None => Err(ProviderError::Network),
        }
    }

    fn get_channel_emotes(&self, twitch_user_id: &str) -> Result<EmotesMap, ProviderError> {
        if twitch_user_id == "42" {
            let mut emotes = EmotesMap::new();
            emotes.insert(self.name.to_string(), twitch_user_id.to_string());
            Ok(emotes)
        } else {
            Err(ProviderError::NotFound)
        }
    }
}

fn providers() -> Vec<Box<dyn gigachat::emote_providers::EmoteProvider>> {
    vec![
        Box::new(FixedProvider { name: "one", global: Some(vec![("a", "1"), ("b", "2")]) }),
        Box::new(FixedProvider { name: "two", global: None }),
        Box::new(FixedProvider { name: "three", global: Some(vec![("b", "20"), ("c", "30")]) }),
    ]
}

#[test]
fn global_emotes_of_providers_of_which_one_fails() {
    let merged = EmotesService::get_global_emotes(&providers());

    assert_eq!(merged.get("a"), Some(&"1".to_string()));
    assert_eq!(merged.get("b"), Some(&"20".to_string()));
    assert_eq!(merged.get("c"), Some(&"30".to_string()));
    assert_eq!(merged.len(), 3);
    assert_eq!(providers()[1].get_name(), "two");
}

#[test]
fn channel_emotes_hand_the_channel_to_each_provider() {
    let merged = EmotesService::get_channel_emotes(&providers(), "42");

    assert_eq!(merged.get("one"), Some(&"42".to_string()));
    assert_eq!(merged.get("two"), Some(&"42".to_string()));
    assert_eq!(merged.get("three"), Some(&"42".to_string()));
    assert_eq!(merged.len(), 3);

    assert!(EmotesService::get_channel_emotes(&providers(), "7").is_empty());
    assert!(EmotesService::get_global_emotes(&Vec::new()).is_empty());
}
