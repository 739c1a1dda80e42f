use gigachat::services::message_words::{is_space, split_words};
use gigachat::services::EmotesService;
use gigachat::services::emotes_service::TwitchEmote;
use gigachat::state::emotes_map::EmotesMap;
use gigachat::state::saved_emotes_state::SavedEmotes;

fn get_emotes_map() -> EmotesMap {
    let mut emotes_map = EmotesMap::new();
    emotes_map.insert("Kappa".to_string(), "_kappa_url_".to_string());
    emotes_map.insert("Pog".to_string(), "_pog_url_".to_string());

    emotes_map
}

fn get_saved_emotes() -> SavedEmotes {
    SavedEmotes {
        global_emotes: get_emotes_map(),
        channel_emotes: EmotesMap::new(),
    }
}

#[test]
fn test_replace_message_emotes_plain_text_with_emote_after() {
    let message = "hello there Kappa";
    let emotes_map = get_saved_emotes();

    let result = EmotesService::replace_message_emotes(&emotes_map, message);

    assert_eq!(
        result,
        "<span>hello there </span><div class=\"d-inline\"><img src=\"_kappa_url_\" alt=\"Kappa\" /></div>"
    );
}

#[test]
fn test_replace_message_emotes_emote_only() {
    let emotes_map = get_saved_emotes();

    let message = "Kappa";

    let result = EmotesService::replace_message_emotes(&emotes_map, message);

    assert_eq!(
        result,
        "<div class=\"d-inline\"><img src=\"_kappa_url_\" alt=\"Kappa\" /></div>"
    );
}

#[test]
fn test_replace_message_emotes_plain_text_with_emote_before() {
    let emotes_map = get_saved_emotes();

    let message = "Kappa hello there";

    let result = EmotesService::replace_message_emotes(&emotes_map, message);

    assert_eq!(
        result,
        "<div class=\"d-inline\"><img src=\"_kappa_url_\" alt=\"Kappa\" /></div><span> hello there</span>"
    );
}

#[test]
fn test_replace_message_emotes_multiple_emotes() {
    let emotes_map = get_saved_emotes();

    let message = "Kappa Pog";

    let result = EmotesService::replace_message_emotes(&emotes_map, message);

    assert_eq!(
        result,
        "<div class=\"d-inline\"><img src=\"_kappa_url_\" alt=\"Kappa\" /></div><span> </span><div class=\"d-inline\"><img src=\"_pog_url_\" alt=\"Pog\" /></div>"
    );
}

#[test]
fn text_without_emotes_is_one_run() {
    let result = EmotesService::replace_message_emotes(&get_saved_emotes(), "hello there friend");

    assert_eq!(result, "<span>hello there friend</span>");
}

#[test]
fn emote_names_are_case_sensitive() {
    let result = EmotesService::replace_message_emotes(&get_saved_emotes(), "kappa KAPPA");

    assert_eq!(result, "<span>kappa KAPPA</span>");
}

#[test]
fn emote_inside_a_longer_word_is_text() {
    let result = EmotesService::replace_message_emotes(&get_saved_emotes(), "Kappa! xKappa");

    assert_eq!(result, "<span>Kappa! xKappa</span>");
}

#[test]
fn empty_message_gives_nothing() {
    assert_eq!(EmotesService::replace_message_emotes(&get_saved_emotes(), ""), "");
    assert_eq!(EmotesService::replace_message_emotes(&get_saved_emotes(), "  \t \n"), "");
}

#[test]
fn white_space_collapses_to_one_space() {
    let result =
        EmotesService::replace_message_emotes(&get_saved_emotes(), "  hello \t  there\n");

    assert_eq!(result, "<span>hello there</span>");
}

#[test]
fn text_between_emotes_gets_a_run_of_its_own() {
    let result = EmotesService::replace_message_emotes(&get_saved_emotes(), "Kappa vs Pog ok");

    assert_eq!(
        result,
        "<div class=\"d-inline\"><img src=\"_kappa_url_\" alt=\"Kappa\" /></div><span> vs </span><div class=\"d-inline\"><img src=\"_pog_url_\" alt=\"Pog\" /></div><span> ok</span>"
    );
}

#[test]
fn text_is_not_escaped() {
    let result = EmotesService::replace_message_emotes(&get_saved_emotes(), "<b>hi</b> & bye");

    assert_eq!(result, "<span><b>hi</b> & bye</span>");
}

#[test]
fn channel_emote_overrides_global_emote() {
    let mut channel = EmotesMap::new();
    channel.insert("Kappa".to_string(), "_channel_kappa_".to_string());
    let saved = SavedEmotes::new(get_emotes_map(), channel);

    assert_eq!(saved.find_emote("Kappa"), Some(&"_channel_kappa_".to_string()));
    assert_eq!(saved.find_emote("Pog"), Some(&"_pog_url_".to_string()));
    assert_eq!(saved.find_emote("Nope"), None);
    assert_eq!(
        EmotesService::replace_message_emotes(&saved, "Kappa"),
        "<div class=\"d-inline\"><img src=\"_channel_kappa_\" alt=\"Kappa\" /></div>"
    );
}

#[test]
fn channel_only_emote_is_found() {
    let mut channel = EmotesMap::new();
    channel.insert("peepo".to_string(), "_peepo_".to_string());
    let saved = SavedEmotes::new(EmotesMap::new(), channel);

    assert_eq!(
        EmotesService::replace_message_emotes(&saved, "hi peepo"),
        "<span>hi </span><div class=\"d-inline\"><img src=\"_peepo_\" alt=\"peepo\" /></div>"
    );
}

#[test]
fn split_words_agrees_with_std_on_every_white_space_character() {
    let message = "a\u{9}b\u{a}c\u{b}d\u{c}e\u{d}f g\u{85}h\u{a0}i\u{1680}j\u{2000}k\u{2001}l\u{2002}m\u{2003}n\u{2004}o\u{2005}p\u{2006}q\u{2007}r\u{2008}s\u{2009}t\u{200a}u\u{2028}v\u{2029}w\u{202f}x\u{205f}y\u{3000}z\u{200b}\u{feff}\u{180e}end";
    let expected: Vec<String> = message.split_whitespace().map(|w| w.to_string()).collect();

    assert_eq!(split_words(message), expected);
    assert_eq!(expected.len(), 26);
}

#[test]
fn is_space_agrees_with_std_on_every_character() {
    let mut code: u32 = 0;
    while code <= 0x10ffff {
        if let Some(c) = char::from_u32(code) {
            assert_eq!(is_space(c), c.is_whitespace(), "U+{:04X}", code);
        }
        code += 1;
    }
}

#[test]
fn split_words_handles_characters_of_several_bytes() {
    assert_eq!(
        split_words(" héllo  wörld\u{3000}日本語 "),
        vec!["héllo".to_string(), "wörld".to_string(), "日本語".to_string()]
    );
    assert_eq!(split_words(""), Vec::<String>::new());
    assert_eq!(split_words("one"), vec!["one".to_string()]);
}

#[test]
fn parse_twitch_message_emotes_builds_the_image_address() {
    let emotes = vec![
        TwitchEmote { id: "25".to_string(), code: "Kappa".to_string() },
        TwitchEmote { id: "emotesv2_abc".to_string(), code: "LUL".to_string() },
        TwitchEmote { id: "26".to_string(), code: "Kappa".to_string() },
    ];

    let parsed = EmotesService::parse_twitch_message_emotes(&emotes);

    assert_eq!(
        parsed.get("Kappa"),
        Some(&"https://static-cdn.jtvnw.net/emoticons/v2/26/default/dark/1.0".to_string())
    );
    assert_eq!(
        parsed.get("LUL"),
        Some(&"https://static-cdn.jtvnw.net/emoticons/v2/emotesv2_abc/default/dark/1.0".to_string())
    );
    assert_eq!(parsed.get("25"), None);
}

#[test]
fn transcode_lays_message_emotes_over_the_channel_for_one_message() {
    let mut channel = EmotesMap::new();
    channel.insert("LUL".to_string(), "_channel_lul_".to_string());
    let saved = SavedEmotes::new(get_emotes_map(), channel);
    let emotes = vec![TwitchEmote { id: "425618".to_string(), code: "LUL".to_string() }];

    let with_inline = EmotesService::transcode(&saved, &emotes, "LUL Kappa");
    assert_eq!(
        with_inline,
        "<div class=\"d-inline\"><img src=\"https://static-cdn.jtvnw.net/emoticons/v2/425618/default/dark/1.0\" alt=\"LUL\" /></div><span> </span><div class=\"d-inline\"><img src=\"_kappa_url_\" alt=\"Kappa\" /></div>"
    );

    let without = EmotesService::transcode(&saved, &Vec::new(), "LUL");
    assert_eq!(
        without,
        "<div class=\"d-inline\"><img src=\"_channel_lul_\" alt=\"LUL\" /></div>"
    );
    assert_eq!(saved.channel_emotes.get("LUL"), Some(&"_channel_lul_".to_string()));
}

#[test]
fn message_emote_that_matches_no_word_is_ignored() {
    let emotes = vec![TwitchEmote { id: "1".to_string(), code: ":)".to_string() }];

    let html = EmotesService::transcode(&SavedEmotes::default(), &emotes, "hello:) there");

    assert_eq!(html, "<span>hello:) there</span>");
}
