use gigachat::emote_providers::better_ttv_emote_provider::{
    map_betterttv_emotes, BetterTtvEmote, BetterTtvEmoteProvider, BetterTtvUserResponse,
};
use gigachat::emote_providers::ffz_emote_provider::{
    filter_hidden_emotes, FfzEmote, FfzEmoteProvider, FfzEmoteSet, FfzEmotesSetResponse,
    FfzRoomResponse,
};
use gigachat::emote_providers::seven_tv_emote_provider::{
    map_seventv_emotes, seventv_emotes_have_urls, try_map_seventv_emotes, SevenTvEmote,
    SevenTvEmoteProvider,
};
use gigachat::services::emotes_service::ProviderError;
use gigachat::state::emotes_map::EmotesMap;

fn bttv(id: &str, code: &str) -> BetterTtvEmote {
    BetterTtvEmote {
        id: id.to_string(),
        code: code.to_string(),
        image_type: "png".to_string(),
        animated: false,
    }
}

fn ffz(name: &str, hidden: bool, urls: &[(&str, &str)]) -> FfzEmote {
    let mut sizes = EmotesMap::new();
    for (size, url) in urls {
        sizes.insert(size.to_string(), url.to_string());
    }
    FfzEmote {
        id: 1,
        name: name.to_string(),
        width: 28,
        height: 28,
        public: true,
        hidden,
        modifier: false,
        urls: sizes,
    }
}

fn ffz_set(id: i64, emoticons: Vec<FfzEmote>) -> FfzEmoteSet {
    FfzEmoteSet { id, _type: 0, title: "set".to_string(), emoticons }
}

fn seventv(name: &str, urls: &[&[&str]]) -> SevenTvEmote {
    SevenTvEmote {
        id: "id".to_string(),
        name: name.to_string(),
        urls: urls.iter().map(|u| u.iter().map(|s| s.to_string()).collect()).collect(),
    }
}

#[test]
fn betterttv_emotes_get_the_address_of_the_small_image() {
    let catalog = map_betterttv_emotes(vec![bttv("abc", "monkaS"), bttv("def", "pepeD")]);

    assert_eq!(
        catalog.get("monkaS"),
        Some(&"https://cdn.betterttv.net/emote/abc/1x.webp".to_string())
    );
    assert_eq!(
        catalog.get("pepeD"),
        Some(&"https://cdn.betterttv.net/emote/def/1x.webp".to_string())
    );
    assert_eq!(catalog.len(), 2);
    assert!(map_betterttv_emotes(Vec::new()).is_empty());
}

#[test]
fn betterttv_later_emote_of_a_code_wins() {
    let catalog = map_betterttv_emotes(vec![bttv("1", "x"), bttv("2", "x")]);

    assert_eq!(catalog.get("x"), Some(&"https://cdn.betterttv.net/emote/2/1x.webp".to_string()));
}

#[test]
fn betterttv_channel_emotes_lie_over_shared_emotes() {
    let provider = BetterTtvEmoteProvider::new();
    let response = BetterTtvUserResponse {
        id: "u".to_string(),
        bots: Vec::new(),
        avatar: "a".to_string(),
        channel_emotes: vec![bttv("c1", "both"), bttv("c2", "own")],
        shared_emotes: vec![bttv("s1", "both"), bttv("s2", "shared")],
    };

    let catalog = provider.channel_emotes_from(response);

    assert_eq!(catalog.get("both"), Some(&"https://cdn.betterttv.net/emote/c1/1x.webp".to_string()));
    assert_eq!(catalog.get("own"), Some(&"https://cdn.betterttv.net/emote/c2/1x.webp".to_string()));
    assert_eq!(
        catalog.get("shared"),
        Some(&"https://cdn.betterttv.net/emote/s2/1x.webp".to_string())
    );
    assert_eq!(
        provider.global_emotes_from(vec![bttv("g", "G")]).get("G"),
        Some(&"https://cdn.betterttv.net/emote/g/1x.webp".to_string())
    );
}

#[test]
fn provider_names_and_addresses() {
    let bttv = BetterTtvEmoteProvider::default();
    assert_eq!(bttv.get_name(), "BetterTTV");
    assert_eq!(bttv.global_emotes_url(), "https://api.betterttv.net/3/cached/emotes/global");
    assert_eq!(
        bttv.channel_emotes_url("123"),
        "https://api.betterttv.net/3/cached/users/twitch/123"
    );

    let seventv = SevenTvEmoteProvider::default();
    assert_eq!(seventv.get_name(), "7tv");
    assert_eq!(seventv.global_emotes_url(), "https://api.7tv.app/v2/emotes/global");
    assert_eq!(seventv.channel_emotes_url("123"), "https://api.7tv.app/v2/users/123/emotes");

    let ffz = FfzEmoteProvider::default();
    assert_eq!(ffz.get_name(), "FFZ");
    assert_eq!(ffz.global_emotes_url(), "https://api.frankerfacez.com/v1/set/global");
    assert_eq!(ffz.channel_emotes_url("123"), "https://api.frankerfacez.com/v1/room/id/123");
}

#[test]
fn ffz_filter_drops_hidden_emotes_and_keeps_the_order() {
    let visible = filter_hidden_emotes(vec![
        ffz("a", false, &[]),
        ffz("b", true, &[]),
        ffz("c", false, &[]),
        ffz("d", true, &[]),
    ]);

    let names: Vec<&str> = visible.iter().map(|e| e.name.as_str()).collect();
    assert_eq!(names, vec!["a", "c"]);
    assert!(filter_hidden_emotes(Vec::new()).is_empty());
}

#[test]
fn ffz_global_takes_the_default_sets_only() {
    let response = FfzEmotesSetResponse {
        default_sets: vec![3, 9, 4],
        sets: vec![
            ffz_set(4, vec![ffz("four", false, &[("1", "u4"), ("2", "u4x2")])]),
            ffz_set(5, vec![ffz("five", false, &[("1", "u5")])]),
            ffz_set(
                3,
                vec![
                    ffz("three", false, &[("1", "u3")]),
                    ffz("secret", true, &[("1", "us")]),
                    ffz("large", false, &[("2", "ul")]),
                    ffz("four", false, &[("1", "from3")]),
                ],
            ),
        ],
    };

    let catalog = FfzEmoteProvider::new().global_emotes_from(&response);

    assert_eq!(catalog.get("three"), Some(&"u3".to_string()));
    assert_eq!(catalog.get("four"), Some(&"u4".to_string()));
    assert_eq!(catalog.get("five"), None);
    assert_eq!(catalog.get("secret"), None);
    assert_eq!(catalog.get("large"), None);
    assert_eq!(catalog.len(), 2);
}

#[test]
fn ffz_channel_takes_every_set() {
    let response = FfzRoomResponse {
        sets: vec![
            ffz_set(1, vec![ffz("a", false, &[("1", "ua")]), ffz("h", true, &[("1", "uh")])]),
            ffz_set(2, vec![ffz("b", false, &[("1", "ub")]), ffz("a", false, &[("1", "ua2")])]),
        ],
    };

    let catalog = FfzEmoteProvider::new().channel_emotes_from(&response);

    assert_eq!(catalog.get("a"), Some(&"ua2".to_string()));
    assert_eq!(catalog.get("b"), Some(&"ub".to_string()));
    assert_eq!(catalog.get("h"), None);
    assert!(FfzEmoteProvider::new().channel_emotes_from(&FfzRoomResponse { sets: Vec::new() }).is_empty());
}

#[test]
fn seventv_emotes_get_the_second_string_of_the_first_list() {
    let emotes = vec![
        seventv("EZ", &[&["1", "https://cdn.7tv.app/emote/ez/1x"], &["2", "https://cdn.7tv.app/emote/ez/2x"]]),
        seventv("Clap", &[&["1", "https://cdn.7tv.app/emote/clap/1x", "extra"]]),
    ];
    assert!(seventv_emotes_have_urls(&emotes));

    let catalog = map_seventv_emotes(emotes);

    assert_eq!(catalog.get("EZ"), Some(&"https://cdn.7tv.app/emote/ez/1x".to_string()));
    assert_eq!(catalog.get("Clap"), Some(&"https://cdn.7tv.app/emote/clap/1x".to_string()));
    assert_eq!(catalog.len(), 2);
}

#[test]
fn seventv_emote_without_an_address_is_told_apart() {
    assert!(!seventv_emotes_have_urls(&vec![seventv("none", &[])]));
    assert!(!seventv_emotes_have_urls(&vec![
        seventv("fine", &[&["1", "u"]]),
        seventv("short", &[&["1"]]),
    ]));
    assert!(seventv_emotes_have_urls(&Vec::new()));
}

#[test]
fn seventv_checked_mapping_gives_the_catalog_of_a_well_formed_answer() {
    let catalog = try_map_seventv_emotes(vec![
        seventv("EZ", &[&["1", "https://cdn.7tv.app/emote/ez/1x"]]),
        seventv("Clap", &[&["1", "https://cdn.7tv.app/emote/clap/1x"]]),
        seventv("EZ", &[&["1", "https://cdn.7tv.app/emote/ez2/1x"]]),
    ])
    .expect("every emote has its address");

    assert_eq!(catalog.get("EZ"), Some(&"https://cdn.7tv.app/emote/ez2/1x".to_string()));
    assert_eq!(catalog.get("Clap"), Some(&"https://cdn.7tv.app/emote/clap/1x".to_string()));
    assert_eq!(catalog.len(), 2);
    assert!(try_map_seventv_emotes(Vec::new()).expect("nothing is missing").is_empty());
}

#[test]
fn seventv_checked_mapping_refuses_an_emote_without_an_address() {
    let no_list = try_map_seventv_emotes(vec![
        seventv("fine", &[&["1", "u"]]),
        seventv("none", &[]),
    ]);
    assert!(matches!(no_list, Err(ProviderError::MalformedResponse)));

    let short_list = try_map_seventv_emotes(vec![seventv("short", &[&["1"]])]);
    assert!(matches!(short_list, Err(ProviderError::MalformedResponse)));
}
