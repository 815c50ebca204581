use std::sync::Arc;

use xzibot::commands::blague::BlagueCommand;
use xzibot::commands::buzz::BuzzCommand;
use xzibot::commands::buzz::FeedEntry;
use xzibot::commands::connerie::ConnerieCommand;
use xzibot::commands::connerie::MessageEvent;
use xzibot::commands::eight_ball::EightBallCommand;
use xzibot::commands::episodes::build_episode_line;
use xzibot::commands::episodes::episode_code;
use xzibot::commands::episodes::find_previous_and_next_episodes;
use xzibot::commands::episodes::Episode;
use xzibot::commands::google::GoogleCommand;
use xzibot::commands::google_image::GoogleImageCommand;
use xzibot::commands::horoscope::sign_number;
use xzibot::commands::meme::pick_two_box_meme;
use xzibot::commands::meme::MemeCommand;
use xzibot::commands::meme::MemeTemplate;
use xzibot::commands::youtube::YoutubeCommand;
use xzibot::db::connerie::Connerie;
use xzibot::db::ContentStore;
use xzibot::search::matches_all_loose;
use xzibot::search::matches_all_strict;
use xzibot::utils::google::GoogleSearchItem;
use xzibot::utils::google::GoogleSearcher;

fn plain_message(content: &str) -> MessageEvent {
    MessageEvent {
        content: content.to_string(),
        author: "alice".to_string(),
        mentions_everyone: false,
        has_role_mentions: false,
        has_channel_mentions: false,
        has_user_mentions: false,
        mentions_me_flag: false,
    }
}

#[test]
fn tier_one_empty_tier_two_matches_for_inner_substring() {
    // "oba" occurs in "foobar" only without word boundaries: the strict
    // tier is empty, the loose tier is not.
    let tokens = vec!["oba".to_string()];
    assert!(!matches_all_strict("le foobar du jour", &tokens));
    assert!(matches_all_loose("le foobar du jour", &tokens));

    let mut store = ContentStore::new();
    Connerie::insert(&mut store, "a", "le foobar du jour");
    let found = Connerie::search(&store, &tokens);
    assert_eq!(found.unwrap(), "le foobar du jour");
}

#[test]
fn strict_tier_wins_when_it_matches() {
    let mut store = ContentStore::new();
    Connerie::insert(&mut store, "a", "le xfoox cache");
    Connerie::insert(&mut store, "b", "le foo libre");
    // "foo" matches the second strictly and the first only loosely: the
    // strict match must be chosen.
    let tokens = vec!["foo".to_string()];
    assert_eq!(Connerie::search(&store, &tokens).unwrap(), "le foo libre");
}

#[test]
fn search_is_case_folded() {
    let mut store = ContentStore::new();
    Connerie::insert(&mut store, "a", "hello FooBar world");
    let found = Connerie::search(&store, &vec!["fooBAR".to_string()]);
    assert_eq!(found.unwrap(), "hello FooBar world");
}

#[test]
fn search_with_no_match_returns_none() {
    let mut store = ContentStore::new();
    Connerie::insert(&mut store, "a", "nothing to see");
    assert!(Connerie::search(&store, &vec!["absent".to_string()]).is_none());
}

#[test]
fn rand_command_rejects_short_queries() {
    let store = ContentStore::new();
    let cmd = ConnerieCommand { bot_name: "xzibot".to_string() };
    assert_eq!(
        cmd.handle_rand(&store, "abc"),
        "Requête trop courte, minimum 4 caractères"
    );
    assert_eq!(cmd.handle_rand(&store, "abcd"), "Pas de résultat");
}

#[test]
fn qualifying_message_is_captured() {
    let mut store = ContentStore::new();
    let cmd = ConnerieCommand { bot_name: "xzibot".to_string() };
    cmd.handle(&mut store, &plain_message("a perfectly ordinary long sentence"));
    assert_eq!(store.conneries.len(), 1);
    assert_eq!(store.conneries[0].value, "a perfectly ordinary long sentence");
    assert_eq!(store.conneries[0].author.as_deref(), Some("alice"));
}

#[test]
fn message_with_url_or_emoji_or_mention_is_not_captured() {
    let mut store = ContentStore::new();
    let cmd = ConnerieCommand { bot_name: "xzibot".to_string() };
    cmd.handle(&mut store, &plain_message("look at http://example.com please"));
    cmd.handle(&mut store, &plain_message("what a day it has been 😀"));
    cmd.handle(&mut store, &plain_message("short"));
    let mut flagged = plain_message("a perfectly ordinary long sentence");
    flagged.has_user_mentions = true;
    cmd.handle(&mut store, &flagged);
    assert_eq!(store.conneries.len(), 0);
}

#[test]
fn addressed_bot_always_replies_when_store_holds_content() {
    let mut store = ContentStore::new();
    let cmd = ConnerieCommand { bot_name: "xzibot".to_string() };
    Connerie::insert(&mut store, "a", "a stored saying");
    let reply = cmd.handle(&mut store, &plain_message("hey XZIBOT how are you"));
    assert_eq!(reply.unwrap(), "a stored saying");
}

#[test]
fn emoji_detection_ignores_plain_text() {
    let cmd = ConnerieCommand { bot_name: "xzibot".to_string() };
    assert!(!cmd.should_trigger_save(&plain_message("nice one as always 🎉")));
    assert!(cmd.should_trigger_save(&plain_message("nice one as always indeed")));
}

#[test]
fn eight_ball_wraps_a_fixed_answer() {
    let cmd = EightBallCommand {};
    let reply = cmd.handle();
    assert!(reply.starts_with("🎱 "));
    assert!(reply.ends_with(" 🎱"));
    let inner = reply.trim_start_matches("🎱 ").trim_end_matches(" 🎱");
    let answers = [
        "Essaye plus tard",
        "Essaye encore",
        "Pas d'avis",
        "C'est ton destin",
        "Le sort en est jeté",
        "Une chance sur deux",
        "Repose ta question",
        "D'après moi oui",
        "C'est certain",
        "Oui absolument",
        "Tu peux compter dessus",
        "Sans aucun doute",
        "Très probable",
        "Oui",
        "C'est bien parti",
        "C'est non",
        "Peu probable",
        "Faut pas rêver",
        "N'y compte pas",
        "Impossible",
    ];
    assert!(answers.contains(&inner), "{}", inner);
}

#[test]
fn episodes_previous_and_next() {
    let episodes = vec![
        Episode { name: "one".to_string(), season: 1, number: 1, airstamp: Some(100) },
        Episode { name: "two".to_string(), season: 1, number: 2, airstamp: None },
        Episode { name: "three".to_string(), season: 1, number: 3, airstamp: Some(200) },
        Episode { name: "four".to_string(), season: 1, number: 4, airstamp: Some(300) },
    ];
    let (prev, next) = find_previous_and_next_episodes(&episodes, 250);
    assert_eq!(prev, Some(2));
    assert_eq!(next, Some(3));
    let (prev, next) = find_previous_and_next_episodes(&episodes, 50);
    assert_eq!(prev, None);
    assert_eq!(next, Some(0));
    let (prev, next) = find_previous_and_next_episodes(&episodes, 1000);
    assert_eq!(prev, Some(3));
    assert_eq!(next, None);
}

#[test]
fn episode_lines_are_padded_and_annotated() {
    assert_eq!(episode_code(1, 2), "S01E02");
    assert_eq!(episode_code(12, 345), "S12E345");
    let ep = Episode { name: "pilot".to_string(), season: 1, number: 2, airstamp: None };
    assert_eq!(build_episode_line(&ep, None), "S01E02 - pilot (?)");
    assert_eq!(
        build_episode_line(&ep, Some(("2022-01-01 20:00".to_string(), "in a day".to_string()))),
        "S01E02 - pilot (2022-01-01 20:00, in a day)"
    );
}

#[test]
fn search_urls_are_form_encoded() {
    let searcher = Arc::new(GoogleSearcher {
        google_key: "k".to_string(),
        google_cse_id: "c&c".to_string(),
    });
    let cmd = GoogleCommand { google_searcher: searcher.clone() };
    assert_eq!(
        cmd.query_url("rust language"),
        "https://www.googleapis.com/customsearch/v1?key=k&cx=c%26c&q=rust+language"
    );
    let image = GoogleImageCommand { google_searcher: searcher.clone() };
    assert_eq!(
        image.query_url("cat"),
        "https://www.googleapis.com/customsearch/v1?key=k&cx=c%26c&q=cat&searchType=image"
    );
    let youtube = YoutubeCommand { google_searcher: searcher };
    assert_eq!(
        youtube.query_url("talk"),
        "https://www.googleapis.com/customsearch/v1?key=k&cx=c%26c&q=site%3Awww.youtube.com+talk"
    );
}

#[test]
fn result_formatting() {
    let item = GoogleSearchItem {
        title: "A Title".to_string(),
        link: "https://example.com".to_string(),
        snippet: Some("a snippet".to_string()),
    };
    assert_eq!(GoogleCommand::format_result(&item), "A Title - https://example.com");
    assert_eq!(GoogleImageCommand::format_result(&item), "https://example.com");
    assert_eq!(
        YoutubeCommand::format_result(&item),
        "A Title - https://example.com\na snippet"
    );
    let bare = GoogleSearchItem { snippet: None, ..item };
    assert_eq!(YoutubeCommand::format_result(&bare), "A Title - https://example.com");
}

#[test]
fn joke_formatting_and_auth_header() {
    let cmd = BlagueCommand { blagues_api_token: "tok".to_string() };
    assert_eq!(cmd.auth_header(), "Bearer tok");
    assert_eq!(BlagueCommand::format_joke("setup", &None), "setup");
    assert_eq!(
        BlagueCommand::format_joke("setup", &Some("punch".to_string())),
        "setup\npunch"
    );
}

#[test]
fn buzz_announces_first_fresh_entry_once() {
    let mut store = ContentStore::new();
    let cmd = BuzzCommand {};
    let entries = vec![
        FeedEntry {
            id: "g1".to_string(),
            title: Some("One".to_string()),
            link: Some("http://a".to_string()),
        },
        FeedEntry {
            id: "g2".to_string(),
            title: Some("Two".to_string()),
            link: Some("http://b".to_string()),
        },
    ];
    assert_eq!(cmd.handle(&mut store, &entries).unwrap(), "**EXCLU!** One - http://a");
    assert_eq!(cmd.handle(&mut store, &entries).unwrap(), "**EXCLU!** Two - http://b");
    assert_eq!(
        cmd.handle(&mut store, &entries).unwrap(),
        "Plus d'exclus pour le moment :("
    );
}

#[test]
fn buzz_stays_silent_on_incomplete_entry() {
    let mut store = ContentStore::new();
    let cmd = BuzzCommand {};
    let entries = vec![FeedEntry { id: "g1".to_string(), title: None, link: None }];
    assert!(cmd.handle(&mut store, &entries).is_none());
    // The incomplete entry is not remembered either.
    assert!(!xzibot::db::rss::RssFeedEntry::exists_by_guid(&store, "g1"));
}

#[test]
fn meme_text_is_transliterated_to_ascii() {
    let mut store = ContentStore::new();
    Connerie::insert(&mut store, "a", "héllo wörld élite");
    let cmd = MemeCommand {
        imgflip_username: "u".to_string(),
        imgflip_password: "p".to_string(),
    };
    assert_eq!(cmd.get_meme_text(&store, None).unwrap(), "hello world elite");
    assert_eq!(
        cmd.get_meme_text(&store, Some("wörld")).unwrap(),
        "hello world elite"
    );
    let empty = ContentStore::new();
    assert!(cmd.get_meme_text(&empty, None).is_none());
}

#[test]
fn meme_template_choice_needs_two_boxes() {
    let none = vec![MemeTemplate { id: "a".to_string(), box_count: 3 }];
    assert!(pick_two_box_meme(&none).is_none());
    let some = vec![
        MemeTemplate { id: "a".to_string(), box_count: 3 },
        MemeTemplate { id: "b".to_string(), box_count: 2 },
    ];
    assert_eq!(pick_two_box_meme(&some), Some(1));
}

#[test]
fn horoscope_sign_lookup() {
    assert_eq!(sign_number("Lion").unwrap(), "5");
    assert_eq!(sign_number("Poissons").unwrap(), "12");
    assert!(sign_number("Ophiuchus").is_none());
}
