use xzibot::commands::quote::QuoteAddCommand;
use xzibot::commands::quote::QuoteCommand;
use xzibot::commands::skandite::SkanditeCommand;
use xzibot::commands::skandite::SkanditeOutcome;
use xzibot::db::connerie::Connerie;
use xzibot::db::quote::Quote;
use xzibot::db::rss::RssFeedEntry;
use xzibot::db::skandite::Skandite;
use xzibot::db::ContentStore;

#[test]
fn first_sighting_creates_one_record_with_count_one() {
    let mut store = ContentStore::new();
    let detector = SkanditeCommand::new(7);
    let outcome = detector
        .handle(&mut store, "look at https://example.com/article?utm_source=x", "alice")
        .unwrap();
    assert!(matches!(outcome, SkanditeOutcome::New));
    assert_eq!(store.skandites.len(), 1);
    assert_eq!(store.skandites[0].count, 1);
    assert_eq!(store.skandites[0].author, "alice");
    assert_eq!(store.skandites[0].url, "https://example.com/article");
}

#[test]
fn second_sighting_by_different_author_increments_and_replies() {
    let mut store = ContentStore::new();
    let detector = SkanditeCommand::new(7);
    detector
        .handle(&mut store, "https://example.com/article", "alice")
        .unwrap();
    let outcome = detector
        .handle(&mut store, "see https://example.com/article?utm_medium=mail", "bob")
        .unwrap();
    match outcome {
        SkanditeOutcome::Repost { url, author, posted_date, count } => {
            assert_eq!(url, "https://example.com/article");
            assert_eq!(author, "alice");
            assert_eq!(count, 2);
            let reply = xzibot::commands::skandite::format_repost_reply(
                &url,
                &author,
                posted_date,
                posted_date + 90,
                count,
            );
            assert!(!reply.is_empty());
            assert!(reply.contains("alice"));
            assert!(reply.contains('2'));
            assert!(reply.contains("https://example.com/article"));
            assert!(reply.contains("il y a 1 minute(s)"));
        }
        other => panic!("expected a repost, got {:?}", outcome_name(&other)),
    }
    assert_eq!(store.skandites.len(), 1);
    assert_eq!(store.skandites[0].count, 2);
}

fn outcome_name(o: &SkanditeOutcome) -> &'static str {
    match o {
        SkanditeOutcome::NoLink => "NoLink",
        SkanditeOutcome::New => "New",
        SkanditeOutcome::SameAuthor => "SameAuthor",
        SkanditeOutcome::Ignored => "Ignored",
        SkanditeOutcome::Repost { .. } => "Repost",
    }
}

#[test]
fn second_sighting_by_same_author_changes_nothing() {
    let mut store = ContentStore::new();
    let detector = SkanditeCommand::new(7);
    detector
        .handle(&mut store, "https://example.com/article", "alice")
        .unwrap();
    let outcome = detector
        .handle(&mut store, "again https://example.com/article", "alice")
        .unwrap();
    assert!(matches!(outcome, SkanditeOutcome::SameAuthor));
    assert_eq!(store.skandites.len(), 1);
    assert_eq!(store.skandites[0].count, 1);
}

#[test]
fn ignored_domain_changes_nothing() {
    let mut store = ContentStore::new();
    let detector = SkanditeCommand::new(7);
    detector
        .handle(&mut store, "https://tenor.com/view/funny", "alice")
        .unwrap();
    let outcome = detector
        .handle(&mut store, "https://tenor.com/view/funny", "bob")
        .unwrap();
    assert!(matches!(outcome, SkanditeOutcome::Ignored));
    assert_eq!(store.skandites[0].count, 1);
}

#[test]
fn message_without_link_does_nothing() {
    let mut store = ContentStore::new();
    let detector = SkanditeCommand::new(7);
    let outcome = detector.handle(&mut store, "no link here", "alice").unwrap();
    assert!(matches!(outcome, SkanditeOutcome::NoLink));
    assert_eq!(store.skandites.len(), 0);
}

#[test]
fn find_by_url_and_increment() {
    let mut store = ContentStore::new();
    Skandite::insert(&mut store, "https://example.com/a", "alice", 1000);
    assert!(Skandite::find_by_url(&store, "https://example.com/a").is_some());
    assert!(Skandite::find_by_url(&store, "https://example.com/b").is_none());
    let rec = Skandite::find_by_url(&store, "https://example.com/a").unwrap();
    assert_eq!(rec.posted_date, 1000);
    Skandite::increment(&mut store, rec.id);
    assert_eq!(store.skandites[0].count, 2);
    // Unknown identities are a silent no-op.
    Skandite::increment(&mut store, 42);
    assert_eq!(store.skandites[0].count, 2);
}

#[test]
fn ledger_numbers_are_sequential_from_one() {
    let mut store = ContentStore::new();
    let n1 = Quote::save(&mut store, "first");
    let n2 = Quote::save(&mut store, "second");
    let n3 = Quote::save(&mut store, "third");
    assert_eq!((n1, n2, n3), (1, 2, 3));
    assert_eq!(store.quotes[0].number, 1);
    assert_eq!(store.quotes[1].number, 2);
    assert_eq!(store.quotes[2].number, 3);
}

#[test]
fn quote_commands_round_trip() {
    let mut store = ContentStore::new();
    let add = QuoteAddCommand;
    let reply = add.handle(&mut store, "bob", "hello there");
    assert_eq!(reply, "Quote 1 ajoutée : <bob> hello there");
    let cmd = QuoteCommand;
    assert_eq!(cmd.trigger_get(&store, "1"), "1. <bob> hello there");
    assert_eq!(cmd.trigger_get(&store, "999"), "Pas de résultat!");
    assert_eq!(cmd.trigger_get(&store, "abc"), "Identifiant invalide");
    assert_eq!(cmd.trigger_get(&store, ""), "Identifiant invalide");
    assert_eq!(
        cmd.trigger_count(&store),
        "Il y a 1 citations dans la base de données."
    );
    assert_eq!(cmd.trigger_random(&store), "1. <bob> hello there");
}

#[test]
fn quote_find_lists_matching_numbers_in_order() {
    let mut store = ContentStore::new();
    Quote::save(&mut store, "the quick brown fox");
    Quote::save(&mut store, "lazy dog sleeping");
    Quote::save(&mut store, "quick thinking wins");
    let cmd = QuoteCommand;
    assert_eq!(
        cmd.trigger_find(&store, "quick"),
        "Quotes correspondants à la recherche : 1, 3"
    );
    assert_eq!(cmd.trigger_find(&store, "absent"), "Pas de résultat.");
}

#[test]
fn quote_random_on_empty_ledger() {
    let store = ContentStore::new();
    let cmd = QuoteCommand;
    assert_eq!(cmd.trigger_random(&store), "Pas de résultat!");
    assert!(Quote::random(&store).is_none());
}

#[test]
fn random_over_empty_family_returns_none() {
    let store = ContentStore::new();
    assert!(Connerie::random(&store).is_none());
}

#[test]
fn random_sampling_covers_all_records_roughly_uniformly() {
    let mut store = ContentStore::new();
    Connerie::insert(&mut store, "a", "first saying");
    Connerie::insert(&mut store, "b", "second saying");
    Connerie::insert(&mut store, "c", "third saying");
    let mut seen = [0usize; 3];
    for _ in 0..600 {
        let v = Connerie::random(&store).unwrap();
        if v == "first saying" {
            seen[0] += 1;
        } else if v == "second saying" {
            seen[1] += 1;
        } else if v == "third saying" {
            seen[2] += 1;
        } else {
            panic!("unexpected value {}", v);
        }
    }
    // Expected 200 draws each; demand a loose lower bound only.
    assert!(seen[0] >= 120 && seen[1] >= 120 && seen[2] >= 120, "{:?}", seen);
}

#[test]
fn duplicate_one_liners_are_kept() {
    let mut store = ContentStore::new();
    Connerie::insert(&mut store, "a", "same words");
    Connerie::insert(&mut store, "b", "same words");
    assert_eq!(Connerie::count(&store), 2);
    assert_eq!(store.conneries[0].value, store.conneries[1].value);
}

#[test]
fn rss_entries_remembered_once() {
    let mut store = ContentStore::new();
    assert!(!RssFeedEntry::exists_by_guid(&store, "guid-1"));
    RssFeedEntry::save(&mut store, "guid-1");
    assert!(RssFeedEntry::exists_by_guid(&store, "guid-1"));
    assert!(!RssFeedEntry::exists_by_guid(&store, "guid-2"));
}
