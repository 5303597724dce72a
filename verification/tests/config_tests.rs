use populatrs::config::{
    get_publisher_type_name, validate_config, AppConfig, ConfigError, FeedConfig, FeedTypeConfig,
    PublisherConfig, TokenOwner,
};
use populatrs::feed::{Feed, FeedCacheMetadata};
use populatrs::registry::FeedManager;
use populatrs::storage::{FeedCacheStorage, StorageManager};
use populatrs::time::Timestamp;

fn feed(id: &str, publishers: &[&str], enabled: bool) -> FeedConfig {
    FeedConfig {
        id: id.to_string(),
        feed_type: "Rss".to_string(),
        config: FeedTypeConfig::Rss { url: format!("https://example.com/{}.xml", id) },
        name: format!("Feed {}", id),
        enabled,
        publishers: publishers.iter().map(|p| p.to_string()).collect(),
        check_interval_minutes: None,
        max_retries: None,
        retry_delay_seconds: None,
    }
}

fn mastodon() -> PublisherConfig {
    PublisherConfig::Mastodon {
        server_url: "https://m.example".to_string(),
        access_token: "t".to_string(),
        template: None,
    }
}

fn x(access: Option<&str>) -> PublisherConfig {
    PublisherConfig::X {
        client_id: "cid".to_string(),
        client_secret: "secret".to_string(),
        access_token: access.map(|a| a.to_string()),
        refresh_token: Some("r".to_string()),
        redirect_uri: None,
        template: None,
    }
}

fn linkedin() -> PublisherConfig {
    PublisherConfig::LinkedIn {
        client_id: "cid".to_string(),
        client_secret: "secret".to_string(),
        access_token: None,
        refresh_token: None,
        user_id: None,
        redirect_uri: None,
        template: None,
    }
}

fn config(feeds: Vec<FeedConfig>, publishers: Vec<(&str, PublisherConfig)>) -> AppConfig {
    let mut config = AppConfig::default();
    config.feeds = feeds;
    config.publishers = publishers.into_iter().map(|(id, p)| (id.to_string(), p)).collect();
    config
}

#[test]
fn the_default_configuration() {
    let config = AppConfig::default();
    assert!(config.feeds.is_empty());
    assert!(config.publishers.is_empty());
    assert!(config.youtube.is_none());
    assert_eq!(config.schedule.default_interval_minutes, 60);
    assert_eq!(config.schedule.timezone, "UTC");
    assert_eq!(config.storage.data_dir, "./data");
    assert_eq!(config.storage.published_posts_file, "published_posts.json");
}

#[test]
fn a_configuration_needs_feeds_and_publishers() {
    assert!(matches!(validate_config(&AppConfig::default()), Err(ConfigError::NoFeeds)));
    assert!(matches!(
        validate_config(&config(vec![], vec![("m", mastodon())])),
        Err(ConfigError::NoFeeds)
    ));
    assert!(matches!(
        validate_config(&config(vec![feed("a", &[], true)], vec![])),
        Err(ConfigError::NoPublishers)
    ));
    assert!(validate_config(&config(vec![feed("a", &[], true)], vec![("m", mastodon())])).is_ok());
    assert!(validate_config(&config(
        vec![feed("a", &["m", "t"], true), feed("b", &["t"], false)],
        vec![("m", mastodon()), ("t", x(None))]
    ))
    .is_ok());
}

#[test]
fn the_first_dangling_reference_is_reported() {
    let broken = config(
        vec![feed("a", &["m"], true), feed("b", &["m", "ghost", "spook"], true), feed("c", &["phantom"], true)],
        vec![("m", mastodon())],
    );
    match validate_config(&broken) {
        Err(ConfigError::UnknownPublisher { feed_id, publisher_id }) => {
            assert_eq!(feed_id, "b");
            assert_eq!(publisher_id, "ghost");
        }
        other => panic!("unexpected {:?}", other),
    }
    assert!(broken.knows_publisher("m"));
    assert!(!broken.knows_publisher("ghost"));
}

#[test]
fn kinds_have_display_names() {
    assert_eq!(get_publisher_type_name(&mastodon()), "Mastodon");
    assert_eq!(get_publisher_type_name(&x(None)), "X/Twitter");
    assert_eq!(get_publisher_type_name(&linkedin()), "LinkedIn");
    assert_eq!(
        get_publisher_type_name(&PublisherConfig::Discord { webhook_url: String::new(), template: None }),
        "Discord"
    );
    assert_eq!(
        get_publisher_type_name(&PublisherConfig::Threads {
            access_token: String::new(),
            user_id: String::new(),
            template: None
        }),
        "Threads"
    );
}

#[test]
fn new_tokens_go_to_their_owner() {
    let mut config = config(
        vec![feed("a", &["tw"], true)],
        vec![("tw", x(Some("old"))), ("li", linkedin()), ("m", mastodon())],
    );
    config.store_tokens("tw", TokenOwner::X, "new".to_string(), None);
    match &config.publishers[0].1 {
        PublisherConfig::X { client_id, access_token, refresh_token, .. } => {
            assert_eq!(client_id, "cid");
            assert_eq!(access_token.as_deref(), Some("new"));
            assert!(refresh_token.is_none());
        }
        other => panic!("unexpected {:?}", other),
    }
    config.store_tokens("li", TokenOwner::LinkedIn, "a".to_string(), Some("r".to_string()));
    match &config.publishers[1].1 {
        PublisherConfig::LinkedIn { access_token, refresh_token, .. } => {
            assert_eq!(access_token.as_deref(), Some("a"));
            assert_eq!(refresh_token.as_deref(), Some("r"));
        }
        other => panic!("unexpected {:?}", other),
    }
    // the wrong owner, another kind, and an unknown id change nothing
    config.store_tokens("li", TokenOwner::X, "zzz".to_string(), None);
    config.store_tokens("m", TokenOwner::X, "zzz".to_string(), None);
    config.store_tokens("nobody", TokenOwner::X, "zzz".to_string(), None);
    assert_eq!(config.publishers.len(), 3);
    assert_eq!(config.publishers[0].0, "tw");
    assert_eq!(config.publishers[2].0, "m");
    assert!(matches!(&config.publishers[1].1, PublisherConfig::LinkedIn { access_token: Some(a), .. } if a == "a"));
    assert!(matches!(&config.publishers[2].1, PublisherConfig::Mastodon { access_token, .. } if access_token == "t"));
    assert_eq!(config.feeds.len(), 1);
}

#[test]
fn storage_knows_its_files() {
    let storage = StorageManager::new("./data".to_string(), "posts.json".to_string());
    assert_eq!(storage.data_dir(), "./data");
    assert_eq!(storage.published_posts_file(), "posts.json");
    assert_eq!(storage.feed_cache_file(), "feed_cache.json");
}

#[test]
fn the_cache_answers_with_the_last_entry() {
    let mut cache = FeedCacheStorage::default();
    assert!(cache.get("a").is_none());
    cache.insert("a".to_string(), FeedCacheMetadata { etag: Some("1".to_string()), last_modified: None, last_content_hash: None });
    cache.insert("b".to_string(), FeedCacheMetadata::default());
    cache.insert("a".to_string(), FeedCacheMetadata { etag: Some("2".to_string()), last_modified: None, last_content_hash: None });
    assert_eq!(cache.get("a").unwrap().etag.as_deref(), Some("2"));
    assert!(cache.get("b").unwrap().etag.is_none());
    assert!(cache.get("c").is_none());
}

#[test]
fn the_registry_keeps_feeds_in_order() {
    let mut registry = FeedManager::new();
    assert_eq!(registry.len(), 0);
    registry.add_feed(feed("a", &["m"], true), None);
    registry.add_feed(feed("b", &[], false), None);
    registry.add_feed(feed("c", &[], true), None);
    assert_eq!(registry.len(), 3);
    assert_eq!(registry.get_enabled_feeds_count(), 2);
    assert_eq!(
        registry.list_feeds(),
        vec![("a", "Feed a", true), ("b", "Feed b", false), ("c", "Feed c", true)]
    );
    assert_eq!(registry.get_feed("b").unwrap().config.name, "Feed b");
    assert!(registry.get_feed("z").is_none());
    assert_eq!(registry.find("c"), Some(2));
    assert_eq!(registry.feed_at(0).unwrap().config.id, "a");
    assert!(registry.feed_at(3).is_none());
    registry.load_feeds(vec![feed("x", &[], true)], None);
    assert_eq!(registry.list_feeds(), vec![("x", "Feed x", true)]);
}

#[test]
fn the_registry_restores_and_snapshots_the_cache() {
    let mut cache = FeedCacheStorage::default();
    cache.insert(
        "b".to_string(),
        FeedCacheMetadata {
            etag: Some("e".to_string()),
            last_modified: Some("m".to_string()),
            last_content_hash: Some("h".to_string()),
        },
    );
    let mut registry = FeedManager::new();
    registry.add_feed(feed("gone", &[], true), None);
    registry.load_feeds_with_cache(vec![feed("a", &[], true), feed("b", &[], true)], None, &cache);
    assert_eq!(registry.len(), 2);
    assert!(registry.get_feed("a").unwrap().cache_metadata.etag.is_none());
    let b: &Feed = registry.get_feed("b").unwrap();
    assert_eq!(b.cache_metadata.etag.as_deref(), Some("e"));
    assert_eq!(b.cache_metadata.last_content_hash.as_deref(), Some("h"));
    assert!(b.last_checked.is_none());

    registry.get_feed_mut("a").unwrap().cache_metadata.etag = Some("new".to_string());
    assert!(registry.get_feed_mut("nobody").is_none());
    let snapshot = registry.get_cache_metadata();
    assert_eq!(snapshot.get("a").unwrap().etag.as_deref(), Some("new"));
    assert_eq!(snapshot.get("b").unwrap().last_modified.as_deref(), Some("m"));
    assert!(snapshot.get("gone").is_none());
}

#[test]
fn a_sweep_visits_the_feeds_that_are_due() {
    let now = Timestamp::new(1_700_000_000, 0);
    let mut registry = FeedManager::new();
    registry.add_feed(feed("checked", &[], true), None);
    registry.add_feed(feed("off", &[], false), None);
    registry.add_feed(feed("new", &[], true), None);
    registry.add_feed(feed("stale", &[], true), None);
    registry.get_feed_mut("checked").unwrap().last_checked = Some(Timestamp::new(1_700_000_000 - 60, 0));
    registry.get_feed_mut("stale").unwrap().last_checked = Some(Timestamp::new(1_700_000_000 - 3600, 0));

    let mut visited = Vec::new();
    let mut from = 0;
    while let Some(at) = registry.next_due(from, 60, now) {
        visited.push(registry.feed_at(at).unwrap().config.id.clone());
        from = at + 1;
    }
    assert_eq!(visited, vec!["new", "stale"]);
    assert_eq!(registry.next_due(4, 60, now), None);
    assert_eq!(registry.next_due(usize::MAX, 60, now), None);
}

#[test]
fn backups_are_named_after_the_ledger() {
    let storage = StorageManager::new("./data".to_string(), "posts.json".to_string());
    assert_eq!(storage.backup_name("20240101_120000"), "posts.json.backup.20240101_120000");
    assert!(StorageManager::is_backup_name("posts.json.backup.20240101_120000"));
    assert!(!StorageManager::is_backup_name("posts.json"));
    assert!(!StorageManager::is_backup_name("posts.backup"));
}

#[test]
fn the_feeds_of_a_sweep() {
    let now = Timestamp::new(1_700_000_000, 0);
    let mut registry = FeedManager::new();
    registry.add_feed(feed("a", &[], true), None);
    registry.add_feed(feed("b", &[], false), None);
    registry.add_feed(feed("c", &[], true), None);
    registry.add_feed(feed("d", &[], true), None);
    registry.get_feed_mut("c").unwrap().last_checked = Some(Timestamp::new(1_700_000_000 - 10, 0));
    assert_eq!(registry.check_all_feeds(60, now), vec![0, 3]);
    assert_eq!(registry.check_all_feeds(0, now), vec![0, 2, 3]);
    assert!(FeedManager::new().check_all_feeds(0, now).is_empty());
}

#[test]
fn faults_of_the_configuration_are_worded() {
    assert_eq!(ConfigError::NoFeeds.describe(), "No feeds configured");
    assert_eq!(ConfigError::NoPublishers.describe(), "No publishers configured");
    assert_eq!(
        ConfigError::UnknownPublisher { feed_id: "blog".to_string(), publisher_id: "ghost".to_string() }.describe(),
        "Feed 'blog' references non-existent publisher 'ghost'"
    );
}

#[test]
fn feeds_with_one_id_are_told_apart_by_position() {
    let mut registry = FeedManager::new();
    registry.add_feed(feed("twin", &[], true), None);
    registry.add_feed(feed("twin", &[], true), None);
    registry.feed_at_mut(1).unwrap().last_checked = Some(Timestamp::new(7, 0));
    assert!(registry.feed_at(0).unwrap().last_checked.is_none());
    assert_eq!(registry.feed_at(1).unwrap().last_checked, Some(Timestamp::new(7, 0)));
    assert!(registry.feed_at_mut(2).is_none());
}
